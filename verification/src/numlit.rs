//! Numeric literal texts: underscores are stripped at literal-construction
//! time, and whether the text is integer- or float-shaped is read off the
//! cleaned text. The numeric value itself is materialized only at
//! code-generation time, outside this library.

use vstd::prelude::*;

use crate::strutil::push_char;

verus! {

/// The lexeme with every underscore removed, order kept.
pub open spec fn spec_strip_underscores(s: Seq<char>) -> Seq<char>
    decreases s.len(),
{
    if s.len() == 0 {
        Seq::empty()
    } else {
        spec_strip_underscores(s.drop_last())
            + (if s.last() == '_' { Seq::empty() } else { seq![s.last()] })
    }
}

pub fn strip_underscores(s: &str) -> (r: String)
    ensures
        r@ == spec_strip_underscores(s@),
{
    let n = s.unicode_len();
    let mut r = String::new();
    let mut i: usize = 0;
    proof {
        assert(s@.subrange(0, 0) =~= Seq::<char>::empty());
    }
    while i < n
        invariant
            i <= n,
            n == s@.len(),
            r@ == spec_strip_underscores(s@.subrange(0, i as int)),
        decreases n - i,
    {
        let c = s.get_char(i);
        proof {
            assert(s@.subrange(0, i as int + 1).drop_last() =~= s@.subrange(0, i as int));
            assert(s@.subrange(0, i as int + 1).last() == s@[i as int]);
        }
        if c != '_' {
            push_char(&mut r, c);
            proof {
                assert(r@ =~= spec_strip_underscores(s@.subrange(0, i as int + 1)));
            }
        }
        i = i + 1;
    }
    proof {
        assert(s@.subrange(0, n as int) =~= s@);
    }
    r
}

/// Whether the text holds a decimal point.
pub open spec fn spec_has_dot(s: Seq<char>) -> bool {
    exists|i: int| 0 <= i < s.len() && s[i] == '.'
}

pub fn has_dot(s: &str) -> (r: bool)
    ensures
        r == spec_has_dot(s@),
{
    let n = s.unicode_len();
    let mut i: usize = 0;
    while i < n
        invariant
            i <= n,
            n == s@.len(),
            forall|k: int| 0 <= k < i ==> s@[k] != '.',
        decreases n - i,
    {
        if s.get_char(i) == '.' {
            return true;
        }
        i = i + 1;
    }
    false
}

} // verus!
