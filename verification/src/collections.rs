//! Runtime collection and text contents: what the monomorphized range
//! constructor puts into the list it materializes, and the JSON validation
//! the runtime's `json.validate` entry answers. The handle tables that carry
//! values across the C ABI live with the embedding runtime; the contents and
//! answers are decided here.

use vstd::prelude::*;

verus! {

/// Whether the text from `p` on balances its brackets: strings (with
/// backslash escapes) are skipped, `{`/`[` open a group, `}`/`]` must close
/// the innermost open group, and at the end nothing may stay open. `stack`
/// holds the closers still owed, innermost last.
pub open spec fn spec_json_balanced_from(
    s: Seq<char>,
    p: int,
    stack: Seq<char>,
    in_string: bool,
    escape: bool,
) -> bool
    decreases s.len() - p when 0 <= p <= s.len()
{
    if p >= s.len() {
        stack.len() == 0 && !in_string
    } else {
        let c = s[p];
        if escape {
            spec_json_balanced_from(s, p + 1, stack, in_string, false)
        } else if c == '\\' {
            spec_json_balanced_from(s, p + 1, stack, in_string, true)
        } else if c == '"' {
            spec_json_balanced_from(s, p + 1, stack, !in_string, false)
        } else if !in_string {
            if c == '{' {
                spec_json_balanced_from(s, p + 1, stack.push('}'), in_string, false)
            } else if c == '[' {
                spec_json_balanced_from(s, p + 1, stack.push(']'), in_string, false)
            } else if c == '}' || c == ']' {
                stack.len() > 0 && stack.last() == c
                    && spec_json_balanced_from(s, p + 1, stack.drop_last(), in_string, false)
            } else {
                spec_json_balanced_from(s, p + 1, stack, in_string, false)
            }
        } else {
            spec_json_balanced_from(s, p + 1, stack, in_string, false)
        }
    }
}

/// The structural validity `json.validate` answers: balanced brackets
/// outside of strings and every string closed.
pub open spec fn spec_json_balanced(s: Seq<char>) -> bool {
    spec_json_balanced_from(s, 0, Seq::empty(), false, false)
}

/// Checks a text's JSON bracket structure.
pub fn json_validate_text(text: &str) -> (r: bool)
    ensures
        r == spec_json_balanced(text@),
{
    let chars = crate::strutil::chars_of(text);
    let n = chars.len();
    let mut stack: Vec<char> = Vec::new();
    let mut in_string = false;
    let mut escape = false;
    let mut i: usize = 0;
    proof {
        assert(stack@ =~= Seq::<char>::empty());
    }
    while i < n
        invariant
            i <= n,
            n == chars@.len(),
            chars@ == text@,
            spec_json_balanced(text@)
                == spec_json_balanced_from(chars@, i as int, stack@, in_string, escape),
        decreases n - i,
    {
        let c = chars[i];
        if escape {
            escape = false;
        } else if c == '\\' {
            escape = true;
        } else if c == '"' {
            in_string = !in_string;
        } else if !in_string {
            if c == '{' {
                stack.push('}');
            } else if c == '[' {
                stack.push(']');
            } else if c == '}' || c == ']' {
                let ghost olds = stack@;
                let top = stack.pop();
                match top {
                    Some(t) => {
                        if t != c {
                            return false;
                        }
                        proof {
                            assert(stack@ =~= olds.drop_last());
                        }
                    },
                    None => {
                        return false;
                    },
                }
            }
        }
        i = i + 1;
    }
    stack.len() == 0 && !in_string
}

/// The elements `range<int>` materializes: the integers from `start` up to
/// but not including `end`, ascending; an empty list when the range is
/// empty.
pub fn range_int_elements(start: i64, end: i64) -> (r: Vec<i64>)
    requires
        start < end ==> end - start <= usize::MAX,
    ensures
        start < end ==> r@.len() == end - start
            && forall|i: int| 0 <= i < r@.len() ==> r@[i] == start + i,
        start >= end ==> r@.len() == 0,
{
    let mut r: Vec<i64> = Vec::new();
    if start >= end {
        return r;
    }
    let mut v: i64 = start;
    while v < end
        invariant
            start <= v <= end,
            end - start <= usize::MAX,
            r@.len() == v - start,
            forall|i: int| 0 <= i < r@.len() ==> r@[i] == start + i,
        decreases end - v,
    {
        r.push(v);
        v = v + 1;
    }
    r
}

} // verus!
