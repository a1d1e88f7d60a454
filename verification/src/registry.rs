//! The symbol/FFI registry: a catalog mapping canonical export names to
//! foreign function signatures. Registration is an upsert keyed by the
//! canonical name; reads look a name up and hand the entry back.
//!
//! The registry itself never interprets the name conventions (dotted module
//! paths, monomorphized forms, colon-qualified imports): resolution is a plain
//! string lookup.

use vstd::prelude::*;

use crate::strutil::{clone_string, str_eq};

verus! {

/// The closed set of types that cross the foreign-function boundary.
/// `Unit` is valid only in result position, never as a parameter type.
#[derive(Debug, Clone, Copy, PartialEq, Eq, Structural)]
pub enum FfiType {
    Unit,
    Bool,
    I32,
    I64,
    F64,
    Str,
    Opaque,
}

/// Ordered parameter types plus a single result type.
#[derive(Debug, Clone)]
pub struct FfiSignature {
    pub params: Vec<FfiType>,
    pub result: FfiType,
}

impl FfiSignature {
    /// No parameter position holds `Unit`.
    pub open spec fn spec_valid(&self) -> bool {
        forall|i: int| 0 <= i < self.params@.len() ==> self.params@[i] != FfiType::Unit
    }

    pub fn new(params: Vec<FfiType>, result: FfiType) -> (s: Self)
        ensures
            s.params == params,
            s.result == result,
    {
        Self { params, result }
    }

    pub fn is_valid(&self) -> (r: bool)
        ensures
            r == self.spec_valid(),
    {
        let n = self.params.len();
        let mut i: usize = 0;
        while i < n
            invariant
                i <= n,
                n == self.params@.len(),
                forall|k: int| 0 <= k < i ==> self.params@[k] != FfiType::Unit,
            decreases n - i,
        {
            if self.params[i] == FfiType::Unit {
                return false;
            }
            i = i + 1;
        }
        true
    }
}

/// A foreign function: its canonical export name, the mangled linker symbol,
/// and its signature.
#[derive(Debug, Clone)]
pub struct FfiFunction {
    pub name: String,
    pub symbol: String,
    pub signature: FfiSignature,
}

/// Field-for-field agreement of two entries, compared by their views.
pub open spec fn ffi_eqv(a: FfiFunction, b: FfiFunction) -> bool {
    &&& a.name@ == b.name@
    &&& a.symbol@ == b.symbol@
    &&& a.signature.params@ == b.signature.params@
    &&& a.signature.result == b.signature.result
}

/// The first entry whose name reads `name`, if any.
pub open spec fn spec_find(entries: Seq<FfiFunction>, name: Seq<char>) -> Option<FfiFunction>
    decreases entries.len(),
{
    if entries.len() == 0 {
        None
    } else if entries[0].name@ == name {
        Some(entries[0])
    } else {
        spec_find(entries.drop_first(), name)
    }
}

/// The catalog. Names are unique; registering an existing name replaces its
/// entry.
#[derive(Debug)]
pub struct SymbolRegistry {
    entries: Vec<FfiFunction>,
}

impl SymbolRegistry {
    /// Names are pairwise distinct.
    pub closed spec fn wf(&self) -> bool {
        forall|i: int, j: int|
            0 <= i < j < self.entries@.len()
                ==> (#[trigger] self.entries@[i]).name@ != (#[trigger] self.entries@[j]).name@
    }

    pub closed spec fn spec_resolve(&self, name: Seq<char>) -> Option<FfiFunction> {
        spec_find(self.entries@, name)
    }

    pub open spec fn spec_contains(&self, name: Seq<char>) -> bool {
        self.spec_resolve(name) is Some
    }

    pub closed spec fn spec_len(&self) -> nat {
        self.entries@.len()
    }

    pub fn new() -> (r: Self)
        ensures
            r.wf(),
            r.spec_len() == 0,
            forall|name: Seq<char>| !r.spec_contains(name),
    {
        Self { entries: Vec::new() }
    }

    /// Upsert by canonical name: the entry is found again under its name and
    /// every other name resolves as before.
    pub fn register(&mut self, f: FfiFunction)
        requires
            old(self).wf(),
        ensures
            final(self).wf(),
            final(self).spec_resolve(f.name@) == Some(f),
            forall|name: Seq<char>|
                name != f.name@
                    ==> final(self).spec_resolve(name) == old(self).spec_resolve(name),
    {
        let n = self.entries.len();
        let mut i: usize = 0;
        while i < n
            invariant
                i <= n,
                n == self.entries@.len(),
                self.wf(),
                self.entries@ == old(self).entries@,
                forall|k: int| 0 <= k < i ==> (#[trigger] self.entries@[k]).name@ != f.name@,
            decreases n - i,
        {
            if str_eq(self.entries[i].name.as_str(), f.name.as_str()) {
                self.entries.set(i, f);
                proof {
                    lemma_find_update(old(self).entries@, self.entries@, i as int, f);
                }
                return;
            }
            i = i + 1;
        }
        self.entries.push(f);
        proof {
            lemma_find_push(old(self).entries@, f);
        }
    }

    /// Looks the canonical name up; a field-for-field copy of the entry comes
    /// back.
    pub fn resolve(&self, name: &str) -> (r: Option<FfiFunction>)
        ensures
            match r {
                Some(f) => self.spec_resolve(name@) matches Some(g) && ffi_eqv(f, g),
                None => self.spec_resolve(name@) is None,
            },
    {
        proof {
            assert(self.entries@.skip(0) =~= self.entries@);
        }
        let n = self.entries.len();
        let mut i: usize = 0;
        while i < n
            invariant
                i <= n,
                n == self.entries@.len(),
                forall|k: int| 0 <= k < i ==> (#[trigger] self.entries@[k]).name@ != name@,
                spec_find(self.entries@, name@) == spec_find(self.entries@.skip(i as int), name@),
            decreases n - i,
        {
            proof {
                assert(self.entries@.skip(i as int)[0] == self.entries@[i as int]);
                assert(self.entries@.skip(i as int).drop_first() =~= self.entries@.skip(i as int + 1));
            }
            if str_eq(self.entries[i].name.as_str(), name) {
                return Some(self.entries[i].clone_entry());
            }
            i = i + 1;
        }
        proof {
            assert(self.entries@.skip(n as int).len() == 0);
        }
        None
    }

    /// Whether the canonical name is registered.
    pub fn contains(&self, name: &str) -> (r: bool)
        ensures
            r == self.spec_contains(name@),
    {
        match self.resolve(name) {
            Some(_) => true,
            None => false,
        }
    }

    pub fn len(&self) -> (r: usize)
        ensures
            r == self.spec_len(),
    {
        self.entries.len()
    }
}

impl FfiFunction {
    /// A field-for-field copy.
    pub fn clone_entry(&self) -> (r: Self)
        ensures
            ffi_eqv(r, *self),
    {
        let mut params: Vec<FfiType> = Vec::new();
        let n = self.signature.params.len();
        let mut i: usize = 0;
        while i < n
            invariant
                i <= n,
                n == self.signature.params@.len(),
                params@ == self.signature.params@.subrange(0, i as int),
            decreases n - i,
        {
            params.push(self.signature.params[i]);
            i = i + 1;
            proof {
                assert(params@ =~= self.signature.params@.subrange(0, i as int));
            }
        }
        proof {
            assert(params@ =~= self.signature.params@);
        }
        FfiFunction {
            name: clone_string(&self.name),
            symbol: clone_string(&self.symbol),
            signature: FfiSignature { params, result: self.signature.result },
        }
    }
}

proof fn lemma_find_update(olds: Seq<FfiFunction>, news: Seq<FfiFunction>, at: int, f: FfiFunction)
    requires
        0 <= at < olds.len(),
        news == olds.update(at, f),
        olds[at].name@ == f.name@,
        forall|i: int, j: int|
            0 <= i < j < olds.len()
                ==> (#[trigger] olds[i]).name@ != (#[trigger] olds[j]).name@,
        forall|k: int| 0 <= k < at ==> (#[trigger] olds[k]).name@ != f.name@,
    ensures
        forall|i: int, j: int|
            0 <= i < j < news.len()
                ==> (#[trigger] news[i]).name@ != (#[trigger] news[j]).name@,
        spec_find(news, f.name@) == Some(f),
        forall|name: Seq<char>| name != f.name@ ==> spec_find(news, name) == spec_find(olds, name),
    decreases at,
{
    if at == 0 {
        assert(news[0] == f);
        assert(news.drop_first() =~= olds.drop_first());
        assert forall|name: Seq<char>| name != f.name@ implies
            spec_find(news, name) == spec_find(olds, name) by {
            assert(spec_find(news, name) == spec_find(news.drop_first(), name));
            assert(olds[0].name@ == f.name@);
            assert(spec_find(olds, name) == spec_find(olds.drop_first(), name));
        }
    } else {
        assert(news[0] == olds[0]);
        assert(news.drop_first() =~= olds.drop_first().update(at - 1, f));
        lemma_find_update(olds.drop_first(), news.drop_first(), at - 1, f);
        assert(olds[0].name@ != f.name@);
        assert(spec_find(news, f.name@) == spec_find(news.drop_first(), f.name@));
        assert forall|name: Seq<char>| name != f.name@ implies
            spec_find(news, name) == spec_find(olds, name) by {
            if olds[0].name@ == name {
                assert(spec_find(news, name) == Some(news[0]));
                assert(spec_find(olds, name) == Some(olds[0]));
            } else {
                assert(spec_find(news, name) == spec_find(news.drop_first(), name));
                assert(spec_find(olds, name) == spec_find(olds.drop_first(), name));
            }
        }
    }
}

proof fn lemma_find_push(olds: Seq<FfiFunction>, f: FfiFunction)
    requires
        forall|k: int| 0 <= k < olds.len() ==> (#[trigger] olds[k]).name@ != f.name@,
    ensures
        spec_find(olds.push(f), f.name@) == Some(f),
        forall|name: Seq<char>|
            name != f.name@ ==> spec_find(olds.push(f), name) == spec_find(olds, name),
    decreases olds.len(),
{
    if olds.len() == 0 {
        assert(olds.push(f)[0] == f);
        assert(olds.push(f).drop_first() =~= Seq::<FfiFunction>::empty());
        assert forall|name: Seq<char>| name != f.name@ implies
            spec_find(olds.push(f), name) == spec_find(olds, name) by {
            assert(spec_find(olds.push(f), name)
                == spec_find(olds.push(f).drop_first(), name));
        }
    } else {
        assert(olds.push(f)[0] == olds[0]);
        assert(olds.push(f).drop_first() =~= olds.drop_first().push(f));
        lemma_find_push(olds.drop_first(), f);
        assert(olds[0].name@ != f.name@);
        assert(spec_find(olds.push(f), f.name@)
            == spec_find(olds.drop_first().push(f), f.name@));
        assert forall|name: Seq<char>| name != f.name@ implies
            spec_find(olds.push(f), name) == spec_find(olds, name) by {
            if olds[0].name@ == name {
                assert(spec_find(olds.push(f), name) == Some(olds[0]));
                assert(spec_find(olds, name) == Some(olds[0]));
            } else {
                assert(spec_find(olds.push(f), name)
                    == spec_find(olds.drop_first().push(f), name));
                assert(spec_find(olds, name) == spec_find(olds.drop_first(), name));
            }
        }
    }
}

} // verus!
