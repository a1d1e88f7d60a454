//! Re-optimization scaffolding kept alongside the compiler: tier bookkeeping,
//! call-site type tracking for specialization, specialization keys, and the
//! least-recently-used eviction order of the function cache. The tiers
//! themselves are not live; the types and the tracking logic are.

use vstd::prelude::*;

use crate::codegen::CodegenOptLevel;
use crate::strutil::{clone_string, push_char, str_eq};

verus! {

/// Tiered compilation configuration.
#[derive(Debug, Clone, Copy, PartialEq, Eq, Structural)]
pub struct TieredConfig {
    pub enabled: bool,
    pub hot_threshold: u64,
    pub very_hot_threshold: u64,
}

impl Default for TieredConfig {
    fn default() -> (r: Self)
        ensures
            r.enabled,
            r.hot_threshold == 1000,
            r.very_hot_threshold == 10000,
    {
        Self { enabled: true, hot_threshold: 1000, very_hot_threshold: 10000 }
    }
}

/// Tiered compilation statistics.
#[derive(Debug, Clone, Copy, PartialEq, Eq, Structural, Default)]
pub struct TieredStats {
    pub functions_compiled: usize,
    pub tier1_count: usize,
    pub tier2_count: usize,
}

/// The compilation tier a function currently runs at.
#[derive(Debug, Clone, Copy, PartialEq, Eq, Structural)]
pub enum CompilationTier {
    Interpreter,
    Tier1,
    Tier2,
}

/// The tiered compiler shell; no tier is live, so its statistics stay empty.
#[derive(Debug)]
pub struct TieredCompiler {
    config: TieredConfig,
}

impl TieredCompiler {
    pub closed spec fn spec_config(&self) -> TieredConfig {
        self.config
    }

    /// Holds the default thresholds; no tier consults them yet.
    pub fn new(config: TieredConfig) -> (r: Self)
        ensures
            r.spec_config().enabled,
            r.spec_config().hot_threshold == 1000,
            r.spec_config().very_hot_threshold == 10000,
    {
        let _ = config;
        Self { config: TieredConfig::default() }
    }

    pub fn get_stats(&self) -> (r: TieredStats)
        ensures
            r.functions_compiled == 0,
            r.tier1_count == 0,
            r.tier2_count == 0,
    {
        TieredStats { functions_compiled: 0, tier1_count: 0, tier2_count: 0 }
    }
}

/// The compilation profiler shell.
#[derive(Debug)]
pub struct CompilationProfiler {}

impl CompilationProfiler {
    pub fn new() -> (r: Self) {
        Self {}
    }
}

/// Per-function metrics the profiler would gather.
#[derive(Debug, Clone, Copy, PartialEq, Eq, Structural, Default)]
pub struct FunctionMetrics {
    pub call_count: u64,
    pub total_time_ns: u64,
}

/// The memory profiler shell.
#[derive(Debug)]
pub struct MemoryProfiler {}

impl MemoryProfiler {
    pub fn new() -> (r: Self) {
        Self {}
    }
}

/// Inlining bounds chosen per optimization level.
#[derive(Debug, Clone, Copy, PartialEq, Eq, Structural)]
pub struct InlineConfig {
    pub max_inline_size: usize,
    pub max_depth: usize,
    pub inline_hot_only: bool,
}

/// The inliner the re-optimizer consults; only its bounds live here.
#[derive(Debug, Clone, Copy, PartialEq, Eq, Structural)]
pub struct Inliner {
    pub config: InlineConfig,
}

/// Re-optimizes hot functions: holds the chosen optimization level, the set
/// of hot function names, and the inliner bounds.
#[derive(Debug)]
pub struct Reoptimizer {
    opt_level: CodegenOptLevel,
    hot_functions: Vec<String>,
    inliner: Inliner,
}

/// The inlining bounds each optimization level picks.
pub open spec fn spec_inline_config(level: CodegenOptLevel) -> InlineConfig {
    match level {
        CodegenOptLevel::NoOpt => InlineConfig {
            max_inline_size: 24,
            max_depth: 1,
            inline_hot_only: true,
        },
        CodegenOptLevel::Balanced => InlineConfig {
            max_inline_size: 48,
            max_depth: 2,
            inline_hot_only: true,
        },
        CodegenOptLevel::Aggressive => InlineConfig {
            max_inline_size: 80,
            max_depth: 3,
            inline_hot_only: false,
        },
    }
}

impl Reoptimizer {
    pub closed spec fn spec_opt_level(&self) -> CodegenOptLevel {
        self.opt_level
    }

    pub closed spec fn spec_hot_functions(&self) -> Seq<String> {
        self.hot_functions@
    }

    pub closed spec fn spec_inliner(&self) -> Inliner {
        self.inliner
    }

    /// The default re-optimizer runs at the aggressive level.
    pub fn new() -> (r: Self)
        ensures
            r.spec_opt_level() == CodegenOptLevel::Aggressive,
            r.spec_hot_functions().len() == 0,
            r.spec_inliner().config == spec_inline_config(CodegenOptLevel::Aggressive),
    {
        Self::with_opt_level(CodegenOptLevel::Aggressive)
    }

    /// Picks the inlining bounds for the level.
    pub fn with_opt_level(opt_level: CodegenOptLevel) -> (r: Self)
        ensures
            r.spec_opt_level() == opt_level,
            r.spec_hot_functions().len() == 0,
            r.spec_inliner().config == spec_inline_config(opt_level),
    {
        let inline_config = match opt_level {
            CodegenOptLevel::NoOpt => InlineConfig {
                max_inline_size: 24,
                max_depth: 1,
                inline_hot_only: true,
            },
            CodegenOptLevel::Balanced => InlineConfig {
                max_inline_size: 48,
                max_depth: 2,
                inline_hot_only: true,
            },
            CodegenOptLevel::Aggressive => InlineConfig {
                max_inline_size: 80,
                max_depth: 3,
                inline_hot_only: false,
            },
        };
        Self { opt_level, hot_functions: Vec::new(), inliner: Inliner { config: inline_config } }
    }

    /// Takes the explicit set of hot functions discovered by the profiler.
    pub fn set_hot_functions(&mut self, hot: Vec<String>)
        ensures
            final(self).spec_hot_functions() == hot@,
            final(self).spec_opt_level() == old(self).spec_opt_level(),
            final(self).spec_inliner() == old(self).spec_inliner(),
    {
        self.hot_functions = hot;
    }

    pub fn inliner(&self) -> (r: &Inliner)
        ensures
            *r == self.spec_inliner(),
    {
        &self.inliner
    }
}

/// The runtime types a specialized call site distinguishes.
#[derive(Debug, Clone, Copy, PartialEq, Eq, Structural)]
pub enum RuntimeType {
    Unit,
    Bool,
    I32,
    I64,
    F64,
    Str,
    List,
    Dict,
    Opaque,
}

/// A runtime constant observed at a call site. Floating-point constants are
/// carried by their bit pattern; a numeric literal that was never
/// materialized keeps its cleaned text.
#[derive(Debug, Clone, PartialEq, Eq)]
pub enum RuntimeConstant {
    Bool(bool),
    I32(i32),
    I64(i64),
    F64Bits(u64),
    Str(String),
    NumberText(String),
}

/// Tracks the argument types seen at call sites, per function name.
pub struct TypeTracker {
    call_sites: Vec<(String, Vec<Vec<RuntimeType>>)>,
}

/// The first site list recorded under a name.
pub open spec fn spec_sites_find(
    entries: Seq<(String, Vec<Vec<RuntimeType>>)>,
    name: Seq<char>,
) -> Option<Vec<Vec<RuntimeType>>>
    decreases entries.len(),
{
    if entries.len() == 0 {
        None
    } else if entries[0].0@ == name {
        Some(entries[0].1)
    } else {
        spec_sites_find(entries.drop_first(), name)
    }
}

impl TypeTracker {
    pub closed spec fn spec_sites(&self, name: Seq<char>) -> Option<Vec<Vec<RuntimeType>>> {
        spec_sites_find(self.call_sites@, name)
    }

    pub closed spec fn wf(&self) -> bool {
        forall|i: int, j: int|
            0 <= i < j < self.call_sites@.len()
                ==> (#[trigger] self.call_sites@[i]).0@ != (#[trigger] self.call_sites@[j]).0@
    }

    pub fn new() -> (r: Self)
        ensures
            r.wf(),
            forall|name: Seq<char>| r.spec_sites(name) is None,
    {
        Self { call_sites: Vec::new() }
    }

    /// Records one call site's argument types under the function's name.
    pub fn record_call(&mut self, function_name: &str, arg_types: Vec<RuntimeType>)
        requires
            old(self).wf(),
        ensures
            final(self).wf(),
            final(self).spec_sites(function_name@) matches Some(sites)
                && match old(self).spec_sites(function_name@) {
                    Some(prior) => sites@ == prior@.push(arg_types),
                    None => sites@ == seq![arg_types],
                },
            forall|other: Seq<char>|
                other != function_name@
                    ==> final(self).spec_sites(other) == old(self).spec_sites(other),
    {
        let n = self.call_sites.len();
        let mut i: usize = 0;
        while i < n
            invariant
                i <= n,
                n == self.call_sites@.len(),
                self.wf(),
                self.call_sites@ == old(self).call_sites@,
                forall|k: int| 0 <= k < i
                    ==> (#[trigger] self.call_sites@[k]).0@ != function_name@,
            decreases n - i,
        {
            if str_eq(self.call_sites[i].0.as_str(), function_name) {
                let ghost olds = self.call_sites@;
                let mut entry = self.call_sites.remove(i);
                entry.1.push(arg_types);
                self.call_sites.insert(i, entry);
                proof {
                    assert(self.call_sites@ =~= olds.update(
                        i as int,
                        (olds[i as int].0, self.call_sites@[i as int].1),
                    ));
                    assert(self.call_sites@[i as int].1@ == olds[i as int].1@.push(arg_types));
                    lemma_sites_update(olds, self.call_sites@, i as int, function_name@);
                }
                return;
            }
            i = i + 1;
        }
        let mut sites: Vec<Vec<RuntimeType>> = Vec::new();
        sites.push(arg_types);
        self.call_sites.push((String::from_str(function_name), sites));
        proof {
            assert(forall|k: int| 0 <= k < old(self).call_sites@.len()
                ==> self.call_sites@[k] == old(self).call_sites@[k]);
            lemma_sites_push(old(self).call_sites@, self.call_sites@, function_name@);
            assert(self.call_sites@.last().1@ =~= seq![arg_types]);
        }
    }

    /// Every signature list recorded under the name, in recording order.
    pub fn get_signatures(&self, function_name: &str) -> (r: Option<&Vec<Vec<RuntimeType>>>)
        ensures
            match r {
                Some(sites) => self.spec_sites(function_name@) matches Some(s) && s@ == sites@,
                None => self.spec_sites(function_name@) is None,
            },
    {
        proof {
            assert(self.call_sites@.skip(0) =~= self.call_sites@);
        }
        let n = self.call_sites.len();
        let mut i: usize = 0;
        while i < n
            invariant
                i <= n,
                n == self.call_sites@.len(),
                spec_sites_find(self.call_sites@, function_name@)
                    == spec_sites_find(self.call_sites@.skip(i as int), function_name@),
            decreases n - i,
        {
            proof {
                assert(self.call_sites@.skip(i as int)[0] == self.call_sites@[i as int]);
                assert(self.call_sites@.skip(i as int).drop_first()
                    =~= self.call_sites@.skip(i as int + 1));
            }
            if str_eq(self.call_sites[i].0.as_str(), function_name) {
                return Some(&self.call_sites[i].1);
            }
            i = i + 1;
        }
        proof {
            assert(self.call_sites@.skip(n as int).len() == 0);
        }
        None
    }

    /// Whether the function was called with at least two differing
    /// signatures.
    pub fn is_polymorphic(&self, function_name: &str) -> (r: bool)
        ensures
            r == match self.spec_sites(function_name@) {
                Some(sites) => exists|i: int|
                    0 < i < sites@.len() && (#[trigger] sites@[i])@ != sites@[0]@,
                None => false,
            },
    {
        match self.get_signatures(function_name) {
            Some(sites) => {
                if sites.len() < 2 {
                    return false;
                }
                let n = sites.len();
                let mut i: usize = 1;
                while i < n
                    invariant
                        1 <= i <= n,
                        n == sites@.len(),
                        self.spec_sites(function_name@) matches Some(s) && s@ == sites@,
                        forall|k: int| 0 < k < i ==> (#[trigger] sites@[k])@ == sites@[0]@,
                    decreases n - i,
                {
                    if !signature_eq(&sites[i], &sites[0]) {
                        proof {
                            let sv = self.spec_sites(function_name@).unwrap();
                            assert(sv@ == sites@);
                            assert(sv@[i as int] == sites@[i as int]);
                            assert(sv@[0] == sites@[0]);
                            assert(0 < i < sv@.len() && (#[trigger] sv@[i as int])@ != sv@[0]@);
                        }
                        return true;
                    }
                    i = i + 1;
                }
                false
            },
            None => false,
        }
    }

    /// The most frequent signature recorded for the function: its count is
    /// no smaller than any other recorded signature's.
    pub fn get_common_signature(&self, function_name: &str) -> (r: Option<Vec<RuntimeType>>)
        ensures
            match r {
                Some(sig) => self.spec_sites(function_name@) matches Some(sites) && {
                    &&& sites@.len() > 0
                    &&& exists|i: int| 0 <= i < sites@.len() && (#[trigger] sites@[i])@ == sig@
                    &&& forall|j: int| 0 <= j < sites@.len()
                        ==> spec_sig_count(sites@, (#[trigger] sites@[j])@)
                            <= spec_sig_count(sites@, sig@)
                },
                None => match self.spec_sites(function_name@) {
                    Some(sites) => sites@.len() == 0,
                    None => true,
                },
            },
    {
        match self.get_signatures(function_name) {
            Some(sites) => {
                let n = sites.len();
                if n == 0 {
                    return None;
                }
                let mut best: usize = 0;
                let mut best_count = count_matching(sites, &sites[0]);
                let mut i: usize = 1;
                while i < n
                    invariant
                        1 <= i <= n,
                        n == sites@.len(),
                        best < n,
                        best_count == spec_sig_count(sites@, sites@[best as int]@),
                        forall|j: int| 0 <= j < i
                            ==> spec_sig_count(sites@, (#[trigger] sites@[j])@) <= best_count,
                    decreases n - i,
                {
                    let c = count_matching(sites, &sites[i]);
                    if c > best_count {
                        best = i;
                        best_count = c;
                    }
                    i = i + 1;
                }
                Some(clone_signature(&sites[best]))
            },
            None => None,
        }
    }
}

/// How often a signature occurs in a site list, compared by value.
pub open spec fn spec_sig_count(sites: Seq<Vec<RuntimeType>>, sig: Seq<RuntimeType>) -> int
    decreases sites.len(),
{
    if sites.len() == 0 {
        0
    } else {
        spec_sig_count(sites.drop_last(), sig) + (if sites.last()@ == sig { 1int } else { 0 })
    }
}

fn signature_eq(a: &Vec<RuntimeType>, b: &Vec<RuntimeType>) -> (r: bool)
    ensures
        r == (a@ == b@),
{
    if a.len() != b.len() {
        proof {
            assert(a@.len() != b@.len());
        }
        return false;
    }
    let n = a.len();
    let mut i: usize = 0;
    while i < n
        invariant
            i <= n,
            n == a@.len(),
            n == b@.len(),
            forall|k: int| 0 <= k < i ==> a@[k] == b@[k],
        decreases n - i,
    {
        if a[i] != b[i] {
            return false;
        }
        i = i + 1;
    }
    proof {
        assert(a@ =~= b@);
    }
    true
}

fn clone_signature(a: &Vec<RuntimeType>) -> (r: Vec<RuntimeType>)
    ensures
        r@ == a@,
{
    let mut r: Vec<RuntimeType> = Vec::new();
    let n = a.len();
    let mut i: usize = 0;
    while i < n
        invariant
            i <= n,
            n == a@.len(),
            r@ == a@.subrange(0, i as int),
        decreases n - i,
    {
        r.push(a[i]);
        i = i + 1;
        proof {
            assert(r@ =~= a@.subrange(0, i as int));
        }
    }
    proof {
        assert(r@ =~= a@);
    }
    r
}

fn count_matching(sites: &Vec<Vec<RuntimeType>>, sig: &Vec<RuntimeType>) -> (r: usize)
    ensures
        r == spec_sig_count(sites@, sig@),
{
    let n = sites.len();
    let mut count: usize = 0;
    let mut i: usize = 0;
    proof {
        assert(sites@.subrange(0, 0) =~= Seq::<Vec<RuntimeType>>::empty());
    }
    while i < n
        invariant
            i <= n,
            n == sites@.len(),
            count == spec_sig_count(sites@.subrange(0, i as int), sig@),
            count <= i,
        decreases n - i,
    {
        proof {
            assert(sites@.subrange(0, i as int + 1).drop_last() =~= sites@.subrange(0, i as int));
            assert(sites@.subrange(0, i as int + 1).last() == sites@[i as int]);
        }
        if signature_eq(&sites[i], sig) {
            count = count + 1;
        }
        i = i + 1;
    }
    proof {
        assert(sites@.subrange(0, n as int) =~= sites@);
    }
    count
}

proof fn lemma_sites_update(
    olds: Seq<(String, Vec<Vec<RuntimeType>>)>,
    news: Seq<(String, Vec<Vec<RuntimeType>>)>,
    at: int,
    name: Seq<char>,
)
    requires
        0 <= at < olds.len(),
        news == olds.update(at, (olds[at].0, news[at].1)),
        olds[at].0@ == name,
        forall|i: int, j: int|
            0 <= i < j < olds.len() ==> (#[trigger] olds[i]).0@ != (#[trigger] olds[j]).0@,
        forall|k: int| 0 <= k < at ==> (#[trigger] olds[k]).0@ != name,
    ensures
        forall|i: int, j: int|
            0 <= i < j < news.len() ==> (#[trigger] news[i]).0@ != (#[trigger] news[j]).0@,
        spec_sites_find(news, name) == Some(news[at].1),
        spec_sites_find(olds, name) == Some(olds[at].1),
        forall|other: Seq<char>|
            other != name ==> spec_sites_find(news, other) == spec_sites_find(olds, other),
    decreases at,
{
    if at == 0 {
        assert(news[0].0@ == name);
        assert(news.drop_first() =~= olds.drop_first());
        assert forall|other: Seq<char>| other != name implies
            spec_sites_find(news, other) == spec_sites_find(olds, other) by {
            assert(spec_sites_find(news, other) == spec_sites_find(news.drop_first(), other));
            assert(spec_sites_find(olds, other) == spec_sites_find(olds.drop_first(), other));
        }
    } else {
        assert(news[0] == olds[0]);
        assert(news.drop_first() =~= olds.drop_first().update(at - 1, (olds[at].0, news[at].1)));
        assert(news.drop_first()[at - 1] == news[at]);
        lemma_sites_update(olds.drop_first(), news.drop_first(), at - 1, name);
        assert(olds[0].0@ != name);
        assert(spec_sites_find(news, name) == spec_sites_find(news.drop_first(), name));
        assert(spec_sites_find(olds, name) == spec_sites_find(olds.drop_first(), name));
        assert(olds.drop_first()[at - 1] == olds[at]);
        assert forall|other: Seq<char>| other != name implies
            spec_sites_find(news, other) == spec_sites_find(olds, other) by {
            if olds[0].0@ == other {
                assert(spec_sites_find(news, other) == Some(news[0].1));
                assert(spec_sites_find(olds, other) == Some(olds[0].1));
            } else {
                assert(spec_sites_find(news, other) == spec_sites_find(news.drop_first(), other));
                assert(spec_sites_find(olds, other) == spec_sites_find(olds.drop_first(), other));
            }
        }
    }
}

proof fn lemma_sites_push(
    olds: Seq<(String, Vec<Vec<RuntimeType>>)>,
    news: Seq<(String, Vec<Vec<RuntimeType>>)>,
    name: Seq<char>,
)
    requires
        news.len() == olds.len() + 1,
        forall|k: int| 0 <= k < olds.len() ==> news[k] == olds[k],
        news.last().0@ == name,
        forall|k: int| 0 <= k < olds.len() ==> (#[trigger] olds[k]).0@ != name,
        forall|i: int, j: int|
            0 <= i < j < olds.len() ==> (#[trigger] olds[i]).0@ != (#[trigger] olds[j]).0@,
    ensures
        forall|i: int, j: int|
            0 <= i < j < news.len() ==> (#[trigger] news[i]).0@ != (#[trigger] news[j]).0@,
        spec_sites_find(news, name) == Some(news.last().1),
        spec_sites_find(olds, name) is None,
        forall|other: Seq<char>|
            other != name ==> spec_sites_find(news, other) == spec_sites_find(olds, other),
    decreases olds.len(),
{
    if olds.len() == 0 {
        assert(news[0].0@ == name);
        assert(spec_sites_find(news, name) == Some(news[0].1));
        assert(news.drop_first() =~= Seq::<(String, Vec<Vec<RuntimeType>>)>::empty());
        assert forall|other: Seq<char>| other != name implies
            spec_sites_find(news, other) == spec_sites_find(olds, other) by {
            assert(spec_sites_find(news, other) == spec_sites_find(news.drop_first(), other));
        }
    } else {
        assert(news[0] == olds[0]);
        assert(news[0].0@ != name);
        lemma_sites_push(olds.drop_first(), news.drop_first(), name);
        assert(spec_sites_find(news, name) == spec_sites_find(news.drop_first(), name));
        assert(spec_sites_find(olds, name) == spec_sites_find(olds.drop_first(), name));
        assert(news.drop_first().last() == news.last());
        assert forall|other: Seq<char>| other != name implies
            spec_sites_find(news, other) == spec_sites_find(olds, other) by {
            if olds[0].0@ == other {
                assert(spec_sites_find(news, other) == Some(news[0].1));
                assert(spec_sites_find(olds, other) == Some(olds[0].1));
            } else {
                assert(spec_sites_find(news, other) == spec_sites_find(news.drop_first(), other));
                assert(spec_sites_find(olds, other) == spec_sites_find(olds.drop_first(), other));
            }
        }
    }
}

/// Relies on ahash::AHasher: a 64-bit hash of the bytes. Nothing is promised
/// of the value; the seed may differ between builds.
#[verifier::external_body]
fn ahash_bytes(data: &[u8]) -> (r: u64) {
    let mut h = <ahash::AHasher as core::default::Default>::default();
    <ahash::AHasher as core::hash::Hasher>::write(&mut h, data);
    <ahash::AHasher as core::hash::Hasher>::finish(&h)
}

fn push_u64_le(out: &mut Vec<u8>, v: u64)
    ensures
        final(out)@.len() == old(out)@.len() + 8,
{
    out.push((v & 0xff) as u8);
    out.push(((v >> 8) & 0xff) as u8);
    out.push(((v >> 16) & 0xff) as u8);
    out.push(((v >> 24) & 0xff) as u8);
    out.push(((v >> 32) & 0xff) as u8);
    out.push(((v >> 40) & 0xff) as u8);
    out.push(((v >> 48) & 0xff) as u8);
    out.push(((v >> 56) & 0xff) as u8);
}

/// Frames the observed constants as bytes: a tag per slot, then the value.
fn encode_constants(constants: &Vec<Option<RuntimeConstant>>) -> (r: Vec<u8>) {
    let mut out: Vec<u8> = Vec::new();
    let n = constants.len();
    let mut i: usize = 0;
    while i < n
        invariant
            i <= n,
            n == constants@.len(),
        decreases n - i,
    {
        match &constants[i] {
            Option::None => {
                out.push(0);
            },
            Option::Some(c) => {
                match c {
                    RuntimeConstant::Bool(b) => {
                        out.push(1);
                        out.push(if *b { 1 } else { 0 });
                    },
                    RuntimeConstant::I32(v) => {
                        out.push(2);
                        push_u64_le(&mut out, *v as u64);
                    },
                    RuntimeConstant::I64(v) => {
                        out.push(3);
                        push_u64_le(&mut out, *v as u64);
                    },
                    RuntimeConstant::F64Bits(bits) => {
                        out.push(4);
                        push_u64_le(&mut out, *bits);
                    },
                    RuntimeConstant::Str(text) => {
                        out.push(5);
                        let bytes = text.as_str().as_bytes_vec();
                        let m = bytes.len();
                        let mut j: usize = 0;
                        while j < m
                            invariant
                                j <= m,
                                m == bytes@.len(),
                            decreases m - j,
                        {
                            out.push(bytes[j]);
                            j = j + 1;
                        }
                    },
                    RuntimeConstant::NumberText(text) => {
                        out.push(6);
                        let bytes = text.as_str().as_bytes_vec();
                        let m = bytes.len();
                        let mut j: usize = 0;
                        while j < m
                            invariant
                                j <= m,
                                m == bytes@.len(),
                            decreases m - j,
                        {
                            out.push(bytes[j]);
                            j = j + 1;
                        }
                    },
                }
            },
        }
        i = i + 1;
    }
    out
}

/// The short display name of a runtime type.
pub open spec fn spec_rt_name(t: RuntimeType) -> Seq<char> {
    match t {
        RuntimeType::Unit => "Unit"@,
        RuntimeType::Bool => "Bool"@,
        RuntimeType::I32 => "I32"@,
        RuntimeType::I64 => "I64"@,
        RuntimeType::F64 => "F64"@,
        RuntimeType::Str => "Str"@,
        RuntimeType::List => "List"@,
        RuntimeType::Dict => "Dict"@,
        RuntimeType::Opaque => "Opaque"@,
    }
}

fn rt_name(t: RuntimeType) -> (r: &'static str)
    ensures
        r@ == spec_rt_name(t),
{
    match t {
        RuntimeType::Unit => "Unit",
        RuntimeType::Bool => "Bool",
        RuntimeType::I32 => "I32",
        RuntimeType::I64 => "I64",
        RuntimeType::F64 => "F64",
        RuntimeType::Str => "Str",
        RuntimeType::List => "List",
        RuntimeType::Dict => "Dict",
        RuntimeType::Opaque => "Opaque",
    }
}

/// The type names joined by commas.
pub open spec fn spec_types_joined(ts: Seq<RuntimeType>) -> Seq<char>
    decreases ts.len(),
{
    if ts.len() == 0 {
        Seq::empty()
    } else if ts.len() == 1 {
        spec_rt_name(ts[0])
    } else {
        spec_types_joined(ts.drop_last()) + ","@ + spec_rt_name(ts.last())
    }
}

/// The lower-case hex rendering of a word, no leading zeros.
pub open spec fn spec_hex_u64(n: nat) -> Seq<char>
    decreases n,
{
    if n < 16 {
        seq![crate::cache::spec_hex_digit(n as int)]
    } else {
        spec_hex_u64(n / 16).push(crate::cache::spec_hex_digit((n % 16) as int))
    }
}

fn hex_digit_of(v: u64) -> (r: char)
    requires
        v < 16,
    ensures
        r == crate::cache::spec_hex_digit(v as int),
{
    if v == 0 { '0' } else if v == 1 { '1' } else if v == 2 { '2' } else if v == 3 { '3' }
    else if v == 4 { '4' } else if v == 5 { '5' } else if v == 6 { '6' } else if v == 7 { '7' }
    else if v == 8 { '8' } else if v == 9 { '9' } else if v == 10 { 'a' } else if v == 11 { 'b' }
    else if v == 12 { 'c' } else if v == 13 { 'd' } else if v == 14 { 'e' } else { 'f' }
}

fn u64_to_hex(n: u64) -> (r: String)
    ensures
        r@ == spec_hex_u64(n as nat),
    decreases n,
{
    if n < 16 {
        let mut s = String::new();
        push_char(&mut s, hex_digit_of(n));
        s
    } else {
        let mut s = u64_to_hex(n / 16);
        push_char(&mut s, hex_digit_of(n % 16));
        s
    }
}

/// Identifies one specialized version of a function: its name, the argument
/// types, and a hash over the observed constant arguments.
#[derive(Debug, Clone, PartialEq, Eq)]
pub struct SpecializationKey {
    pub function_name: String,
    pub arg_types: Vec<RuntimeType>,
    pub arg_constants_hash: u64,
}

impl SpecializationKey {
    /// Builds the key; the constants are framed as bytes and hashed.
    pub fn new(
        function_name: String,
        arg_types: Vec<RuntimeType>,
        arg_constants: Vec<Option<RuntimeConstant>>,
    ) -> (r: Self)
        ensures
            r.function_name == function_name,
            r.arg_types == arg_types,
    {
        let encoded = encode_constants(&arg_constants);
        let arg_constants_hash = ahash_bytes(encoded.as_slice());
        Self { function_name, arg_types, arg_constants_hash }
    }

    /// `name_<types>_hash`: the name, the comma-joined argument type names in
    /// angle brackets, and the constants hash in hex.
    pub fn to_string_key(&self) -> (r: String)
        ensures
            r@ == self.function_name@ + "_<"@ + spec_types_joined(self.arg_types@) + ">_"@
                + spec_hex_u64(self.arg_constants_hash as nat),
    {
        let mut s = clone_string(&self.function_name);
        s.append("_<");
        let n = self.arg_types.len();
        let mut i: usize = 0;
        proof {
            assert(self.arg_types@.subrange(0, 0) =~= Seq::<RuntimeType>::empty());
        }
        while i < n
            invariant
                i <= n,
                n == self.arg_types@.len(),
                s@ == self.function_name@ + "_<"@
                    + spec_types_joined(self.arg_types@.subrange(0, i as int)),
            decreases n - i,
        {
            if i > 0 {
                s.append(",");
            }
            s.append(rt_name(self.arg_types[i]));
            proof {
                let pre = self.arg_types@.subrange(0, i as int + 1);
                assert(pre.drop_last() =~= self.arg_types@.subrange(0, i as int));
                assert(pre.last() == self.arg_types@[i as int]);
            }
            i = i + 1;
        }
        proof {
            assert(self.arg_types@.subrange(0, n as int) =~= self.arg_types@);
        }
        s.append(">_");
        let h = u64_to_hex(self.arg_constants_hash);
        s.append(h.as_str());
        s
    }
}

/// Counters of the specializer.
#[derive(Debug)]
pub struct SpecializationStats {
    pub total_specializations: usize,
    pub function_counts: Vec<(String, usize)>,
}

/// Two keys agree field for field.
pub open spec fn spec_key_eqv(a: SpecializationKey, b: SpecializationKey) -> bool {
    &&& a.function_name@ == b.function_name@
    &&& a.arg_types@ == b.arg_types@
    &&& a.arg_constants_hash == b.arg_constants_hash
}

fn key_eq(a: &SpecializationKey, b: &SpecializationKey) -> (r: bool)
    ensures
        r == spec_key_eqv(*a, *b),
{
    str_eq(a.function_name.as_str(), b.function_name.as_str())
        && signature_eq(&a.arg_types, &b.arg_types)
        && a.arg_constants_hash == b.arg_constants_hash
}

/// The order with every occurrence of a key removed.
pub open spec fn spec_without_key(
    order: Seq<SpecializationKey>,
    key: SpecializationKey,
) -> Seq<SpecializationKey>
    decreases order.len(),
{
    if order.len() == 0 {
        Seq::empty()
    } else {
        spec_without_key(order.drop_last(), key)
            + (if spec_key_eqv(order.last(), key) {
                Seq::empty()
            } else {
                seq![order.last()]
            })
    }
}

/// Least-recently-used eviction order: the front is the coldest key.
#[derive(Debug)]
pub struct LruEvictionPolicy {
    access_order: Vec<SpecializationKey>,
}

impl LruEvictionPolicy {
    pub closed spec fn spec_order(&self) -> Seq<SpecializationKey> {
        self.access_order@
    }

    pub fn new() -> (r: Self)
        ensures
            r.spec_order().len() == 0,
    {
        Self { access_order: Vec::new() }
    }

    /// An accessed key moves to the warm end.
    pub fn on_access(&mut self, key: SpecializationKey)
        ensures
            final(self).spec_order()
                == spec_without_key(old(self).spec_order(), key).push(key),
    {
        let ghost orig = self.access_order@;
        let mut kept: Vec<SpecializationKey> = Vec::new();
        let ghost mut k: int = 0;
        proof {
            assert(orig.subrange(0, 0) =~= Seq::<SpecializationKey>::empty());
            assert(kept@ =~= spec_without_key(orig.subrange(0, 0), key));
            assert(self.access_order@ =~= orig.skip(0));
        }
        while self.access_order.len() > 0
            invariant
                0 <= k <= orig.len(),
                self.access_order@ == orig.skip(k),
                kept@ == spec_without_key(orig.subrange(0, k), key),
            decreases self.access_order@.len(),
        {
            let x = self.access_order.remove(0);
            proof {
                assert(orig.skip(k)[0] == orig[k]);
                assert(self.access_order@ =~= orig.skip(k + 1));
                let pre = orig.subrange(0, k + 1);
                assert(pre.drop_last() =~= orig.subrange(0, k));
                assert(pre.last() == orig[k]);
            }
            if !key_eq(&x, &key) {
                kept.push(x);
            }
            proof {
                assert(kept@ =~= spec_without_key(orig.subrange(0, k + 1), key));
                k = k + 1;
            }
        }
        proof {
            assert(orig.subrange(0, orig.len() as int) =~= orig);
        }
        kept.push(key);
        self.access_order = kept;
    }

    /// A new key joins the warm end.
    pub fn on_add(&mut self, key: SpecializationKey)
        ensures
            final(self).spec_order() == old(self).spec_order().push(key),
    {
        self.access_order.push(key);
    }

    /// A removed key leaves the order.
    pub fn on_remove(&mut self, key: &SpecializationKey)
        ensures
            final(self).spec_order() == spec_without_key(old(self).spec_order(), *key),
    {
        let ghost orig = self.access_order@;
        let mut kept: Vec<SpecializationKey> = Vec::new();
        let ghost mut k: int = 0;
        proof {
            assert(orig.subrange(0, 0) =~= Seq::<SpecializationKey>::empty());
            assert(kept@ =~= spec_without_key(orig.subrange(0, 0), *key));
            assert(self.access_order@ =~= orig.skip(0));
        }
        while self.access_order.len() > 0
            invariant
                0 <= k <= orig.len(),
                self.access_order@ == orig.skip(k),
                kept@ == spec_without_key(orig.subrange(0, k), *key),
            decreases self.access_order@.len(),
        {
            let x = self.access_order.remove(0);
            proof {
                assert(orig.skip(k)[0] == orig[k]);
                assert(self.access_order@ =~= orig.skip(k + 1));
                let pre = orig.subrange(0, k + 1);
                assert(pre.drop_last() =~= orig.subrange(0, k));
                assert(pre.last() == orig[k]);
            }
            if !key_eq(&x, key) {
                kept.push(x);
            }
            proof {
                assert(kept@ =~= spec_without_key(orig.subrange(0, k + 1), *key));
                k = k + 1;
            }
        }
        proof {
            assert(orig.subrange(0, orig.len() as int) =~= orig);
        }
        self.access_order = kept;
    }

    /// The coldest key still present in the cache, if any: the first of the
    /// access order that the cache holds.
    pub fn evict(&self, cache_keys: &Vec<SpecializationKey>) -> (r: Option<SpecializationKey>)
        ensures
            r matches Some(k) ==> exists|i: int, j: int|
                0 <= i < self.spec_order().len() && 0 <= j < cache_keys@.len()
                && spec_key_eqv(#[trigger] self.spec_order()[i], k)
                && spec_key_eqv(#[trigger] cache_keys@[j], k),
    {
        let n = self.access_order.len();
        let mut i: usize = 0;
        while i < n
            invariant
                i <= n,
                n == self.access_order@.len(),
            decreases n - i,
        {
            let m = cache_keys.len();
            let mut j: usize = 0;
            while j < m
                invariant
                    j <= m,
                    m == cache_keys@.len(),
                    i < n,
                    n == self.access_order@.len(),
                decreases m - j,
            {
                if key_eq(&cache_keys[j], &self.access_order[i]) {
                    let k = self.access_order[i].clone_key();
                    proof {
                        assert(spec_key_eqv(self.spec_order()[i as int], k));
                        assert(spec_key_eqv(cache_keys@[j as int], k));
                    }
                    return Some(k);
                }
                j = j + 1;
            }
            i = i + 1;
        }
        None
    }
}

impl SpecializationKey {
    /// A field-for-field copy.
    pub fn clone_key(&self) -> (r: Self)
        ensures
            spec_key_eqv(r, *self),
            r.arg_types@ == self.arg_types@,
            r.function_name@ == self.function_name@,
            r.arg_constants_hash == self.arg_constants_hash,
    {
        Self {
            function_name: clone_string(&self.function_name),
            arg_types: clone_signature(&self.arg_types),
            arg_constants_hash: self.arg_constants_hash,
        }
    }
}

/// Extracts the constant values an expression can feed to specialization.
#[derive(Debug)]
pub struct ConstantPropagator {}

impl ConstantPropagator {
    pub fn new() -> (r: Self) {
        Self {}
    }

    /// The constant a literal stands for; numeric literals keep their
    /// cleaned text until a value is materialized at code-generation time.
    pub fn literal_to_constant(&self, lit: &crate::ast::Literal) -> (r: RuntimeConstant)
        ensures
            lit matches crate::ast::Literal::Bool(b) ==> r == RuntimeConstant::Bool(*b),
            lit matches crate::ast::Literal::String(s)
                ==> (r matches RuntimeConstant::Str(t) && t@ == s@),
            lit matches crate::ast::Literal::Number(s)
                ==> (r matches RuntimeConstant::NumberText(t) && t@ == s@),
    {
        match lit {
            crate::ast::Literal::Bool(b) => RuntimeConstant::Bool(*b),
            crate::ast::Literal::String(s) => RuntimeConstant::Str(clone_string(s)),
            crate::ast::Literal::Number(s) => RuntimeConstant::NumberText(clone_string(s)),
        }
    }
}

} // verus!
