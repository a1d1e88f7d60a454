//! Code-generation planning: the closed type lattice, the call-site rules
//! (registry consultation, argument checking, hard errors), the runtime
//! entry points that loops lower to, and the tagged 64-bit value protocol of
//! the iterator runtime. The native emission and linking live with the
//! embedding program; every decision it takes comes from here.

use vstd::prelude::*;

use crate::registry::{ffi_eqv, FfiFunction, FfiSignature, FfiType, SymbolRegistry};

verus! {

/// Optimization levels of a build.
#[derive(Debug, Clone, Copy, PartialEq, Eq, Structural)]
pub enum CodegenOptLevel {
    NoOpt,
    Balanced,
    Aggressive,
}

/// Options handed to the code generator.
#[derive(Debug, Clone, Copy, PartialEq, Eq, Structural)]
pub struct CodegenOptions {
    pub emit_ir: bool,
    pub opt_level: CodegenOptLevel,
    pub enable_lto: bool,
}

impl Default for CodegenOptions {
    fn default() -> (r: Self)
        ensures
            r.emit_ir == false,
            r.opt_level == CodegenOptLevel::Balanced,
            r.enable_lto == false,
    {
        Self { emit_ir: false, opt_level: CodegenOptLevel::Balanced, enable_lto: false }
    }
}

/// What a build produced: the linked executable's path and, when asked for,
/// the intermediate representation's text.
#[derive(Debug)]
pub struct BuildArtifact {
    pub binary: String,
    pub ir: Option<String>,
}

/// The available back-ends; the alternate one falls back to the primary on
/// failure.
#[derive(Debug, Clone, Copy, PartialEq, Eq, Structural)]
pub enum CodegenBackendType {
    LLVM,
}

/// The back-end toolchain version the generator reports into metadata.
pub fn current_llvm_version() -> (r: Option<String>)
    ensures
        r matches Some(v) && v@ == "15.0"@,
{
    Some(String::from_str("15.0"))
}

/// The closed type lattice at code-generation time: every expression has
/// exactly one lattice type resolvable at lowering time.
#[derive(Debug, Clone, Copy, PartialEq, Eq, Structural)]
pub enum OtterType {
    Unit,
    Bool,
    I32,
    I64,
    F64,
    Str,
    List,
    Dict,
    Struct(u32),
    Tuple,
    Opaque,
}

/// The lattice type a foreign-function type maps to.
pub open spec fn spec_ffi_lattice(t: FfiType) -> OtterType {
    match t {
        FfiType::Unit => OtterType::Unit,
        FfiType::Bool => OtterType::Bool,
        FfiType::I32 => OtterType::I32,
        FfiType::I64 => OtterType::I64,
        FfiType::F64 => OtterType::F64,
        FfiType::Str => OtterType::Str,
        FfiType::Opaque => OtterType::Opaque,
    }
}

pub fn ffi_lattice(t: FfiType) -> (r: OtterType)
    ensures
        r == spec_ffi_lattice(t),
{
    match t {
        FfiType::Unit => OtterType::Unit,
        FfiType::Bool => OtterType::Bool,
        FfiType::I32 => OtterType::I32,
        FfiType::I64 => OtterType::I64,
        FfiType::F64 => OtterType::F64,
        FfiType::Str => OtterType::Str,
        FfiType::Opaque => OtterType::Opaque,
    }
}

/// The fatal lowering errors.
#[derive(Debug, Clone, PartialEq, Eq, Structural)]
pub enum CodegenError {
    ArgCountMismatch,
    ArgTypeMismatch,
    UnitArgument,
    UnknownFunction,
}

/// A checked call's argument list matches the signature exactly.
pub open spec fn spec_args_match(sig: FfiSignature, args: Seq<OtterType>) -> bool {
    &&& sig.params@.len() == args.len()
    &&& forall|i: int| 0 <= i < args.len()
        ==> spec_ffi_lattice(#[trigger] sig.params@[i]) == args[i]
}

/// Checks a registry call site: the argument count must equal the
/// signature's, every argument's lattice type must equal the parameter's,
/// and `Unit` may not stand in argument position. On success the call's
/// result type is the signature's result, mapped into the lattice.
pub fn check_call_args(sig: &FfiSignature, args: &Vec<OtterType>) -> (r: Result<
    OtterType,
    CodegenError,
>)
    ensures
        r matches Ok(ret) ==> {
            &&& spec_args_match(*sig, args@)
            &&& ret == spec_ffi_lattice(sig.result)
            &&& forall|i: int| 0 <= i < args@.len() ==> args@[i] != OtterType::Unit
        },
        r is Err ==> !spec_args_match(*sig, args@)
            || exists|i: int| 0 <= i < args@.len() && args@[i] == OtterType::Unit,
        r matches Err(e) ==> e != CodegenError::UnknownFunction,
{
    if sig.params.len() != args.len() {
        return Err(CodegenError::ArgCountMismatch);
    }
    let n = args.len();
    let mut i: usize = 0;
    while i < n
        invariant
            i <= n,
            n == args@.len(),
            n == sig.params@.len(),
            forall|k: int| 0 <= k < i
                ==> spec_ffi_lattice(#[trigger] sig.params@[k]) == args@[k],
            forall|k: int| 0 <= k < i ==> args@[k] != OtterType::Unit,
        decreases n - i,
    {
        if args[i] == OtterType::Unit {
            return Err(CodegenError::UnitArgument);
        }
        if !(ffi_lattice(sig.params[i]) == args[i]) {
            return Err(CodegenError::ArgTypeMismatch);
        }
        i = i + 1;
    }
    Ok(ffi_lattice(sig.result))
}

/// How a call site lowers.
#[derive(Debug)]
pub enum CallPlan {
    /// A direct call to a registered foreign symbol, with the call's result
    /// type.
    Extern { symbol: String, result: OtterType },
    /// A direct call to a user-defined function in this module.
    User,
    /// A fatal lowering error.
    Fail(CodegenError),
}

/// Resolves one call site. A name found in the symbol registry lowers to a
/// direct call of the mangled symbol once the arguments check against the
/// signature; otherwise a user-defined function of the module is called
/// directly; otherwise the call is an unknown-function error.
pub fn plan_call(
    registry: &SymbolRegistry,
    name: &str,
    args: &Vec<OtterType>,
    is_user_function: bool,
) -> (r: CallPlan)
    ensures
        r matches CallPlan::Extern { symbol, result } ==> {
            &&& registry.spec_resolve(name@) matches Some(f)
            &&& f.symbol@ == symbol@
            &&& spec_args_match(f.signature, args@)
            &&& result == spec_ffi_lattice(f.signature.result)
        },
        r is User ==> registry.spec_resolve(name@) is None && is_user_function,
        r matches CallPlan::Fail(e) ==> {
            ||| (registry.spec_resolve(name@) is Some && e != CodegenError::UnknownFunction)
            ||| (registry.spec_resolve(name@) is None && !is_user_function
                && e == CodegenError::UnknownFunction)
        },
        (registry.spec_resolve(name@) matches Some(f) && spec_args_match(f.signature, args@)
            && (forall|i: int| 0 <= i < args@.len() ==> args@[i] != OtterType::Unit))
            ==> r is Extern,
        registry.spec_resolve(name@) is None && is_user_function ==> r is User,
        registry.spec_resolve(name@) is None && !is_user_function
            ==> r == CallPlan::Fail(CodegenError::UnknownFunction),
{
    match registry.resolve(name) {
        Some(f) => {
            match check_call_args(&f.signature, args) {
                Ok(result) => {
                    proof {
                        let g = registry.spec_resolve(name@).unwrap();
                        assert(ffi_eqv(f, g));
                        assert(f.signature.params@ == g.signature.params@);
                        assert(spec_args_match(g.signature, args@));
                    }
                    CallPlan::Extern { symbol: f.symbol, result }
                },
                Err(e) => {
                    proof {
                        let g = registry.spec_resolve(name@).unwrap();
                        assert(ffi_eqv(f, g));
                        assert(f.signature.params@ == g.signature.params@);
                        assert(spec_args_match(g.signature, args@)
                            ==> spec_args_match(f.signature, args@));
                    }
                    CallPlan::Fail(e)
                },
            }
        },
        None => {
            if is_user_function {
                CallPlan::User
            } else {
                CallPlan::Fail(CodegenError::UnknownFunction)
            }
        },
    }
}

/// Which monomorphized range constructor a `for x in a..b` loop calls,
/// decided by the start expression's lattice type.
pub fn range_symbol(start_ty: OtterType) -> (r: &'static str)
    ensures
        start_ty == OtterType::F64 ==> r@ == "range<float>"@,
        start_ty != OtterType::F64 ==> r@ == "range<int>"@,
{
    if start_ty == OtterType::F64 {
        "range<float>"
    } else {
        "range<int>"
    }
}

/// The iterator-protocol instantiations the runtime exports.
#[derive(Debug, Clone, Copy, PartialEq, Eq, Structural)]
pub enum IterKind {
    Array,
    Text,
}

/// The four runtime entry points of one iterator-protocol instantiation:
/// create, has-next, next, free.
pub fn iter_symbols(kind: IterKind) -> (r: (
    &'static str,
    &'static str,
    &'static str,
    &'static str,
))
    ensures
        kind == IterKind::Array ==> {
            &&& r.0@ == "__otter_iter_array"@
            &&& r.1@ == "__otter_iter_has_next_array"@
            &&& r.2@ == "__otter_iter_next_array"@
            &&& r.3@ == "__otter_iter_free_array"@
        },
        kind == IterKind::Text ==> {
            &&& r.0@ == "__otter_iter_string"@
            &&& r.1@ == "__otter_iter_has_next_string"@
            &&& r.2@ == "__otter_iter_next_string"@
            &&& r.3@ == "__otter_iter_free_string"@
        },
{
    match kind {
        IterKind::Array => (
            "__otter_iter_array",
            "__otter_iter_has_next_array",
            "__otter_iter_next_array",
            "__otter_iter_free_array",
        ),
        IterKind::Text => (
            "__otter_iter_string",
            "__otter_iter_has_next_string",
            "__otter_iter_next_string",
            "__otter_iter_free_string",
        ),
    }
}

/// The decoder name each element type gets: `Unit` elements decode to
/// nothing, small scalars to their value, everything else to a handle.
pub open spec fn spec_decoder(expected: OtterType) -> Option<Seq<char>> {
    match expected {
        OtterType::Unit => None,
        OtterType::Bool => Some("__otter_decode_value_as_bool"@),
        OtterType::I64 => Some("__otter_decode_value_as_i64"@),
        OtterType::I32 => Some("__otter_decode_value_as_i64"@),
        OtterType::F64 => Some("__otter_decode_value_as_f64"@),
        OtterType::Str => Some("__otter_decode_value_as_string"@),
        _ => Some("__otter_decode_value_as_handle"@),
    }
}

/// A decoder choice agrees with a decoder name, view for view.
pub open spec fn spec_decoder_matches(d: Option<&'static str>, s: Option<Seq<char>>) -> bool {
    match (d, s) {
        (Option::None, Option::None) => true,
        (Option::Some(x), Option::Some(y)) => x@ == y,
        _ => false,
    }
}

/// The runtime decoder matching a loop variable's element type; `Unit`
/// elements decode to nothing.
pub fn decoder_symbol(expected: OtterType) -> (r: Option<&'static str>)
    ensures
        spec_decoder_matches(r, spec_decoder(expected)),
{
    match expected {
        OtterType::Unit => None,
        OtterType::Bool => Some("__otter_decode_value_as_bool"),
        OtterType::I64 => Some("__otter_decode_value_as_i64"),
        OtterType::I32 => Some("__otter_decode_value_as_i64"),
        OtterType::F64 => Some("__otter_decode_value_as_f64"),
        OtterType::Str => Some("__otter_decode_value_as_string"),
        OtterType::List => Some("__otter_decode_value_as_handle"),
        OtterType::Dict => Some("__otter_decode_value_as_handle"),
        OtterType::Opaque => Some("__otter_decode_value_as_handle"),
        OtterType::Struct(_) => Some("__otter_decode_value_as_handle"),
        OtterType::Tuple => Some("__otter_decode_value_as_handle"),
    }
}

/// How a binary operator lowers, by its operand types.
#[derive(Debug, Clone, Copy, PartialEq, Eq, Structural)]
pub enum BinaryLowering {
    /// A native float operation; the current lowering promotes numeric
    /// arithmetic to sixty-four-bit floats.
    FloatArithmetic,
    /// A float comparison; the result is Bool.
    Comparison,
    /// Conditional branches, not eager evaluation.
    ShortCircuit,
    /// The operands do not fit the operator.
    Invalid,
}

pub open spec fn spec_is_arithmetic(op: crate::ast::BinaryOp) -> bool {
    op == crate::ast::BinaryOp::Add || op == crate::ast::BinaryOp::Sub
        || op == crate::ast::BinaryOp::Mul || op == crate::ast::BinaryOp::Div
        || op == crate::ast::BinaryOp::Mod
}

pub open spec fn spec_is_comparison(op: crate::ast::BinaryOp) -> bool {
    op == crate::ast::BinaryOp::Eq || op == crate::ast::BinaryOp::Ne
        || op == crate::ast::BinaryOp::Lt || op == crate::ast::BinaryOp::Gt
        || op == crate::ast::BinaryOp::LtEq || op == crate::ast::BinaryOp::GtEq
}

pub open spec fn spec_is_numeric(t: OtterType) -> bool {
    t == OtterType::I32 || t == OtterType::I64 || t == OtterType::F64
}

/// How a binary expression lowers: arithmetic and comparisons need two
/// numeric operands (promoted to floats; comparisons produce Bool), the
/// logical operators need two Bool operands and lower to short-circuit
/// branches; anything else is a hard error.
pub fn plan_binary(op: crate::ast::BinaryOp, lhs: OtterType, rhs: OtterType) -> (r:
    BinaryLowering)
    ensures
        r == BinaryLowering::FloatArithmetic
            <==> (spec_is_arithmetic(op) && spec_is_numeric(lhs) && spec_is_numeric(rhs)),
        r == BinaryLowering::Comparison
            <==> (spec_is_comparison(op) && spec_is_numeric(lhs) && spec_is_numeric(rhs)),
        r == BinaryLowering::ShortCircuit
            <==> ((op == crate::ast::BinaryOp::And || op == crate::ast::BinaryOp::Or)
                && lhs == OtterType::Bool && rhs == OtterType::Bool),
{
    let numeric = (lhs == OtterType::I32 || lhs == OtterType::I64 || lhs == OtterType::F64)
        && (rhs == OtterType::I32 || rhs == OtterType::I64 || rhs == OtterType::F64);
    match op {
        crate::ast::BinaryOp::Add | crate::ast::BinaryOp::Sub | crate::ast::BinaryOp::Mul
        | crate::ast::BinaryOp::Div | crate::ast::BinaryOp::Mod => {
            if numeric {
                BinaryLowering::FloatArithmetic
            } else {
                BinaryLowering::Invalid
            }
        },
        crate::ast::BinaryOp::Eq | crate::ast::BinaryOp::Ne | crate::ast::BinaryOp::Lt
        | crate::ast::BinaryOp::Gt | crate::ast::BinaryOp::LtEq
        | crate::ast::BinaryOp::GtEq => {
            if numeric {
                BinaryLowering::Comparison
            } else {
                BinaryLowering::Invalid
            }
        },
        crate::ast::BinaryOp::And | crate::ast::BinaryOp::Or => {
            if lhs == OtterType::Bool && rhs == OtterType::Bool {
                BinaryLowering::ShortCircuit
            } else {
                BinaryLowering::Invalid
            }
        },
    }
}

/// The type tag a tagged word carries for each element type, where one
/// exists: Unit 0, Bool 1, machine integers 2, floats 3, text 4, lists 5,
/// maps 6.
pub fn value_tag(t: OtterType) -> (r: Option<u8>)
    ensures
        t == OtterType::Unit ==> r == Some(0u8),
        t == OtterType::Bool ==> r == Some(1u8),
        (t == OtterType::I32 || t == OtterType::I64) ==> r == Some(2u8),
        t == OtterType::F64 ==> r == Some(3u8),
        t == OtterType::Str ==> r == Some(4u8),
        t == OtterType::List ==> r == Some(5u8),
        t == OtterType::Dict ==> r == Some(6u8),
        (t == OtterType::Opaque || t == OtterType::Tuple || t matches OtterType::Struct(_))
            ==> r is None,
{
    match t {
        OtterType::Unit => Some(0),
        OtterType::Bool => Some(1),
        OtterType::I32 => Some(2),
        OtterType::I64 => Some(2),
        OtterType::F64 => Some(3),
        OtterType::Str => Some(4),
        OtterType::List => Some(5),
        OtterType::Dict => Some(6),
        OtterType::Struct(_) => None,
        OtterType::Tuple => None,
        OtterType::Opaque => None,
    }
}

/// How a `for` loop lowers: the runtime entry points it calls, in order.
#[derive(Debug)]
pub enum ForLoopPlan {
    /// `for x in a..b`: call the monomorphized range constructor to
    /// materialize a list handle, then iterate it with the array
    /// instantiation of the iterator protocol.
    Range {
        range_fn: &'static str,
        iter: (&'static str, &'static str, &'static str, &'static str),
        decoder: Option<&'static str>,
    },
    /// `for x in e` over a list or a text: iterate with the matching
    /// protocol instantiation.
    Collection {
        iter: (&'static str, &'static str, &'static str, &'static str),
        decoder: Option<&'static str>,
    },
    /// The iterable's lattice type has no iterator protocol yet.
    Unsupported,
}

/// Plans one `for` loop. A range iterable picks `range<int>` or
/// `range<float>` by the start expression's lattice type and iterates the
/// produced list with the array protocol; a list iterates with the array
/// protocol; a text iterates with the text protocol, element type Str; any
/// other iterable is a hard error. The decoder matches the element type, as
/// `decoder_symbol` states; cleanup (the protocol's free entry) runs on
/// every exit path from the loop.
pub fn plan_for_loop(
    iterable_is_range: bool,
    start_ty: OtterType,
    iterable_ty: OtterType,
    elem_ty: OtterType,
) -> (r: ForLoopPlan)
    ensures
        iterable_is_range ==> (r matches ForLoopPlan::Range { range_fn, iter, decoder }
            && range_fn@ == (if start_ty == OtterType::F64 {
                "range<float>"@
            } else {
                "range<int>"@
            })
            && iter.0@ == "__otter_iter_array"@
            && iter.1@ == "__otter_iter_has_next_array"@
            && iter.2@ == "__otter_iter_next_array"@
            && iter.3@ == "__otter_iter_free_array"@
            && spec_decoder_matches(decoder, spec_decoder(start_ty))),
        !iterable_is_range && iterable_ty == OtterType::List
            ==> (r matches ForLoopPlan::Collection { iter, decoder }
                && iter.0@ == "__otter_iter_array"@
                && iter.1@ == "__otter_iter_has_next_array"@
                && iter.2@ == "__otter_iter_next_array"@
                && iter.3@ == "__otter_iter_free_array"@
                && spec_decoder_matches(decoder, spec_decoder(elem_ty))),
        !iterable_is_range && iterable_ty == OtterType::Str
            ==> (r matches ForLoopPlan::Collection { iter, decoder }
                && iter.0@ == "__otter_iter_string"@
                && iter.1@ == "__otter_iter_has_next_string"@
                && iter.2@ == "__otter_iter_next_string"@
                && iter.3@ == "__otter_iter_free_string"@
                && spec_decoder_matches(decoder, spec_decoder(OtterType::Str))),
        !iterable_is_range && iterable_ty != OtterType::List && iterable_ty != OtterType::Str
            ==> r is Unsupported,
{
    if iterable_is_range {
        ForLoopPlan::Range {
            range_fn: range_symbol(start_ty),
            iter: iter_symbols(IterKind::Array),
            decoder: decoder_symbol(start_ty),
        }
    } else if iterable_ty == OtterType::List {
        ForLoopPlan::Collection {
            iter: iter_symbols(IterKind::Array),
            decoder: decoder_symbol(elem_ty),
        }
    } else if iterable_ty == OtterType::Str {
        ForLoopPlan::Collection {
            iter: iter_symbols(IterKind::Text),
            decoder: decoder_symbol(OtterType::Str),
        }
    } else {
        ForLoopPlan::Unsupported
    }
}

/// The largest payload a tagged word can carry: the lower fifty-six bits.
pub const TAG_PAYLOAD_MASK: u64 = 0x00ff_ffff_ffff_ffff;

/// Packs a type tag into the upper eight bits of a 64-bit word, the payload
/// into the lower fifty-six.
pub fn encode_tagged(tag: u8, payload: u64) -> (r: u64)
    requires
        payload <= TAG_PAYLOAD_MASK,
    ensures
        r == ((tag as u64) << 56) | payload,
{
    ((tag as u64) << 56u64) | payload
}

/// The type tag in a tagged word's upper eight bits.
pub fn decode_tag(word: u64) -> (r: u8)
    ensures
        r == (word >> 56) as u8,
{
    (word >> 56u64) as u8
}

/// The payload in a tagged word's lower fifty-six bits.
pub fn decode_payload(word: u64) -> (r: u64)
    ensures
        r == word & TAG_PAYLOAD_MASK,
{
    word & TAG_PAYLOAD_MASK
}

/// Tagging round-trips: decoding an encoded word hands back the tag and the
/// payload unchanged.
pub proof fn lemma_tagged_roundtrip(tag: u8, payload: u64)
    requires
        payload <= TAG_PAYLOAD_MASK,
    ensures
        (((tag as u64) << 56) | payload) >> 56 == tag as u64,
        (((tag as u64) << 56) | payload) & TAG_PAYLOAD_MASK == payload,
{
    assert(payload <= 0x00ff_ffff_ffff_ffffu64
        ==> ((((tag as u64) << 56) | payload) >> 56 == tag as u64
            && (((tag as u64) << 56) | payload) & 0x00ff_ffff_ffff_ffffu64 == payload))
        by (bit_vector);
}

} // verus!
