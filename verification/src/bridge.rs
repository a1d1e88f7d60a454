//! Bridge metadata for user FFI crates: the declarative description of which
//! functions a crate exports to programs, read from a per-crate document by
//! the embedding program and normalized here into function specifications.

use vstd::prelude::*;

use crate::registry::FfiType;
use crate::strutil::{push_char, str_eq};

verus! {

/// How a generated stub calls into the bridged crate.
#[derive(Debug, Clone, PartialEq, Eq)]
pub enum CallTemplate {
    Direct,
    ResultCall,
    Expr(String),
}

/// The raw call configuration as the document states it.
#[derive(Debug, Clone, PartialEq, Eq, Structural)]
pub enum CallKind {
    Direct,
    ResultCall,
    Expr,
}

/// The dependency a bridged crate is built against.
#[derive(Debug, Clone)]
pub struct DependencyConfig {
    pub name: String,
    pub version: Option<String>,
    pub path: Option<String>,
    pub features: Vec<String>,
    pub default_features: bool,
}

/// A normalized bridged function: its canonical export name, linker symbol,
/// signature and call shape.
#[derive(Debug, Clone)]
pub struct FunctionSpec {
    pub name: String,
    pub symbol: String,
    pub params: Vec<FfiType>,
    pub result: FfiType,
    pub doc: Option<String>,
    pub rust_path: Option<String>,
    pub call: CallTemplate,
}

/// The normalized metadata of one bridged crate.
#[derive(Debug, Clone)]
pub struct BridgeMetadata {
    pub crate_name: String,
    pub dependency: DependencyConfig,
    pub functions: Vec<FunctionSpec>,
}

/// A function that should be exported from a bridge crate.
#[derive(Debug, Clone)]
pub struct BridgeFunction {
    pub crate_name: String,
    pub spec_entry: FunctionSpec,
}

/// A raw dependency stanza, as read from the document.
#[derive(Debug, Clone)]
pub struct RawDependency {
    pub name: Option<String>,
    pub version: Option<String>,
    pub path: Option<String>,
    pub features: Vec<String>,
    pub default_features: bool,
}

/// A raw function stanza, as read from the document.
#[derive(Debug, Clone)]
pub struct FunctionEntry {
    pub name: String,
    pub symbol: Option<String>,
    pub rust_path: Option<String>,
    pub params: Vec<String>,
    pub result: String,
    pub doc: Option<String>,
    pub call_kind: CallKind,
    pub call_expr: Option<String>,
}

/// Missing dependency stanzas default to the crate's own name with default
/// features on.
pub fn default_true() -> (r: bool)
    ensures
        r,
{
    true
}

/// The ASCII lower-casing of a character.
pub open spec fn spec_lower(c: char) -> char {
    if 65 <= c as u32 && c as u32 <= 90 {
        ((c as u32 + 32) as u8) as char
    } else {
        c
    }
}

fn lower_char(c: char) -> (r: char)
    ensures
        r == spec_lower(c),
{
    let u = c as u32;
    if 65 <= u && u <= 90 {
        proof {
            vstd::utf8::char_is_scalar(c);
        }
        ((u + 32) as u8) as char
    } else {
        c
    }
}

/// ASCII lower-casing of a text.
pub fn to_ascii_lower(s: &str) -> (r: String)
    ensures
        r@.len() == s@.len(),
        forall|i: int| 0 <= i < s@.len() ==> r@[i] == spec_lower(#[trigger] s@[i]),
{
    let n = s.unicode_len();
    let mut r = String::new();
    let mut i: usize = 0;
    while i < n
        invariant
            i <= n,
            n == s@.len(),
            r@.len() == i,
            forall|k: int| 0 <= k < i ==> r@[k] == spec_lower(#[trigger] s@[k]),
        decreases n - i,
    {
        push_char(&mut r, lower_char(s.get_char(i)));
        i = i + 1;
    }
    r
}

/// The ASCII lower-casing of a whole text.
pub open spec fn spec_lowercase(s: Seq<char>) -> Seq<char> {
    Seq::new(s.len(), |i: int| spec_lower(s[i]))
}

/// Which FFI type a case-folded spelling names, if any.
pub open spec fn spec_type_of_ident(low: Seq<char>) -> Option<FfiType> {
    if low == "unit"@ || low == "void"@ { Some(FfiType::Unit) }
    else if low == "bool"@ { Some(FfiType::Bool) }
    else if low == "i32"@ || low == "int32"@ { Some(FfiType::I32) }
    else if low == "i64"@ || low == "int64"@ { Some(FfiType::I64) }
    else if low == "f64"@ || low == "float64"@ || low == "double"@ { Some(FfiType::F64) }
    else if low == "str"@ || low == "string"@ { Some(FfiType::Str) }
    else if low == "opaque"@ || low == "handle"@ { Some(FfiType::Opaque) }
    else { None }
}

/// Reads a type identifier of the document. Accepted spellings, case
/// folded: unit/void, bool, i32/int32, i64/int64, f64/float64/double,
/// str/string, opaque/handle; any other spelling is an error.
pub fn parse_type(identifier: &str) -> (r: Result<FfiType, String>)
    ensures
        match spec_type_of_ident(spec_lowercase(identifier@)) {
            Some(t) => r == Ok::<FfiType, String>(t),
            None => r is Err,
        },
{
    let lowered = to_ascii_lower(identifier);
    proof {
        assert(lowered@ =~= spec_lowercase(identifier@));
    }
    let l = lowered.as_str();
    if str_eq(l, "unit") || str_eq(l, "void") {
        Ok(FfiType::Unit)
    } else if str_eq(l, "bool") {
        Ok(FfiType::Bool)
    } else if str_eq(l, "i32") || str_eq(l, "int32") {
        Ok(FfiType::I32)
    } else if str_eq(l, "i64") || str_eq(l, "int64") {
        Ok(FfiType::I64)
    } else if str_eq(l, "f64") || str_eq(l, "float64") || str_eq(l, "double") {
        Ok(FfiType::F64)
    } else if str_eq(l, "str") || str_eq(l, "string") {
        Ok(FfiType::Str)
    } else if str_eq(l, "opaque") || str_eq(l, "handle") {
        Ok(FfiType::Opaque)
    } else {
        let mut m = String::from_str("unsupported FFI type identifier `");
        m.append(identifier);
        m.append("` (expected unit, bool, i32, i64, f64, str, or opaque)");
        Err(m)
    }
}

/// The diagnostic for a type identifier the document may not use.
pub fn type_error(crate_name: &str, function: &str, ident: &str) -> (r: String)
    ensures
        r@ == "unsupported FFI type identifier `"@ + ident@ + "` in "@ + crate_name@ + ":"@
            + function@,
{
    let mut m = String::from_str("unsupported FFI type identifier `");
    m.append(ident);
    m.append("` in ");
    m.append(crate_name);
    m.append(":");
    m.append(function);
    m
}

/// The export name's characters with `:` and `.` replaced by `_`.
pub open spec fn spec_mangled(s: Seq<char>) -> Seq<char> {
    Seq::new(s.len(), |i: int| if s[i] == ':' || s[i] == '.' { '_' } else { s[i] })
}

/// Whether `s` starts with `prefix`.
pub open spec fn spec_starts_with(s: Seq<char>, prefix: Seq<char>) -> bool {
    prefix.len() <= s.len() && s.take(prefix.len() as int) == prefix
}

fn starts_with(s: &str, prefix: &str) -> (r: bool)
    ensures
        r == spec_starts_with(s@, prefix@),
{
    let n = s.unicode_len();
    let m = prefix.unicode_len();
    if m > n {
        proof {
            assert(!spec_starts_with(s@, prefix@));
        }
        return false;
    }
    let mut i: usize = 0;
    while i < m
        invariant
            i <= m <= n,
            n == s@.len(),
            m == prefix@.len(),
            forall|k: int| 0 <= k < i ==> s@[k] == prefix@[k],
        decreases m - i,
    {
        if s.get_char(i) != prefix.get_char(i) {
            proof {
                assert(s@.take(m as int)[i as int] != prefix@[i as int]);
            }
            return false;
        }
        i = i + 1;
    }
    proof {
        assert(s@.take(m as int) =~= prefix@);
    }
    true
}

/// The default linker symbol for an export: the export name with `:` and `.`
/// mangled to `_`, prefixed by the crate name when it is not already, then
/// by `otter_`.
pub fn default_symbol(crate_name: &str, export_name: &str) -> (r: String)
    ensures
        spec_starts_with(r@, "otter_"@),
{
    let n = export_name.unicode_len();
    let mut base = String::new();
    let mut i: usize = 0;
    while i < n
        invariant
            i <= n,
            n == export_name@.len(),
            base@.len() == i,
        decreases n - i,
    {
        let c = export_name.get_char(i);
        if c == ':' || c == '.' {
            push_char(&mut base, '_');
        } else {
            push_char(&mut base, c);
        }
        i = i + 1;
    }
    let mut wanted_prefix = String::from_str(crate_name);
    wanted_prefix.append("_");
    if !starts_with(base.as_str(), wanted_prefix.as_str()) {
        let mut prefixed = String::from_str(crate_name);
        prefixed.append("_");
        prefixed.append(base.as_str());
        base = prefixed;
    }
    let mut out = String::from_str("otter_");
    out.append(base.as_str());
    proof {
        reveal_strlit("otter_");
        assert(out@.take(6) =~= "otter_"@);
    }
    out
}

/// Joins a relative dependency path onto the metadata directory; absolute
/// paths pass through. The embedding program canonicalizes the result
/// against the file system.
pub fn resolve_dependency_path(base_dir: &str, path: String) -> (r: String)
    ensures
        path@.len() > 0 && path@[0] == '/' ==> r@ == path@,
        !(path@.len() > 0 && path@[0] == '/') ==> r@ == base_dir@ + "/"@ + path@,
{
    if path.unicode_len() > 0 && path.as_str().get_char(0) == '/' {
        path
    } else {
        let mut r = String::from_str(base_dir);
        r.append("/");
        r.append(path.as_str());
        r
    }
}

impl DependencyConfig {
    /// Normalizes a raw dependency stanza; a missing stanza defaults to the
    /// crate's own name with default features.
    pub fn from_raw(crate_name: &str, base_dir: &str, raw: Option<RawDependency>) -> (r: Self)
        ensures
            raw is None ==> {
                &&& r.name@ == crate_name@
                &&& r.version is None
                &&& r.path is None
                &&& r.features@.len() == 0
                &&& r.default_features
            },
    {
        match raw {
            Some(raw) => {
                let path = match raw.path {
                    Some(p) => Some(resolve_dependency_path(base_dir, p)),
                    None => None,
                };
                let name = match raw.name {
                    Some(n) => n,
                    None => String::from_str(crate_name),
                };
                DependencyConfig {
                    name,
                    version: raw.version,
                    path,
                    features: raw.features,
                    default_features: raw.default_features,
                }
            },
            None => DependencyConfig {
                name: String::from_str(crate_name),
                version: None,
                path: None,
                features: Vec::new(),
                default_features: true,
            },
        }
    }
}

impl FunctionEntry {
    /// Normalizes a raw function stanza: every type identifier must read as
    /// an FFI type, a missing symbol defaults to the mangled export name,
    /// and a call kind of `expr` without an expression is an error.
    pub fn try_into_spec(self, dependency: &DependencyConfig) -> (r: Result<FunctionSpec, String>)
        ensures
            r matches Ok(f) ==> f.name@ == self.name@,
    {
        let mut params: Vec<FfiType> = Vec::new();
        let np = self.params.len();
        let mut i: usize = 0;
        while i < np
            invariant
                i <= np,
                np == self.params@.len(),
            decreases np - i,
        {
            match parse_type(self.params[i].as_str()) {
                Ok(t) => {
                    params.push(t);
                },
                Err(_) => {
                    return Err(type_error(
                        dependency.name.as_str(),
                        self.name.as_str(),
                        self.params[i].as_str(),
                    ));
                },
            }
            i = i + 1;
        }
        let result = match parse_type(self.result.as_str()) {
            Ok(t) => t,
            Err(_) => {
                return Err(type_error(
                    dependency.name.as_str(),
                    self.name.as_str(),
                    self.result.as_str(),
                ));
            },
        };
        let symbol = match self.symbol {
            Some(s) => s,
            None => default_symbol(dependency.name.as_str(), self.name.as_str()),
        };
        let call = match self.call_expr {
            Some(expr) => CallTemplate::Expr(expr),
            None => match self.call_kind {
                CallKind::Direct => CallTemplate::Direct,
                CallKind::ResultCall => CallTemplate::ResultCall,
                CallKind::Expr => {
                    let mut m = String::from_str(
                        "call kind set to expression but no expression provided for ",
                    );
                    m.append(dependency.name.as_str());
                    m.append(":");
                    m.append(self.name.as_str());
                    return Err(m);
                },
            },
        };
        Ok(FunctionSpec {
            name: self.name,
            symbol,
            params,
            result,
            doc: self.doc,
            rust_path: self.rust_path,
            call,
        })
    }
}

impl BridgeMetadata {
    /// Normalizes a whole raw document for one crate.
    pub fn from_raw(
        crate_name: &str,
        base_dir: &str,
        raw_dependency: Option<RawDependency>,
        raw_functions: Vec<FunctionEntry>,
    ) -> (r: Result<Self, String>)
        ensures
            r matches Ok(m) ==> m.crate_name@ == crate_name@,
    {
        let dependency = DependencyConfig::from_raw(crate_name, base_dir, raw_dependency);
        let mut functions: Vec<FunctionSpec> = Vec::new();
        let mut entries = raw_functions;
        while entries.len() > 0
            invariant
                true,
            decreases entries@.len(),
        {
            let entry = entries.remove(0);
            match entry.try_into_spec(&dependency) {
                Ok(f) => {
                    functions.push(f);
                },
                Err(e) => {
                    return Err(e);
                },
            }
        }
        Ok(BridgeMetadata { crate_name: String::from_str(crate_name), dependency, functions })
    }
}

} // verus!
