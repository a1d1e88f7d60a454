//! Cache metadata: one record per stored artifact, persisted as a
//! human-readable text document of `name: value` lines next to the artifact.
//! Unknown fields are ignored on read; a missing required field makes the
//! document unreadable and the cache entry counts as absent.
//!
//! The lookup rule: a hit needs both a readable metadata document and the
//! artifact present at the recorded path; anything else is a miss.

use vstd::prelude::*;

use crate::cache::CacheBuildOptions;
use crate::strutil::{push_char, str_eq};

verus! {

/// One record per stored artifact. Paths are carried as text; the creation
/// time is milliseconds since the epoch.
#[derive(Debug, Clone)]
pub struct CacheMetadata {
    pub key: String,
    pub created_at_ms: u64,
    pub compiler_version: String,
    pub llvm_version: Option<String>,
    pub source: String,
    pub imports: Vec<String>,
    pub binary_path: String,
    pub binary_size: u64,
    pub build_time_ms: u64,
    pub options: CacheBuildOptions,
    pub linked_crates: Vec<String>,
}

pub open spec fn spec_digit_char(v: int) -> char {
    if v == 0 { '0' } else if v == 1 { '1' } else if v == 2 { '2' } else if v == 3 { '3' }
    else if v == 4 { '4' } else if v == 5 { '5' } else if v == 6 { '6' } else if v == 7 { '7' }
    else if v == 8 { '8' } else { '9' }
}

/// The decimal rendering of a number, most significant digit first.
pub open spec fn spec_dec_string(n: nat) -> Seq<char>
    decreases n,
{
    if n < 10 {
        seq![spec_digit_char(n as int)]
    } else {
        spec_dec_string(n / 10).push(spec_digit_char((n % 10) as int))
    }
}

fn digit_char_of(v: u64) -> (r: char)
    requires
        v < 10,
    ensures
        r == spec_digit_char(v as int),
{
    if v == 0 { '0' } else if v == 1 { '1' } else if v == 2 { '2' } else if v == 3 { '3' }
    else if v == 4 { '4' } else if v == 5 { '5' } else if v == 6 { '6' } else if v == 7 { '7' }
    else if v == 8 { '8' } else { '9' }
}

/// Renders a number in decimal.
pub fn u64_to_string(n: u64) -> (r: String)
    ensures
        r@ == spec_dec_string(n as nat),
    decreases n,
{
    if n < 10 {
        let mut s = String::new();
        push_char(&mut s, digit_char_of(n));
        s
    } else {
        let mut s = u64_to_string(n / 10);
        push_char(&mut s, digit_char_of(n % 10));
        s
    }
}

pub open spec fn spec_is_digit(c: char) -> bool {
    48 <= c as u32 && c as u32 <= 57
}

pub open spec fn spec_all_digits(s: Seq<char>) -> bool {
    forall|i: int| 0 <= i < s.len() ==> spec_is_digit(s[i])
}

/// The value of a decimal digit string.
pub open spec fn spec_dec_val(s: Seq<char>) -> int
    decreases s.len(),
{
    if s.len() == 0 {
        0
    } else {
        spec_dec_val(s.drop_last()) * 10 + (s.last() as u32 - 48)
    }
}

proof fn lemma_dec_val_nonneg(s: Seq<char>)
    requires
        spec_all_digits(s),
    ensures
        spec_dec_val(s) >= 0,
    decreases s.len(),
{
    if s.len() > 0 {
        assert(spec_all_digits(s.drop_last()));
        lemma_dec_val_nonneg(s.drop_last());
    }
}

proof fn lemma_dec_val_grows(s: Seq<char>, i: int)
    requires
        0 <= i <= s.len(),
        spec_all_digits(s.subrange(0, i)),
        spec_dec_val(s.subrange(0, i)) > u64::MAX,
    ensures
        !spec_all_digits(s) || spec_dec_val(s) > u64::MAX,
    decreases s.len() - i,
{
    if i < s.len() {
        if spec_is_digit(s[i]) {
            let pre = s.subrange(0, i);
            let pre1 = s.subrange(0, i + 1);
            assert(pre1.drop_last() =~= pre);
            assert(pre1.last() == s[i]);
            assert(spec_all_digits(pre1));
            lemma_dec_val_grows(s, i + 1);
        } else {
            assert(!spec_all_digits(s));
        }
    } else {
        assert(s.subrange(0, i) =~= s);
    }
}

/// Reads a decimal number exactly; an empty text, a non-digit character or a
/// value beyond the machine range gives `None`.
pub fn parse_u64(s: &str) -> (r: Option<u64>)
    ensures
        match r {
            Some(v) => s@.len() > 0 && spec_all_digits(s@) && v == spec_dec_val(s@),
            None => s@.len() == 0 || !spec_all_digits(s@) || spec_dec_val(s@) > u64::MAX,
        },
{
    let n = s.unicode_len();
    if n == 0 {
        return None;
    }
    let mut acc: u64 = 0;
    let mut i: usize = 0;
    proof {
        assert(s@.subrange(0, 0) =~= Seq::<char>::empty());
    }
    while i < n
        invariant
            i <= n,
            n == s@.len(),
            spec_all_digits(s@.subrange(0, i as int)),
            acc == spec_dec_val(s@.subrange(0, i as int)),
        decreases n - i,
    {
        let c = s.get_char(i);
        let u = c as u32;
        if !(48 <= u && u <= 57) {
            return None;
        }
        let d: u64 = (u - 48) as u64;
        proof {
            assert(s@.subrange(0, i as int + 1).drop_last() =~= s@.subrange(0, i as int));
            assert(s@.subrange(0, i as int + 1).last() == s@[i as int]);
            lemma_dec_val_nonneg(s@.subrange(0, i as int));
        }
        if acc > (u64::MAX - d) / 10 {
            proof {
                assert(spec_dec_val(s@.subrange(0, i as int + 1)) > u64::MAX);
                lemma_dec_val_grows(s@, i as int + 1);
            }
            return None;
        }
        acc = acc * 10 + d;
        i = i + 1;
    }
    proof {
        assert(s@.subrange(0, n as int) =~= s@);
    }
    Some(acc)
}

/// Strings that may stand in a document value: free of line terminators.
pub open spec fn line_free(s: Seq<char>) -> bool {
    forall|i: int| 0 <= i < s.len() ==> s[i] != '\n'
}

impl CacheMetadata {
    /// Every text field is free of line terminators, so the rendering can be
    /// read back line by line.
    pub open spec fn wf(&self) -> bool {
        &&& line_free(self.key@)
        &&& line_free(self.compiler_version@)
        &&& (self.llvm_version matches Some(v) ==> line_free(v@))
        &&& line_free(self.source@)
        &&& (forall|i: int| 0 <= i < self.imports@.len()
            ==> line_free((#[trigger] self.imports@[i])@))
        &&& line_free(self.binary_path@)
        &&& (forall|i: int| 0 <= i < self.linked_crates@.len()
            ==> line_free((#[trigger] self.linked_crates@[i])@))
    }
}

fn append_field(out: &mut String, name: &str, value: &str)
    ensures
        final(out)@ == old(out)@ + spec_field(name@, value@),
{
    out.append(name);
    out.append(": ");
    out.append(value);
    out.append("\n");
}

/// One document line: `name: value` and its terminator.
pub open spec fn spec_field(name: Seq<char>, value: Seq<char>) -> Seq<char> {
    name + ": "@ + value + "\n"@
}

/// The `import` lines of the document, one per import, in order.
pub open spec fn spec_import_lines(imports: Seq<String>) -> Seq<char>
    decreases imports.len(),
{
    if imports.len() == 0 {
        Seq::empty()
    } else {
        spec_import_lines(imports.drop_last()) + spec_field("import"@, imports.last()@)
    }
}

/// The `linked_crate` lines of the document, one per crate, in order.
pub open spec fn spec_crate_lines(crates: Seq<String>) -> Seq<char>
    decreases crates.len(),
{
    if crates.len() == 0 {
        Seq::empty()
    } else {
        spec_crate_lines(crates.drop_last()) + spec_field("linked_crate"@, crates.last()@)
    }
}

/// The whole document: every field of the record in a fixed order, the
/// toolchain version line only when one is recorded.
pub open spec fn spec_render_metadata(m: CacheMetadata) -> Seq<char> {
    spec_field("key"@, m.key@)
        + spec_field("created_at_ms"@, spec_dec_string(m.created_at_ms as nat))
        + spec_field("compiler_version"@, m.compiler_version@)
        + (match m.llvm_version {
            Some(v) => spec_field("llvm_version"@, v@),
            None => Seq::empty(),
        })
        + spec_field("source"@, m.source@)
        + spec_import_lines(m.imports@)
        + spec_field("binary_path"@, m.binary_path@)
        + spec_field("binary_size"@, spec_dec_string(m.binary_size as nat))
        + spec_field("build_time_ms"@, spec_dec_string(m.build_time_ms as nat))
        + spec_field("release"@, crate::cache::spec_bool_text(m.options.release))
        + spec_field("lto"@, crate::cache::spec_bool_text(m.options.lto))
        + spec_field("emit_ir"@, crate::cache::spec_bool_text(m.options.emit_ir))
        + spec_crate_lines(m.linked_crates@)
}

/// Renders the record as a text document, one `name: value` line per field;
/// list fields repeat their line per element, in order.
pub fn render_metadata(m: &CacheMetadata) -> (r: String)
    ensures
        r@ == spec_render_metadata(*m),
{
    let mut out = String::new();
    append_field(&mut out, "key", m.key.as_str());
    let created = u64_to_string(m.created_at_ms);
    append_field(&mut out, "created_at_ms", created.as_str());
    append_field(&mut out, "compiler_version", m.compiler_version.as_str());
    match &m.llvm_version {
        Some(v) => { append_field(&mut out, "llvm_version", v.as_str()); },
        None => {},
    }
    append_field(&mut out, "source", m.source.as_str());
    let ghost head = out@;
    let mut i: usize = 0;
    let n = m.imports.len();
    proof {
        assert(m.imports@.subrange(0, 0) =~= Seq::<String>::empty());
        assert(out@ =~= head + spec_import_lines(m.imports@.subrange(0, 0)));
    }
    while i < n
        invariant
            i <= n,
            n == m.imports@.len(),
            out@ == head + spec_import_lines(m.imports@.subrange(0, i as int)),
        decreases n - i,
    {
        append_field(&mut out, "import", m.imports[i].as_str());
        i = i + 1;
        proof {
            let pre = m.imports@.subrange(0, i as int);
            assert(pre.drop_last() =~= m.imports@.subrange(0, i as int - 1));
            assert(pre.last() == m.imports@[i as int - 1]);
            assert(out@ =~= head + spec_import_lines(pre));
        }
    }
    proof {
        assert(m.imports@.subrange(0, n as int) =~= m.imports@);
    }
    append_field(&mut out, "binary_path", m.binary_path.as_str());
    let size = u64_to_string(m.binary_size);
    append_field(&mut out, "binary_size", size.as_str());
    let bt = u64_to_string(m.build_time_ms);
    append_field(&mut out, "build_time_ms", bt.as_str());
    append_field(&mut out, "release", crate::cache::bool_text(m.options.release));
    append_field(&mut out, "lto", crate::cache::bool_text(m.options.lto));
    append_field(&mut out, "emit_ir", crate::cache::bool_text(m.options.emit_ir));
    let ghost head2 = out@;
    let mut j: usize = 0;
    let k = m.linked_crates.len();
    proof {
        assert(m.linked_crates@.subrange(0, 0) =~= Seq::<String>::empty());
        assert(out@ =~= head2 + spec_crate_lines(m.linked_crates@.subrange(0, 0)));
    }
    while j < k
        invariant
            j <= k,
            k == m.linked_crates@.len(),
            out@ == head2 + spec_crate_lines(m.linked_crates@.subrange(0, j as int)),
        decreases k - j,
    {
        append_field(&mut out, "linked_crate", m.linked_crates[j].as_str());
        j = j + 1;
        proof {
            let pre = m.linked_crates@.subrange(0, j as int);
            assert(pre.drop_last() =~= m.linked_crates@.subrange(0, j as int - 1));
            assert(pre.last() == m.linked_crates@[j as int - 1]);
            assert(out@ =~= head2 + spec_crate_lines(pre));
        }
    }
    proof {
        assert(m.linked_crates@.subrange(0, k as int) =~= m.linked_crates@);
        assert(out@ =~= spec_render_metadata(*m));
    }
    out
}

/// Splits a document into its lines, dropping the terminators.
fn split_lines(text: &str) -> (r: Vec<String>) {
    let chars = crate::strutil::chars_of(text);
    let n = chars.len();
    let mut lines: Vec<String> = Vec::new();
    let mut start: usize = 0;
    let mut i: usize = 0;
    while i < n
        invariant
            start <= i <= n,
            n == chars@.len(),
        decreases n - i,
    {
        if chars[i] == '\n' {
            lines.push(crate::strutil::chars_to_string(&chars, start, i));
            start = i + 1;
        }
        i = i + 1;
    }
    if start < n {
        lines.push(crate::strutil::chars_to_string(&chars, start, n));
    }
    lines
}

/// Splits a `name: value` line at the first separator.
fn split_field(line: &String) -> (r: Option<(String, String)>) {
    let chars = crate::strutil::chars_of(line.as_str());
    let n = chars.len();
    let mut i: usize = 0;
    while i < n && i + 1 < n
        invariant
            i <= n,
            n == chars@.len(),
        decreases n - i,
    {
        if chars[i] == ':' && chars[i + 1] == ' ' {
            let name = crate::strutil::chars_to_string(&chars, 0, i);
            let value = crate::strutil::chars_to_string(&chars, i + 2, n);
            return Some((name, value));
        }
        i = i + 1;
    }
    None
}

/// Reads a metadata document back. Unknown fields are ignored; a missing
/// required field or an unreadable number makes the whole document
/// unreadable.
pub fn parse_metadata(text: &str) -> (r: Option<CacheMetadata>) {
    let lines = split_lines(text);
    let mut key: Option<String> = None;
    let mut created_at_ms: Option<u64> = None;
    let mut compiler_version: Option<String> = None;
    let mut llvm_version: Option<String> = None;
    let mut source: Option<String> = None;
    let mut imports: Vec<String> = Vec::new();
    let mut binary_path: Option<String> = None;
    let mut binary_size: Option<u64> = None;
    let mut build_time_ms: Option<u64> = None;
    let mut release: Option<bool> = None;
    let mut lto: Option<bool> = None;
    let mut emit_ir: Option<bool> = None;
    let mut linked_crates: Vec<String> = Vec::new();

    let n = lines.len();
    let mut i: usize = 0;
    while i < n
        invariant
            i <= n,
            n == lines@.len(),
        decreases n - i,
    {
        match split_field(&lines[i]) {
            Some((name, value)) => {
                if str_eq(name.as_str(), "key") {
                    key = Some(value);
                } else if str_eq(name.as_str(), "created_at_ms") {
                    match parse_u64(value.as_str()) {
                        Some(v) => { created_at_ms = Some(v); },
                        None => { return None; },
                    }
                } else if str_eq(name.as_str(), "compiler_version") {
                    compiler_version = Some(value);
                } else if str_eq(name.as_str(), "llvm_version") {
                    llvm_version = Some(value);
                } else if str_eq(name.as_str(), "source") {
                    source = Some(value);
                } else if str_eq(name.as_str(), "import") {
                    imports.push(value);
                } else if str_eq(name.as_str(), "binary_path") {
                    binary_path = Some(value);
                } else if str_eq(name.as_str(), "binary_size") {
                    match parse_u64(value.as_str()) {
                        Some(v) => { binary_size = Some(v); },
                        None => { return None; },
                    }
                } else if str_eq(name.as_str(), "build_time_ms") {
                    match parse_u64(value.as_str()) {
                        Some(v) => { build_time_ms = Some(v); },
                        None => { return None; },
                    }
                } else if str_eq(name.as_str(), "release") {
                    release = Some(str_eq(value.as_str(), "true"));
                } else if str_eq(name.as_str(), "lto") {
                    lto = Some(str_eq(value.as_str(), "true"));
                } else if str_eq(name.as_str(), "emit_ir") {
                    emit_ir = Some(str_eq(value.as_str(), "true"));
                } else if str_eq(name.as_str(), "linked_crate") {
                    linked_crates.push(value);
                }
                // Unknown fields are ignored for forward compatibility.
            },
            None => {},
        }
        i = i + 1;
    }

    let key = match key { Some(v) => v, None => { return None; } };
    let created_at_ms = match created_at_ms { Some(v) => v, None => { return None; } };
    let compiler_version = match compiler_version { Some(v) => v, None => { return None; } };
    let source = match source { Some(v) => v, None => { return None; } };
    let binary_path = match binary_path { Some(v) => v, None => { return None; } };
    let binary_size = match binary_size { Some(v) => v, None => { return None; } };
    let build_time_ms = match build_time_ms { Some(v) => v, None => { return None; } };
    let release = match release { Some(v) => v, None => { return None; } };
    let lto = match lto { Some(v) => v, None => { return None; } };
    let emit_ir = match emit_ir { Some(v) => v, None => { return None; } };
    Some(CacheMetadata {
        key,
        created_at_ms,
        compiler_version,
        llvm_version,
        source,
        imports,
        binary_path,
        binary_size,
        build_time_ms,
        options: CacheBuildOptions { release, lto, emit_ir },
        linked_crates,
    })
}

/// What a lookup reports.
#[derive(Debug)]
pub enum CacheLookup {
    /// The metadata document was readable and the artifact is on disk at the
    /// recorded path.
    Hit(CacheMetadata),
    Miss,
}

/// The lookup rule. `metadata` is the parsed document at the key's metadata
/// path, if one was readable; `artifact_exists` reports whether the file at
/// the metadata's recorded artifact path is on disk. A hit is reported only
/// when both hold, so the artifact at the returned path exists whenever
/// lookup reports a hit; stale metadata whose artifact is gone reads as a
/// miss.
pub fn lookup_decision(metadata: Option<CacheMetadata>, artifact_exists: bool) -> (r: CacheLookup)
    ensures
        r matches CacheLookup::Hit(m) ==> {
            &&& artifact_exists
            &&& metadata matches Some(mm) && m == mm
        },
        r is Miss <==> (metadata is None || !artifact_exists),
{
    match metadata {
        Some(m) => {
            if artifact_exists {
                CacheLookup::Hit(m)
            } else {
                CacheLookup::Miss
            }
        },
        None => CacheLookup::Miss,
    }
}

/// The artifact path for a key: `<binaries>/<key><platform suffix>`.
pub fn binary_path_for(binaries_dir: &str, key: &str, suffix: &str) -> (r: String)
    ensures
        r@ == binaries_dir@ + "/"@ + key@ + suffix@,
{
    let mut s = String::from_str(binaries_dir);
    s.append("/");
    s.append(key);
    s.append(suffix);
    s
}

/// The metadata path for a key: `<metadata>/<key>.yaml`.
pub fn metadata_path_for(metadata_dir: &str, key: &str) -> (r: String)
    ensures
        r@ == metadata_dir@ + "/"@ + key@ + ".yaml"@,
{
    let mut s = String::from_str(metadata_dir);
    s.append("/");
    s.append(key);
    s.append(".yaml");
    s
}

} // verus!
