//! The compilation cache: content-addressed fingerprinting of source +
//! inputs + toolchain options, and the lookup rule over artifact and
//! metadata.
//!
//! The fingerprint feeds, in order: for each input (sorted by path and
//! deduplicated) the path's characters and the SHA-1 digest of the file's
//! bytes; then the build-options fingerprint string; then the compiler
//! version string. The hex digest of that stream is the cache key. Reading
//! and writing the disk is the embedding program's part: this module computes
//! over paths and file bytes handed in as plain values.

use vstd::prelude::*;

use crate::strutil::{clone_string, push_char, str_eq};

verus! {

/// The SHA-1 digest of a byte stream. The digest depends on the bytes alone.
pub uninterp spec fn sha1_of(data: Seq<u8>) -> Seq<u8>;

/// Relies on sha1::Sha1::digest: a twenty-byte digest of the input, a
/// function of the input bytes alone.
#[verifier::external_body]
fn sha1_digest(data: &[u8]) -> (r: Vec<u8>)
    ensures
        r@ == sha1_of(data@),
        r@.len() == 20,
{
    <sha1::Sha1 as sha1::Digest>::digest(data).to_vec()
}

/// A content-addressed cache key: the hex digest of the fingerprint stream.
#[derive(Debug, Clone, PartialEq, Eq)]
pub struct CacheKey(pub String);

impl CacheKey {
    pub fn as_str(&self) -> (r: &str)
        ensures
            r@ == self.0@,
    {
        self.0.as_str()
    }
}

/// A primary source path plus an ordered sequence of import paths. Paths are
/// carried as the canonicalized texts the embedding program resolved.
#[derive(Debug, Clone)]
pub struct CompilationInputs {
    pub primary: String,
    pub imports: Vec<String>,
}

impl CompilationInputs {
    pub fn new(primary: String, imports: Vec<String>) -> (r: Self)
        ensures
            r.primary == primary,
            r.imports == imports,
    {
        Self { primary, imports }
    }

    /// The primary path followed by the imports, in order.
    pub fn all_files(&self) -> (r: Vec<String>)
        ensures
            r@.len() == 1 + self.imports@.len(),
            r@[0]@ == self.primary@,
            forall|i: int| 0 <= i < self.imports@.len()
                ==> r@[i + 1]@ == (#[trigger] self.imports@[i])@,
    {
        let mut files: Vec<String> = Vec::new();
        files.push(clone_string(&self.primary));
        let n = self.imports.len();
        let mut i: usize = 0;
        while i < n
            invariant
                i <= n,
                n == self.imports@.len(),
                files@.len() == 1 + i,
                files@[0]@ == self.primary@,
                forall|k: int| 0 <= k < i ==> files@[k + 1]@ == (#[trigger] self.imports@[k])@,
            decreases n - i,
        {
            files.push(clone_string(&self.imports[i]));
            i = i + 1;
        }
        files
    }
}

/// The build options that take part in the fingerprint.
#[derive(Debug, Clone, Copy, PartialEq, Eq, Structural)]
pub struct CacheBuildOptions {
    pub release: bool,
    pub lto: bool,
    pub emit_ir: bool,
}

/// The options' stable text rendering.
pub open spec fn spec_options_fingerprint(o: CacheBuildOptions) -> Seq<char> {
    "release="@ + spec_bool_text(o.release) + "::lto="@ + spec_bool_text(o.lto)
        + "::emit_ir="@ + spec_bool_text(o.emit_ir)
}

pub open spec fn spec_bool_text(b: bool) -> Seq<char> {
    if b { "true"@ } else { "false"@ }
}

pub fn bool_text(b: bool) -> (r: &'static str)
    ensures
        r@ == spec_bool_text(b),
{
    if b { "true" } else { "false" }
}

impl CacheBuildOptions {
    /// A stable text rendering of the fields, fed into the fingerprint.
    pub fn fingerprint(&self) -> (r: String)
        ensures
            r@ == spec_options_fingerprint(*self),
    {
        let mut s = String::from_str("release=");
        s.append(bool_text(self.release));
        s.append("::lto=");
        s.append(bool_text(self.lto));
        s.append("::emit_ir=");
        s.append(bool_text(self.emit_ir));
        s
    }
}

/// Distinct options render to distinct fingerprint strings, and no rendering
/// is a proper prefix of another: appending equal suffixes keeps them apart.
pub proof fn lemma_options_fingerprint_injective(o1: CacheBuildOptions, o2: CacheBuildOptions)
    requires
        o1 != o2,
    ensures
        spec_options_fingerprint(o1) != spec_options_fingerprint(o2),
{
    reveal_strlit("release=");
    reveal_strlit("::lto=");
    reveal_strlit("::emit_ir=");
    reveal_strlit("true");
    reveal_strlit("false");
    assert("release="@.len() == 8);
    assert("::lto="@.len() == 6);
    assert("::emit_ir="@.len() == 10);
    assert("true"@.len() == 4);
    assert("false"@.len() == 5);
    assert("true"@[0] == 't');
    assert("false"@[0] == 'f');
    let s1 = spec_options_fingerprint(o1);
    let s2 = spec_options_fingerprint(o2);
    if o1.release != o2.release {
        assert(s1[8] != s2[8]);
    } else if o1.lto != o2.lto {
        let off1: int = 8 + spec_bool_text(o1.release).len() as int + 6;
        assert(s1[off1] != s2[off1]);
    } else {
        let off2: int = 8 + spec_bool_text(o1.release).len() as int + 6
            + spec_bool_text(o1.lto).len() as int + 10;
        assert(s1[off2] != s2[off2]);
    }
}

/// A path or version string as the bytes the hash reads: its UTF-8
/// encoding. The encoding is injective, so distinct texts feed distinct
/// bytes.
pub open spec fn spec_text_bytes(s: Seq<char>) -> Seq<u8> {
    vstd::utf8::encode_utf8(s)
}

fn text_bytes(s: &str, out: &mut Vec<u8>)
    ensures
        final(out)@ == old(out)@ + spec_text_bytes(s@),
{
    let mut bytes = s.as_bytes_vec();
    out.append(&mut bytes);
}

/// UTF-8 encoding is injective: equal byte encodings come from equal texts.
proof fn lemma_text_bytes_injective(a: Seq<char>, b: Seq<char>)
    requires
        spec_text_bytes(a) == spec_text_bytes(b),
    ensures
        a == b,
{
    vstd::utf8::encode_utf8_decode_utf8(a);
    vstd::utf8::encode_utf8_decode_utf8(b);
}

/// One fingerprint record: the path's bytes followed by the content digest.
pub open spec fn spec_record(path: Seq<char>, content: Seq<u8>) -> Seq<u8> {
    spec_text_bytes(path) + sha1_of(content)
}

/// The whole stream the key is hashed from: each sorted, deduplicated input's
/// record, then the options fingerprint, then the compiler version.
pub open spec fn spec_fingerprint_stream(
    inputs: Seq<(Seq<char>, Seq<u8>)>,
    options: CacheBuildOptions,
    version: Seq<char>,
) -> Seq<u8>
    decreases inputs.len(),
{
    if inputs.len() == 0 {
        spec_text_bytes(spec_options_fingerprint(options)) + spec_text_bytes(version)
    } else {
        spec_record(inputs.first().0, inputs.first().1)
            + spec_fingerprint_stream(inputs.drop_first(), options, version)
    }
}

/// Lower-case hex digits.
pub open spec fn spec_hex_digit(v: int) -> char {
    if v == 0 { '0' } else if v == 1 { '1' } else if v == 2 { '2' } else if v == 3 { '3' }
    else if v == 4 { '4' } else if v == 5 { '5' } else if v == 6 { '6' } else if v == 7 { '7' }
    else if v == 8 { '8' } else if v == 9 { '9' } else if v == 10 { 'a' } else if v == 11 { 'b' }
    else if v == 12 { 'c' } else if v == 13 { 'd' } else if v == 14 { 'e' } else { 'f' }
}

/// The lower-case hex rendering of bytes, two digits per byte.
pub open spec fn spec_hex(data: Seq<u8>) -> Seq<char>
    decreases data.len(),
{
    if data.len() == 0 {
        Seq::empty()
    } else {
        spec_hex(data.drop_last())
            + seq![
                spec_hex_digit(data.last() as int / 16),
                spec_hex_digit(data.last() as int % 16),
            ]
    }
}

fn hex_digit(v: u8) -> (r: char)
    requires
        v < 16,
    ensures
        r == spec_hex_digit(v as int),
{
    if v == 0 { '0' } else if v == 1 { '1' } else if v == 2 { '2' } else if v == 3 { '3' }
    else if v == 4 { '4' } else if v == 5 { '5' } else if v == 6 { '6' } else if v == 7 { '7' }
    else if v == 8 { '8' } else if v == 9 { '9' } else if v == 10 { 'a' } else if v == 11 { 'b' }
    else if v == 12 { 'c' } else if v == 13 { 'd' } else if v == 14 { 'e' } else { 'f' }
}

/// Hex-encodes bytes, lower case.
pub fn hex_encode(data: &Vec<u8>) -> (r: String)
    ensures
        r@ == spec_hex(data@),
{
    let mut s = String::new();
    let n = data.len();
    let mut i: usize = 0;
    proof {
        assert(data@.subrange(0, 0) =~= Seq::<u8>::empty());
    }
    while i < n
        invariant
            i <= n,
            n == data@.len(),
            s@ == spec_hex(data@.subrange(0, i as int)),
        decreases n - i,
    {
        let b = data[i];
        push_char(&mut s, hex_digit(b / 16));
        push_char(&mut s, hex_digit(b % 16));
        i = i + 1;
        proof {
            assert(data@.subrange(0, i as int).drop_last() =~= data@.subrange(0, i as int - 1));
            assert(data@.subrange(0, i as int).last() == data@[i as int - 1]);
            assert(s@ =~= spec_hex(data@.subrange(0, i as int)));
        }
    }
    proof {
        assert(data@.subrange(0, n as int) =~= data@);
    }
    s
}

/// The hex SHA-1 digest of a byte vector.
pub fn sha1_hex(data: &Vec<u8>) -> (r: String)
    ensures
        r@ == spec_hex(sha1_of(data@)),
{
    let digest = sha1_digest(data.as_slice());
    hex_encode(&digest)
}

/// The cache key of a fingerprint stream.
pub open spec fn spec_cache_key(
    inputs: Seq<(Seq<char>, Seq<u8>)>,
    options: CacheBuildOptions,
    version: Seq<char>,
) -> Seq<char> {
    spec_hex(sha1_of(spec_fingerprint_stream(inputs, options, version)))
}

/// Computes the cache key over already-read inputs: `files` pairs each
/// canonicalized path with the file's bytes, sorted by path and deduplicated
/// by the caller's resolution step.
pub fn fingerprint_from_contents(
    files: &Vec<(String, Vec<u8>)>,
    options: &CacheBuildOptions,
    compiler_version: &str,
) -> (r: CacheKey)
    ensures
        r.0@ == spec_cache_key(
            Seq::new(files@.len(), |i: int| (files@[i].0@, files@[i].1@)),
            *options,
            compiler_version@,
        ),
{
    let ghost gin = Seq::new(files@.len(), |i: int| (files@[i].0@, files@[i].1@));
    let mut stream: Vec<u8> = Vec::new();
    let n = files.len();
    let mut i: usize = 0;
    proof {
        assert(gin.skip(0) =~= gin);
        assert(stream@ + spec_fingerprint_stream(gin, *options, compiler_version@)
            =~= spec_fingerprint_stream(gin, *options, compiler_version@));
    }
    while i < n
        invariant
            i <= n,
            n == files@.len(),
            gin == Seq::new(files@.len(), |k: int| (files@[k].0@, files@[k].1@)),
            stream@ + spec_fingerprint_stream(gin.skip(i as int), *options, compiler_version@)
                == spec_fingerprint_stream(gin, *options, compiler_version@),
        decreases n - i,
    {
        let entry = &files[i];
        text_bytes(entry.0.as_str(), &mut stream);
        let mut digest = sha1_digest(entry.1.as_slice());
        stream.append(&mut digest);
        proof {
            assert(gin.skip(i as int).first() == gin[i as int]);
            assert(gin.skip(i as int).drop_first() =~= gin.skip(i as int + 1));
            assert(spec_fingerprint_stream(gin.skip(i as int), *options, compiler_version@)
                == spec_record(gin[i as int].0, gin[i as int].1)
                    + spec_fingerprint_stream(gin.skip(i as int + 1), *options, compiler_version@));
        }
        i = i + 1;
        proof {
            assert(stream@ + spec_fingerprint_stream(gin.skip(i as int), *options, compiler_version@)
                =~= spec_fingerprint_stream(gin, *options, compiler_version@));
        }
    }
    let opts = options.fingerprint();
    text_bytes(opts.as_str(), &mut stream);
    text_bytes(compiler_version, &mut stream);
    proof {
        assert(gin.skip(n as int).len() == 0);
        assert(stream@ =~= spec_fingerprint_stream(gin, *options, compiler_version@));
    }
    let digest = sha1_digest(stream.as_slice());
    CacheKey(hex_encode(&digest))
}

/// Two fingerprint runs over identical inputs, options and compiler version
/// yield the same key.
pub proof fn lemma_fingerprint_deterministic(
    inputs: Seq<(Seq<char>, Seq<u8>)>,
    options: CacheBuildOptions,
    version: Seq<char>,
)
    ensures
        spec_cache_key(inputs, options, version) == spec_cache_key(inputs, options, version),
{
}

/// Toggling any build option changes the bytes fed to the hash.
pub proof fn lemma_fingerprint_stream_options_sensitive(
    inputs: Seq<(Seq<char>, Seq<u8>)>,
    o1: CacheBuildOptions,
    o2: CacheBuildOptions,
    version: Seq<char>,
)
    requires
        o1 != o2,
    ensures
        spec_fingerprint_stream(inputs, o1, version)
            != spec_fingerprint_stream(inputs, o2, version),
    decreases inputs.len(),
{
    lemma_options_fingerprint_injective(o1, o2);
    if inputs.len() == 0 {
        let f1 = spec_options_fingerprint(o1);
        let f2 = spec_options_fingerprint(o2);
        lemma_options_fingerprints_no_prefix(o1, o2);
        let k = choose|k: int|
            0 <= k < f1.len() && 0 <= k < f2.len() && f1[k] != f2[k] && #[trigger] spec_true(k);
        lemma_options_texts_ascii(o1);
        lemma_options_texts_ascii(o2);
        vstd::utf8::is_ascii_chars_encode_utf8(f1);
        vstd::utf8::is_ascii_chars_encode_utf8(f2);
        assert(0 <= k < f1.len() && 0 <= k < f2.len() && f1[k] != f2[k]);
        vstd::utf8::char_u32_cast(f1[k], f1[k] as u32);
        vstd::utf8::char_u32_cast(f2[k], f2[k] as u32);
        assert(f1[k] as u32 != f2[k] as u32);
        assert((f1[k] as u32) < 128 && (f2[k] as u32) < 128);
        assert(spec_text_bytes(f1)[k] == f1[k] as u8);
        assert(spec_text_bytes(f2)[k] == f2[k] as u8);
        assert(spec_text_bytes(f1)[k] != spec_text_bytes(f2)[k]);
        assert(spec_fingerprint_stream(inputs, o1, version)[k]
            != spec_fingerprint_stream(inputs, o2, version)[k]);
    } else {
        lemma_fingerprint_stream_options_sensitive(inputs.drop_first(), o1, o2, version);
        let head = spec_record(inputs.first().0, inputs.first().1);
        let t1 = spec_fingerprint_stream(inputs.drop_first(), o1, version);
        let t2 = spec_fingerprint_stream(inputs.drop_first(), o2, version);
        if head + t1 == head + t2 {
            lemma_concat_cancel_left(head, t1, t2);
        }
    }
}

/// A trigger marker for plain integer quantifiers.
spec fn spec_true(k: int) -> bool {
    true
}

/// Concatenation with a fixed head is injective in the tail.
proof fn lemma_concat_cancel_left<T>(a: Seq<T>, b: Seq<T>, c: Seq<T>)
    requires
        a + b == a + c,
    ensures
        b == c,
{
    assert((a + b).len() == a.len() + b.len());
    assert((a + c).len() == a.len() + c.len());
    assert(b.len() == c.len());
    assert forall|i: int| 0 <= i < b.len() implies b[i] == c[i] by {
        assert(b[i] == (a + b)[a.len() + i]);
        assert(c[i] == (a + c)[a.len() + i]);
    }
    assert(b =~= c);
}

/// Bumping the compiler version changes the bytes fed to the hash: the
/// version's UTF-8 bytes stand last in the stream and the encoding is
/// injective.
pub proof fn lemma_fingerprint_stream_version_sensitive(
    inputs: Seq<(Seq<char>, Seq<u8>)>,
    options: CacheBuildOptions,
    v1: Seq<char>,
    v2: Seq<char>,
)
    requires
        v1 != v2,
    ensures
        spec_fingerprint_stream(inputs, options, v1)
            != spec_fingerprint_stream(inputs, options, v2),
    decreases inputs.len(),
{
    if spec_text_bytes(v1) == spec_text_bytes(v2) {
        lemma_text_bytes_injective(v1, v2);
    }
    if inputs.len() == 0 {
        let pre = spec_text_bytes(spec_options_fingerprint(options));
        let s1 = pre + spec_text_bytes(v1);
        let s2 = pre + spec_text_bytes(v2);
        if s1 == s2 {
            lemma_concat_cancel_left(pre, spec_text_bytes(v1), spec_text_bytes(v2));
        }
    } else {
        lemma_fingerprint_stream_version_sensitive(inputs.drop_first(), options, v1, v2);
        let head = spec_record(inputs.first().0, inputs.first().1);
        let t1 = spec_fingerprint_stream(inputs.drop_first(), options, v1);
        let t2 = spec_fingerprint_stream(inputs.drop_first(), options, v2);
        if head + t1 == head + t2 {
            lemma_concat_cancel_left(head, t1, t2);
        }
    }
}

/// Changing any input file's digest changes the bytes fed to the hash, as
/// long as the path list is unchanged: every record's length is its path
/// length plus twenty, so positions align slot by slot.
pub proof fn lemma_fingerprint_stream_digest_sensitive(
    in1: Seq<(Seq<char>, Seq<u8>)>,
    in2: Seq<(Seq<char>, Seq<u8>)>,
    options: CacheBuildOptions,
    version: Seq<char>,
    at: int,
)
    requires
        in1.len() == in2.len(),
        0 <= at < in1.len(),
        forall|i: int| 0 <= i < in1.len() ==> (#[trigger] in1[i]).0 == in2[i].0,
        forall|i: int| 0 <= i < in1.len() && i != at ==> (#[trigger] in1[i]).1 == in2[i].1,
        sha1_of(in1[at].1) != sha1_of(in2[at].1),
        sha1_of(in1[at].1).len() == 20,
        sha1_of(in2[at].1).len() == 20,
    ensures
        spec_fingerprint_stream(in1, options, version)
            != spec_fingerprint_stream(in2, options, version),
    decreases at,
{
    if at == 0 {
        let p = in1[0].0;
        let h1 = spec_record(p, in1[0].1);
        let h2 = spec_record(p, in2[0].1);
        let d1 = sha1_of(in1[0].1);
        let d2 = sha1_of(in2[0].1);
        assert(d1 != d2);
        assert(!(d1 =~= d2));
        let k = choose|k: int| !(0 <= k < 20 ==> d1[k] == d2[k]);
        assert(h1[spec_text_bytes(p).len() + k] == d1[k]);
        assert(h2[spec_text_bytes(p).len() + k] == d2[k]);
        assert(h1.len() == h2.len());
        assert(spec_fingerprint_stream(in1, options, version)[spec_text_bytes(p).len() + k]
            == d1[k]);
        assert(spec_fingerprint_stream(in2, options, version)[spec_text_bytes(p).len() + k]
            == d2[k]);
    } else {
        assert(in1.first() == in2.first());
        lemma_fingerprint_stream_digest_sensitive(
            in1.drop_first(), in2.drop_first(), options, version, at - 1,
        );
        let head = spec_record(in1.first().0, in1.first().1);
        let t1 = spec_fingerprint_stream(in1.drop_first(), options, version);
        let t2 = spec_fingerprint_stream(in2.drop_first(), options, version);
        if head + t1 == head + t2 {
            lemma_concat_cancel_left(head, t1, t2);
        }
    }
}

proof fn lemma_options_texts_ascii(o: CacheBuildOptions)
    ensures
        vstd::utf8::is_ascii_chars(spec_options_fingerprint(o)),
        forall|k: int|
            #![trigger spec_options_fingerprint(o)[k]]
            0 <= k < spec_options_fingerprint(o).len()
                ==> (spec_options_fingerprint(o)[k] as u32) < 128,
{
    reveal_strlit("release=");
    reveal_strlit("::lto=");
    reveal_strlit("::emit_ir=");
    reveal_strlit("true");
    reveal_strlit("false");
}

/// Neither of two distinct options renderings is a prefix of the other: they
/// differ at a shared index.
proof fn lemma_options_fingerprints_no_prefix(o1: CacheBuildOptions, o2: CacheBuildOptions)
    requires
        o1 != o2,
    ensures
        exists|k: int|
            0 <= k < spec_options_fingerprint(o1).len()
            && 0 <= k < spec_options_fingerprint(o2).len()
            && spec_options_fingerprint(o1)[k] != spec_options_fingerprint(o2)[k]
            && #[trigger] spec_true(k),
{
    reveal_strlit("release=");
    reveal_strlit("::lto=");
    reveal_strlit("::emit_ir=");
    reveal_strlit("true");
    reveal_strlit("false");
    assert("release="@.len() == 8);
    assert("::lto="@.len() == 6);
    assert("::emit_ir="@.len() == 10);
    assert("true"@.len() == 4);
    assert("false"@.len() == 5);
    assert("true"@[0] == 't');
    assert("false"@[0] == 'f');
    let s1 = spec_options_fingerprint(o1);
    let s2 = spec_options_fingerprint(o2);
    if o1.release != o2.release {
        assert(s1[8] != s2[8] && spec_true(8));
    } else if o1.lto != o2.lto {
        let off1: int = 8 + spec_bool_text(o1.release).len() as int + 6;
        assert(s1[off1] != s2[off1] && spec_true(off1));
    } else {
        let off2: int = 8 + spec_bool_text(o1.release).len() as int + 6
            + spec_bool_text(o1.lto).len() as int + 10;
        assert(s1[off2] != s2[off2] && spec_true(off2));
    }
}

/// Strict lexicographic order on texts, by code point.
pub open spec fn spec_str_lt(a: Seq<char>, b: Seq<char>) -> bool
    decreases a.len(),
{
    if b.len() == 0 {
        false
    } else if a.len() == 0 {
        true
    } else if a[0] != b[0] {
        (a[0] as u32) < (b[0] as u32)
    } else {
        spec_str_lt(a.drop_first(), b.drop_first())
    }
}

proof fn lemma_str_lt_connex(a: Seq<char>, b: Seq<char>)
    ensures
        spec_str_lt(a, b) || spec_str_lt(b, a) || a == b,
    decreases a.len(),
{
    if b.len() == 0 {
        if a.len() == 0 {
            assert(a =~= b);
        }
    } else if a.len() == 0 {
    } else if a[0] != b[0] {
        vstd::utf8::char_u32_cast(a[0], a[0] as u32);
        vstd::utf8::char_u32_cast(b[0], b[0] as u32);
        assert(a[0] as u32 != b[0] as u32);
    } else {
        lemma_str_lt_connex(a.drop_first(), b.drop_first());
        if a.drop_first() == b.drop_first() {
            assert(a.drop_first().len() == a.len() - 1);
            assert(b.drop_first().len() == b.len() - 1);
            assert(a.len() == b.len());
            assert forall|i: int| 0 <= i < a.len() implies a[i] == b[i] by {
                if i > 0 {
                    assert(a[i] == a.drop_first()[i - 1]);
                    assert(b[i] == b.drop_first()[i - 1]);
                }
            }
            assert(a =~= b);
        }
    }
}

proof fn lemma_str_lt_trans(a: Seq<char>, b: Seq<char>, c: Seq<char>)
    requires
        spec_str_lt(a, b),
        spec_str_lt(b, c),
    ensures
        spec_str_lt(a, c),
    decreases a.len() + b.len() + c.len(),
{
    if a.len() == 0 {
        assert(b.len() > 0);
        assert(c.len() > 0);
    } else {
        assert(b.len() > 0 && c.len() > 0);
        if a[0] == b[0] && b[0] == c[0] {
            lemma_str_lt_trans(a.drop_first(), b.drop_first(), c.drop_first());
        }
    }
}

/// Compares two texts lexicographically.
fn str_lt(a: &str, b: &str) -> (r: bool)
    ensures
        r == spec_str_lt(a@, b@),
    decreases a@.len(),
{
    let n = a.unicode_len();
    let m = b.unicode_len();
    let mut i: usize = 0;
    proof {
        assert(a@.skip(0) =~= a@);
        assert(b@.skip(0) =~= b@);
    }
    loop
        invariant
            i <= n,
            i <= m,
            n == a@.len(),
            m == b@.len(),
            spec_str_lt(a@, b@) == spec_str_lt(a@.skip(i as int), b@.skip(i as int)),
        decreases n - i,
    {
        if i >= m {
            proof {
                assert(b@.skip(i as int).len() == 0);
            }
            return false;
        }
        if i >= n {
            proof {
                assert(a@.skip(i as int).len() == 0);
                assert(b@.skip(i as int).len() > 0);
            }
            return true;
        }
        let ca = a.get_char(i);
        let cb = b.get_char(i);
        proof {
            assert(a@.skip(i as int)[0] == a@[i as int]);
            assert(b@.skip(i as int)[0] == b@[i as int]);
            assert(a@.skip(i as int).drop_first() =~= a@.skip(i as int + 1));
            assert(b@.skip(i as int).drop_first() =~= b@.skip(i as int + 1));
        }
        if ca != cb {
            return (ca as u32) < (cb as u32);
        }
        i = i + 1;
    }
}

/// Strictly increasing by path: sorted with no duplicate paths.
pub open spec fn spec_paths_sorted_unique(paths: Seq<String>) -> bool {
    forall|i: int, j: int|
        0 <= i < j < paths.len()
            ==> spec_str_lt((#[trigger] paths[i])@, (#[trigger] paths[j])@)
}

/// Whether some entry among the first `bound` reads `v`.
pub open spec fn spec_present_upto(paths: Seq<String>, bound: int, v: Seq<char>) -> bool {
    exists|k: int| 0 <= k < bound && k < paths.len() && (#[trigger] paths[k])@ == v
}

/// Whether some entry reads `v`.
pub open spec fn spec_path_present(paths: Seq<String>, v: Seq<char>) -> bool {
    spec_present_upto(paths, paths.len() as int, v)
}

/// Sorts the canonicalized input paths and drops duplicates: the result is
/// strictly increasing, every result entry came in, and every given path is
/// still found.
#[verifier::rlimit(100)]
pub fn sort_dedup_paths(paths: Vec<String>) -> (r: Vec<String>)
    ensures
        spec_paths_sorted_unique(r@),
        forall|k: int| 0 <= k < r@.len()
            ==> spec_path_present(paths@, (#[trigger] r@[k])@),
        forall|m: int| 0 <= m < paths@.len()
            ==> spec_path_present(r@, (#[trigger] paths@[m])@),
{
    let ghost orig = paths@;
    let mut rest = paths;
    let mut out: Vec<String> = Vec::new();
    let ghost mut done: int = 0;
    proof {
        assert(rest@ =~= orig.skip(0));
    }
    while rest.len() > 0
        invariant
            0 <= done <= orig.len(),
            rest@ == orig.skip(done),
            spec_paths_sorted_unique(out@),
            forall|k: int| 0 <= k < out@.len()
                ==> spec_present_upto(orig, done, (#[trigger] out@[k])@),
            forall|m: int| 0 <= m < done
                ==> spec_path_present(out@, (#[trigger] orig[m])@),
        decreases rest@.len(),
    {
        let x = rest.remove(0);
        proof {
            assert(orig.skip(done)[0] == orig[done]);
            assert(rest@ =~= orig.skip(done + 1));
        }
        // Find the insertion point: the first element not below `x`.
        let n = out.len();
        let mut p: usize = 0;
        while p < n && str_lt(out[p].as_str(), x.as_str())
            invariant
                p <= n,
                n == out@.len(),
                forall|j: int| 0 <= j < p ==> spec_str_lt((#[trigger] out@[j])@, x@),
            decreases n - p,
        {
            p = p + 1;
        }
        let duplicate = p < n && str_eq(out[p].as_str(), x.as_str());
        if duplicate {
            proof {
                assert(out@[p as int]@ == x@ && x@ == orig[done]@);
                assert(spec_path_present(out@, orig[done]@));
                done = done + 1;
            }
        } else {
            let ghost before = out@;
            out.insert(p, x);
            proof {
                assert(out@[p as int]@ == orig[done]@);
                if p < before.len() {
                    lemma_str_lt_connex(before[p as int]@, x@);
                    assert(spec_str_lt(x@, before[p as int]@));
                }
                assert forall|i: int, j: int|
                    0 <= i < j < out@.len()
                    implies spec_str_lt((#[trigger] out@[i])@, (#[trigger] out@[j])@) by {
                    if i < p && j == p {
                        assert(out@[i] == before[i]);
                    } else if i == p && j > p {
                        assert(out@[j] == before[j - 1]);
                        if j - 1 == p {
                            assert(spec_str_lt(x@, before[p as int]@));
                        } else {
                            lemma_str_lt_trans(x@, before[p as int]@, before[j - 1]@);
                        }
                    } else if i < p && j > p {
                        assert(out@[i] == before[i]);
                        assert(out@[j] == before[j - 1]);
                        if i == j - 1 {
                            assert(spec_str_lt(before[i]@, x@));
                            assert(false);
                        }
                    } else if p < i && i < j {
                        assert(out@[i] == before[i - 1]);
                        assert(out@[j] == before[j - 1]);
                    } else if i < j && j < p {
                        assert(out@[i] == before[i]);
                        assert(out@[j] == before[j]);
                    }
                }
                assert forall|k: int| 0 <= k < out@.len()
                    implies spec_present_upto(orig, done + 1, (#[trigger] out@[k])@) by {
                    if k < p {
                        assert(out@[k] == before[k]);
                    } else if k > p {
                        assert(out@[k] == before[k - 1]);
                    } else {
                        assert(out@[k]@ == orig[done]@);
                    }
                }
                assert forall|m: int| 0 <= m < done + 1
                    implies spec_path_present(out@, (#[trigger] orig[m])@) by {
                    if m < done {
                        let k0 = choose|k0: int|
                            0 <= k0 < before.len() && (#[trigger] before[k0])@ == orig[m]@;
                        if k0 < p {
                            assert(out@[k0] == before[k0]);
                            assert(out@[k0]@ == orig[m]@);
                        } else {
                            assert(out@[k0 + 1] == before[k0]);
                            assert(out@[k0 + 1]@ == orig[m]@);
                        }
                    } else {
                        assert(out@[p as int]@ == orig[m]@);
                    }
                }
                done = done + 1;
            }
        }
    }
    proof {
        assert(done == orig.len());
    }
    out
}

/// The `binaries` directory under a cache root path.
pub fn binaries_dir(root: &str) -> (r: String)
    ensures
        r@ == root@ + "/binaries"@,
{
    let mut s = String::from_str(root);
    s.append("/binaries");
    s
}

/// The `metadata` directory under a cache root path.
pub fn metadata_dir(root: &str) -> (r: String)
    ensures
        r@ == root@ + "/metadata"@,
{
    let mut s = String::from_str(root);
    s.append("/metadata");
    s
}

} // verus!
