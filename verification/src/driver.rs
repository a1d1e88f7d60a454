//! The driver's decisions: the command-line surface as plain data, the
//! compilation settings derived from it, and the output-path rule of a
//! build. Reading files, executing artifacts and rendering diagnostics stay
//! with the embedding program.

use vstd::prelude::*;

use crate::cache::CacheBuildOptions;
use crate::codegen::{CodegenOptLevel, CodegenOptions};

verus! {

/// The subcommand: run a source file through the cached pipeline, or build
/// it and copy the artifact to an output path.
#[derive(Debug, Clone)]
pub enum Command {
    Run { path: String },
    Build { path: String, output: Option<String> },
}

/// The command-line surface, as plain data.
#[derive(Debug, Clone)]
pub struct OtterCli {
    pub dump_tokens: bool,
    pub dump_ast: bool,
    pub dump_ir: bool,
    pub time: bool,
    pub profile: bool,
    pub release: bool,
    pub tasks: bool,
    pub tasks_debug: bool,
    pub tasks_trace: bool,
    pub command: Command,
}

impl OtterCli {
    pub fn command(&self) -> (r: &Command)
        ensures
            *r == self.command,
    {
        &self.command
    }
}

/// The settings one compilation runs under.
#[derive(Debug, Clone, Copy, PartialEq, Eq, Structural)]
pub struct CompilationSettings {
    pub dump_tokens: bool,
    pub dump_ast: bool,
    pub dump_ir: bool,
    pub time: bool,
    pub profile: bool,
    pub release: bool,
    pub tasks: bool,
    pub tasks_debug: bool,
    pub tasks_trace: bool,
}

impl CompilationSettings {
    pub fn from_cli(cli: &OtterCli) -> (r: Self)
        ensures
            r.dump_tokens == cli.dump_tokens,
            r.dump_ast == cli.dump_ast,
            r.dump_ir == cli.dump_ir,
            r.time == cli.time,
            r.profile == cli.profile,
            r.release == cli.release,
            r.tasks == cli.tasks,
            r.tasks_debug == cli.tasks_debug,
            r.tasks_trace == cli.tasks_trace,
    {
        Self {
            dump_tokens: cli.dump_tokens,
            dump_ast: cli.dump_ast,
            dump_ir: cli.dump_ir,
            time: cli.time,
            profile: cli.profile,
            release: cli.release,
            tasks: cli.tasks,
            tasks_debug: cli.tasks_debug,
            tasks_trace: cli.tasks_trace,
        }
    }

    /// The dump flags force a fresh compile for inspection: with any of them
    /// set the cache lookup is suppressed.
    pub fn allow_cache(&self) -> (r: bool)
        ensures
            r == !(self.dump_tokens || self.dump_ast || self.dump_ir),
    {
        !(self.dump_tokens || self.dump_ast || self.dump_ir)
    }

    /// The options that take part in the fingerprint: release toggles both
    /// aggressive optimization and link-time optimization.
    pub fn cache_build_options(&self) -> (r: CacheBuildOptions)
        ensures
            r.release == self.release,
            r.lto == self.release,
            r.emit_ir == self.dump_ir,
    {
        CacheBuildOptions { release: self.release, lto: self.release, emit_ir: self.dump_ir }
    }

    /// The code generator's options for these settings.
    pub fn codegen_options(&self) -> (r: CodegenOptions)
        ensures
            r.emit_ir == self.dump_ir,
            r.enable_lto == self.release,
            self.release ==> r.opt_level == CodegenOptLevel::Aggressive,
            !self.release ==> r.opt_level == CodegenOptLevel::Balanced,
    {
        CodegenOptions {
            emit_ir: self.dump_ir,
            opt_level: if self.release {
                CodegenOptLevel::Aggressive
            } else {
                CodegenOptLevel::Balanced
            },
            enable_lto: self.release,
        }
    }
}

/// `ns` is where the path's file name starts: zero or just after the last
/// separator.
pub open spec fn spec_is_name_start(s: Seq<char>, ns: int) -> bool {
    &&& 0 <= ns <= s.len()
    &&& (ns == 0 || s[ns - 1] == '/')
    &&& forall|k: int| ns <= k < s.len() ==> s[k] != '/'
}

/// `d` is the last dot at or after the file name's start, or the length when
/// the name holds none.
pub open spec fn spec_is_last_dot(s: Seq<char>, ns: int, d: int) -> bool {
    &&& ns <= d <= s.len()
    &&& (d == s.len() || s[d] == '.')
    &&& (forall|k: int| d < k < s.len() ==> s[k] != '.')
    &&& (d == s.len() ==> forall|k: int| ns <= k < s.len() ==> s[k] != '.')
}

/// The default build output for a source path: the path up to its last
/// extension dot; a path whose file name would vanish falls back to a fixed
/// name.
pub open spec fn spec_output_stem(s: Seq<char>, ns: int, d: int) -> Seq<char> {
    let stem_end: int = if d > ns { d } else { s.len() as int };
    if stem_end == 0 || stem_end == ns {
        "otter.out"@
    } else {
        s.subrange(0, stem_end)
    }
}

/// Where a build lands: the given output when one is named; otherwise the
/// source path with its extension stripped, or the fallback name when
/// nothing would remain.
pub fn resolve_output_path(path: &str, output: Option<String>) -> (r: String)
    ensures
        output matches Some(o) ==> r@ == o@,
        output is None ==> forall|ns: int, d: int|
            spec_is_name_start(path@, ns) && #[trigger] spec_is_last_dot(path@, ns, d)
                ==> r@ == spec_output_stem(path@, ns, d),
{
    match output {
        Some(o) => o,
        None => {
            let chars = crate::strutil::chars_of(path);
            let n = chars.len();
            // Find the start of the file name and the last dot after it.
            let mut name_start: usize = 0;
            let mut i: usize = 0;
            while i < n
                invariant
                    name_start <= i,
                    i <= n,
                    n == chars@.len(),
                    name_start == 0 || chars@[name_start as int - 1] == '/',
                    forall|k: int| name_start <= k < i ==> chars@[k] != '/',
                decreases n - i,
            {
                if chars[i] == '/' {
                    name_start = i + 1;
                }
                i = i + 1;
            }
            let mut dot: usize = n;
            let mut j: usize = name_start;
            while j < n
                invariant
                    name_start <= j <= n,
                    n == chars@.len(),
                    dot == n || (name_start <= dot < j && chars@[dot as int] == '.'),
                    forall|k: int| (if dot == n { name_start as int } else { dot + 1 }) <= k < j
                        ==> chars@[k] != '.',
                decreases n - j,
            {
                if chars[j] == '.' {
                    dot = j;
                }
                j = j + 1;
            }
            proof {
                assert(spec_is_name_start(chars@, name_start as int));
                assert(spec_is_last_dot(chars@, name_start as int, dot as int));
            }
            let stem_end = if dot > name_start { dot } else { n };
            let r = if stem_end == 0 || stem_end == name_start {
                String::from_str("otter.out")
            } else {
                crate::strutil::chars_to_string(&chars, 0, stem_end)
            };
            proof {
                assert forall|ns: int, d: int|
                    spec_is_name_start(chars@, ns) && #[trigger] spec_is_last_dot(chars@, ns, d)
                    implies r@ == spec_output_stem(chars@, ns, d) by {
                    if ns < name_start as int {
                        assert(chars@[name_start as int - 1] == '/');
                        assert(false);
                    }
                    if ns > name_start as int {
                        assert(chars@[ns - 1] == '/');
                        assert(false);
                    }
                    assert(ns == name_start as int);
                    if d < dot as int {
                        assert(chars@[dot as int] == '.');
                        assert(false);
                    }
                    if d > dot as int && d < chars@.len() {
                        assert(chars@[d] == '.');
                        assert(false);
                    }
                    if d == chars@.len() && (dot as int) < chars@.len() {
                        assert(chars@[dot as int] == '.');
                        assert(false);
                    }
                    assert(d == dot as int);
                }
            }
            r
        },
    }
}

} // verus!
