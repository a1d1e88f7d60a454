//! OtterLang compiler core: lexer, parser, compilation cache, symbol/FFI
//! registry, code-generation planning, and the task-runtime bookkeeping that
//! the compiled programs link against.

mod ast;
mod bridge;
mod cache;
mod codegen;
mod collections;
mod driver;
mod errors;
mod grammar;
mod jit;
mod lexer;
mod metadata;
mod numlit;
mod parser;
mod registry;
mod runtime_state;
mod span;
mod stdlib;
mod strutil;
mod suggest;
mod tasks;
mod token;

pub use ast::{spec_functions, BinaryOp, Block, Expr, FStringPart, Function, Literal, Param, Program, Statement, Type, UnaryOp};
pub use bridge::{default_symbol, default_true, parse_type, resolve_dependency_path, to_ascii_lower, type_error, BridgeFunction, BridgeMetadata, CallKind, CallTemplate, DependencyConfig, FunctionEntry, FunctionSpec, RawDependency};
pub use cache::{binaries_dir, fingerprint_from_contents, hex_encode, metadata_dir, sha1_hex, sort_dedup_paths, CacheBuildOptions, CacheKey, CompilationInputs};
pub use metadata::{binary_path_for, metadata_path_for};
pub use codegen::{check_call_args, plan_binary, plan_for_loop, value_tag, BinaryLowering, ForLoopPlan, current_llvm_version, decoder_symbol, encode_tagged, decode_payload, decode_tag, ffi_lattice, iter_symbols, plan_call, range_symbol, BuildArtifact, CallPlan, CodegenBackendType, CodegenError, CodegenOptLevel, CodegenOptions, IterKind, OtterType};
pub use collections::{json_validate_text, range_int_elements};
pub use driver::{resolve_output_path, Command, CompilationSettings, OtterCli};
pub use errors::{Diagnostic, DiagnosticSeverity};
pub use grammar::{expr_matches, stmt_matches, stmts_match, ExprV, LitV, ParamV, StmtV, TypeV};
pub use jit::{CompilationProfiler, LruEvictionPolicy, SpecializationKey, SpecializationStats, CompilationTier, FunctionMetrics, InlineConfig, Inliner, MemoryProfiler, Reoptimizer, RuntimeConstant, RuntimeType, TieredCompiler, TieredConfig, TieredStats, TypeTracker};
pub use lexer::{tokenize, LexResult, LexerError};
pub use metadata::{lookup_decision, parse_metadata, parse_u64, render_metadata, u64_to_string, CacheLookup, CacheMetadata};
pub use numlit::{has_dot, strip_underscores};
pub use parser::{parse, parse_expr, parse_program_tokens, ParseStep, ParserError};
pub use registry::{FfiFunction, FfiSignature, FfiType, SymbolRegistry};
pub use runtime_state::{decrement_active_tasks, increment_active_tasks, register_task_metrics, task_metrics_clone, IntrospectionSnapshot, RuntimeState};
pub use span::Span;
pub use stdlib::{bootstrap_stdlib, register_builtin_symbols, register_std_io_symbols, register_std_json_symbols, register_std_math_symbols, register_std_net_symbols, register_std_runtime_symbols, register_std_sys_symbols, register_std_task_symbols, register_std_time_symbols};
pub use suggest::{find_best_match, levenshtein_distance};
pub use tasks::{lemma_channel_fifo, SchedulerConfig, TaskChannel, TaskId, TaskMetricsSnapshot, TaskRuntimeMetrics, TaskScheduler, TaskState, WorkerAction};
pub use token::{Token, TokenKind};
