use otterlang::{
    bootstrap_stdlib, check_call_args, decode_payload, decode_tag, encode_tagged, find_best_match,
    levenshtein_distance, plan_call, range_symbol, resolve_output_path, u64_to_string, CallPlan,
    CodegenError, CodegenOptLevel, Command, CompilationSettings, FfiSignature, FfiType, OtterCli,
    OtterType, SymbolRegistry,
};
use otterlang::{plan_binary, value_tag, BinaryLowering, BinaryOp};

#[test]
fn call_checking_enforces_the_signature() {
    let sig = FfiSignature::new(vec![FfiType::Str, FfiType::I64], FfiType::Bool);
    assert_eq!(
        check_call_args(&sig, &vec![OtterType::Str, OtterType::I64]),
        Ok(OtterType::Bool)
    );
    assert_eq!(
        check_call_args(&sig, &vec![OtterType::Str]),
        Err(CodegenError::ArgCountMismatch)
    );
    assert_eq!(
        check_call_args(&sig, &vec![OtterType::Str, OtterType::F64]),
        Err(CodegenError::ArgTypeMismatch)
    );
    assert_eq!(
        check_call_args(&sig, &vec![OtterType::Unit, OtterType::I64]),
        Err(CodegenError::UnitArgument)
    );
}

#[test]
fn call_planning_consults_the_registry() {
    let mut registry = SymbolRegistry::new();
    bootstrap_stdlib(&mut registry);

    match plan_call(&registry, "std.io.println", &vec![OtterType::Str], false) {
        CallPlan::Extern { symbol, result } => {
            assert_eq!(symbol, "otter_std_io_println");
            assert_eq!(result, OtterType::Unit);
        }
        other => panic!("expected an extern call plan, got {:?}", other),
    }
    assert!(matches!(
        plan_call(&registry, "my_local_fn", &vec![], true),
        CallPlan::User
    ));
    assert!(matches!(
        plan_call(&registry, "nowhere", &vec![], false),
        CallPlan::Fail(CodegenError::UnknownFunction)
    ));
    assert!(matches!(
        plan_call(&registry, "std.io.println", &vec![OtterType::I64], false),
        CallPlan::Fail(CodegenError::ArgTypeMismatch)
    ));
}

#[test]
fn range_loops_pick_the_monomorphized_constructor() {
    assert_eq!(range_symbol(OtterType::I64), "range<int>");
    assert_eq!(range_symbol(OtterType::F64), "range<float>");
}

#[test]
fn binary_operators_lower_by_operand_types() {
    assert_eq!(
        plan_binary(BinaryOp::Add, OtterType::F64, OtterType::F64),
        BinaryLowering::FloatArithmetic
    );
    assert_eq!(
        plan_binary(BinaryOp::Lt, OtterType::I64, OtterType::F64),
        BinaryLowering::Comparison
    );
    assert_eq!(
        plan_binary(BinaryOp::And, OtterType::Bool, OtterType::Bool),
        BinaryLowering::ShortCircuit
    );
    assert_eq!(
        plan_binary(BinaryOp::Add, OtterType::Str, OtterType::F64),
        BinaryLowering::Invalid
    );
}

#[test]
fn value_tags_follow_the_protocol() {
    assert_eq!(value_tag(OtterType::Unit), Some(0));
    assert_eq!(value_tag(OtterType::Bool), Some(1));
    assert_eq!(value_tag(OtterType::I64), Some(2));
    assert_eq!(value_tag(OtterType::F64), Some(3));
    assert_eq!(value_tag(OtterType::Str), Some(4));
    assert_eq!(value_tag(OtterType::List), Some(5));
    assert_eq!(value_tag(OtterType::Dict), Some(6));
}

#[test]
fn tagged_values_roundtrip() {
    // Tag 3 (a float) with an arbitrary 56-bit payload.
    let word = encode_tagged(3, 0x00de_adbe_ef01_2345);
    assert_eq!(decode_tag(word), 3);
    assert_eq!(decode_payload(word), 0x00de_adbe_ef01_2345);
    let unit = encode_tagged(0, 0);
    assert_eq!(decode_tag(unit), 0);
    assert_eq!(decode_payload(unit), 0);
}

#[test]
fn settings_follow_the_flags() {
    let cli = OtterCli {
        dump_tokens: false,
        dump_ast: false,
        dump_ir: true,
        time: false,
        profile: false,
        release: true,
        tasks: false,
        tasks_debug: false,
        tasks_trace: false,
        command: Command::Run { path: "demo.ot".to_string() },
    };
    let settings = CompilationSettings::from_cli(&cli);
    assert!(!settings.allow_cache());
    let cache_options = settings.cache_build_options();
    assert!(cache_options.release && cache_options.lto && cache_options.emit_ir);
    let codegen = settings.codegen_options();
    assert_eq!(codegen.opt_level, CodegenOptLevel::Aggressive);
    assert!(codegen.enable_lto && codegen.emit_ir);

    let plain = CompilationSettings::from_cli(&OtterCli {
        dump_tokens: false,
        dump_ast: false,
        dump_ir: false,
        time: false,
        profile: false,
        release: false,
        tasks: false,
        tasks_debug: false,
        tasks_trace: false,
        command: Command::Build { path: "demo.ot".to_string(), output: None },
    });
    assert!(plain.allow_cache());
    assert_eq!(plain.codegen_options().opt_level, CodegenOptLevel::Balanced);
}

#[test]
fn build_output_path_strips_the_extension() {
    assert_eq!(resolve_output_path("examples/app.ot", None), "examples/app");
    assert_eq!(
        resolve_output_path("examples/app.ot", Some("target/app".to_string())),
        "target/app"
    );
    assert_eq!(resolve_output_path("noext", None), "noext");
}

#[test]
fn suggestions_pick_the_closest_name() {
    assert_eq!(levenshtein_distance("kitten", "sitting"), 3);
    assert_eq!(levenshtein_distance("", "abc"), 3);
    assert_eq!(levenshtein_distance("same", "same"), 0);

    let candidates = vec![
        "print".to_string(),
        "println".to_string(),
        "sprint".to_string(),
    ];
    assert_eq!(find_best_match("prnt", &candidates), Some("print".to_string()));
    assert_eq!(find_best_match("zzzzzzz", &candidates), None);
}

#[test]
fn number_rendering_matches_decimal() {
    assert_eq!(u64_to_string(0), "0");
    assert_eq!(u64_to_string(42), "42");
    assert_eq!(u64_to_string(1700000000000), "1700000000000");
    assert_eq!(otterlang::parse_u64("1700000000000"), Some(1700000000000));
    assert_eq!(otterlang::parse_u64(""), None);
    assert_eq!(otterlang::parse_u64("12a"), None);
    assert_eq!(otterlang::parse_u64("99999999999999999999"), None);
}

#[test]
fn json_validation_checks_bracket_structure() {
    assert!(otterlang::json_validate_text("{\"a\": [1, 2, {\"b\": []}]}"));
    assert!(otterlang::json_validate_text(""));
    assert!(!otterlang::json_validate_text("{\"a\": [1, 2}"));
    assert!(!otterlang::json_validate_text("{\"unclosed"));
    // Brackets inside strings do not count.
    assert!(otterlang::json_validate_text("\"}{\""));
    // An escaped quote does not close the string.
    assert!(!otterlang::json_validate_text("\"a\\\""));
}

#[test]
fn numeric_literal_helpers() {
    assert_eq!(otterlang::strip_underscores("1_000_000"), "1000000");
    assert!(otterlang::has_dot("3.14"));
    assert!(!otterlang::has_dot("314"));
}
