use otterlang::{
    decrement_active_tasks, default_symbol, default_true, increment_active_tasks, parse,
    parse_type, register_task_metrics, resolve_dependency_path, task_metrics_clone, tokenize,
    type_error, Diagnostic, DiagnosticSeverity, FfiType, IntrospectionSnapshot,
    LruEvictionPolicy, RuntimeState, RuntimeType, Span, SpecializationKey, Statement,
    TaskRuntimeMetrics, Token, TokenKind, TypeTracker,
};

#[test]
fn metrics_track_spawn_completion_and_backlog() {
    let mut metrics = TaskRuntimeMetrics::new();
    metrics.record_spawn();
    metrics.record_spawn();
    metrics.record_completion();
    metrics.register_channel();
    metrics.record_channel_backlog(3);
    metrics.record_channel_backlog(-1);
    metrics.record_channel_waiters(1);
    let snapshot = metrics.snapshot();
    assert_eq!(snapshot.tasks_spawned, 2);
    assert_eq!(snapshot.tasks_completed, 1);
    assert_eq!(snapshot.tasks_waiting, 1);
    assert_eq!(snapshot.channels_registered, 1);
    assert_eq!(snapshot.channel_backlog, 2);
    assert_eq!(snapshot.channel_waiters, 1);
}

#[test]
fn negative_transients_read_as_zero() {
    let mut metrics = TaskRuntimeMetrics::new();
    metrics.record_channel_backlog(-5);
    assert_eq!(metrics.snapshot().channel_backlog, 0);
}

#[test]
fn runtime_state_counts_and_registers() {
    let mut state = RuntimeState::new();
    increment_active_tasks(&mut state);
    increment_active_tasks(&mut state);
    decrement_active_tasks(&mut state);
    assert_eq!(state.active_tasks, 1);
    assert!(task_metrics_clone(&state).is_none());

    let mut metrics = TaskRuntimeMetrics::new();
    metrics.record_spawn();
    register_task_metrics(&mut state, metrics.snapshot());
    let read = task_metrics_clone(&state).expect("metrics were registered");
    assert_eq!(read.tasks_spawned, 1);

    let snap = IntrospectionSnapshot::capture(&state);
    assert_eq!(snap.active_tasks, 1);
}

#[test]
fn type_tracker_records_and_classifies() {
    let mut tracker = TypeTracker::new();
    tracker.record_call("add", vec![RuntimeType::I64, RuntimeType::I64]);
    tracker.record_call("add", vec![RuntimeType::I64, RuntimeType::I64]);
    tracker.record_call("add", vec![RuntimeType::F64, RuntimeType::F64]);
    tracker.record_call("id", vec![RuntimeType::Str]);

    let sites = tracker.get_signatures("add").expect("add was recorded");
    assert_eq!(sites.len(), 3);
    assert!(tracker.is_polymorphic("add"));
    assert!(!tracker.is_polymorphic("id"));
    assert!(tracker.get_signatures("missing").is_none());

    let common = tracker.get_common_signature("add").expect("add has a common signature");
    assert_eq!(common, vec![RuntimeType::I64, RuntimeType::I64]);
}

#[test]
fn bridge_type_identifiers_are_case_folded() {
    assert_eq!(parse_type("I64"), Ok(FfiType::I64));
    assert_eq!(parse_type("double"), Ok(FfiType::F64));
    assert_eq!(parse_type("Handle"), Ok(FfiType::Opaque));
    assert!(parse_type("matrix").is_err());
    assert!(default_true());
    assert_eq!(
        type_error("reqwest", "get", "matrix"),
        "unsupported FFI type identifier `matrix` in reqwest:get"
    );
}

#[test]
fn bridge_symbols_are_mangled_and_prefixed() {
    assert_eq!(default_symbol("reqwest", "reqwest:get"), "otter_reqwest_get");
    assert_eq!(default_symbol("mycrate", "fetch.all"), "otter_mycrate_fetch_all");
    assert_eq!(
        resolve_dependency_path("/meta/reqwest", "src/lib".to_string()),
        "/meta/reqwest/src/lib"
    );
    assert_eq!(
        resolve_dependency_path("/meta/reqwest", "/abs/path".to_string()),
        "/abs/path"
    );
}

#[test]
fn diagnostics_carry_their_fields() {
    let d = Diagnostic::error("demo.ot".to_string(), Span::new(3, 7), "boom".to_string());
    assert_eq!(d.severity(), DiagnosticSeverity::Error);
    assert_eq!(d.span().start(), 3);
    assert_eq!(d.span().end(), 7);
    assert_eq!(d.message(), "boom");
    assert_eq!(d.source_id(), "demo.ot");
    let d2 = d.with_label("here".to_string());
    assert_eq!(d2.severity(), DiagnosticSeverity::Error);
}

#[test]
fn statement_counts_recurse_through_blocks() {
    let source = "fn main:\n    x = 1\n    if x > 0:\n        print(\"p\")\n    else:\n        print(\"n\")\n";
    let tokens = tokenize(source).expect("tokenization should succeed");
    let program = parse(&tokens).expect("parsing should succeed");
    // One function statement holding: one assignment, one if with one
    // statement in each of its two blocks.
    assert_eq!(program.statement_count(), 5);
    match &program.statements[0] {
        Statement::Function(f) => {
            assert_eq!(f.body.statements.len(), 2);
            assert!(f.body.statements[0].is_pure() == false);
        }
        other => panic!("expected function statement, got {:?}", other),
    }
}

#[test]
fn specialization_keys_render_their_shape() {
    let key = SpecializationKey::new(
        "add".to_string(),
        vec![RuntimeType::I64, RuntimeType::I64],
        vec![None, Some(otterlang::RuntimeConstant::I64(2))],
    );
    let rendered = key.to_string_key();
    assert!(rendered.starts_with("add_<I64,I64>_"));
    // The hash digit string is non-empty hex.
    let suffix = &rendered["add_<I64,I64>_".len()..];
    assert!(!suffix.is_empty());
    assert!(suffix.chars().all(|c| c.is_ascii_hexdigit()));
}

#[test]
fn lru_order_moves_accessed_keys_to_the_warm_end() {
    let key = |name: &str| SpecializationKey {
        function_name: name.to_string(),
        arg_types: vec![RuntimeType::I64],
        arg_constants_hash: 7,
    };
    let mut policy = LruEvictionPolicy::new();
    policy.on_add(key("a"));
    policy.on_add(key("b"));
    policy.on_add(key("c"));
    policy.on_access(key("a"));

    // The coldest key still present is evicted first: "b".
    let cache = vec![key("a"), key("b"), key("c")];
    let victim = policy.evict(&cache).expect("something is evictable");
    assert_eq!(victim.function_name, "b");

    policy.on_remove(&key("b"));
    let cache = vec![key("a"), key("c")];
    let victim = policy.evict(&cache).expect("something is evictable");
    assert_eq!(victim.function_name, "c");
}

#[test]
fn token_names_are_stable() {
    assert_eq!(TokenKind::Fn.name(), "fn");
    assert_eq!(TokenKind::Indent.name(), "indent");
    assert_eq!(TokenKind::Dedent.name(), "dedent");
    assert_eq!(TokenKind::Eof.name(), "eof");
    let t = Token::new(TokenKind::Colon, Span::new(1, 2));
    assert_eq!(t.kind, TokenKind::Colon);
    assert_eq!(t.span.start(), 1);
}
