use otterlang::{bootstrap_stdlib, FfiFunction, FfiSignature, FfiType, SymbolRegistry};

#[test]
fn builtins_are_registered() {
    let mut registry = SymbolRegistry::new();
    bootstrap_stdlib(&mut registry);

    assert!(registry.contains("std.io.print"));
    assert!(registry.contains("std.math.sqrt"));
    assert!(registry.contains("std.time.now"));
}

#[test]
fn resolve_hands_back_the_entry() {
    let mut registry = SymbolRegistry::new();
    bootstrap_stdlib(&mut registry);

    let f = registry.resolve("std.io.println").expect("println is registered");
    assert_eq!(f.name, "std.io.println");
    assert_eq!(f.symbol, "otter_std_io_println");
    assert_eq!(f.signature.params, vec![FfiType::Str]);
    assert_eq!(f.signature.result, FfiType::Unit);
    assert!(registry.resolve("no.such.symbol").is_none());
}

#[test]
fn register_is_an_upsert() {
    let mut registry = SymbolRegistry::new();
    registry.register(FfiFunction {
        name: "demo".to_string(),
        symbol: "otter_demo_one".to_string(),
        signature: FfiSignature::new(vec![FfiType::I64], FfiType::I64),
    });
    registry.register(FfiFunction {
        name: "demo".to_string(),
        symbol: "otter_demo_two".to_string(),
        signature: FfiSignature::new(vec![FfiType::Str], FfiType::Unit),
    });
    assert_eq!(registry.len(), 1);
    let f = registry.resolve("demo").expect("demo stays registered");
    assert_eq!(f.symbol, "otter_demo_two");
}

#[test]
fn unit_is_rejected_in_parameter_position() {
    let good = FfiSignature::new(vec![FfiType::Str, FfiType::I64], FfiType::Unit);
    assert!(good.is_valid());
    let bad = FfiSignature::new(vec![FfiType::Unit], FfiType::I64);
    assert!(!bad.is_valid());
}

#[test]
fn bootstrap_is_idempotent() {
    let mut registry = SymbolRegistry::new();
    bootstrap_stdlib(&mut registry);
    let before = registry.len();
    bootstrap_stdlib(&mut registry);
    assert_eq!(registry.len(), before);
    assert!(registry.contains("task.spawn"));
    assert!(registry.contains("json.validate"));
    assert!(registry.contains("net.http_get"));
    assert!(registry.contains("runtime.version"));
}
