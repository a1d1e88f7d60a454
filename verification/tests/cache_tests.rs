use otterlang::{
    binaries_dir, lookup_decision, metadata_dir, parse_metadata, render_metadata, CacheBuildOptions,
    CacheLookup, CacheMetadata,
};

fn demo_metadata() -> CacheMetadata {
    CacheMetadata {
        key: "abc123".to_string(),
        created_at_ms: 1700000000000,
        compiler_version: "test-version".to_string(),
        llvm_version: Some("llvm-test".to_string()),
        source: "/tmp/hello.otter".to_string(),
        imports: vec!["/tmp/util.otter".to_string()],
        binary_path: "/tmp/cache/binaries/abc123".to_string(),
        binary_size: 11,
        build_time_ms: 1,
        options: CacheBuildOptions { release: false, lto: false, emit_ir: false },
        linked_crates: vec!["serde".to_string()],
    }
}

#[test]
fn cache_roundtrip_stores_and_loads_metadata() {
    let metadata = demo_metadata();
    let document = render_metadata(&metadata);
    let parsed = parse_metadata(document.as_str()).expect("expected cache entry to roundtrip");

    assert_eq!(parsed.key, metadata.key);
    assert_eq!(parsed.created_at_ms, metadata.created_at_ms);
    assert_eq!(parsed.compiler_version, "test-version");
    assert_eq!(parsed.llvm_version.as_deref(), Some("llvm-test"));
    assert_eq!(parsed.source, metadata.source);
    assert_eq!(parsed.imports, metadata.imports);
    assert_eq!(parsed.binary_path, metadata.binary_path);
    assert_eq!(parsed.binary_size, 11);
    assert_eq!(parsed.build_time_ms, 1);
    assert_eq!(parsed.options, metadata.options);
    assert_eq!(parsed.linked_crates, metadata.linked_crates);
}

#[test]
fn unknown_fields_are_ignored_and_missing_required_fields_fail() {
    let metadata = demo_metadata();
    let mut document = render_metadata(&metadata);
    document.push_str("some_future_field: whatever\n");
    assert!(parse_metadata(document.as_str()).is_some());

    let missing = "key: abc\ncompiler_version: v\n";
    assert!(parse_metadata(missing).is_none());
}

#[test]
fn fingerprint_is_deterministic() {
    let files = vec![("/tmp/hello.otter".to_string(), b"print(\"hi\")\n".to_vec())];
    let options = CacheBuildOptions { release: false, lto: false, emit_ir: false };
    let inputs = otterlang::CompilationInputs::new("/tmp/hello.otter".to_string(), Vec::new());
    assert_eq!(inputs.all_files(), vec!["/tmp/hello.otter".to_string()]);
    let a = otterlang::fingerprint_from_contents(&files, &options, "test-version");
    let b = otterlang::fingerprint_from_contents(&files, &options, "test-version");
    assert_eq!(a.as_str(), b.as_str());
    assert_eq!(a.as_str().len(), 40);
}

#[test]
fn cache_key_changes_with_content() {
    let options = CacheBuildOptions { release: false, lto: false, emit_ir: false };
    let first = vec![("/tmp/mutate.otter".to_string(), b"print(\"first\")\n".to_vec())];
    let second = vec![("/tmp/mutate.otter".to_string(), b"print(\"second\")\n".to_vec())];

    let first_key = otterlang::fingerprint_from_contents(&first, &options, "test-version");
    let second_key = otterlang::fingerprint_from_contents(&second, &options, "test-version");

    assert_ne!(first_key.as_str(), second_key.as_str());
}

#[test]
fn cache_key_changes_with_options_and_version() {
    let files = vec![("/tmp/hello.otter".to_string(), b"print(\"hi\")\n".to_vec())];
    let plain = CacheBuildOptions { release: false, lto: false, emit_ir: false };
    let release = CacheBuildOptions { release: true, lto: true, emit_ir: false };

    let a = otterlang::fingerprint_from_contents(&files, &plain, "v1");
    let b = otterlang::fingerprint_from_contents(&files, &release, "v1");
    let c = otterlang::fingerprint_from_contents(&files, &plain, "v2");
    assert_ne!(a.as_str(), b.as_str());
    assert_ne!(a.as_str(), c.as_str());
}

#[test]
fn lookup_reports_hit_only_with_artifact_on_disk() {
    let metadata = demo_metadata();
    match lookup_decision(Some(metadata), true) {
        CacheLookup::Hit(m) => assert_eq!(m.binary_path, "/tmp/cache/binaries/abc123"),
        CacheLookup::Miss => panic!("metadata plus artifact must report a hit"),
    }
    assert!(matches!(lookup_decision(Some(demo_metadata()), false), CacheLookup::Miss));
    assert!(matches!(lookup_decision(None, true), CacheLookup::Miss));
}

#[test]
fn cache_layout_paths() {
    assert_eq!(binaries_dir("/root/.otter_cache"), "/root/.otter_cache/binaries");
    assert_eq!(metadata_dir("/root/.otter_cache"), "/root/.otter_cache/metadata");
    assert_eq!(
        otterlang::binary_path_for("/c/binaries", "abc", ""),
        "/c/binaries/abc"
    );
    assert_eq!(
        otterlang::metadata_path_for("/c/metadata", "abc"),
        "/c/metadata/abc.yaml"
    );
}

#[test]
fn options_fingerprint_renders_stably() {
    let options = CacheBuildOptions { release: true, lto: false, emit_ir: true };
    assert_eq!(options.fingerprint(), "release=true::lto=false::emit_ir=true");
}

#[test]
fn input_paths_sort_and_deduplicate() {
    let paths = vec![
        "/b/two.otter".to_string(),
        "/a/one.otter".to_string(),
        "/b/two.otter".to_string(),
        "/a/three.otter".to_string(),
    ];
    let sorted = otterlang::sort_dedup_paths(paths);
    assert_eq!(
        sorted,
        vec![
            "/a/one.otter".to_string(),
            "/a/three.otter".to_string(),
            "/b/two.otter".to_string(),
        ]
    );
}

#[test]
fn sha1_digest_matches_the_published_vector() {
    // A published SHA-1 test vector: a wrapper that handed its input back
    // unchanged could not produce it.
    let digest = otterlang::sha1_hex(&b"hello world".to_vec());
    assert_eq!(digest, "2aae6c35c94fcfb415dbe95f408b9ce91ee846ed");
}
