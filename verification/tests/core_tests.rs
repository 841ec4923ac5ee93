use grass::builtin::{grass_error_table, register_builtin_errors, reload_grass_error_table, GrassErrorTableSlot};
use grass::context::{GrassAgentContext, GrassMessage, GrassPluginManifest};
use grass::error::{domain_of_code, GrassError};
use grass::error_table::{GrassErrorEntry, GrassErrorSeverity, GrassErrorTable};
use grass::ids::{new_v4_id, uuid_string};
use grass::types::{GrassAgentBuilder, GrassSandboxBackend, GrassSandboxConfig};

fn json_text(s: &str) -> String {
    serde_json::Value::String(s.to_string()).to_string()
}

#[test]
fn builtin_table_registers_all_domains() {
    let mut slot = GrassErrorTableSlot::new();
    let table = grass_error_table(&mut slot);
    assert!(!table.is_empty());
    assert!(
        table.len() >= 50,
        "expected >= 50 builtin entries, got {}",
        table.len()
    );
    let domains = table.domains();
    for d in [
        "core",
        "runtime",
        "llm",
        "hooks",
        "protocol",
        "ipc",
        "sandbox",
        "plugin",
        "inference",
        "iot",
        "streaming",
        "vector",
        "blockchain",
        "integrations",
        "flow",
        "messaging",
        "orchestrator",
        "binary",
    ] {
        assert!(domains.contains(&d), "missing domain {}", d);
    }
}

#[test]
fn every_grass_error_maps_to_table_entry() {
    let serialization = serde_json::from_str::<serde_json::Value>("x").unwrap_err().to_string();
    let io = std::io::Error::new(std::io::ErrorKind::Other, "x").to_string();
    let mut slot = GrassErrorTableSlot::new();
    for err in [
        GrassError::Agent("x".into()),
        GrassError::Task("x".into()),
        GrassError::Plugin("x".into()),
        GrassError::Hook("x".into()),
        GrassError::Protocol("x".into()),
        GrassError::Ipc("x".into()),
        GrassError::Sandbox("x".into()),
        GrassError::Llm("x".into()),
        GrassError::Inference("x".into()),
        GrassError::Blockchain("x".into()),
        GrassError::Iot("x".into()),
        GrassError::Streaming("x".into()),
        GrassError::VectorDb("x".into()),
        GrassError::Integration("x".into()),
        GrassError::Flow("x".into()),
        GrassError::Messaging("x".into()),
        GrassError::Serialization(serialization.clone()),
        GrassError::Io(io.clone()),
        GrassError::Timeout(1),
        GrassError::NotFound("x".into()),
        GrassError::PermissionDenied("x".into()),
        GrassError::Internal("x".into()),
    ] {
        assert!(err.entry(&mut slot).is_some(), "no table entry for {:?}", err);
        assert_eq!(err.entry(&mut slot).unwrap().domain, err.domain());
    }
}

#[test]
fn duplicate_registration_is_rejected() {
    let mut t = GrassErrorTable::new();
    t.register(GrassErrorEntry::new(
        "GR-TEST-0001",
        "test",
        "t",
        GrassErrorSeverity::Error,
        "first",
    ))
    .unwrap();
    let dup = GrassErrorEntry::new(
        "GR-TEST-0001",
        "test",
        "t",
        GrassErrorSeverity::Error,
        "second",
    );
    assert!(t.register(dup).is_err());
    assert_eq!(t.len(), 1);
}

#[test]
fn lookup_of_unknown_code_returns_none() {
    let mut slot = GrassErrorTableSlot::new();
    let table = grass_error_table(&mut slot);
    assert!(table.lookup("GR-NOPE-9999").is_none());
    assert!(!table.contains("GR-NOPE-9999"));
}

#[test]
fn lookup_domain_filters_correctly() {
    let mut slot = GrassErrorTableSlot::new();
    let table = grass_error_table(&mut slot);
    let llm = table.lookup_domain("llm");
    assert!(!llm.is_empty());
    assert!(llm.iter().all(|e| e.domain == "llm"));
}

#[test]
fn lookup_severity_returns_critical_entries() {
    let mut slot = GrassErrorTableSlot::new();
    let table = grass_error_table(&mut slot);
    let critical = table.lookup_severity(GrassErrorSeverity::Critical);
    assert!(!critical.is_empty());
    assert!(critical
        .iter()
        .all(|e| e.severity == GrassErrorSeverity::Critical));
}

#[test]
fn merge_rejects_collisions() {
    let mut a = GrassErrorTable::new();
    a.register(GrassErrorEntry::new(
        "GR-TEST-0002",
        "test",
        "t",
        GrassErrorSeverity::Error,
        "a",
    ))
    .unwrap();
    let mut b = GrassErrorTable::new();
    b.register(GrassErrorEntry::new(
        "GR-TEST-0002",
        "test",
        "t",
        GrassErrorSeverity::Error,
        "b",
    ))
    .unwrap();
    assert!(a.merge(&b).is_err());
}

#[test]
fn entry_builder_chains_metadata() {
    let entry = GrassErrorEntry::new(
        "GR-TEST-0003",
        "test",
        "t",
        GrassErrorSeverity::Warning,
        "m",
    )
    .with_cause("c1")
    .with_remediation("r1")
    .with_remediation("r2");
    assert_eq!(entry.causes, vec!["c1".to_string()]);
    assert_eq!(entry.remediation.len(), 2);
    assert_eq!(entry.domain, "test");
    assert_eq!(entry.code, "GR-TEST-0003");
}

#[test]
fn test_grass_error_display() {
    let err = GrassError::Agent("test failure".into());
    assert!(err.to_display_string().contains("test failure"));
}

#[test]
fn test_sandbox_config_default() {
    let cfg = GrassSandboxConfig::default();
    assert_eq!(cfg.backend, GrassSandboxBackend::Docker);
    assert!(cfg.network_isolation);
    assert_eq!(cfg.max_memory_bytes, 512 * 1024 * 1024);
}

#[test]
fn test_agent_builder() {
    let meta = GrassAgentBuilder::new("test-agent")
        .version("1.0.0")
        .description("A test agent")
        .tag("testing")
        .config("key", json_text("value"))
        .build();

    assert_eq!(meta.name, "test-agent");
    assert_eq!(meta.version, "1.0.0");
    assert_eq!(meta.tags, vec!["testing".to_string()]);
    let value: serde_json::Value = serde_json::from_str(meta.config.get("key").unwrap()).unwrap();
    assert_eq!(value, "value");
}

#[test]
fn test_agent_context() {
    let id = new_v4_id();
    let meta = GrassAgentBuilder::new("ctx-test").build();
    let mut ctx = GrassAgentContext::new(id, meta).with_sandbox(GrassSandboxConfig::default());

    ctx.set_state("key", json_text("val"));
    let value: serde_json::Value = serde_json::from_str(ctx.get_state("key").unwrap()).unwrap();
    assert_eq!(value, "val");
    assert!(ctx.sandbox.is_some());
}

#[test]
fn test_grass_message_creation() {
    let agent_id = new_v4_id();
    let mut payload = serde_json::Map::new();
    payload.insert("hello".to_string(), serde_json::Value::String("world".to_string()));
    let msg = GrassMessage::new(
        agent_id,
        "test.topic",
        serde_json::Value::Object(payload).to_string(),
    )
    .with_header("x-trace-id", "abc123")
    .directed_to(new_v4_id());

    assert_eq!(msg.topic, "test.topic");
    assert_eq!(msg.headers.get("x-trace-id").unwrap(), "abc123");
    assert!(msg.to.is_some());
}

#[test]
fn test_plugin_manifest() {
    let manifest = GrassPluginManifest::new("test-plugin", "0.1.0");
    assert_eq!(manifest.name, "test-plugin");
    assert_eq!(manifest.version, "0.1.0");
}

#[test]
fn error_codes_name_their_domains() {
    assert_eq!(GrassError::Llm("x".into()).code(), "GR-LLM-0001");
    assert_eq!(GrassError::Llm("x".into()).domain(), "llm");
    assert_eq!(GrassError::Timeout(5).code(), "GR-CORE-0007");
    assert_eq!(GrassError::VectorDb("x".into()).domain(), "vector");
    assert_eq!(domain_of_code("GR-ORCH-0001"), "orchestrator");
    assert_eq!(domain_of_code("GR-UNKNOWN-0001"), "core");
    assert_eq!(domain_of_code("nodashes"), "core");
}

#[test]
fn registering_then_looking_up_gives_the_entry_back() {
    let mut t = GrassErrorTable::new();
    t.register(GrassErrorEntry::new("GR-TEST-0010", "test", "t", GrassErrorSeverity::Info, "ten"))
        .unwrap();
    t.register(GrassErrorEntry::new("GR-TEST-0005", "test", "t", GrassErrorSeverity::Info, "five"))
        .unwrap();
    assert_eq!(t.lookup("GR-TEST-0010").unwrap().message, "ten");
    assert_eq!(t.lookup("GR-TEST-0005").unwrap().message, "five");
    assert_eq!(t.codes(), vec!["GR-TEST-0005", "GR-TEST-0010"]);
    assert_eq!(t.len(), 2);
}

#[test]
fn duplicate_registration_keeps_the_first_entry() {
    let mut t = GrassErrorTable::new();
    t.register(GrassErrorEntry::new("GR-TEST-0001", "test", "t", GrassErrorSeverity::Error, "first"))
        .unwrap();
    let err = t
        .register(GrassErrorEntry::new("GR-TEST-0001", "test", "t", GrassErrorSeverity::Error, "second"))
        .unwrap_err();
    assert_eq!(err.code(), "GR-CORE-0010");
    assert_eq!(t.lookup("GR-TEST-0001").unwrap().message, "first");
}

#[test]
fn merge_adds_entries_of_disjoint_tables() {
    let mut a = GrassErrorTable::new();
    a.register(GrassErrorEntry::new("GR-TEST-0001", "test", "t", GrassErrorSeverity::Error, "a"))
        .unwrap();
    let mut b = GrassErrorTable::new();
    b.register(GrassErrorEntry::new("GR-TEST-0002", "test", "t", GrassErrorSeverity::Error, "b"))
        .unwrap();
    a.merge(&b).unwrap();
    assert_eq!(a.len(), 2);
    assert!(a.contains("GR-TEST-0002"));
}

#[test]
fn reloading_after_first_use_is_refused() {
    let mut slot = GrassErrorTableSlot::new();
    let n = grass_error_table(&mut slot).len();
    let err = reload_grass_error_table(&mut slot, GrassErrorTable::new()).unwrap_err();
    assert_eq!(
        err,
        GrassError::Internal("global error table already initialized".to_string())
    );
    assert_eq!(grass_error_table(&mut slot).len(), n);
}

#[test]
fn reloading_before_first_use_installs_the_table() {
    let mut slot = GrassErrorTableSlot::new();
    reload_grass_error_table(&mut slot, GrassErrorTable::new()).unwrap();
    assert!(grass_error_table(&mut slot).is_empty());
    assert!(register_builtin_errors().len() >= 50);
}

#[test]
fn uuid_text_is_hyphenated_lower_hex() {
    let s = uuid_string(0x0123_4567_89ab_cdef_0123_4567_89ab_cdef);
    assert_eq!(s, "01234567-89ab-cdef-0123-456789abcdef");
    let id = new_v4_id();
    assert_eq!((id >> 76) & 0xf, 4);
    assert_eq!((id >> 62) & 0x3, 2);
}

#[test]
fn messages_are_stamped_with_the_current_time() {
    let before = chrono::Utc::now().timestamp();
    let msg = GrassMessage::new(new_v4_id(), "t", "{}".to_string());
    let after = chrono::Utc::now().timestamp();
    assert!(before <= msg.timestamp_secs && msg.timestamp_secs <= after);
    assert!(msg.timestamp_nanos < 1_000_000_000);
    assert!(msg.to.is_none());
}

#[test]
fn builtin_table_is_sorted_and_complete() {
    let t = register_builtin_errors();
    assert_eq!(t.len(), 58);
    let codes = t.codes();
    let mut sorted = codes.clone();
    sorted.sort();
    assert_eq!(codes, sorted);
    let e = t.lookup("GR-CORE-0001").unwrap();
    assert_eq!(e.message, "Agent execution failed");
    assert_eq!(e.causes.len(), 3);
    assert_eq!(e.module, "agent");
}

fn entry(code: &str, domain: &str) -> GrassErrorEntry {
    GrassErrorEntry::new(code, domain, "m", GrassErrorSeverity::Error, "x")
}

#[test]
fn domain_lookup_is_ascending_and_empty_only_for_absent_domains() {
    let t = register_builtin_errors();
    let domains = t.domains();
    for d in &domains {
        let found = t.lookup_domain(d);
        assert!(!found.is_empty());
        assert!(found.iter().all(|e| e.domain == *d));
        assert!(found.windows(2).all(|w| w[0].code < w[1].code));
    }
    assert!(!domains.contains(&"NOPE"));
    assert!(t.lookup_domain("NOPE").is_empty());
}

#[test]
fn severity_lists_partition_the_table() {
    let t = register_builtin_errors();
    let all = [
        GrassErrorSeverity::Info,
        GrassErrorSeverity::Warning,
        GrassErrorSeverity::Error,
        GrassErrorSeverity::Critical,
    ];
    let total: usize = all.iter().map(|s| t.lookup_severity(*s).len()).sum();
    assert_eq!(total, t.len());
    for s in all {
        assert!(t.lookup_severity(s).iter().all(|e| e.severity == s));
    }
}

#[test]
fn codes_contains_and_lookup_agree() {
    let t = register_builtin_errors();
    let codes = t.codes();
    assert_eq!(codes.len(), t.len());
    assert!(codes.windows(2).all(|w| w[0] < w[1]));
    for c in &codes {
        assert!(t.contains(c));
        assert_eq!(t.lookup(c).unwrap().code, *c);
    }
    assert!(!t.contains("GR-NOPE-0001"));
    assert!(t.lookup("GR-NOPE-0001").is_none());
}

#[test]
fn domains_are_empty_only_for_an_empty_table() {
    let mut t = GrassErrorTable::new();
    assert!(t.domains().is_empty());
    t.register(entry("GR-A-0001", "A")).unwrap();
    t.register(entry("GR-A-0002", "A")).unwrap();
    assert_eq!(t.domains(), vec!["A"]);
}

#[test]
fn failed_merge_keeps_entries_below_the_first_collision() {
    let mut a = GrassErrorTable::new();
    a.register(entry("GR-T-0002", "T")).unwrap();
    a.register(entry("GR-T-0004", "T")).unwrap();
    let mut b = GrassErrorTable::new();
    b.register(entry("GR-T-0001", "T")).unwrap();
    b.register(entry("GR-T-0003", "T")).unwrap();
    b.register(entry("GR-T-0004", "T")).unwrap();
    b.register(entry("GR-T-0005", "T")).unwrap();
    let err = a.merge(&b).unwrap_err();
    assert!(matches!(err, GrassError::Internal(_)));
    assert_eq!(a.codes(), vec!["GR-T-0001", "GR-T-0002", "GR-T-0003", "GR-T-0004"]);
    assert!(!a.contains("GR-T-0005"));
}

#[test]
fn reloading_installs_a_table_with_custom_domains() {
    let mut slot = GrassErrorTableSlot::new();
    let mut t = GrassErrorTable::new();
    t.register(entry("GR-CORE-0001", "custom")).unwrap();
    reload_grass_error_table(&mut slot, t).unwrap();
    let installed = grass_error_table(&mut slot);
    assert_eq!(installed.len(), 1);
    assert_eq!(installed.lookup("GR-CORE-0001").unwrap().domain, "custom");
}
