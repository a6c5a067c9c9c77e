use wasm_sandbox::audit::{decimal, grants_line, CallError, Decision, Outcome};
use wasm_sandbox::capability::{Capability, Operation, Request};
use wasm_sandbox::launch::{run_legacy_demo, scan_source, ScanSource};
use wasm_sandbox::permissions::PermissionSet;
use wasm_sandbox::session::{Dispatch, ErrorKind, HostError, Runner, Session, Stage};

fn running(identity: &str, perms: PermissionSet) -> Session {
    let mut s = Session::new(identity.to_string(), perms);
    assert!(s.link(Ok(())).is_ok());
    assert!(s.instantiate(Ok(())).is_ok());
    s.start();
    assert_eq!(s.stage(), Stage::Running);
    s
}

#[test]
fn denied_read_of_passwd_is_audited_and_never_performed() {
    let cfg = run_legacy_demo("malicious").unwrap();
    let mut s = running("component_malicious", cfg.permissions);
    let d = s.request(Request::ReadFile { path: "/etc/passwd".to_string() });
    match d {
        Dispatch::Denied(e) => {
            assert!(matches!(e, CallError::PermissionDenied(Capability::FilesystemRead)));
            assert_eq!(
                e.message(),
                "Permission denied: filesystem-read capability not granted"
            );
        }
        Dispatch::Perform(_) => panic!("a denied read must not be performed"),
    }
    let recs = s.records();
    assert_eq!(recs.len(), 1);
    assert_eq!(recs[0].outcome, Outcome::Denied);
    assert_eq!(recs[0].decision(), Decision::Denied);
    assert_eq!(recs[0].operation, Operation::ReadFile);
    assert_eq!(recs[0].target, "/etc/passwd");
    assert_eq!(
        recs[0].line(),
        "[DENIED] Component 'component_malicious' attempted filesystem-read.read-file(\"/etc/passwd\") without permission"
    );
}

#[test]
fn granted_read_returns_file_content() {
    let cfg = run_legacy_demo("trusted").unwrap();
    let mut s = running("component_trusted", cfg.permissions);
    let d = s.request(Request::ReadFile { path: "./demo.txt".to_string() });
    match d {
        Dispatch::Perform(Request::ReadFile { path }) => assert_eq!(path, "./demo.txt"),
        _ => panic!("a granted read must be performed as requested"),
    }
    assert_eq!(s.records().len(), 0);
    let r = s.complete(Ok("hello".to_string()));
    assert_eq!(r.unwrap(), "hello");
    let recs = s.records();
    assert_eq!(recs.len(), 1);
    assert_eq!(recs[0].outcome, Outcome::Succeeded);
    assert_eq!(recs[0].decision(), Decision::Allowed);
    assert_eq!(
        recs[0].line(),
        "[ALLOWED] Component 'component_trusted' attempted filesystem-read.read-file(\"./demo.txt\") succeeded"
    );
    assert!(s.finish(Ok("SUCCESS: Read demo.txt content:\nhello".to_string())).unwrap().contains("hello"));
    assert_eq!(s.stage(), Stage::Completed);
}

#[test]
fn denied_http_get_makes_no_transport_call() {
    let mut s = running("fetcher", PermissionSet::new(true, true, false));
    let d = s.request(Request::HttpGet { url: "http://example.com".to_string() });
    match d {
        Dispatch::Denied(e) => assert_eq!(
            e.message(),
            "Permission denied: network capability not granted"
        ),
        Dispatch::Perform(_) => panic!("a denied GET must not be performed"),
    }
    assert_eq!(s.records().len(), 1);
    assert_eq!(s.records()[0].operation, Operation::HttpGet);
}

#[test]
fn computation_session_produces_no_audit_records() {
    let mut s = Session::computation("scanner".to_string());
    for c in [Capability::FilesystemRead, Capability::FilesystemWrite, Capability::Network] {
        assert!(!s.permissions().is_granted(c));
    }
    assert!(s.link(Ok(())).is_ok());
    assert!(s.instantiate(Ok(())).is_ok());
    s.start();
    let r = s.finish(Ok("analysis of print(1): no issues".to_string()));
    assert_eq!(r.unwrap(), "analysis of print(1): no issues");
    assert_eq!(s.records().len(), 0);
    assert_eq!(s.stage(), Stage::Completed);
}

#[test]
fn missing_artifact_is_a_load_error_with_no_calls() {
    let mut s = Session::new("missing".to_string(), PermissionSet::new(true, true, true));
    assert!(s.link(Ok(())).is_ok());
    let e = s
        .instantiate(Err(HostError { kind: ErrorKind::Load, detail: "no such file".to_string() }))
        .unwrap_err();
    assert_eq!(e.kind, ErrorKind::Load);
    assert_eq!(e.detail, "no such file");
    assert_eq!(s.stage(), Stage::Failed(ErrorKind::Load));
    assert_eq!(s.records().len(), 0);
}

#[test]
fn link_failure_aborts_before_instantiation() {
    let mut s = Session::new("x".to_string(), PermissionSet::none());
    let e = s.link(Err("duplicate import".to_string())).unwrap_err();
    assert_eq!(e.kind, ErrorKind::Link);
    assert_eq!(e.detail, "duplicate import");
    assert_eq!(s.stage(), Stage::Failed(ErrorKind::Link));
    assert_eq!(s.records().len(), 0);
}

#[test]
fn import_mismatch_at_instantiation_is_a_link_error() {
    let mut s = Session::new("x".to_string(), PermissionSet::none());
    s.link(Ok(())).unwrap();
    let e = s
        .instantiate(Err(HostError { kind: ErrorKind::Link, detail: "missing import".to_string() }))
        .unwrap_err();
    assert_eq!(e.kind, ErrorKind::Link);
    assert_eq!(s.stage(), Stage::Failed(ErrorKind::Link));
}

#[test]
fn entry_point_trap_is_a_runtime_failure() {
    let mut s = running("x", PermissionSet::none());
    let e = s.finish(Err("unreachable executed".to_string())).unwrap_err();
    assert_eq!(e.kind, ErrorKind::Runtime);
    assert_eq!(e.detail, "unreachable executed");
    assert_eq!(s.stage(), Stage::Failed(ErrorKind::Runtime));
}

#[test]
fn failed_operation_is_distinct_from_denial() {
    let mut s = running("w", PermissionSet::new(false, true, false));
    let d = s.request(Request::WriteFile {
        path: "/ro/out.txt".to_string(),
        content: "data".to_string(),
    });
    match d {
        Dispatch::Perform(Request::WriteFile { path, content }) => {
            assert_eq!(path, "/ro/out.txt");
            assert_eq!(content, "data");
        }
        _ => panic!("a granted write must be performed as requested"),
    }
    let r = s.complete(Err("read-only".to_string()));
    match r {
        Err(CallError::OperationFailed(m)) => {
            assert_eq!(m, "Failed to write file '/ro/out.txt': read-only")
        }
        _ => panic!("expected an operation failure"),
    }
    let recs = s.records();
    assert_eq!(recs.len(), 1);
    assert_eq!(recs[0].outcome, Outcome::Failed);
    assert_eq!(recs[0].decision(), Decision::Allowed);
    assert_eq!(
        recs[0].line(),
        "[ALLOWED] Component 'w' attempted filesystem-write.write-file(\"/ro/out.txt\") with 4 bytes failed: Failed to write file '/ro/out.txt': read-only"
    );
}

#[test]
fn granted_post_passes_url_and_body_unchanged() {
    let mut s = running("poster", PermissionSet::new(false, false, true));
    match s.request(Request::HttpPost { url: "http://h/api".to_string(), body: "{}".to_string() }) {
        Dispatch::Perform(Request::HttpPost { url, body }) => {
            assert_eq!(url, "http://h/api");
            assert_eq!(body, "{}");
        }
        _ => panic!("a granted POST must be performed as requested"),
    }
    let r = s.complete(Ok("HTTP POST to http://h/api - stub response".to_string()));
    assert_eq!(r.unwrap(), "HTTP POST to http://h/api - stub response");
    assert_eq!(s.records()[0].operation, Operation::HttpPost);
}

#[test]
fn sessions_over_same_artifact_do_not_share_grants() {
    let mut a = running("same", PermissionSet::new(true, false, false));
    let mut b = running("same", PermissionSet::new(false, false, false));
    let da = a.request(Request::ReadFile { path: "f".to_string() });
    let db = b.request(Request::ReadFile { path: "f".to_string() });
    assert!(matches!(da, Dispatch::Perform(_)));
    assert!(matches!(db, Dispatch::Denied(_)));
    a.complete(Ok("x".to_string())).unwrap();
    let db2 = b.request(Request::ReadFile { path: "f".to_string() });
    assert!(matches!(db2, Dispatch::Denied(_)));
    assert_eq!(a.records().len(), 1);
    assert_eq!(b.records().len(), 2);
}

#[test]
fn every_call_leaves_exactly_one_record() {
    let mut s = running("mix", PermissionSet::new(true, false, false));
    s.request(Request::HttpGet { url: "u".to_string() });
    assert_eq!(s.records().len(), 1);
    s.request(Request::ReadFile { path: "p".to_string() });
    assert_eq!(s.records().len(), 1);
    s.complete(Err("gone".to_string())).unwrap_err();
    assert_eq!(s.records().len(), 2);
    s.request(Request::ReadFile { path: "q".to_string() });
    s.complete(Ok(String::new())).unwrap();
    let kinds: Vec<Outcome> = s.records().iter().map(|r| r.outcome).collect();
    assert_eq!(kinds, vec![Outcome::Denied, Outcome::Failed, Outcome::Succeeded]);
}

#[test]
fn unknown_preset_is_a_config_error() {
    let e = run_legacy_demo("sneaky").err().unwrap();
    assert_eq!(e.kind, ErrorKind::Config);
    assert_eq!(e.detail, "Unknown component: sneaky. Use 'malicious' or 'trusted'.");
}

#[test]
fn presets_map_to_fixed_grants() {
    let m = run_legacy_demo("malicious").unwrap();
    assert_eq!(m.artifact, "target/wasm32-wasip1/release/component_malicious.wasm");
    assert_eq!(m.permissions, PermissionSet::none());
    let t = run_legacy_demo("trusted").unwrap();
    assert_eq!(t.artifact, "target/wasm32-wasip1/release/component_trusted.wasm");
    assert!(t.permissions.is_granted(Capability::FilesystemRead));
    assert!(t.permissions.is_granted(Capability::FilesystemWrite));
    assert!(!t.permissions.is_granted(Capability::Network));
}

#[test]
fn scan_source_prefers_inline_code() {
    match scan_source(Some("print(1)".to_string()), Some("a.py".to_string())).ok().unwrap() {
        ScanSource::Inline(c) => assert_eq!(c, "print(1)"),
        ScanSource::File(_) => panic!("inline code comes first"),
    }
    match scan_source(None, Some("a.py".to_string())).ok().unwrap() {
        ScanSource::File(f) => assert_eq!(f, "a.py"),
        ScanSource::Inline(_) => panic!("expected the file"),
    }
    let e = scan_source(None, None).err().unwrap();
    assert_eq!(e.kind, ErrorKind::Config);
    assert_eq!(e.detail, "Must provide either --code or --file argument");
}

#[test]
fn grants_line_lists_each_capability() {
    assert_eq!(
        grants_line(&PermissionSet::new(true, false, true)),
        "Capabilities: filesystem-read: GRANTED, filesystem-write: DENIED, network: GRANTED"
    );
    assert_eq!(
        grants_line(&PermissionSet::none()),
        "Capabilities: filesystem-read: DENIED, filesystem-write: DENIED, network: DENIED"
    );
}

#[test]
fn operations_map_to_their_capability() {
    assert_eq!(Operation::ReadFile.capability(), Capability::FilesystemRead);
    assert_eq!(Operation::WriteFile.capability(), Capability::FilesystemWrite);
    assert_eq!(Operation::HttpGet.capability(), Capability::Network);
    assert_eq!(Operation::HttpPost.capability(), Capability::Network);
    let r = Request::HttpPost { url: "u".to_string(), body: "b".to_string() };
    assert_eq!(r.target(), "u");
    assert_eq!(r.duplicate().target(), "u");
}

#[test]
fn fatal_errors_name_their_stage_and_artifact() {
    let e = HostError { kind: ErrorKind::Link, detail: "missing import".to_string() };
    assert_eq!(
        e.message("y.wasm", Runner::Skill),
        "link error for component 'y.wasm': missing import"
    );
    let e = HostError { kind: ErrorKind::Runtime, detail: "trap".to_string() };
    assert_eq!(e.message("z.wasm", Runner::Scanner), "runtime error for component 'z.wasm': trap");
}

#[test]
fn skill_load_failure_names_artifact_and_hint() {
    let e = HostError { kind: ErrorKind::Load, detail: "no such file".to_string() };
    assert_eq!(
        e.message("does-not-exist.wasm", Runner::Skill),
        "Failed to load component 'does-not-exist.wasm': no such file\nMake sure the file exists and is a valid WASM component."
    );
}

#[test]
fn scanner_load_failure_names_artifact_without_hint() {
    let e = HostError { kind: ErrorKind::Load, detail: "no such file".to_string() };
    assert_eq!(
        e.message("scan.wasm", Runner::Scanner),
        "Failed to load scanner component 'scan.wasm': no such file"
    );
}

#[test]
fn allowed_post_audit_reports_body_size() {
    let mut s = running("poster", PermissionSet::new(false, false, true));
    s.request(Request::HttpPost { url: "http://h/api".to_string(), body: "{\"k\":\"é\"}".to_string() });
    s.complete(Ok("ok".to_string())).unwrap();
    let recs = s.records();
    assert_eq!(recs[0].payload_bytes, Some(10));
    assert_eq!(
        recs[0].line(),
        "[ALLOWED] Component 'poster' attempted network.http-post(\"http://h/api\") with 10 bytes succeeded"
    );
}

#[test]
fn decimal_renders_without_leading_zeros() {
    assert_eq!(decimal(0), "0");
    assert_eq!(decimal(7), "7");
    assert_eq!(decimal(10), "10");
    assert_eq!(decimal(4096), "4096");
    assert_eq!(decimal(usize::MAX), usize::MAX.to_string());
}

#[test]
fn trusted_preset_grants_exactly_read_and_write() {
    let t = run_legacy_demo("trusted").unwrap();
    assert_eq!(t.permissions, PermissionSet::new(true, true, false));
}

#[test]
fn denied_write_audit_line_gives_no_size() {
    let mut s = running("w", PermissionSet::none());
    s.request(Request::WriteFile { path: "/tmp/x".to_string(), content: "secret".to_string() });
    let recs = s.records();
    assert_eq!(recs[0].payload_bytes, None);
    assert_eq!(
        recs[0].line(),
        "[DENIED] Component 'w' attempted filesystem-write.write-file(\"/tmp/x\") without permission"
    );
}

#[test]
fn failed_read_names_its_path() {
    let mut s = running("r", PermissionSet::new(true, false, false));
    s.request(Request::ReadFile { path: "./missing.txt".to_string() });
    match s.complete(Err("No such file or directory (os error 2)".to_string())) {
        Err(CallError::OperationFailed(m)) => assert_eq!(
            m,
            "Failed to read file './missing.txt': No such file or directory (os error 2)"
        ),
        _ => panic!("expected an operation failure"),
    }
}

#[test]
fn failed_transport_is_not_a_denial() {
    let mut s = running("n", PermissionSet::new(false, false, true));
    s.request(Request::HttpGet { url: "http://h".to_string() });
    let e = s.complete(Err("Permission denied by proxy".to_string())).unwrap_err();
    assert!(matches!(e, CallError::OperationFailed(_)));
    assert_eq!(e.message(), "HTTP GET to 'http://h' failed: Permission denied by proxy");
    assert!(!e.message().starts_with("Permission denied"));
    let r = Request::HttpPost { url: "http://h".to_string(), body: String::new() };
    assert_eq!(r.failure_text("timeout"), "HTTP POST to 'http://h' failed: timeout");
}
