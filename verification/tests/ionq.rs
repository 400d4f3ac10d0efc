use qrmi::ionq::{
    extract_probabilities, looks_like_circuit, looks_like_whole_job, map_ionq_status, IonQCloud,
    JOB_TYPE_CIRCUIT, JOB_TYPE_QASM2, JOB_TYPE_QASM3, JOB_TYPE_QIR, TARGET_FIELD,
};
use qrmi::ionq_cloud_api::{
    extract_job, Backend, Client, ClientBuilder, DeviceType, ProbabilitiesStep, SessionCostLimit,
    SessionLimits, SessionRequestData,
};
use qrmi::ionq_mock::IonQMock;
use qrmi::json::Json;
use qrmi::models::{ErrorKind, Payload, Session, TaskStatus};
use qrmi::transport::{Body, Method, Reply, Request};

fn reply(status: u16, body: &str) -> Reply {
    Reply {
        status,
        body: body.to_string(),
    }
}

fn pair(name: &str, value: &str) -> (String, String) {
    (name.to_string(), value.to_string())
}

fn json(text: &str) -> Json {
    Json::parse(text).expect("valid JSON")
}

fn body_of(request: &Request) -> String {
    match &request.body {
        Body::Json(text) => text.clone(),
        other => panic!("unexpected body {other:?}"),
    }
}

fn payload(input: &str, target: &str, shots: i32) -> Payload {
    Payload::IonQCloud {
        input: input.to_string(),
        target: target.to_string(),
        shots,
    }
}

fn acquired(backend: &str) -> IonQCloud {
    let mut qrmi = IonQCloud::new(backend, "key".to_string()).unwrap();
    qrmi.session = Session::Acquired("sess-1".to_string());
    qrmi
}

const QASM2: &str = "OPENQASM 2.0;\ninclude \"qelib1.inc\";\nqreg q[1];\n";

#[test]
fn every_documented_status_maps_to_its_canonical_value() {
    let table = [
        ("completed", TaskStatus::Completed),
        ("done", TaskStatus::Completed),
        ("succeeded", TaskStatus::Completed),
        ("failed", TaskStatus::Failed),
        ("error", TaskStatus::Failed),
        ("canceled", TaskStatus::Cancelled),
        ("cancelled", TaskStatus::Cancelled),
        ("running", TaskStatus::Running),
        ("started", TaskStatus::Running),
        ("submitted", TaskStatus::Queued),
        ("ready", TaskStatus::Queued),
        ("queued", TaskStatus::Queued),
        ("unknown", TaskStatus::Queued),
        ("", TaskStatus::Queued),
        ("complet\u{e9}", TaskStatus::Queued),
    ];
    for (word, canonical) in table {
        assert_eq!(map_ionq_status(word), canonical, "{word}");
        assert_eq!(map_ionq_status(&word.to_uppercase()), map_ionq_status(word));
        assert_eq!(map_ionq_status(&format!(" \t{word}\u{a0}\n")), canonical);
    }
    assert_eq!(map_ionq_status("Completed"), TaskStatus::Completed);
    assert_eq!(map_ionq_status("com pleted"), TaskStatus::Queued);
}

#[test]
fn terminal_states_are_the_three_final_ones() {
    assert!(TaskStatus::Completed.is_final());
    assert!(TaskStatus::Failed.is_final());
    assert!(TaskStatus::Cancelled.is_final());
    assert!(!TaskStatus::Queued.is_final());
    assert!(!TaskStatus::Running.is_final());
    assert_eq!(TaskStatus::Cancelled.name(), "Cancelled");
}

#[test]
fn backends_have_names_and_aliases() {
    let names = [
        (Backend::Simulator, "simulator"),
        (Backend::QpuHarmony, "qpu.harmony"),
        (Backend::QpuAria1, "qpu.aria-1"),
        (Backend::QpuAria2, "qpu.aria-2"),
        (Backend::QpuForte1, "qpu.forte-1"),
        (Backend::QpuForteEnterprise1, "qpu.forte-enterprise-1"),
        (Backend::QpuForteEnterprise2, "qpu.forte-enterprise-2"),
    ];
    for (backend, name) in names {
        assert_eq!(backend.as_str(), name);
        assert_eq!(Backend::parse(name).unwrap(), backend);
        assert_eq!(Backend::parse(&format!("  {}\n", name.to_uppercase())).unwrap(), backend);
    }
    for (alias, backend) in [
        ("sim", Backend::Simulator),
        ("harmony", Backend::QpuHarmony),
        ("qpu_harmony", Backend::QpuHarmony),
        ("qpu.aria1", Backend::QpuAria1),
        ("aria-1", Backend::QpuAria1),
        ("aria1", Backend::QpuAria1),
        ("ARIA2", Backend::QpuAria2),
        ("forte1", Backend::QpuForte1),
        ("forte-1", Backend::QpuForte1),
        ("qpu.forte_enterprise-1", Backend::QpuForteEnterprise1),
        ("forte-enterprise-2", Backend::QpuForteEnterprise2),
    ] {
        assert_eq!(Backend::parse(alias).unwrap(), backend, "{alias}");
    }
    let e = Backend::parse("  qpu.none ").unwrap_err();
    assert_eq!(e.kind, ErrorKind::InvalidArgument);
    assert_eq!(e.message, "unknown IonQ backend: 'qpu.none'");
    assert!(Backend::parse("forte-enterprise-3").is_err());
    assert!(Backend::parse("").is_err());
}

#[test]
fn device_names_are_held_against_their_upper_case_form() {
    assert_eq!(DeviceType::Aria1.as_str(), "qpu.aria-1");
    assert_eq!(DeviceType::Simulator.as_str(), "simulator");
    for name in ["simulator", "SIMULATOR", "qpu.aria-1", "QPU.ARIA-1", ""] {
        assert_eq!(DeviceType::parse(name), None, "{name}");
    }
}

#[test]
fn client_carries_the_key_in_every_request() {
    let client = ClientBuilder::new("k-1".to_string()).build().unwrap();
    assert_eq!(client.base_url, "https://api.ionq.co/v0.4");
    let r = client.get_backend(Backend::QpuAria1);
    assert_eq!(r.method, Method::Get);
    assert_eq!(r.url, "https://api.ionq.co/v0.4/backends/qpu.aria-1");
    assert_eq!(
        r.headers,
        vec![
            pair("Authorization", "apiKey k-1"),
            pair("Content-Type", "application/json")
        ]
    );
    assert!(matches!(r.body, Body::Empty));
    assert_eq!(client.get_job("j").url, "https://api.ionq.co/v0.4/jobs/j");
    let cancel = client.cancel_job("j");
    assert_eq!((cancel.method, cancel.url.as_str()), (Method::Put, "https://api.ionq.co/v0.4/jobs/j/cancel"));
    assert_eq!(client.delete_job("j").method, Method::Delete);
    let end = client.end_session("s");
    assert_eq!(end.url, "https://api.ionq.co/v0.4/sessions/s/end");
    assert_eq!(body_of(&end), "null");

    let e = ClientBuilder::new("bad\nkey".to_string()).build().unwrap_err();
    assert_eq!(e.kind, ErrorKind::MalformedCredential);
    assert!(ClientBuilder::new("tab\tis fine \u{e9}".to_string()).build().is_ok());
    assert!(ClientBuilder::new("del\u{7f}".to_string()).build().is_err());
}

#[test]
fn create_job_builds_the_documented_body() {
    let client = ClientBuilder::new("k".to_string()).build().unwrap();
    let request = client
        .create_job(
            Backend::Simulator,
            "ionq.qasm2.v1",
            100,
            "job-a",
            Some("sess"),
            None,
            Some(json(r#"{"x":1}"#)),
            json(r#"{"data":"OPENQASM 2.0;"}"#),
        )
        .unwrap();
    assert_eq!(request.method, Method::Post);
    assert_eq!(request.url, "https://api.ionq.co/v0.4/jobs");
    assert_eq!(
        body_of(&request),
        r#"{"backend":"simulator","input":{"data":"OPENQASM 2.0;"},"name":"job-a","session_id":"sess","settings":{"x":1},"shots":100,"type":"ionq.qasm2.v1"}"#
    );
    for shots in [0, -1, i32::MIN] {
        let e = client
            .create_job(Backend::Simulator, "t", shots, "n", None, None, None, Json::Null)
            .unwrap_err();
        assert_eq!(e.kind, ErrorKind::InvalidArgument);
        assert_eq!(e.message, "shots must be > 0");
    }
}

#[test]
fn create_jobs_batch_names_each_job_by_its_index() {
    let client = ClientBuilder::new("k".to_string()).build().unwrap();
    let inputs = vec![json("1"), json("2"), json("3")];
    let requests = client
        .create_jobs_batch(Backend::QpuForte1, "t", 5, "batch", None, None, None, &inputs)
        .unwrap();
    assert_eq!(requests.len(), 3);
    for (i, request) in requests.iter().enumerate() {
        assert_eq!(
            body_of(request),
            format!(
                r#"{{"backend":"qpu.forte-1","input":{},"name":"batch-{}","shots":5,"type":"t"}}"#,
                i + 1,
                i
            )
        );
    }
    assert!(client
        .create_jobs_batch(Backend::QpuForte1, "t", 0, "batch", None, None, None, &inputs)
        .is_err());
    assert_eq!(
        client
            .create_jobs_batch(Backend::QpuForte1, "t", 0, "batch", None, None, None, &[])
            .unwrap()
            .len(),
        0
    );
}

#[test]
fn create_session_writes_the_limits_as_settings() {
    let client = ClientBuilder::new("k".to_string()).build().unwrap();
    let bare = client.create_session(&SessionRequestData {
        backend: "simulator".to_string(),
        limits: None,
    });
    assert_eq!(bare.url, "https://api.ionq.co/v0.4/sessions");
    assert_eq!(body_of(&bare), r#"{"backend":"simulator"}"#);
    let limited = client.create_session(&SessionRequestData {
        backend: "qpu.aria-1".to_string(),
        limits: Some(SessionLimits {
            job_count_limit: 3,
            duration_limit_min: 60,
            cost_limit: SessionCostLimit {
                unit: "USD".to_string(),
                value: u64::MAX,
            },
        }),
    });
    assert_eq!(
        body_of(&limited),
        r#"{"backend":"qpu.aria-1","settings":{"cost_limit":{"unit":"USD","value":18446744073709551615},"duration_limit_min":60,"job_count_limit":3}}"#
    );
}

#[test]
fn jobs_are_read_from_every_envelope() {
    for text in [
        r#"{"id":"j1","status":"ready","session_id":"s"}"#,
        r#"{"job":{"id":"j1","status":"ready","session_id":"s"}}"#,
        r#"{"data":{"id":"j1","status":"ready","session_id":"s"}}"#,
        r#"{"data":{"id":"j1","status":"ready","session_id":"s"},"job":{"id":"other"}}"#,
        r#"{"id":"j1","status":"ready","session_id":"s","more":[1,2]}"#,
    ] {
        let job = extract_job(&json(text)).unwrap();
        assert_eq!(job.id, "j1");
        assert_eq!(job.status, "ready");
        assert_eq!(job.session_id.as_deref(), Some("s"));
    }
    let loose = extract_job(&json(r#"{"id":"j2","status":7,"session_id":false}"#)).unwrap();
    assert_eq!(loose.status, "unknown");
    assert_eq!(loose.session_id, None);
    let e = extract_job(&json(r#"{"data":{"status":"ready"}}"#)).unwrap_err();
    assert_eq!(e.kind, ErrorKind::UnexpectedResponse);
    assert_eq!(e.message, r#"IonQ job response missing 'id': {"status":"ready"}"#);
    assert!(extract_job(&json(r#"{"id":5}"#)).is_err());
    assert!(extract_job(&json("[]")).is_err());

    assert_eq!(Client::job_result(&reply(200, r#"{"id":"j"}"#)).unwrap().id, "j");
    let e = Client::job_result(&reply(400, r#"{"error":"bad"}"#)).unwrap_err();
    assert_eq!(e.kind, ErrorKind::Provider);
    assert_eq!(e.message, r#"Status: 400 Bad Request, Fail {"error":"bad"}"#);
    assert_eq!(
        Client::job_result(&reply(200, "<html>")).unwrap_err().kind,
        ErrorKind::UnexpectedResponse
    );
}

#[test]
fn backends_and_sessions_are_read_plain_or_enveloped() {
    let doc = r#"{"backend":"simulator","status":"available","qubits":29,"degraded":false,"average_queue_time":12,"noise_models":["ideal","aria-1"]}"#;
    for text in [doc.to_string(), format!(r#"{{"data":{doc}}}"#)] {
        let b = Client::get_backend_result(&reply(200, &text)).unwrap();
        assert_eq!(b.backend, "simulator");
        assert_eq!(b.qubits, 29);
        assert_eq!(b.degraded, Some(false));
        assert_eq!(b.average_queue_time, Some(12));
        assert_eq!(b.last_updated, None);
        assert_eq!(
            b.noise_models,
            Some(vec!["ideal".to_string(), "aria-1".to_string()])
        );
        assert_eq!(
            b.to_json().to_text(),
            r#"{"average_queue_time":12,"backend":"simulator","degraded":false,"last_updated":null,"noise_models":["ideal","aria-1"],"qubits":29,"status":"available"}"#
        );
    }
    let e = Client::get_backend_result(&reply(200, r#"{"backend":"x","status":"y","qubits":-1}"#))
        .unwrap_err();
    assert_eq!(
        e.message,
        r#"Unexpected IonQ response shape: {"backend":"x","qubits":-1,"status":"y"}"#
    );
    assert!(Client::get_backend_result(&reply(
        200,
        r#"{"backend":"x","status":"y","qubits":4294967296}"#
    ))
    .is_err());

    let session = r#"{"id":"s1","created_at":"t0","organization_id":"o","backend":"simulator","project_id":"p","creator_id":"c","ended_at":null,"active":true,"status":"open","settings":{"expires_at":"t9","cost_limit":{"unit":"USD","value":5}}}"#;
    let s = Client::session_result(&reply(200, session)).unwrap();
    assert_eq!(s.id, "s1");
    assert_eq!(s.ended_at, None);
    assert_eq!(s.settings.job_count_limit, None);
    assert_eq!(s.settings.cost_limit.as_ref().unwrap().value, 5);
    assert_eq!(s.settings.expires_at, "t9");
    assert!(Client::session_result(&reply(200, r#"{"id":"s1"}"#)).is_err());
}

#[test]
fn probabilities_fall_back_on_the_results_address() {
    let client = ClientBuilder::new("k".to_string()).build().unwrap();
    assert_eq!(
        client.get_job_probabilities("j").url,
        "https://api.ionq.co/v0.4/jobs/j/results/probabilities"
    );
    match client.after_probabilities("j", &reply(200, r#"{"0":0.5,"1":0.5}"#)) {
        ProbabilitiesStep::Done(Ok(doc)) => assert_eq!(doc.to_text(), r#"{"0":0.5,"1":0.5}"#),
        _ => panic!("expected the document"),
    }
    match client.after_probabilities("j", &reply(404, "")) {
        ProbabilitiesStep::Fallback(r) => {
            assert_eq!(r.url, "https://api.ionq.co/v0.4/jobs/j/results");
            assert_eq!(r.method, Method::Get);
        }
        _ => panic!("expected the fallback"),
    }
    match client.after_probabilities("j", &reply(500, "oops")) {
        ProbabilitiesStep::Done(Err(e)) => {
            assert_eq!(e.message, "Status: 500 Internal Server Error, Fail oops")
        }
        _ => panic!("expected a failure"),
    }
}

#[test]
fn probabilities_are_found_at_each_documented_place() {
    for text in [
        r#"{"probabilities":{"0":1}}"#,
        r#"{"results":{"probabilities":{"0":1}}}"#,
        r#"{"data":{"probabilities":{"0":1}}}"#,
        r#"{"data":{"results":{"probabilities":{"0":1}}}}"#,
        r#"{"probabilities":{"0":1},"data":{"probabilities":{"0":2}}}"#,
    ] {
        assert_eq!(extract_probabilities(json(text)).to_text(), r#"{"0":1}"#, "{text}");
    }
    for text in [r#"{"0":0.25,"3":0.75}"#, r#"[1,2]"#, r#"{"results":[{"probabilities":1}]}"#] {
        assert_eq!(extract_probabilities(json(text)).to_text(), text);
    }
}

#[test]
fn job_type_is_detected_from_the_program() {
    let (t, input) = IonQCloud::detect_job_type_and_input(QASM2);
    assert_eq!(t, JOB_TYPE_QASM2);
    assert_eq!(
        input.to_text(),
        r#"{"data":"OPENQASM 2.0;\ninclude \"qelib1.inc\";\nqreg q[1];\n"}"#
    );
    let (t, _) = IonQCloud::detect_job_type_and_input("\n\n  \topenqasm 3.0; \r\nqubit q;");
    assert_eq!(t, JOB_TYPE_QASM3);
    let (t, _) = IonQCloud::detect_job_type_and_input("OPENQASM 3");
    assert_eq!(t, JOB_TYPE_QASM3);
    let (t, input) = IonQCloud::detect_job_type_and_input("; ModuleID = 'bell'\nOPENQASM 2.0;");
    assert_eq!(t, JOB_TYPE_QIR);
    assert_eq!(input.to_text(), r#"{"data":"; ModuleID = 'bell'\nOPENQASM 2.0;"}"#);
    let (t, _) = IonQCloud::detect_job_type_and_input("");
    assert_eq!(t, JOB_TYPE_QIR);
    let (t, _) = IonQCloud::detect_job_type_and_input("OPENQASM2");
    assert_eq!(t, JOB_TYPE_QIR);

    let (t, input) =
        IonQCloud::detect_job_type_and_input("  {\"qubits\":2,\"circuit\":[{\"gate\":\"h\"}]}");
    assert_eq!(t, JOB_TYPE_CIRCUIT);
    assert_eq!(input.to_text(), r#"{"circuit":[{"gate":"h"}],"qubits":2}"#);
    let (t, _) = IonQCloud::detect_job_type_and_input("{\"qubits\":2}");
    assert_eq!(t, JOB_TYPE_QIR);
    let (t, _) = IonQCloud::detect_job_type_and_input("{ not json");
    assert_eq!(t, JOB_TYPE_QIR);
}

#[test]
fn job_body_holds_what_it_is_given() {
    let body = IonQCloud::build_job_body(
        JOB_TYPE_QASM2,
        "n",
        7,
        "target",
        "simulator",
        json(r#"{"data":"x"}"#),
        Some("s"),
        Some(json(r#"{"model":"ideal"}"#)),
    )
    .unwrap();
    assert_eq!(
        body.to_text(),
        r#"{"input":{"data":"x"},"name":"n","noise":{"model":"ideal"},"session_id":"s","shots":7,"target":"simulator","type":"ionq.qasm2.v1"}"#
    );
    let plain =
        IonQCloud::build_job_body("t", "n", 1, "backend", "qpu.aria-1", Json::Null, None, None)
            .unwrap();
    assert_eq!(
        plain.to_text(),
        r#"{"backend":"qpu.aria-1","input":null,"name":"n","shots":1,"type":"t"}"#
    );
    // a target field that repeats another member replaces it
    let clash =
        IonQCloud::build_job_body("t", "n", 1, "name", "v", Json::Null, None, None).unwrap();
    assert_eq!(clash.to_text(), r#"{"input":null,"name":"v","shots":1,"type":"t"}"#);
    let e = IonQCloud::build_job_body("t", "n", 0, "target", "v", Json::Null, None, None)
        .unwrap_err();
    assert_eq!(e.message, "shots must be > 0");
}

#[test]
fn task_start_names_the_backend_under_the_usual_member() {
    assert_eq!(TARGET_FIELD, "backend");
    let qrmi = acquired("simulator");
    let request = qrmi.task_start(payload("OPENQASM 2.0;", "sim", 10), "job-1").unwrap();
    assert_eq!(request.method, Method::Post);
    assert_eq!(request.url, "https://api.ionq.co/v0.4/jobs");
    assert_eq!(
        request.headers,
        vec![
            pair("Authorization", "apiKey key"),
            pair("Content-Type", "application/json")
        ]
    );
    assert_eq!(
        body_of(&request),
        r#"{"backend":"simulator","input":{"data":"OPENQASM 2.0;"},"name":"job-1","noise":{"model":"ideal"},"session_id":"sess-1","shots":10,"type":"ionq.qasm2.v1"}"#
    );

    let hardware = acquired("aria-1");
    let request = hardware
        .task_start(payload("{\"qubits\":1,\"circuit\":[]}", "qpu.aria-1", 3), "job-2")
        .unwrap();
    assert_eq!(
        body_of(&request),
        r#"{"backend":"qpu.aria-1","input":{"circuit":[],"qubits":1},"name":"job-2","session_id":"sess-1","shots":3,"type":"ionq.circuit.v1"}"#
    );
    let qir = hardware.task_start(payload("; ModuleID", "aria1", 1), "job-3").unwrap();
    assert_eq!(
        body_of(&qir),
        r#"{"backend":"qpu.aria-1","input":{"data":"; ModuleID"},"name":"job-3","session_id":"sess-1","shots":1,"type":"ionq.qir.v1"}"#
    );
}

#[test]
fn task_start_fits_a_whole_job_request() {
    let qrmi = acquired("simulator");
    let whole = r#" {"type":"ionq.circuit.v1","input":{"qubits":1},"shots":1,"target":"qpu.aria-1","name":"mine","noise":{"model":"aria-1"}}"#;
    let request = qrmi.task_start(payload(whole, "simulator", 50), "job-3").unwrap();
    assert_eq!(
        body_of(&request),
        r#"{"input":{"qubits":1},"name":"mine","noise":{"model":"aria-1"},"session_id":"sess-1","shots":50,"target":"simulator","type":"ionq.circuit.v1"}"#
    );
    let bare = r#"{"type":"t","input":{},"target":7,"session_id":"theirs"}"#;
    let request = qrmi.task_start(payload(bare, "simulator", -5), "job-4").unwrap();
    assert_eq!(
        body_of(&request),
        r#"{"backend":"simulator","input":{},"name":"job-4","noise":{"model":"ideal"},"session_id":"theirs","shots":-5,"target":7,"type":"t"}"#
    );
    assert!(looks_like_whole_job(&json(bare)));
    assert!(!looks_like_whole_job(&json(r#"{"type":"t"}"#)));
    assert!(!looks_like_whole_job(&json(r#"["type","input"]"#)));
    assert!(looks_like_circuit(&json(r#"{"qubits":1,"circuit":[]}"#)));
    assert!(!looks_like_circuit(&json(r#"{"qubits":1}"#)));
}

#[test]
fn task_start_refuses_what_does_not_fit() {
    // a payload of another kind is refused whatever the state of the adapter
    let other = || Payload::PasqalCloud {
        sequence: "s".to_string(),
        job_runs: 1,
    };
    let mut qrmi = IonQCloud::new("simulator", "k".to_string()).unwrap();
    let e = qrmi.task_start(other(), "j").err().unwrap();
    assert_eq!(e.kind, ErrorKind::TypeMismatch);
    assert_eq!(e.message, "IonQCloud backend only supports Payload::IonQCloud");
    let e = qrmi.task_start(payload(QASM2, "simulator", 1), "j").err().unwrap();
    assert_eq!(e.kind, ErrorKind::SessionInvalid);
    qrmi.session = Session::Released;
    let e = qrmi.task_start(payload(QASM2, "simulator", 1), "j").err().unwrap();
    assert_eq!(e.kind, ErrorKind::SessionInvalid);
    assert_eq!(qrmi.task_start(other(), "j").err().unwrap().kind, ErrorKind::TypeMismatch);

    let qrmi = acquired("simulator");
    assert_eq!(qrmi.task_start(other(), "j").err().unwrap().kind, ErrorKind::TypeMismatch);
    let e = qrmi.task_start(payload(QASM2, "nowhere", 1), "j").err().unwrap();
    assert_eq!(e.kind, ErrorKind::InvalidArgument);
    assert_eq!(e.message, "payload target 'nowhere' is not a valid IonQ backend");
    let e = qrmi.task_start(payload(QASM2, "aria1", 1), "j").err().unwrap();
    assert_eq!(e.kind, ErrorKind::TypeMismatch);
    assert_eq!(
        e.message,
        "payload target 'qpu.aria-1' does not match IonQCloud backend 'simulator'"
    );
    let e = qrmi.task_start(payload(QASM2, "simulator", 0), "j").err().unwrap();
    assert_eq!(e.kind, ErrorKind::InvalidArgument);
    assert_eq!(e.message, "shots must be > 0");

    let e = IonQCloud::new("moon", "k".to_string()).err().unwrap();
    assert_eq!(e.message, "invalid IonQ backend 'moon'");
    assert!(IonQCloud::new("simulator", "\u{0}".to_string()).is_err());
    let name = IonQCloud::new_job_name();
    assert!(name.starts_with("qrmi-ionq-"));
    assert_eq!(name.len(), 46);
    assert_ne!(name, IonQCloud::new_job_name());
}

#[test]
fn the_reply_to_a_submission_names_the_task() {
    assert_eq!(
        IonQCloud::task_start_result(&reply(200, r#"{"id":"job-9","status":"ready"}"#)).unwrap(),
        "job-9"
    );
    assert_eq!(
        IonQCloud::task_start_result(&reply(201, r#"{"job":{"id":"x"}}"#)).unwrap(),
        "x"
    );
    let e = IonQCloud::task_start_result(&reply(400, "no such field")).unwrap_err();
    assert_eq!(e.kind, ErrorKind::Provider);
    assert_eq!(e.message, "Status: 400 Bad Request, Fail no such field");
    let e = IonQCloud::task_start_result(&reply(200, r#"{"status":"ready"}"#)).unwrap_err();
    assert_eq!(e.kind, ErrorKind::UnexpectedResponse);
}

#[test]
fn ionq_cloud_session_and_results() {
    let mut qrmi = IonQCloud::new("simulator", "k".to_string()).unwrap();
    assert_eq!(qrmi.metadata(), vec![pair("backend_name", "simulator")]);
    assert_eq!(qrmi.is_accessible().url, "https://api.ionq.co/v0.4/backends/simulator");
    let up = r#"{"backend":"simulator","status":"available","qubits":29}"#;
    assert_eq!(IonQCloud::is_accessible_result(&reply(200, up)).unwrap(), true);
    let down = r#"{"backend":"simulator","status":"unavailable","qubits":29}"#;
    assert_eq!(IonQCloud::is_accessible_result(&reply(200, down)).unwrap(), false);
    let e = IonQCloud::is_accessible_result(&reply(503, "x")).unwrap_err();
    assert_eq!(e.message, "get_backend failed: Status: 503 Service Unavailable, Fail x");
    assert_eq!(
        IonQCloud::target_result(&reply(200, up)).unwrap().value,
        r#"{"average_queue_time":null,"backend":"simulator","degraded":null,"last_updated":null,"noise_models":null,"qubits":29,"status":"available"}"#
    );

    assert_eq!(body_of(&qrmi.acquire()), r#"{"backend":"simulator"}"#);
    let e = qrmi.acquire_result(&reply(403, "beta")).unwrap_err();
    assert_eq!(e.kind, ErrorKind::ResourceUnavailable);
    assert_eq!(
        e.message,
        "IonQ create_session failed (sessions are beta/limited availability): Status: 403 Forbidden, Fail beta"
    );
    assert!(matches!(qrmi.session, Session::Unacquired));
    let session = r#"{"id":"s1","created_at":"t0","organization_id":"o","backend":"simulator","project_id":"p","creator_id":"c","active":true,"status":"open","settings":{"expires_at":"t9"}}"#;
    assert_eq!(qrmi.acquire_result(&reply(200, session)).unwrap(), "s1");
    assert_eq!(
        qrmi.metadata(),
        vec![pair("backend_name", "simulator"), pair("session_id", "s1")]
    );
    assert!(qrmi.task_start(payload(QASM2, "simulator", 1), "j").is_ok());

    assert_eq!(qrmi.task_status("j").url, "https://api.ionq.co/v0.4/jobs/j");
    assert_eq!(qrmi.task_logs("j").url, "https://api.ionq.co/v0.4/jobs/j");
    assert_eq!(qrmi.target().url, "https://api.ionq.co/v0.4/backends/simulator");
    assert_eq!(
        IonQCloud::task_status_result("j", &reply(200, r#"{"id":"j","status":"Started"}"#)).unwrap(),
        TaskStatus::Running
    );
    let e = IonQCloud::task_status_result("j", &reply(404, "")).unwrap_err();
    assert_eq!(e.message, "get_job failed for j: Status: 404 Not Found, Fail ");
    let stop = qrmi.task_stop("j", TaskStatus::Running).unwrap();
    assert_eq!(stop.method, Method::Put);
    assert_eq!(stop.url, "https://api.ionq.co/v0.4/jobs/j/cancel");
    assert!(qrmi.task_stop("j", TaskStatus::Queued).is_some());
    for done in [TaskStatus::Completed, TaskStatus::Failed, TaskStatus::Cancelled] {
        assert!(qrmi.task_stop("j", done).is_none());
    }
    assert!(IonQCloud::task_stop_result("j", &reply(200, r#"{"id":"j","status":"canceled"}"#)).is_ok());
    let e = IonQCloud::task_stop_result("j", &reply(409, "done")).unwrap_err();
    assert_eq!(e.message, "cancel_job failed for j: Status: 409 Conflict, Fail done");

    let e = qrmi
        .task_result("j", &reply(200, r#"{"id":"j","status":"running"}"#))
        .err()
        .unwrap();
    assert_eq!(e.kind, ErrorKind::NotReady);
    assert_eq!(e.message, "IonQ job j not completed yet (status: Running)");
    let (job, next) = qrmi
        .task_result(
            "j",
            &reply(200, r#"{"id":"j","status":"completed","session_id":"s1"}"#),
        )
        .unwrap();
    assert_eq!(job.id, "j");
    assert_eq!(job.status, "completed");
    assert_eq!(job.session_id.as_deref(), Some("s1"));
    assert_eq!(next.url, "https://api.ionq.co/v0.4/jobs/j/results/probabilities");
    let result = qrmi.task_result_value("j", &job, json(r#"{"data":{"probabilities":{"0":1}}}"#));
    assert_eq!(
        result.value,
        r#"{"backend":"simulator","job_id":"j","probabilities":{"0":1},"provider":"ionq","status":"completed"}"#
    );
    assert_eq!(
        IonQCloud::task_logs_result(&reply(200, r#"{"id":"j","status":"completed"}"#)).unwrap(),
        "IonQ job logs fallback (job details):\n{\n  \"id\": \"j\",\n  \"session_id\": null,\n  \"status\": \"completed\"\n}"
    );

    assert_eq!(qrmi.release("s1").url, "https://api.ionq.co/v0.4/sessions/s1/end");
    let e = qrmi.release_result(&reply(500, "x")).unwrap_err();
    assert_eq!(e.message, "IonQ end_session failed: Status: 500 Internal Server Error, Fail x");
    assert!(matches!(qrmi.session, Session::Acquired(_)));
    qrmi.release_result(&reply(200, session)).unwrap();
    assert!(matches!(qrmi.session, Session::Released));
    assert_eq!(
        qrmi.task_start(payload(QASM2, "simulator", 1), "j").err().unwrap().kind,
        ErrorKind::SessionInvalid
    );
}

#[test]
fn mock_runs_the_whole_lifecycle() {
    let mut qrmi = IonQMock::new("simulator").unwrap();
    assert_eq!(qrmi.is_accessible().unwrap(), true);
    qrmi.set_online(false);
    assert_eq!(qrmi.is_accessible().unwrap(), false);
    qrmi.set_online(true);

    let session = qrmi.acquire().unwrap();
    assert!(!session.is_empty());
    let input = "x".repeat(200);
    let task = qrmi.task_start(payload(&input, "simulator", 100)).unwrap();
    assert!(task.starts_with("IONQ_MOCK_"));
    assert_eq!(task.len(), 46);

    let mut polls = 0;
    while qrmi.task_status(&task).unwrap() != TaskStatus::Completed {
        polls += 1;
        assert!(polls < 10, "the task never completes");
    }
    let result = qrmi.task_result(&task).unwrap();
    assert_eq!(
        result.value,
        format!(
            r#"{{"backend":"simulator","input_preview":"{}","job_id":"{}","mock":true,"provider":"ionq","shots":100,"target":"simulator"}}"#,
            "x".repeat(128),
            task
        )
    );
    assert_eq!(
        qrmi.task_logs(&task).unwrap(),
        format!(
            "job {task} started on mock backend 'simulator'\njob completed immediately by mock backend\npayload_summary: IonQ mock job on target='simulator', shots=100, input_preview='{}'",
            "x".repeat(128)
        )
    );
    // a completed task stays completed, also after a stop
    qrmi.task_stop(&task).unwrap();
    assert_eq!(qrmi.task_status(&task).unwrap(), TaskStatus::Completed);
    assert_eq!(qrmi.task_result(&task).unwrap().value, result.value);
    qrmi.task_stop("unknown").unwrap();

    let second = qrmi.task_start(payload("short", "qpu.aria-1", -3)).unwrap();
    assert_ne!(second, task);
    assert_eq!(qrmi.task_status(&task).unwrap(), TaskStatus::Completed);
    assert!(qrmi.task_logs(&second).unwrap().ends_with(
        "payload_summary: IonQ mock job on target='qpu.aria-1', shots=-3, input_preview='short'"
    ));

    qrmi.release(&session).unwrap();
    let e = qrmi.task_start(payload("x", "simulator", 1)).unwrap_err();
    assert_eq!(e.kind, ErrorKind::SessionInvalid);
    // what was started before can still be read
    assert_eq!(qrmi.task_status(&task).unwrap(), TaskStatus::Completed);
    // releasing twice, or before anything was started, is safe
    qrmi.release(&session).unwrap();
    let mut fresh = IonQMock::new("m").unwrap();
    fresh.release("never-acquired").unwrap();
    assert_eq!(
        fresh.task_start(payload("x", "simulator", 1)).unwrap_err().kind,
        ErrorKind::SessionInvalid
    );
}

#[test]
fn mock_reports_what_is_wrong() {
    let mut qrmi = IonQMock::new("sim-a").unwrap();
    // a payload of another kind is refused whatever the state of the mock
    let e = qrmi
        .task_start(Payload::PasqalCloud {
            sequence: "s".to_string(),
            job_runs: 1,
        })
        .unwrap_err();
    assert_eq!(e.kind, ErrorKind::TypeMismatch);
    assert_eq!(e.message, "IonQMock backend only supports Payload::IonQCloud");
    let e = qrmi.task_start(payload("x", "simulator", 1)).unwrap_err();
    assert_eq!(e.kind, ErrorKind::SessionInvalid);
    assert!(qrmi.jobs.is_empty());
    qrmi.acquire().unwrap();
    let e = qrmi
        .task_start(Payload::PasqalCloud {
            sequence: "s".to_string(),
            job_runs: 1,
        })
        .unwrap_err();
    assert_eq!(e.kind, ErrorKind::TypeMismatch);
    assert!(qrmi.jobs.is_empty());
    for e in [
        qrmi.task_status("nope").unwrap_err(),
        qrmi.task_result("nope").err().unwrap(),
        qrmi.task_logs("nope").unwrap_err(),
    ] {
        assert_eq!(e.kind, ErrorKind::UnknownTask);
        assert_eq!(e.message, "unknown job id for IonQMock: nope");
    }
    assert_eq!(
        qrmi.target().unwrap().value,
        r#"{"mock":true,"name":"sim-a","num_qubits":29,"provider":"ionq","type":"mock"}"#
    );
    assert_eq!(
        qrmi.metadata(),
        vec![
            pair("backend_name", "sim-a"),
            pair("provider", "ionq"),
            pair("kind", "mock")
        ]
    );
}

#[test]
fn mock_stop_cancels_only_what_still_runs() {
    let mut qrmi = IonQMock::new("m").unwrap();
    qrmi.acquire().unwrap();
    let id = qrmi
        .start_job(&payload("x", "simulator", 1), "fixed-id".to_string())
        .unwrap();
    assert_eq!(id, "fixed-id");
    qrmi.jobs[0].1.status = TaskStatus::Running;
    let e = qrmi.task_result("fixed-id").err().unwrap();
    assert_eq!(e.kind, ErrorKind::NotReady);
    assert_eq!(e.message, "job fixed-id has no result yet");
    qrmi.task_stop("fixed-id").unwrap();
    assert_eq!(qrmi.task_status("fixed-id").unwrap(), TaskStatus::Cancelled);
    assert!(qrmi
        .task_logs("fixed-id")
        .unwrap()
        .contains("\njob marked as cancelled by client request\npayload_summary: "));
    assert_eq!(qrmi.task_result("fixed-id").err().unwrap().kind, ErrorKind::NotReady);
    qrmi.task_stop("fixed-id").unwrap();
    assert_eq!(qrmi.task_status("fixed-id").unwrap(), TaskStatus::Cancelled);
    // starting under an identifier that is taken replaces the job
    qrmi.start_job(&payload("y", "simulator", 2), "fixed-id".to_string()).unwrap();
    assert_eq!(qrmi.task_status("fixed-id").unwrap(), TaskStatus::Completed);
}
