use qrmi::models::{ErrorKind, Payload, Session, TaskStatus};
use qrmi::pasqal::{
    map_pasqal_status, map_pasqal_status_word, read_qrmi_config_env_value_from_content, resolve,
    PasqalCloud, PasqalLocal,
};
use qrmi::pasqal_cloud_api::{
    auth_endpoint_url, AuthError, Client, ClientBuilder, DeviceType, JobStatus, DEFAULT_AUTH_ENDPOINT,
    DEFAULT_BASE_URL,
};
use qrmi::transport::{Body, Method, Reply};

fn reply(status: u16, body: &str) -> Reply {
    Reply {
        status,
        body: body.to_string(),
    }
}

fn pair(name: &str, value: &str) -> (String, String) {
    (name.to_string(), value.to_string())
}

#[test]
fn read_qrmi_config_env_value_handles_empty_and_missing_environment_key() {
    let content = r#"{
        "resources": [
            {"name":"EMU_FREE","type":"pasqal-cloud","environment":{}},
            {"name":"EMU_OTHER","type":"pasqal-cloud"}
        ]
    }"#;

    let value = read_qrmi_config_env_value_from_content(
        content,
        "EMU_FREE",     //existing resource
        "nonsense-key", // non-existing key in environment
    );
    assert!(value.is_none());

    let value = read_qrmi_config_env_value_from_content(
        content,
        "EMU_OTHER",    // existing resource
        "nonsense-key", // non-existing key in environment
    );
    assert!(value.is_none());
}

#[test]
fn read_qrmi_config_env_value_finds_the_value_of_the_named_resource() {
    let content = r#"{"resources":[
        {"name":"A","environment":{"K":"first"}},
        {"name":"B","environment":{"K":"second","N":7}},
        {"name":"A","environment":{"K":"shadowed"}}
    ]}"#;
    assert_eq!(
        read_qrmi_config_env_value_from_content(content, "A", "K"),
        Some("first".to_string())
    );
    assert_eq!(
        read_qrmi_config_env_value_from_content(content, "B", "K"),
        Some("second".to_string())
    );
    assert_eq!(read_qrmi_config_env_value_from_content(content, "B", "N"), None);
    assert_eq!(read_qrmi_config_env_value_from_content(content, "C", "K"), None);
    assert_eq!(read_qrmi_config_env_value_from_content("not json", "A", "K"), None);
    assert_eq!(read_qrmi_config_env_value_from_content("{}", "A", "K"), None);
}

#[test]
fn settings_resolve_by_precedence() {
    let s = |t: &str| Some(t.to_string());
    assert_eq!(resolve(s("env"), s("local"), s("shared")), s("env"));
    assert_eq!(resolve(None, s("local"), s("shared")), s("local"));
    assert_eq!(resolve(None, None, s("shared")), s("shared"));
    assert_eq!(resolve(None, None, None), None);
}

#[test]
fn builder_keeps_what_it_is_given() {
    let mut builder = ClientBuilder::new("tok".to_string(), "proj".to_string());
    assert_eq!(builder.base_url, DEFAULT_BASE_URL);
    assert_eq!(builder.auth_endpoint, DEFAULT_AUTH_ENDPOINT);
    assert_eq!(builder.username, None);
    builder
        .base_url("http://localhost:1".to_string())
        .with_auth_endpoint("auth.example/oauth".to_string())
        .with_token("other".to_string())
        .with_credentials("usr".to_string(), "pass".to_string());
    let client = builder.build().expect("client build should succeed");
    assert_eq!(client.base_url, "http://localhost:1");
    assert_eq!(client.auth_endpoint, "auth.example/oauth");
    assert_eq!(client.auth_token, "other");
    assert_eq!(client.project_id, "proj");
    assert_eq!(client.username.as_deref(), Some("usr"));
    assert_eq!(client.password.as_deref(), Some("pass"));
    assert_eq!(client.auth_token_expiry_unix_seconds, None);

    let empty = ClientBuilder::for_project("p".to_string());
    assert_eq!(empty.token, "");
    assert_eq!(empty.project_id, "p");
    assert!(ClientBuilder::new("a.@@@.c".to_string(), "p".to_string())
        .build()
        .is_err());
    // an empty and an opaque token are taken as they are, with no expiry
    for token in ["", "opaque_token", "a.b"] {
        let client = ClientBuilder::new(token.to_string(), "p".to_string())
            .build()
            .unwrap();
        assert_eq!(client.auth_token, token);
        assert_eq!(client.auth_token_expiry_unix_seconds, None);
    }
}

#[test]
fn is_accessible_attempts_authentication() {
    // A client with an empty token and credentials must ask for a token, use the
    // one it is granted, and then read the device as accessible.
    let mut builder = ClientBuilder::new(String::new(), "project-id".to_string());
    builder
        .with_auth_endpoint("http://127.0.0.1:9".to_string())
        .with_credentials("usr".to_string(), "pass".to_string());
    let mut client = builder.build().expect("client build should succeed");

    let request = client
        .ensure_authenticated(1_000)
        .expect("credentials are configured")
        .expect("an empty token must be renewed");
    assert_eq!(request.method, Method::Post);
    assert_eq!(request.url, "http://127.0.0.1:9");
    assert_eq!(
        request.headers,
        vec![pair("Content-Type", "application/x-www-form-urlencoded")]
    );
    match &request.body {
        Body::Form(fields) => {
            assert_eq!(fields.len(), 6);
            assert_eq!(
                fields[0],
                pair(
                    "grant_type",
                    "http://auth0.com/oauth/grant-type/password-realm"
                )
            );
            assert_eq!(fields[1], pair("realm", "pcs-users"));
            assert_eq!(
                fields[3],
                pair("audience", "https://apis.pasqal.cloud/account/api/v1")
            );
            assert_eq!(fields[4], pair("username", "usr"));
            assert_eq!(fields[5], pair("password", "pass"));
        }
        other => panic!("unexpected body {other:?}"),
    }

    let token = Client::read_access_token(&reply(200, r#"{"access_token":"opaque_token"}"#))
        .expect("the reply grants a token");
    client.accept_token(token).expect("an opaque token is accepted");
    assert_eq!(client.auth_token, "opaque_token".to_string());
    assert!(client.ensure_authenticated(1_000).unwrap().is_none());

    let mut qrmi = PasqalCloud {
        api_client: client,
        backend_name: "EMU_FREE".to_string(),
        session: Session::Unacquired,
    };
    let probe = qrmi.is_accessible().expect("EMU_FREE names a device");
    assert_eq!(
        probe.url,
        format!("{DEFAULT_BASE_URL}/core-fast/api/v1/devices?device_type=EMU_FREE")
    );
    assert_eq!(
        probe.headers,
        vec![
            pair("Content-Type", "application/json"),
            pair("Authorization", "Bearer opaque_token")
        ]
    );
    let accessible = PasqalCloud::is_accessible_result(
        &reply(200, r#"{"data":[{"status":"UP","availability":"ACTIVE"}]}"#),
        DeviceType::EmuFree,
    )
    .expect("is_accessible should succeed");
    assert!(accessible);
    let retired = PasqalCloud::is_accessible_result(
        &reply(200, r#"{"data":[{"status":"UP","availability":"RETIRED"}]}"#),
        DeviceType::EmuFree,
    );
    assert_eq!(retired.unwrap(), false);
    let _ = qrmi.acquire();
}

#[test]
fn missing_credentials_fail_fast() {
    let client = ClientBuilder::for_project("p".to_string()).build().unwrap();
    assert_eq!(
        client.ensure_authenticated(0).unwrap_err(),
        AuthError::MissingCredentialsForRefresh
    );
    assert_eq!(
        AuthError::MissingCredentialsForRefresh.message(),
        "auth token is missing or expired and username/password are not configured"
    );
    let mut half = ClientBuilder::for_project("p".to_string());
    half.username = Some("usr".to_string());
    assert!(half.build().unwrap().ensure_authenticated(0).is_err());
}

#[test]
fn auth_endpoint_gets_a_scheme() {
    assert_eq!(
        auth_endpoint_url("   "),
        "https://authenticate.pasqal.cloud/oauth/token"
    );
    assert_eq!(auth_endpoint_url(" http://a/b "), "http://a/b");
    assert_eq!(auth_endpoint_url(" a/b "), "https://a/b");
}

#[test]
fn token_reply_failures_are_reported() {
    let refused = Client::read_access_token(&reply(403, "no")).unwrap_err();
    assert_eq!(refused.kind, ErrorKind::AuthenticationFailed);
    assert_eq!(refused.message, "Token request failed: 403 Forbidden no");
    let odd = Client::read_access_token(&reply(200, r#"{"token":"x"}"#)).unwrap_err();
    assert_eq!(odd.kind, ErrorKind::UnexpectedResponse);
}

#[test]
fn accept_token_keeps_the_old_expiry_on_a_malformed_token() {
    let mut client = ClientBuilder::for_project("p".to_string()).build().unwrap();
    client.auth_token_expiry_unix_seconds = Some(5);
    assert!(client.accept_token("a.@@@.c".to_string()).is_err());
    assert_eq!(client.auth_token, "a.@@@.c");
    assert_eq!(client.auth_token_expiry_unix_seconds, Some(5));
    // {"exp":7}
    client
        .accept_token("h.eyJleHAiOjd9.s".to_string())
        .unwrap();
    assert_eq!(client.auth_token_expiry_unix_seconds, Some(7));
}

#[test]
fn pasqal_statuses_map_to_the_canonical_five() {
    let all = [
        (JobStatus::Pending, "PENDING", TaskStatus::Queued),
        (JobStatus::Running, "RUNNING", TaskStatus::Running),
        (JobStatus::Canceling, "CANCELING", TaskStatus::Running),
        (JobStatus::Done, "DONE", TaskStatus::Completed),
        (JobStatus::Canceled, "CANCELED", TaskStatus::Cancelled),
        (JobStatus::TimedOut, "TIMED_OUT", TaskStatus::Failed),
        (JobStatus::Error, "ERROR", TaskStatus::Failed),
        (JobStatus::Paused, "PAUSED", TaskStatus::Queued),
    ];
    for (status, word, canonical) in all {
        assert_eq!(status.as_str(), word);
        assert_eq!(JobStatus::parse(word), Some(status));
        assert_eq!(map_pasqal_status(status), canonical);
        assert_eq!(map_pasqal_status_word(word), canonical);
    }
    assert_eq!(map_pasqal_status_word("SOMETHING_NEW"), TaskStatus::Queued);
    assert_eq!(JobStatus::parse("done"), None);
}

#[test]
fn device_names_are_read_in_any_case() {
    assert_eq!(DeviceType::parse("fresnel"), Some(DeviceType::Fresnel));
    assert_eq!(DeviceType::parse("Fresnel_Can1"), Some(DeviceType::FresnelCan1));
    assert_eq!(DeviceType::parse("EMU_MPS"), Some(DeviceType::EmuMps));
    assert_eq!(DeviceType::parse("emu_free"), Some(DeviceType::EmuFree));
    assert_eq!(DeviceType::parse("EMU_FRESNEL"), None);
    assert_eq!(DeviceType::EmuFree.as_str(), "EMU_FREE");
}

#[test]
fn pasqal_cloud_task_lifecycle() {
    let mut qrmi = PasqalCloud::new("EMU_FREE", Some("proj".to_string()), None).unwrap();
    let payload = || Payload::PasqalCloud {
        sequence: "seq".to_string(),
        job_runs: 10,
    };
    let ionq = || Payload::IonQCloud {
        input: "x".to_string(),
        target: "simulator".to_string(),
        shots: 1,
    };
    // a payload of another kind is refused whatever the state of the adapter
    assert_eq!(
        qrmi.task_start(ionq()).unwrap_err().kind,
        ErrorKind::TypeMismatch
    );
    let early = qrmi.task_start(payload()).unwrap_err();
    assert_eq!(early.kind, ErrorKind::SessionInvalid);

    let session = qrmi.acquire().unwrap();
    assert!(!session.is_empty());
    let wrong = qrmi
        .task_start(Payload::IonQCloud {
            input: "x".to_string(),
            target: "simulator".to_string(),
            shots: 1,
        })
        .unwrap_err();
    assert_eq!(wrong.kind, ErrorKind::TypeMismatch);

    let request = qrmi.task_start(payload()).unwrap();
    assert_eq!(request.method, Method::Post);
    assert_eq!(
        request.url,
        "https://apis.pasqal.cloud/core-fast/api/v1/batches"
    );
    match &request.body {
        Body::Json(text) => assert_eq!(
            text,
            r#"{"device_type":"EMU_FREE","jobs":[{"runs":10}],"project_id":"proj","sequence_builder":"seq"}"#
        ),
        other => panic!("unexpected body {other:?}"),
    }
    assert_eq!(
        PasqalCloud::task_start_result(&reply(200, r#"{"data":{"id":"b1"}}"#)).unwrap(),
        "b1"
    );
    assert_eq!(
        qrmi.task_status("b1").url,
        "https://apis.pasqal.cloud/core-fast/api/v2/batches/b1"
    );
    assert_eq!(
        PasqalCloud::task_status_result(&reply(
            200,
            r#"{"data":{"status":"DONE","job_ids":["j1"]}}"#
        ))
        .unwrap(),
        TaskStatus::Completed
    );
    let stop = qrmi.task_stop("b1", TaskStatus::Running).unwrap();
    assert_eq!(
        stop.url,
        "https://apis.pasqal.cloud/core-fast/api/v2/batches/b1/cancel"
    );
    assert_eq!(stop.method, Method::Patch);
    assert!(qrmi.task_stop("b1", TaskStatus::Queued).is_some());
    for done in [TaskStatus::Completed, TaskStatus::Failed, TaskStatus::Cancelled] {
        assert!(qrmi.task_stop("b1", done).is_none());
    }
    for early in [TaskStatus::Queued, TaskStatus::Running, TaskStatus::Failed, TaskStatus::Cancelled] {
        assert_eq!(
            qrmi.task_result("b1", early).unwrap_err().kind,
            ErrorKind::NotReady
        );
    }
    assert_eq!(
        qrmi.task_result("b1", TaskStatus::Running).unwrap_err().message,
        "Pasqal batch b1 not completed yet (status: Running)"
    );
    assert_eq!(
        qrmi.task_result("b1", TaskStatus::Completed).unwrap().url,
        "https://apis.pasqal.cloud/core-fast/api/v1/batches/b1/full_results"
    );
    // a word that is not known keeps the caller waiting
    assert_eq!(
        PasqalCloud::task_status_result(&reply(200, r#"{"data":{"status":"FINE"}}"#)).unwrap(),
        TaskStatus::Queued
    );
    assert_eq!(
        PasqalCloud::task_status_result(&reply(200, r#"{"data":{"status":"done"}}"#)).unwrap(),
        TaskStatus::Queued
    );
    assert!(PasqalCloud::task_status_result(&reply(200, r#"{"data":{"status":7}}"#)).is_err());
    assert!(PasqalCloud::task_status_result(&reply(200, r#"{"status":"DONE"}"#)).is_err());
    assert_eq!(
        PasqalCloud::task_status_result(&reply(500, "x")).unwrap_err().kind,
        ErrorKind::Provider
    );
    let result = PasqalCloud::task_result_value(&reply(
        200,
        r#"{"data":{"j1":{"counter":{"10":3,"01":7},"extra":1}}}"#,
    ))
    .unwrap();
    assert_eq!(result.value, r#"{"counter":{"01":7,"10":3}}"#);
    assert_eq!(
        qrmi.task_logs("b1").unwrap(),
        "There are no logs for this job."
    );
    assert_eq!(
        qrmi.metadata(),
        vec![pair("backend_name", "EMU_FREE")]
    );

    qrmi.release(&session).unwrap();
    let late = qrmi.task_start(payload()).unwrap_err();
    assert_eq!(late.kind, ErrorKind::SessionInvalid);
}

#[test]
fn pasqal_cloud_reports_what_is_wrong() {
    let missing = PasqalCloud::new("EMU_FREE", None, None).err().unwrap();
    assert_eq!(missing.kind, ErrorKind::CredentialsMissing);
    assert_eq!(
        missing.message,
        "EMU_FREE_QRMI_PASQAL_CLOUD_PROJECT_ID environment variable is not set"
    );
    let mut odd = PasqalCloud::new("NOPE", Some("p".to_string()), Some(String::new())).unwrap();
    let e = odd.is_accessible().unwrap_err();
    assert_eq!(e.kind, ErrorKind::InvalidArgument);
    assert_eq!(
        e.message,
        "Device 'NOPE' is invalid. Valid devices: FRESNEL, FRESNEL_CAN1, EMU_MPS, EMU_FREE, EMU_FRESNEL"
    );
    assert!(odd.target().is_err());
    odd.acquire().unwrap();
    let e = odd
        .task_start(Payload::PasqalCloud {
            sequence: String::new(),
            job_runs: 1,
        })
        .unwrap_err();
    assert_eq!(e.kind, ErrorKind::InvalidArgument);

    let none = PasqalCloud::is_accessible_result(&reply(200, r#"{"data":[]}"#), DeviceType::EmuMps)
        .unwrap_err();
    assert_eq!(none.kind, ErrorKind::ResourceUnavailable);
    assert_eq!(
        none.message,
        "Failed to get device: No devices found for type EmuMps"
    );
    let down = PasqalCloud::is_accessible_result(&reply(503, "down"), DeviceType::EmuMps)
        .unwrap_err();
    assert_eq!(down.kind, ErrorKind::Provider);
    assert_eq!(
        down.message,
        "Failed to get device: Status: 503 Service Unavailable, Fail down"
    );

    let empty = PasqalCloud::task_result_value(&reply(200, r#"{"data":{}}"#)).unwrap_err();
    assert_eq!(empty.kind, ErrorKind::NotReady);
    assert_eq!(empty.message, "No results found");
    let many = PasqalCloud::task_result_value(&reply(
        200,
        r#"{"data":{"a":{"counter":{}},"b":{"counter":{}}}}"#,
    ))
    .unwrap_err();
    assert_eq!(
        many.message,
        "Unexpected multiple jobs in one Pasqal cloud batch"
    );
    assert!(PasqalCloud::task_result_value(&reply(200, r#"{"data":{"a":{"counter":{"x":-1}}}}"#))
        .is_err());
    assert_eq!(
        PasqalCloud::target_result(&reply(200, r#"{"data":{"specs":"{}"}}"#))
            .unwrap()
            .value,
        "{}"
    );
}

#[test]
fn pasqal_local_uses_the_session_token_it_is_given() {
    let client = qrmi::pasqal_local_api::ClientBuilder::new().build(Ok("MUNGE:abc:".to_string())).unwrap();
    assert_eq!(client.base_url, "http://localhost:4207");
    let qrmi = PasqalLocal::new(client, Some("1234")).unwrap();
    assert_eq!(qrmi.job_uid, 1234);
    assert_eq!(qrmi.is_accessible().unwrap(), true);

    let acquire = qrmi.acquire();
    assert_eq!(acquire.url, "http://localhost:4207/sessions");
    assert_eq!(
        acquire.headers,
        vec![
            pair("Content-Type", "application/json"),
            pair("x-munge-cred", "MUNGE:abc:")
        ]
    );
    match &acquire.body {
        Body::Json(text) => assert_eq!(text, r#"{"user_id":"1234"}"#),
        other => panic!("unexpected body {other:?}"),
    }
    assert_eq!(
        PasqalLocal::acquire_result(&reply(201, r#"{"id":"s-1"}"#)).unwrap(),
        "s-1"
    );
    let refused = PasqalLocal::acquire_result(&reply(503, "busy")).unwrap_err();
    assert_eq!(refused.kind, ErrorKind::ResourceUnavailable);
    assert_eq!(refused.message, "Status: 503 Service Unavailable, Fail busy");

    let payload = || Payload::PasqalCloud {
        sequence: "seq".to_string(),
        job_runs: 100,
    };
    let other = Payload::IonQCloud {
        input: "x".to_string(),
        target: "simulator".to_string(),
        shots: 1,
    };
    assert_eq!(
        qrmi.task_start(other, None).unwrap_err().kind,
        ErrorKind::TypeMismatch
    );
    let e = qrmi.task_start(payload(), None).unwrap_err();
    assert_eq!(e.kind, ErrorKind::SessionInvalid);
    assert_eq!(
        e.message,
        "PASQAL_LOCAL_QRMI_JOB_ACQUISITION_TOKEN environment variable is not set"
    );
    let start = qrmi.task_start(payload(), Some("s-1")).unwrap();
    assert_eq!(start.url, "http://localhost:4207/jobs");
    assert_eq!(start.headers[2], pair("X-Warden-Session", "s-1"));
    match &start.body {
        Body::Json(text) => assert_eq!(text, r#"{"sequence":"seq"}"#),
        other => panic!("unexpected body {other:?}"),
    }
    assert_eq!(
        PasqalLocal::task_start_result(&reply(200, r#"{"id":-42,"user_id":"u"}"#)).unwrap(),
        "-42"
    );
    assert!(PasqalLocal::task_start_result(&reply(200, r#"{"id":"42","user_id":"u"}"#)).is_err());

    let release = qrmi.release(Some("s-1")).unwrap();
    assert_eq!(release.method, Method::Delete);
    assert_eq!(release.url, "http://localhost:4207/sessions/s-1");
    assert_eq!(qrmi.release(None).unwrap_err().kind, ErrorKind::SessionInvalid);
    assert_eq!(qrmi.task_status("1").unwrap(), TaskStatus::Completed);
    assert_eq!(qrmi.task_result("1").unwrap_err().kind, ErrorKind::NotReady);
    assert_eq!(qrmi.target().unwrap().value, "placeholder");
    assert!(qrmi.metadata().is_empty());
    assert!(qrmi.task_stop("1").is_ok());

    let failed = qrmi::pasqal_local_api::ClientBuilder::new()
        .build(Err(qrmi::pasqal_local_api::MungeError::EncodeFailed("socket".to_string())))
        .unwrap_err();
    assert_eq!(failed.message, "munge encode failed: socket");
    assert!(qrmi::pasqal_local_api::ClientBuilder::new().build(Ok("bad\ntoken".to_string())).is_err());
    let c = qrmi::pasqal_local_api::ClientBuilder::new().build(Ok(String::new())).unwrap();
    assert!(PasqalLocal::new(c.clone(), None).is_err());
    assert!(PasqalLocal::new(c.clone(), Some("x")).is_err());
    assert!(PasqalLocal::new(c, Some("2147483648")).is_err());
}

#[test]
fn pasqal_local_lists_jobs() {
    let jobs = qrmi::pasqal_local_api::Client::get_jobs_result(&reply(
        200,
        r#"[{"id":1,"user_id":"a"},{"id":2,"user_id":"b","more":true}]"#,
    ))
    .unwrap();
    assert_eq!(jobs.len(), 2);
    assert_eq!(jobs[1].id, 2);
    assert_eq!(jobs[1].user_id, "b");
    assert!(qrmi::pasqal_local_api::Client::get_jobs_result(&reply(200, r#"[{"id":1}]"#)).is_err());
    let e = qrmi::pasqal_local_api::Client::get_jobs_result(&reply(404, "gone")).unwrap_err();
    assert_eq!(e.message, "Status: 404 Not Found, Fail gone");
}
