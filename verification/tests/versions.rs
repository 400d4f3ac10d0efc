use qrmi::direct_access_api::{
    read_error_response, read_extended_error, Client, ExtendedErrorResponse,
};
use qrmi::json::Json;
use qrmi::middleware::{AuthMethod, TokenManager};
use qrmi::models::ErrorKind;
use qrmi::transport::{is_header_value, Body, Method, Reply};

fn reply(status: u16, body: &str) -> Reply {
    Reply {
        status,
        body: body.to_string(),
    }
}

const ERROR_DOC: &str = r#"{"errors":[{"code":"1217","message":"bad field","more_info":"https://docs","target":{"name":"shots","type":"field"}},{"message":"m2","more_info":"i2","location":"body.x","value":"v"}],"status_code":400,"title":"Bad Request","trace":"t-1"}"#;

#[test]
fn test_list_api_versions() {
    let client = Client::new("http://localhost:8080");
    let request = client.list_api_versions();
    assert_eq!(request.method, Method::Get);
    assert_eq!(request.url, "http://localhost:8080/versions");
    assert_eq!(
        request.headers,
        vec![("Content-Type".to_string(), "application/json".to_string())]
    );
    assert!(matches!(request.body, Body::Empty));

    let versions = client
        .list_api_versions_result(&reply(200, r#"{"versions":["2025-08-01","2025-08-15"]}"#))
        .unwrap();
    assert_eq!(
        versions,
        vec!["2025-08-01".to_string(), "2025-08-15".to_string()]
    );

    // the token that the service grants is presented from then on
    let mut tokens = TokenManager::new(
        "http://localhost:8080/identity/token".to_string(),
        AuthMethod::IbmCloudIam {
            apikey: "demoapikey1".to_string(),
            service_crn: "crn:v1:local:daa_sim".to_string(),
            iam_endpoint_url: "http://localhost:8080".to_string(),
        },
    );
    let token_request = tokens
        .ensure_token_validity(0)
        .unwrap()
        .expect("an empty store asks for a token");
    assert_eq!(token_request.url, "http://localhost:8080/identity/token");
    tokens
        .accept_reply(
            0,
            &reply(
                200,
                r#"{"access_token":"dummy-token","token_type":"Bearer","expires_in":3600}"#,
            ),
        )
        .unwrap();
    assert_eq!(tokens.get_token(0), Some("dummy-token".to_string()));

    for body in ["{}", r#"{"versions":null}"#, r#"{"versions":[]}"#, "[]"] {
        assert_eq!(
            client.list_api_versions_result(&reply(200, body)).unwrap().len(),
            0,
            "{body}"
        );
    }
    for body in ["", r#"{"versions":"1"}"#, r#"{"versions":[1]}"#] {
        let e = client.list_api_versions_result(&reply(200, body)).unwrap_err();
        assert_eq!(e.kind, ErrorKind::UnexpectedResponse, "{body}");
    }
}

#[test]
fn list_api_versions_reports_failures_in_three_forms() {
    let client = Client::new("http://h");
    let e = client.list_api_versions_result(&reply(400, ERROR_DOC)).unwrap_err();
    assert_eq!(e.kind, ErrorKind::Provider);
    assert_eq!(
        e.message,
        r#"{"errors":[{"code":"1217","message":"bad field","more_info":"https://docs","target":{"name":"shots","type":"field"}},{"location":"body.x","message":"m2","more_info":"i2","value":"v"}],"status_code":400,"title":"Bad Request","trace":"t-1"}"#
    );
    let e = client
        .list_api_versions_result(&reply(503, r#""try later""#))
        .unwrap_err();
    assert_eq!(e.message, "503 Service Unavailable (try later)");
    let e = client.list_api_versions_result(&reply(404, "<html>")).unwrap_err();
    assert_eq!(e.message, "404 Not Found http://h/versions");
    let e = client
        .list_api_versions_result(&reply(404, r#"{"errors":[]}"#))
        .unwrap_err();
    assert_eq!(e.message, "404 Not Found http://h/versions");
}

#[test]
fn service_version_is_read_in_both_forms() {
    let client = Client::new("http://h/");
    assert_eq!(client.get_service_version().url, "http://h//version");
    assert_eq!(
        client
            .get_service_version_result(&reply(200, r#"{"version":"1.2.3"}"#))
            .unwrap(),
        "1.2.3"
    );
    let second = r#"{"info":{"api_name":"n","api_description":"d"},"version":{"ibm_api_version":"20250801","latest":true}}"#;
    assert_eq!(
        client.get_service_version_result(&reply(200, second)).unwrap(),
        "20250801"
    );
    let neither = r#"{"info":{"api_name":"n"},"version":{"ibm_api_version":"20250801","latest":true}}"#;
    assert_eq!(
        client.get_service_version_result(&reply(200, neither)).unwrap_err().kind,
        ErrorKind::UnexpectedResponse
    );
    let e = client.get_service_version_result(&reply(400, ERROR_DOC)).unwrap_err();
    assert_eq!(
        e.message,
        r#"Bad Request (400) [{"code":"1217","message":"bad field","more_info":"https://docs","target":{"name":"shots","type":"field"}},{"location":"body.x","message":"m2","more_info":"i2","value":"v"}]"#
    );
    let untitled = r#"{"errors":[],"status_code":65535,"trace":"t"}"#;
    let e = client.get_service_version_result(&reply(500, untitled)).unwrap_err();
    assert_eq!(e.message, " (65535) []");
    let e = client.get_service_version_result(&reply(500, r#""text""#)).unwrap_err();
    assert_eq!(e.message, "500 Internal Server Error (text)");
    let e = client.get_service_version_result(&reply(418, "")).unwrap_err();
    assert_eq!(e.message, "418 I'm a teapot http://h//version");
}

#[test]
fn error_documents_are_read_and_written() {
    let doc = Json::parse(ERROR_DOC).unwrap();
    let e = read_error_response(&doc).unwrap();
    assert_eq!(e.status_code, 400);
    assert_eq!(e.title.as_deref(), Some("Bad Request"));
    assert_eq!(e.correlation_id, None);
    assert_eq!(e.errors.len(), 2);
    assert_eq!(e.errors[0].code.as_deref(), Some("1217"));
    assert_eq!(e.errors[0].target.as_ref().unwrap().kind, "field");
    assert_eq!(e.errors[1].location.as_deref(), Some("body.x"));
    assert_eq!(e.errors[1].target.is_none(), true);
    assert_eq!(
        e.errors[1].to_json().to_text(),
        r#"{"location":"body.x","message":"m2","more_info":"i2","value":"v"}"#
    );
    for broken in [
        r#"{"errors":[{"message":"m"}],"status_code":400,"trace":"t"}"#,
        r#"{"errors":[],"status_code":65536,"trace":"t"}"#,
        r#"{"errors":[],"status_code":400}"#,
        r#"{"errors":{},"status_code":400,"trace":"t"}"#,
        r#"{"errors":[],"status_code":400,"trace":"t","title":5}"#,
    ] {
        assert!(read_error_response(&Json::parse(broken).unwrap()).is_none(), "{broken}");
    }
    assert!(matches!(
        read_extended_error(r#""plain""#),
        Some(ExtendedErrorResponse::Text(t)) if t == "plain"
    ));
    assert!(matches!(
        read_extended_error(ERROR_DOC),
        Some(ExtendedErrorResponse::Json(_))
    ));
    assert!(read_extended_error("7").is_none());
    assert!(read_extended_error("plain").is_none());
}

#[test]
fn header_values_exclude_control_characters() {
    for ok in ["", "Bearer abc.def", "tab\there", "caf\u{e9}", " ~"] {
        assert!(is_header_value(ok), "{ok:?}");
    }
    for bad in ["a\nb", "\r", "\u{0}", "x\u{7f}", "\u{1f}"] {
        assert!(!is_header_value(bad), "{bad:?}");
    }
}

#[test]
fn replies_describe_themselves() {
    let r = reply(404, "gone");
    assert!(!r.succeeded());
    assert_eq!(r.status_line(), "404 Not Found");
    assert_eq!(r.reason(), "Not Found");
    assert_eq!(r.failure_text(), "Status: 404 Not Found, Fail gone");
    assert!(reply(200, "").succeeded());
    assert!(reply(299, "").succeeded());
    assert!(!reply(300, "").succeeded());
    assert!(!reply(199, "").succeeded());
    assert_eq!(reply(799, "").status_line(), "799 <unknown status code>");
    assert_eq!(reply(799, "").reason(), "");
    assert_eq!(reply(99, "").status_line(), "");
    assert_eq!(reply(1000, "").reason(), "");
}
