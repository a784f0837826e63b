use scanner_bridge::http::{Answer, Body, HttpMethod};
use scanner_bridge::pairing::{
    code_form, connection_valid, decoded, hostname_or_unknown, load_saved_connection, pair,
    pairing_failure_message, register_request, register_this_machine, registered,
    resolve_manual_code, resolved, validate_connection, CodeForm, PairingCode, PairingFailure,
    PairingResult, PairingStart, UNKNOWN_HOST,
};

fn code(url: &str, bridge_name: Option<&str>) -> PairingCode {
    PairingCode {
        docflow_url: url.to_string(),
        tenant_id: None,
        pairing_token: "tok".to_string(),
        bridge_name: bridge_name.map(|n| n.to_string()),
    }
}

fn reply<T>(status: u16, body: &str, decoded: Result<T, &str>) -> Answer<T> {
    Answer::Reply { status, body: body.to_string(), decoded: decoded.map_err(|e| e.to_string()) }
}

fn lost<T>(reason: &str) -> Answer<T> {
    Answer::NoReply { reason: reason.to_string() }
}

fn credentials(url: &str) -> PairingResult {
    PairingResult {
        bridge_id: "b-1".to_string(),
        api_key: "secret-key".to_string(),
        refresh_token: "r-1".to_string(),
        docflow_url: url.to_string(),
        tenant_name: "Tenant".to_string(),
    }
}

#[test]
fn code_forms() {
    assert_eq!(code_form("{\"docflow_url\":\"x\"}"), CodeForm::Structured);
    assert_eq!(code_form("{-}"), CodeForm::Structured);
    assert_eq!(code_form("ABCD-1234-WXYZ"), CodeForm::Manual);
    assert_eq!(code_form("-"), CodeForm::Manual);
    assert_eq!(code_form("ABCD1234"), CodeForm::Invalid);
    assert_eq!(code_form(""), CodeForm::Invalid);
    assert_eq!(code_form(" {"), CodeForm::Invalid);
}

#[test]
fn structured_code_is_decoded() {
    assert!(matches!(pair("{\"pairing_token\":\"t\"}", None), PairingStart::Decode));
    assert!(matches!(pair("{}", Some("http://ignored")), PairingStart::Decode));
    let (c, url) = decoded(Ok(code("https://docflow.example", None))).unwrap();
    assert_eq!(url, "https://docflow.example");
    assert_eq!(c.pairing_token, "tok");
    let error = decoded(Err("missing field `pairing_token`".to_string())).unwrap_err();
    assert_eq!(error.failure, PairingFailure::UnreadableCode);
    assert_eq!(error.message(), "missing field `pairing_token`");
}

#[test]
fn manual_code_needs_the_url() {
    match pair("AB12-CD34-EF56", None) {
        PairingStart::Fail { failure } => {
            assert_eq!(failure, PairingFailure::UrlRequired);
            assert_eq!(
                pairing_failure_message(failure, ""),
                "DocFlow-URL wird f\u{fc}r manuelle Codes ben\u{f6}tigt"
            );
        }
        other => panic!("{:?}", other),
    }
}

#[test]
fn anything_else_is_invalid() {
    match pair("hello", Some("http://host.local:4000")) {
        PairingStart::Fail { failure } => {
            assert_eq!(failure, PairingFailure::InvalidCode);
            assert_eq!(pairing_failure_message(failure, ""), "Ung\u{fc}ltiger Pairing-Code");
        }
        other => panic!("{:?}", other),
    }
}

#[test]
fn pair_with_manual_code() {
    let (request, effective_url) = match pair("AB12-CD34-EF56", Some("http://host.local:4000")) {
        PairingStart::Resolve { request, effective_url } => (request, effective_url),
        other => panic!("{:?}", other),
    };
    assert_eq!(effective_url, "http://host.local:4000");
    assert_eq!(request.method, HttpMethod::Post);
    assert_eq!(request.url, "http://host.local:4000/api/scanner/bridge/resolve-code");
    assert_eq!(request.bearer, None);
    match &request.body {
        Body::ResolveCode { code } => assert_eq!(code, "AB12-CD34-EF56"),
        other => panic!("{:?}", other),
    }
    let resolved_code = resolved(reply(200, "{}", Ok(code("https://other:443", None)))).unwrap();
    let request = register_request(
        resolved_code,
        &effective_url,
        "workstation".to_string(),
        "1.2.3".to_string(),
        "linux".to_string(),
    );
    assert_eq!(request.method, HttpMethod::Post);
    assert_eq!(request.url, "http://host.local:4000/api/scanner/bridge/register");
    assert_eq!(request.bearer, None);
    match &request.body {
        Body::Register { request } => {
            assert_eq!(request.pairing_token, "tok");
            assert_eq!(request.bridge_name, "Bridge auf workstation");
            assert_eq!(request.bridge_version, "1.2.3");
            assert_eq!(request.os, "linux");
            assert_eq!(request.hostname, "workstation");
        }
        other => panic!("{:?}", other),
    }
    let kept =
        registered(reply(200, "{}", Ok(credentials("https://other:443"))), &effective_url).unwrap();
    assert_eq!(kept.docflow_url, "http://host.local:4000");
    assert_eq!(kept.api_key, "secret-key");
    assert_eq!(kept.bridge_id, "b-1");
    assert_eq!(kept.refresh_token, "r-1");
    assert_eq!(kept.tenant_name, "Tenant");
}

#[test]
fn trailing_slashes_of_the_user_url_are_dropped() {
    match pair("AB12-CD34", Some("http://host.local:4000//")) {
        PairingStart::Resolve { request, effective_url } => {
            assert_eq!(effective_url, "http://host.local:4000");
            assert_eq!(request.url, "http://host.local:4000/api/scanner/bridge/resolve-code");
        }
        other => panic!("{:?}", other),
    }
    let request = resolve_manual_code("AB-1", "http://h/");
    assert_eq!(request.url, "http://h/api/scanner/bridge/resolve-code");
}

#[test]
fn resolve_replies() {
    let error = resolved(lost("connection refused")).unwrap_err();
    assert_eq!(error.failure, PairingFailure::ResolveUnreachable);
    assert_eq!(error.message(), "Verbindung fehlgeschlagen: connection refused");
    let error = resolved(reply(404, "unknown code", Ok(code("x", None)))).unwrap_err();
    assert_eq!(error.failure, PairingFailure::ResolveRefused);
    assert_eq!(error.message(), "Code-Aufl\u{f6}sung fehlgeschlagen: unknown code");
    let error = resolved(reply(200, "<html>", Err("expected value"))).unwrap_err();
    assert_eq!(error.failure, PairingFailure::ResolveUnreadable);
    assert_eq!(error.message(), "expected value");
    assert_eq!(
        pairing_failure_message(PairingFailure::ResolveRefused, "unknown code"),
        "Code-Aufl\u{f6}sung fehlgeschlagen: unknown code"
    );
}

#[test]
fn register_replies() {
    let error = registered(lost("timed out"), "u").unwrap_err();
    assert_eq!(error.failure, PairingFailure::RegisterUnreachable);
    assert_eq!(error.message(), "timed out");
    let error = registered(reply(403, "token expired", Ok(credentials("x"))), "u").unwrap_err();
    assert_eq!(error.failure, PairingFailure::RegisterRefused);
    assert_eq!(error.message(), "Registrierung fehlgeschlagen: token expired");
    let error = registered(reply(201, "", Err("EOF while parsing")), "u").unwrap_err();
    assert_eq!(error.failure, PairingFailure::RegisterUnreadable);
    assert_eq!(error.message(), "EOF while parsing");
    assert!(registered(reply(299, "", Ok(credentials("x"))), "u").is_ok());
    assert_eq!(
        pairing_failure_message(PairingFailure::RegisterRefused, "token expired"),
        "Registrierung fehlgeschlagen: token expired"
    );
    assert_eq!(pairing_failure_message(PairingFailure::RegisterUnreadable, "bad json"), "bad json");
}

#[test]
fn bridge_name_of_the_code_wins() {
    let request = register_request(
        code("https://d", Some("Empfang")),
        "https://d",
        "pc-7".to_string(),
        "1.0.0".to_string(),
        "windows".to_string(),
    );
    match &request.body {
        Body::Register { request } => assert_eq!(request.bridge_name, "Empfang"),
        other => panic!("{:?}", other),
    }
}

#[test]
fn register_this_machine_names_the_host() {
    let request =
        register_this_machine(code("https://d", None), "https://d", "1.0.0".to_string(), "linux".to_string());
    assert_eq!(request.url, "https://d/api/scanner/bridge/register");
    match &request.body {
        Body::Register { request } => {
            assert!(!request.hostname.is_empty());
            assert_eq!(request.bridge_name, format!("Bridge auf {}", request.hostname));
            assert_eq!(request.pairing_token, "tok");
        }
        other => panic!("{:?}", other),
    }
}

#[test]
fn saved_connection_needs_both_slots() {
    assert_eq!(
        load_saved_connection(Some("k".to_string()), Some("u".to_string())),
        Some(("k".to_string(), "u".to_string()))
    );
    assert_eq!(load_saved_connection(Some("k".to_string()), None), None);
    assert_eq!(load_saved_connection(None, Some("u".to_string())), None);
    assert_eq!(load_saved_connection(None, None), None);
    // An empty value is a value.
    assert_eq!(
        load_saved_connection(Some(String::new()), Some(String::new())),
        Some((String::new(), String::new()))
    );
}

#[test]
fn validation_asks_the_status_endpoint() {
    let request = validate_connection("key-1", "https://docflow.example");
    assert_eq!(request.method, HttpMethod::Get);
    assert_eq!(request.url, "https://docflow.example/api/scanner/bridge/status");
    assert_eq!(request.bearer, Some("key-1".to_string()));
    assert!(matches!(request.body, Body::Empty));
    assert!(connection_valid(Some(200)));
    assert!(connection_valid(Some(204)));
    assert!(!connection_valid(Some(401)));
    assert!(!connection_valid(None));
}

#[test]
fn a_machine_without_a_name_is_unknown() {
    assert_eq!(hostname_or_unknown(Some("pc-7".to_string())), "pc-7");
    assert_eq!(hostname_or_unknown(Some(String::new())), "");
    assert_eq!(hostname_or_unknown(None), "Unknown");
    assert_eq!(UNKNOWN_HOST, "Unknown");
    let request = register_request(
        code("https://d", None),
        "https://d",
        hostname_or_unknown(None),
        "1.0.0".to_string(),
        "linux".to_string(),
    );
    match &request.body {
        Body::Register { request } => {
            assert_eq!(request.hostname, "Unknown");
            assert_eq!(request.bridge_name, "Bridge auf Unknown");
        }
        other => panic!("{:?}", other),
    }
}
