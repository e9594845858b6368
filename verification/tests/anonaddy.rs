use has_my_alias_been_pwned::anonaddy::{AnonAddy, AnonAddyAlias, AnonAddyResponse};
use has_my_alias_been_pwned::email_alias::{Alias, AliasError, AliasFailure, AliasService};
use has_my_alias_been_pwned::http::{Header, Method, TransportError};
use has_my_alias_been_pwned::scan::{ScanAction, ScanEvent, ScanOrchestrator};

fn alias(id: &str, email: &str, active: bool) -> AnonAddyAlias {
    AnonAddyAlias {
        id: id.to_string(),
        user_id: "ca0a4e09-c266-4f6f-845c-958db5090f09".to_string(),
        aliasable_id: None,
        aliasable_type: None,
        local_part: "first".to_string(),
        extension: None,
        domain: "johndoe.anonaddy.com".to_string(),
        email: email.to_string(),
        active,
        description: None,
        emails_forwarded: 5,
        emails_blocked: 0,
        emails_replied: 0,
        emails_sent: 0,
        recipients: vec![],
        created_at: "2019-10-01 09:00:00".to_string(),
        updated_at: "2019-10-01 09:00:00".to_string(),
    }
}

fn service(host: &str) -> AnonAddy {
    AnonAddy { token: "test-token".to_string(), host: host.to_string() }
}

fn service_headers() -> Vec<Header> {
    vec![
        Header { name: "Content-Type".to_string(), value: "application/json".to_string() },
        Header { name: "Authorization".to_string(), value: "Bearer test-token".to_string() },
    ]
}

#[test]
fn anonaddy_new_return_instance_if_token_variable_empty() {
    let anonaddy = AnonAddy::new("".to_string(), None);

    assert_eq!(anonaddy.token, "");
    assert_eq!(anonaddy.host, "https://app.anonaddy.com".to_string());
}

#[test]
fn anonaddy_new_return_instance_if_token_variable_has_value() {
    let anonaddy = AnonAddy::new("test-token".to_string(), None);

    assert_eq!(anonaddy.token, "test-token");
    assert_eq!(anonaddy.host, "https://app.anonaddy.com".to_string());
}

#[test]
fn new_return_instance_with_custom_host_if_provided() {
    let anonaddy = AnonAddy::new(
        "test-token".to_string(),
        Some("https://my-anonaddy-instance.com".to_string()),
    );

    assert_eq!(anonaddy.token, "test-token");
    assert_eq!(anonaddy.host, "https://my-anonaddy-instance.com".to_string());
}

#[test]
fn get_aliases_asks_the_instance_for_its_aliases() {
    let request = service("https://localhost").get_aliases();

    assert_eq!(request.method, Method::Get);
    assert_eq!(request.url, "https://localhost/api/v1/aliases");
    assert_eq!(request.headers, service_headers());
}

#[test]
fn get_aliases_returns_error_for_no_response() {
    let scan: ScanOrchestrator<AnonAddyAlias> = ScanOrchestrator::new();
    let failure = TransportError::Request("error sending request".to_string());
    assert!(failure.is_request());

    let event = ScanEvent::Listed(Err(AliasFailure::Transport(failure.clone())));
    assert!(scan.expects(&event));
    let (scan, action) = scan.step(event);

    assert_eq!(action, ScanAction::Finish);
    let error = scan.into_outcome().unwrap().unwrap_err();
    assert_eq!(error.listing, AliasFailure::Transport(failure));
}

#[test]
fn get_aliases_returns_error_for_non_ok() {
    let anonaddy = service("http://127.0.0.1:5000");
    let request = anonaddy.get_aliases();
    assert_eq!(request.method, Method::Get);
    assert_eq!(request.url, "http://127.0.0.1:5000/api/v1/aliases");

    let response = anonaddy.aliases_received(400);

    assert!(response.is_err());
    let actual_error: AliasError = response.unwrap_err();
    assert_eq!(actual_error.message, "Failed to get aliases.");
    assert_eq!(actual_error.to_text(), "Failed to get aliases.");
}

#[test]
fn get_aliases_returns_error_for_no_body() {
    let anonaddy = service("http://127.0.0.1:5000");
    let request = anonaddy.get_aliases();
    assert_eq!(request.method, Method::Get);
    assert_eq!(request.url, "http://127.0.0.1:5000/api/v1/aliases");

    assert_eq!(anonaddy.aliases_received(200), Ok(()));

    let failure = TransportError::Decode("EOF while parsing a value".to_string());
    assert!(failure.is_decode());
    assert!(!failure.is_request());
}

#[test]
fn get_aliases_returns_inactive_alias() {
    let body = AnonAddyResponse {
        data: vec![alias("50c9e585-e7f5-41c4-9016-9014c15454bc-inactive", "first@x", false)],
    };
    let scan: ScanOrchestrator<AnonAddyAlias> = ScanOrchestrator::new();

    let (scan, action) = scan.step(ScanEvent::Listed(Ok(body.data)));

    let aliases = scan.aliases();
    assert_eq!(aliases.len(), 1);
    let alias = aliases.get(0).unwrap();
    assert_eq!(alias.get_id(), "50c9e585-e7f5-41c4-9016-9014c15454bc-inactive");
    assert_eq!(alias.is_active(), false);
    assert_eq!(action, ScanAction::Finish);
}

#[test]
fn get_aliases_returns_active_alis() {
    let body = AnonAddyResponse {
        data: vec![alias("50c9e585-e7f5-41c4-9016-9014c15454bc-active", "first@x", true)],
    };
    let scan: ScanOrchestrator<AnonAddyAlias> = ScanOrchestrator::new();

    let (scan, action) = scan.step(ScanEvent::Listed(Ok(body.data)));

    let aliases = scan.aliases();
    assert_eq!(aliases.len(), 1);
    let alias = aliases.get(0).unwrap();
    assert_eq!(alias.get_id(), "50c9e585-e7f5-41c4-9016-9014c15454bc-active");
    assert_eq!(alias.is_active(), true);
    assert_eq!(action, ScanAction::Check { index: 0, email: "first@x".to_string() });
}

#[test]
fn get_aliases_returns_multiple_aliases() {
    let body = AnonAddyResponse {
        data: vec![
            alias("50c9e585-e7f5-41c4-9016-9014c15454bc-active", "first@x", true),
            alias("50c9e585-e7f5-41c4-9016-9014c15454bc-inactive", "second@x", false),
        ],
    };
    let scan: ScanOrchestrator<AnonAddyAlias> = ScanOrchestrator::new();

    let (scan, _) = scan.step(ScanEvent::Listed(Ok(body.data)));

    assert_eq!(scan.aliases().len(), 2);
}

#[test]
fn alias_reads_its_description() {
    let mut labelled = alias("id-1", "first@x", true);
    labelled.description = Some("shopping".to_string());

    assert_eq!(labelled.get_description(), Some("shopping"));
    assert_eq!(labelled.get_email(), "first@x");
    assert_eq!(alias("id-2", "second@x", true).get_description(), None);
}

#[test]
fn deactivate_alias_asks_the_instance_to_deactivate() {
    let request = service("http://localhost").deactivate_alias("test-id");

    assert_eq!(request.method, Method::Delete);
    assert_eq!(request.url, "http://localhost/api/v1/active-aliases/test-id");
    assert_eq!(request.headers, service_headers());
}

#[test]
fn deactivate_alias_returns_error_if_status_200() {
    let alias_id = "test-id";
    let anonaddy = service("http://127.0.0.1:5000");
    let request = anonaddy.deactivate_alias(alias_id);
    assert_eq!(request.method, Method::Delete);
    assert_eq!(
        request.url,
        format!("http://127.0.0.1:5000{}", format!("/api/v1/active-aliases/{}", &alias_id))
    );

    let response = anonaddy.alias_deactivated(alias_id, 200);

    assert!(response.is_err());
    let actual_error: AliasError = response.unwrap_err();
    assert_eq!(actual_error.message, format!("Failed to deactivate alias {}.", alias_id));
}

#[test]
fn deactivate_alias_returns_ok() {
    let alias_id = "test-id";
    let anonaddy = service("http://127.0.0.1:5000");
    let request = anonaddy.deactivate_alias(alias_id);
    assert_eq!(request.method, Method::Delete);
    assert_eq!(
        request.url,
        format!("http://127.0.0.1:5000{}", format!("/api/v1/active-aliases/{}", &alias_id))
    );

    let response = anonaddy.alias_deactivated(alias_id, 204);

    assert!(response.is_ok());
}

#[test]
fn alias_error_new_keeps_the_message() {
    let error = AliasError::new("Failed to get aliases.".to_string());

    assert_eq!(error.message, "Failed to get aliases.");
}
