use extension::client::{decode_event, Client, ClientError, NextEventResponse};

const REGISTER_BODY: &str =
    r#"{"functionName":"my-function","functionVersion":"$LATEST","handler":"index.handler"}"#;

#[test]
fn new_builds_extension_endpoint() {
    let client = Client::new("127.0.0.1:9001".to_string());
    assert_eq!(client.base_url, "http://127.0.0.1:9001/2020-01-01/extension");
    assert!(client.extension_id.is_none());
    assert_eq!(client.register_url(), "http://127.0.0.1:9001/2020-01-01/extension/register");
    assert_eq!(Client::register_body(), r#"{"events":["INVOKE","SHUTDOWN"]}"#);
}

#[test]
fn register_returns_metadata_and_keeps_identifier() {
    let mut client = Client::new("host:1".to_string());
    let r = client.register(200, Some("ext-123".to_string()), REGISTER_BODY.to_string());
    let resp = match r {
        Ok(resp) => resp,
        Err(_) => panic!("registration should succeed"),
    };
    assert_eq!(resp.function_name, "my-function");
    assert_eq!(resp.function_version, "$LATEST");
    assert_eq!(resp.handler, "index.handler");
    assert_eq!(client.extension_id.as_deref(), Some("ext-123"));
    match client.next_event_request() {
        Ok((url, id)) => {
            assert_eq!(url, "http://host:1/2020-01-01/extension/event/next");
            assert_eq!(id, "ext-123");
        }
        Err(_) => panic!("a registered client can poll"),
    }
}

#[test]
fn register_without_identifier_fails() {
    let mut client = Client::new("host:1".to_string());
    let r = client.register(200, None, REGISTER_BODY.to_string());
    assert!(matches!(r, Err(ClientError::MissingIdentifier)));
    assert!(client.extension_id.is_none());
    assert!(matches!(client.next_event_request(), Err(ClientError::NotRegistered)));
}

#[test]
fn register_rejected_carries_status_and_body() {
    let mut client = Client::new("host:1".to_string());
    let r = client.register(403, Some("ext-1".to_string()), "forbidden".to_string());
    match r {
        Err(ClientError::Rejected { status, body }) => {
            assert_eq!(status, 403);
            assert_eq!(body, "forbidden");
        }
        _ => panic!("expected a rejection"),
    }
    assert!(client.extension_id.is_none());
}

#[test]
fn register_with_incomplete_metadata_fails() {
    let mut client = Client::new("host:1".to_string());
    let r = client.register(
        200,
        Some("ext-1".to_string()),
        r#"{"functionName":"f","handler":"h"}"#.to_string(),
    );
    assert!(matches!(r, Err(ClientError::MalformedRegistration)));
    let r = client.register(200, Some("ext-1".to_string()), "not json".to_string());
    assert!(matches!(r, Err(ClientError::MalformedRegistration)));
    assert!(client.extension_id.is_none());
}

#[test]
fn decode_invoke_event() {
    let body = r#"{"eventType":"INVOKE","deadlineMs":1700000000123,"requestId":"req-1","invokedFunctionArn":"arn:aws:lambda:us-east-1:1:function:f","tracing":{}}"#;
    match decode_event(body) {
        Ok(NextEventResponse::Invoke(e)) => {
            assert_eq!(e.deadline_ms, 1700000000123);
            assert_eq!(e.request_id, "req-1");
            assert_eq!(e.invoked_function_arn, "arn:aws:lambda:us-east-1:1:function:f");
        }
        _ => panic!("expected an Invoke event"),
    }
}

#[test]
fn decode_shutdown_event() {
    let body = r#"{"eventType":"SHUTDOWN","shutdownReason":"spindown","deadlineMs":42}"#;
    match decode_event(body) {
        Ok(NextEventResponse::Shutdown(e)) => {
            assert_eq!(e.shutdown_reason, "spindown");
            assert_eq!(e.deadline_ms, 42);
        }
        _ => panic!("expected a Shutdown event"),
    }
}

#[test]
fn decode_unknown_event_type_fails() {
    let body = r#"{"eventType":"RESTART","deadlineMs":1,"requestId":"r","invokedFunctionArn":"a","shutdownReason":"s"}"#;
    match decode_event(body) {
        Err(ClientError::UnknownEventType { event_type }) => assert_eq!(event_type, "RESTART"),
        _ => panic!("an unknown event type must not decode"),
    }
    let lower = r#"{"eventType":"invoke","deadlineMs":1,"requestId":"r","invokedFunctionArn":"a"}"#;
    assert!(matches!(decode_event(lower), Err(ClientError::UnknownEventType { .. })));
}

#[test]
fn decode_incomplete_or_untagged_event_fails() {
    let missing = r#"{"eventType":"INVOKE","deadlineMs":1,"requestId":"r"}"#;
    assert!(matches!(decode_event(missing), Err(ClientError::MissingEventField)));
    let negative = r#"{"eventType":"SHUTDOWN","shutdownReason":"s","deadlineMs":-1}"#;
    assert!(matches!(decode_event(negative), Err(ClientError::MissingEventField)));
    let untagged = r#"{"deadlineMs":1,"requestId":"r","invokedFunctionArn":"a"}"#;
    assert!(matches!(decode_event(untagged), Err(ClientError::MissingEventType)));
    assert!(matches!(decode_event("{"), Err(ClientError::MissingEventType)));
}

#[test]
fn next_event_before_registration_fails() {
    let client = Client::new("host:1".to_string());
    let body = r#"{"eventType":"SHUTDOWN","shutdownReason":"spindown","deadlineMs":42}"#;
    assert!(matches!(client.next_event(body), Err(ClientError::NotRegistered)));
}

#[test]
fn next_event_after_registration_decodes() {
    let mut client = Client::new("host:1".to_string());
    assert!(client.register(200, Some("ext-9".to_string()), REGISTER_BODY.to_string()).is_ok());
    let body = r#"{"eventType":"SHUTDOWN","shutdownReason":"timeout","deadlineMs":7}"#;
    assert!(matches!(client.next_event(body), Ok(NextEventResponse::Shutdown(_))));
}
