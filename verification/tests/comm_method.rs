use verder_helpen::comm_method::{CommEvent, CommFlow, CommRequest, CommStep, CommunicationMethod};
use verder_helpen::common::StartCommResponse;
use verder_helpen::weburl::WebUrl;

const BASE_URL: &str = "http://127.0.0.1:4567";

fn url(s: &str) -> WebUrl {
    WebUrl::parse(s).unwrap()
}

fn method(disable_attributes_at_start: bool) -> CommunicationMethod {
    CommunicationMethod::new("test".into(), "test".into(), BASE_URL.into(), disable_attributes_at_start)
}

fn expect_start_request(request: &CommRequest, auth_result: Option<&str>, error_for_status: bool) {
    match request {
        CommRequest::StartCommunication { url, body, error_for_status: check, timeout_secs } => {
            assert_eq!(url, &format!("{}/start_communication", BASE_URL));
            assert_eq!(body.purpose, "something");
            assert_eq!(body.auth_result.as_deref(), auth_result);
            assert_eq!(*check, error_for_status);
            assert_eq!(*timeout_secs, 5);
        }
        other => panic!("unexpected request {:?}", other),
    }
}

fn finished(step: CommStep<String>) -> StartCommResponse {
    match step {
        CommStep::Finished(Ok(r)) => r,
        other => panic!("unexpected step {:?}", other),
    }
}

#[test]
fn test_start_without_attributes_no_attrurl() {
    let method = method(false);
    let (flow, request) = method.start("something");
    expect_start_request(&request, None, false);

    let answer = StartCommResponse { client_url: url("https://example.com/client_url"), attr_url: None };
    let event = CommEvent::<String>::StartAnswered(Ok(answer));
    assert!(flow.accepts(&event));
    let (flow, step) = flow.step(event);
    assert!(matches!(flow, CommFlow::Done));
    let result = finished(step);
    assert_eq!(result.client_url, url("https://example.com/client_url"));
    assert_eq!(result.attr_url, None);
}

#[test]
fn test_start_without_attributes_attrurl() {
    let method = method(false);
    let (flow, request) = method.start("something");
    expect_start_request(&request, None, false);

    let answer = StartCommResponse {
        client_url: url("https://example.com/client_url"),
        attr_url: Some(url("https://example.com/attr_url")),
    };
    let (_, step) = flow.step(CommEvent::<String>::StartAnswered(Ok(answer)));
    let result = finished(step);
    assert_eq!(result.client_url, url("https://example.com/client_url"));
    assert_eq!(result.attr_url, Some(url("https://example.com/attr_url")));
}

#[test]
fn test_start_with_attributes() {
    let method = method(false);
    let (flow, request) = method.start_with_auth_result("something", "test");
    expect_start_request(&request, Some("test"), true);

    let answer = StartCommResponse { client_url: url("https://example.com/client_url"), attr_url: None };
    let (_, step) = flow.step(CommEvent::<String>::StartAnswered(Ok(answer)));
    let result = finished(step);
    assert_eq!(result.client_url, url("https://example.com/client_url"));
    assert_eq!(result.attr_url, None);
}

#[test]
fn test_auth_result_fallback() {
    let method = method(true);
    let (flow, request) = method.start_with_auth_result("something", "test");
    expect_start_request(&request, None, false);

    let attr_url = format!("{}/attr_url", BASE_URL);
    let answer = StartCommResponse {
        client_url: url("https://example.com/client_url"),
        attr_url: Some(url(&attr_url)),
    };
    let (flow, step) = flow.step(CommEvent::<String>::StartAnswered(Ok(answer)));
    match step {
        CommStep::Send(CommRequest::DeliverAuthResult { url: target, content_type, body, timeout_secs }) => {
            assert_eq!(target.as_str(), attr_url);
            assert_eq!(content_type, "application/jwt");
            assert_eq!(body, "test");
            assert_eq!(timeout_secs, 5);
        }
        other => panic!("unexpected step {:?}", other),
    }
    let event = CommEvent::<String>::AuthResultDelivered(Ok(()));
    assert!(flow.accepts(&event));
    let (flow, step) = flow.step(event);
    assert!(matches!(flow, CommFlow::Done));
    let result = finished(step);
    assert_eq!(result.client_url, url("https://example.com/client_url"));
    assert_eq!(result.attr_url, None);
}

#[test]
fn test_auth_result_fallback_no_attr_url() {
    let method = method(true);
    let (flow, request) = method.start_with_auth_result("something", "test");
    expect_start_request(&request, None, false);

    let answer = StartCommResponse { client_url: url("https://example.com/client_url"), attr_url: None };
    let (_, step) = flow.step(CommEvent::<String>::StartAnswered(Ok(answer)));
    let result = finished(step);
    assert_eq!(result.client_url, url("https://example.com/client_url?result=test"));
    assert_eq!(result.attr_url, None);
}

#[test]
fn start_error_is_the_outcome() {
    let (flow, _) = method(false).start_with_auth_result("something", "test");
    let (flow, step) = flow.step(CommEvent::StartAnswered(Err("refused".to_string())));
    assert!(matches!(flow, CommFlow::Done));
    assert!(matches!(step, CommStep::Finished(Err(e)) if e == "refused"));
}

#[test]
fn fallback_start_error_ends_without_delivery() {
    let (flow, _) = method(true).start_with_auth_result("something", "test");
    let (flow, step) = flow.step(CommEvent::StartAnswered(Err("timeout".to_string())));
    assert!(matches!(flow, CommFlow::Done));
    assert!(matches!(step, CommStep::Finished(Err(e)) if e == "timeout"));
}

#[test]
fn failed_delivery_is_the_outcome() {
    let (flow, _) = method(true).start_with_auth_result("something", "test");
    let answer = StartCommResponse {
        client_url: url("https://example.com/client_url"),
        attr_url: Some(url("https://example.com/attr_url")),
    };
    let (flow, _) = flow.step(CommEvent::<String>::StartAnswered(Ok(answer)));
    let (_, step) = flow.step(CommEvent::AuthResultDelivered(Err("unreachable".to_string())));
    assert!(matches!(step, CommStep::Finished(Err(e)) if e == "unreachable"));
}

#[test]
fn flows_refuse_unexpected_events() {
    let (flow, _) = method(false).start("something");
    assert!(!flow.accepts(&CommEvent::<String>::AuthResultDelivered(Ok(()))));
    assert!(!CommFlow::Done.accepts(&CommEvent::<String>::AuthResultDelivered(Ok(()))));
}

#[test]
fn fallback_result_is_query_encoded() {
    let (flow, _) = method(true).start_with_auth_result("something", "a b&c");
    let answer = StartCommResponse { client_url: url("https://example.com/client_url?x=1#frag"), attr_url: None };
    let (_, step) = flow.step(CommEvent::<String>::StartAnswered(Ok(answer)));
    let result = finished(step);
    assert_eq!(result.client_url.as_str(), "https://example.com/client_url?x=1&result=a+b%26c#frag");
}

#[test]
fn method_accessors() {
    let m = method(false);
    assert_eq!(m.tag(), "test");
    assert_eq!(m.name(), "test");
}

#[test]
fn fallback_appends_result_when_no_attr_url() {
    let (flow, request) = method(false).start_with_attributes_fallback("something", "signed");
    expect_start_request(&request, None, false);
    let answer = StartCommResponse { client_url: url("https://example.com/client_url"), attr_url: None };
    let (flow, step) = flow.step(CommEvent::<String>::StartAnswered(Ok(answer)));
    assert!(matches!(flow, CommFlow::Done));
    let result = finished(step);
    assert_eq!(result.client_url.as_str(), "https://example.com/client_url?result=signed");
    assert_eq!(result.attr_url, None);
}

#[test]
fn fallback_posts_result_to_attr_url() {
    let (flow, _) = method(false).start_with_attributes_fallback("something", "signed");
    let answer = StartCommResponse {
        client_url: url("https://example.com/client_url"),
        attr_url: Some(url("https://example.com/attr_url")),
    };
    let (flow, step) = flow.step(CommEvent::<String>::StartAnswered(Ok(answer)));
    match step {
        CommStep::Send(CommRequest::DeliverAuthResult { url: to, content_type, body, .. }) => {
            assert_eq!(to.as_str(), "https://example.com/attr_url");
            assert_eq!(content_type, "application/jwt");
            assert_eq!(body, "signed");
        }
        other => panic!("unexpected step {:?}", other),
    }
    let (_, step) = flow.step(CommEvent::<String>::AuthResultDelivered(Ok(())));
    let result = finished(step);
    assert_eq!(result.client_url.as_str(), "https://example.com/client_url");
    assert_eq!(result.attr_url, None);
}

#[test]
fn fallback_start_failure_is_returned() {
    let (flow, _) = method(false).start_with_attributes_fallback("something", "signed");
    let (flow, step) = flow.step(CommEvent::StartAnswered(Err("refused".to_string())));
    assert!(matches!(flow, CommFlow::Done));
    assert!(matches!(step, CommStep::Finished(Err(e)) if e == "refused"));
}
