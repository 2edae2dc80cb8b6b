use verder_helpen::baseurl::BaseUrl;
use verder_helpen::common::{ClientUrlReply, ClientUrlResponse};
use verder_helpen::guest::{
    attr_url_formatted, attr_url_joined, core_start_url_formatted, core_start_url_joined, init_params,
    init_params_joined, init_params_joined_checked, widget_redirect, GuestError, GuestStartAction,
    GuestStartEvent, GuestStartFlow, GuestTokenInfo, StartRequest,
};
use verder_helpen::host::{
    attribute_css, attribute_js, attribute_ui, credentials_or_empty, AttributeUiPlan, ContentKind, LiveEvent,
    LiveMessage, LiveState,
};
use verder_helpen::weburl::WebUrl;

fn url(s: &str) -> WebUrl {
    WebUrl::parse(s).unwrap()
}

fn token() -> GuestTokenInfo {
    GuestTokenInfo { purpose: "meeting".to_string(), redirect_url: url("https://plugin.example.com/redirect") }
}

#[test]
fn client_url_response_answers_json_or_redirect() {
    let r = ClientUrlResponse { client_url: url("https://example.com/client_url") };
    match r.clone().respond_to(Some("application/json")) {
        ClientUrlReply::Json(j) => assert_eq!(j.client_url.as_str(), "https://example.com/client_url"),
        other => panic!("unexpected {:?}", other),
    }
    match r.clone().respond_to(Some("text/html")) {
        ClientUrlReply::Redirect(to) => assert_eq!(to, "https://example.com/client_url"),
        other => panic!("unexpected {:?}", other),
    }
    assert!(matches!(r.respond_to(None), ClientUrlReply::Redirect(_)));
}

#[test]
fn guests_are_sent_to_the_widget() {
    let p = init_params("https://guest.example.com", "tok.en", token(), "Plugin");
    assert_eq!(p.purpose, "meeting");
    assert_eq!(p.start_url, "https://guest.example.com/start/tok.en");
    assert_eq!(p.cancel_url.as_str(), "https://plugin.example.com/redirect");
    assert_eq!(p.display_name, "Plugin");

    let base = BaseUrl::parse("https://guest.example.com/guest/").unwrap();
    let p = init_params_joined(&base, "tok.en", token(), "Plugin");
    assert_eq!(p.start_url, "https://guest.example.com/guest/start/tok.en");
    let p = init_params_joined_checked(&base, "abc", token(), "Plugin").unwrap();
    assert_eq!(p.start_url, "https://guest.example.com/guest/start/abc");

    assert_eq!(widget_redirect("https://widget.example.com/", "signed"), "https://widget.example.com/signed");
}

#[test]
fn attribute_and_core_urls() {
    assert_eq!(attr_url_formatted("http://internal", "abc"), "http://internal/auth_result/abc");
    let internal = BaseUrl::parse("http://internal:8000/internal/").unwrap();
    assert_eq!(attr_url_joined(&internal, "abc").unwrap().as_str(), "http://internal:8000/internal/auth_result/abc");
    assert_eq!(core_start_url_formatted("https://core.example.com"), "https://core.example.com/start");
    let core = BaseUrl::parse("https://core.example.com/").unwrap();
    assert_eq!(core_start_url_joined(&core).unwrap().as_str(), "https://core.example.com/start");
}

fn begin(purpose: &str) -> Result<(GuestStartFlow, GuestStartAction<String>), GuestError> {
    GuestStartFlow::begin(
        token(),
        StartRequest { purpose: purpose.to_string(), auth_method: "irma".to_string() },
        "attr-1".to_string(),
        url("http://internal/auth_result/attr-1"),
        url("https://core.example.com/start"),
    )
}

#[test]
fn guest_start_refuses_other_purposes() {
    match begin("other") {
        Err(GuestError::BadRequest(m)) => {
            assert_eq!(m, "Purpose from start request does not match guest token purpose.")
        }
        other => panic!("unexpected {:?}", other),
    }
}

#[test]
fn guest_start_with_new_session() {
    let (flow, action) = begin("meeting").unwrap();
    assert!(matches!(action, GuestStartAction::RestartSession { ref attr_id } if attr_id == "attr-1"));
    let (flow, action) = flow.step(GuestStartEvent::<String>::Restarted(Ok(false)));
    assert!(matches!(action, GuestStartAction::PersistNewSession { ref attr_id } if attr_id == "attr-1"));
    let event = GuestStartEvent::<String>::Persisted(Ok(()));
    assert!(flow.accepts(&event));
    let (flow, action) = flow.step(event);
    match action {
        GuestStartAction::SignAndPost { request, url } => {
            assert_eq!(request.purpose, "meeting");
            assert_eq!(request.auth_method, "irma");
            assert_eq!(request.comm_url.as_str(), "https://plugin.example.com/redirect");
            assert_eq!(request.attr_url.unwrap().as_str(), "http://internal/auth_result/attr-1");
            assert_eq!(url.as_str(), "https://core.example.com/start");
        }
        other => panic!("unexpected {:?}", other),
    }
    let (flow, action) = flow.step(GuestStartEvent::<String>::CoreAnswered(Ok("{}".to_string())));
    assert!(matches!(flow, GuestStartFlow::Done));
    assert!(matches!(action, GuestStartAction::NotifyAndAnswer { ref attr_id, ref body } if attr_id == "attr-1" && body == "{}"));
}

#[test]
fn guest_start_with_restarted_session_and_failures() {
    let (flow, _) = begin("meeting").unwrap();
    let (flow, action) = flow.step(GuestStartEvent::<String>::Restarted(Ok(true)));
    assert!(matches!(action, GuestStartAction::SignAndPost { .. }));
    assert!(!flow.accepts(&GuestStartEvent::<String>::Persisted(Ok(()))));
    let (flow, action) = flow.step(GuestStartEvent::CoreAnswered(Err("down".to_string())));
    assert!(matches!(flow, GuestStartFlow::Done));
    assert!(matches!(action, GuestStartAction::Fail(ref e) if e == "down"));

    let (flow, _) = begin("meeting").unwrap();
    let (_, action) = flow.step(GuestStartEvent::Restarted(Err("db".to_string())));
    assert!(matches!(action, GuestStartAction::Fail(ref e) if e == "db"));
}

fn texts(messages: &[LiveMessage]) -> Vec<&'static str> {
    messages.iter().map(|m| m.as_str()).collect()
}

#[test]
fn live_feed_opening() {
    let (state, messages) = LiveState::open(false, Some("room".to_string()));
    assert!(matches!(state, LiveState::Ended));
    assert_eq!(texts(&messages), vec!["forbidden"]);
    let (state, messages) = LiveState::open(true, None);
    assert!(matches!(state, LiveState::Ended));
    assert_eq!(texts(&messages), vec!["badrequest", "forbidden"]);
    let (state, messages) = LiveState::open(true, Some("room".to_string()));
    assert!(matches!(state, LiveState::Listening { .. }));
    assert_eq!(texts(&messages), vec!["start"]);
}

#[test]
fn live_feed_updates_only_own_guests() {
    let (state, _) = LiveState::open(true, Some("room".to_string()));
    let (state, out) = state.step(LiveEvent::Message { attr_id: "a1".to_string() });
    assert_eq!(out.query_room.as_deref(), Some("room"));
    assert!(out.messages.is_empty());
    let (state, out) = state.step(LiveEvent::SessionsFound(vec!["a0".to_string(), "a1".to_string()]));
    assert_eq!(texts(&out.messages), vec!["update"]);
    let (state, _) = state.step(LiveEvent::Message { attr_id: "zz".to_string() });
    let (state, out) = state.step(LiveEvent::SessionsFound(vec!["a0".to_string()]));
    assert!(out.messages.is_empty());
    let (state, out) = state.step(LiveEvent::Lagged);
    assert!(out.messages.is_empty());
    let (state, _) = state.step(LiveEvent::Message { attr_id: "a1".to_string() });
    let (state, out) = state.step(LiveEvent::SessionsFailed);
    assert!(out.messages.is_empty());
    assert!(state.accepts(&LiveEvent::Closed));
    assert!(!state.accepts(&LiveEvent::SessionsFailed));
    let (state, out) = state.step(LiveEvent::Closed);
    assert!(matches!(state, LiveState::Ended));
    assert_eq!(texts(&out.messages), vec!["badrequest", "forbidden"]);
}

#[test]
fn live_feed_ends_without_database_or_on_shutdown() {
    let (state, _) = LiveState::open(true, Some("room".to_string()));
    let (state, _) = state.step(LiveEvent::Message { attr_id: "a1".to_string() });
    let (state, out) = state.step(LiveEvent::NoDatabase);
    assert!(matches!(state, LiveState::Ended));
    assert_eq!(texts(&out.messages), vec!["badrequest", "forbidden"]);
    let (state, _) = LiveState::open(true, Some("room".to_string()));
    let (_, out) = state.step(LiveEvent::Shutdown);
    assert_eq!(texts(&out.messages), vec!["badrequest", "forbidden"]);
}

#[test]
fn attribute_page_decisions() {
    assert!(matches!(attribute_ui::<u8, ()>(false, Ok(1)), AttributeUiPlan::ShowLogin));
    assert!(matches!(attribute_ui::<u8, ()>(true, Ok(7)), AttributeUiPlan::ShowCredentials(7)));
    match attribute_ui::<u8, ()>(true, Err(())) {
        AttributeUiPlan::Reject(m) => assert_eq!(m, "invalid host token"),
        other => panic!("unexpected {:?}", other),
    }
    assert_eq!(credentials_or_empty::<u8, ()>(Ok(vec![1, 2])), vec![1, 2]);
    assert!(credentials_or_empty::<u8, ()>(Err(())).is_empty());
}

#[test]
fn static_assets() {
    let css = attribute_css();
    assert_eq!(css.kind, ContentKind::Css);
    assert_eq!(css.template, "templates/attribute.css");
    let js = attribute_js();
    assert_eq!(js.kind, ContentKind::JavaScript);
    assert_eq!(js.template, "templates/attribute.js");
}

#[test]
fn guest_start_resolves_its_urls() {
    let internal = BaseUrl::parse("http://internal:8000/internal/").unwrap();
    let core = BaseUrl::parse("https://core.example.com/").unwrap();
    let request = StartRequest { purpose: "meeting".to_string(), auth_method: "irma".to_string() };
    let (flow, _) =
        GuestStartFlow::begin_joined::<String>(token(), request, "attr-2".to_string(), &internal, &core).unwrap();
    let (_, action) = flow.step(GuestStartEvent::<String>::Restarted(Ok(true)));
    match action {
        GuestStartAction::SignAndPost { request, url } => {
            assert_eq!(request.attr_url.unwrap().as_str(), "http://internal:8000/internal/auth_result/attr-2");
            assert_eq!(url.as_str(), "https://core.example.com/start");
        }
        other => panic!("unexpected {:?}", other),
    }

    let request = StartRequest { purpose: "other".to_string(), auth_method: "irma".to_string() };
    let checked =
        GuestStartFlow::begin_joined_checked::<String>(token(), request, "attr-2".to_string(), &internal, &core);
    assert!(matches!(checked, Some(Err(GuestError::BadRequest(_)))));

    let request = StartRequest { purpose: "meeting".to_string(), auth_method: "irma".to_string() };
    let checked =
        GuestStartFlow::begin_joined_checked::<String>(token(), request, "attr-3".to_string(), &internal, &core);
    assert!(matches!(checked, Some(Ok((_, GuestStartAction::RestartSession { ref attr_id }))) if attr_id == "attr-3"));
}
