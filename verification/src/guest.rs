//! The guest side of a communication plugin: sending a guest to choose an
//! authentication method, and starting that authentication for them.
//!
//! Verifying tokens, signing requests, storing sessions and talking to the core is
//! left to the caller; [`GuestStartFlow`] says what to do next after each of them.
use vstd::prelude::*;
use crate::baseurl::BaseUrl;
use crate::common::{StartRequestAuthOnly, StartRequestAuthOnlyView};
use crate::text::{concatenate, str_eq};
use crate::weburl::{WebUrl, url_join};

verus! {

/// What the service reads of a verified guest token.
#[derive(Debug)]
pub struct GuestTokenInfo {
    pub purpose: String,
    pub redirect_url: WebUrl,
}

/// A guest's request to start authentication.
#[derive(Debug)]
pub struct StartRequest {
    pub purpose: String,
    pub auth_method: String,
}

/// What can go wrong for a guest.
#[derive(Debug)]
pub enum GuestError {
    /// The request contradicts the guest token.
    BadRequest(String),
}

/// What the authentication method selection widget is given.
#[derive(Debug)]
pub struct AuthSelectParams {
    pub purpose: String,
    pub start_url: String,
    pub cancel_url: WebUrl,
    pub display_name: String,
}

/// The view of an [`AuthSelectParams`].
pub struct AuthSelectParamsView {
    pub purpose: Seq<char>,
    pub start_url: Seq<char>,
    pub cancel_url: Seq<char>,
    pub display_name: Seq<char>,
}

impl View for AuthSelectParams {
    type V = AuthSelectParamsView;

    open spec fn view(&self) -> AuthSelectParamsView {
        AuthSelectParamsView {
            purpose: self.purpose@,
            start_url: self.start_url@,
            cancel_url: self.cancel_url@,
            display_name: self.display_name@,
        }
    }
}

/// The selection parameters for a guest: the method chosen is started at `start_url`,
/// cancelling goes back to where the guest token says.
pub open spec fn select_params(token_purpose: Seq<char>, start_url: Seq<char>, redirect_url: Seq<char>, display_name: Seq<char>) -> AuthSelectParamsView {
    AuthSelectParamsView { purpose: token_purpose, start_url, cancel_url: redirect_url, display_name }
}

/// Where a guest starts authentication: `<external guest URL>/start/<guest token>`.
pub fn init_params(
    external_guest_url: &str,
    guest_token: &str,
    token: GuestTokenInfo,
    display_name: &str,
) -> (r: AuthSelectParams)
    ensures
        r@ == select_params(
            token.purpose@,
            external_guest_url@ + "/start/"@ + guest_token@,
            token.redirect_url@,
            display_name@,
        ),
{
    let mut start_url = String::from_str(external_guest_url);
    start_url.append("/start/");
    start_url.append(guest_token);
    AuthSelectParams {
        purpose: token.purpose,
        start_url,
        cancel_url: token.redirect_url,
        display_name: String::from_str(display_name),
    }
}

/// The start URL of a guest, resolved against the external guest URL.
pub open spec fn joined_start_url(external_guest_url: Seq<char>, guest_token: Seq<char>) -> Option<Seq<char>> {
    url_join(external_guest_url, "start/"@ + guest_token)
}

/// Where a guest starts authentication: `start/<guest token>` resolved against the
/// external guest URL.
pub fn init_params_joined(
    external_guest_url: &BaseUrl,
    guest_token: &str,
    token: GuestTokenInfo,
    display_name: &str,
) -> (r: AuthSelectParams)
    requires
        joined_start_url(external_guest_url@, guest_token@) is Some,
    ensures
        r@ == select_params(
            token.purpose@,
            joined_start_url(external_guest_url@, guest_token@).unwrap(),
            token.redirect_url@,
            display_name@,
        ),
{
    let path = concatenate("start/", guest_token);
    let start_url = external_guest_url.join(path.as_str()).to_string();
    AuthSelectParams {
        purpose: token.purpose,
        start_url,
        cancel_url: token.redirect_url,
        display_name: String::from_str(display_name),
    }
}

/// The selection parameters with the joined start URL, or `None` where the start path
/// cannot be resolved against the external guest URL.
pub fn init_params_joined_checked(
    external_guest_url: &BaseUrl,
    guest_token: &str,
    token: GuestTokenInfo,
    display_name: &str,
) -> (r: Option<AuthSelectParams>)
    ensures
        match joined_start_url(external_guest_url@, guest_token@) {
            None => r is None,
            Some(u) => r matches Some(p) && p@ == select_params(token.purpose@, u, token.redirect_url@, display_name@),
        },
{
    let path = concatenate("start/", guest_token);
    match external_guest_url.try_join(path.as_str()) {
        None => None,
        Some(_) => Some(init_params_joined(external_guest_url, guest_token, token, display_name)),
    }
}

/// Where the guest is sent: the widget URL followed by the signed selection parameters.
pub fn widget_redirect(widget_url: &str, signed_params: &str) -> (r: String)
    ensures
        r@ == widget_url@ + signed_params@,
{
    concatenate(widget_url, signed_params)
}

/// The URL at which the core reports the authentication result of `attr_id`:
/// `<internal URL>/auth_result/<attr_id>`.
pub fn attr_url_formatted(internal_url: &str, attr_id: &str) -> (r: String)
    ensures
        r@ == internal_url@ + "/auth_result/"@ + attr_id@,
{
    let mut s = String::from_str(internal_url);
    s.append("/auth_result/");
    s.append(attr_id);
    s
}

/// The URL at which the core reports the authentication result of `attr_id`, resolved
/// against the internal URL.
pub open spec fn joined_attr_url(internal_url: Seq<char>, attr_id: Seq<char>) -> Option<Seq<char>> {
    url_join(internal_url, "auth_result/"@ + attr_id)
}

/// The URL at which the core reports the authentication result of `attr_id`, or `None`
/// where it cannot be resolved against the internal URL.
pub fn attr_url_joined(internal_url: &BaseUrl, attr_id: &str) -> (r: Option<WebUrl>)
    ensures
        match r {
            Some(u) => joined_attr_url(internal_url@, attr_id@) == Some(u@),
            None => joined_attr_url(internal_url@, attr_id@) is None,
        },
{
    let path = concatenate("auth_result/", attr_id);
    internal_url.try_join(path.as_str())
}

/// Both URLs of a guest start resolve: the attribute URL of `attr_id` under the internal
/// URL, and `start` under the core URL.
pub open spec fn guest_start_urls_ready(internal_url: Seq<char>, core_url: Seq<char>, attr_id: Seq<char>) -> bool {
    joined_attr_url(internal_url, attr_id) is Some && url_join(core_url, "start"@) is Some
}

/// The message of a start request whose purpose differs from the guest token's.
pub open spec fn purpose_mismatch_message() -> Seq<char> {
    "Purpose from start request does not match guest token purpose."@
}

/// What the guest start is to do next; `E` is the error of the caller's operations.
#[derive(Debug)]
pub enum GuestStartAction<E> {
    /// Restart authentication in the guest's existing session, under `attr_id`; answer
    /// with whether there was such a session.
    RestartSession { attr_id: String },
    /// Store a new session for the guest under `attr_id`.
    PersistNewSession { attr_id: String },
    /// Sign `request` and post it to `url`, accepting JSON and sending a JWT; answer
    /// with the body of the core's answer.
    SignAndPost { request: StartRequestAuthOnly, url: WebUrl },
    /// Tell the listeners that `attr_id` changed, then read `body` as the client URL
    /// response and answer the guest with it.
    NotifyAndAnswer { attr_id: String, body: String },
    /// Answer the guest with this error.
    Fail(E),
}

/// The view of a [`GuestStartAction`].
pub enum GuestStartActionView<E> {
    RestartSession { attr_id: Seq<char> },
    PersistNewSession { attr_id: Seq<char> },
    SignAndPost { request: StartRequestAuthOnlyView, url: Seq<char> },
    NotifyAndAnswer { attr_id: Seq<char>, body: Seq<char> },
    Fail(E),
}

impl<E> View for GuestStartAction<E> {
    type V = GuestStartActionView<E>;

    open spec fn view(&self) -> GuestStartActionView<E> {
        match self {
            GuestStartAction::RestartSession { attr_id } => GuestStartActionView::RestartSession { attr_id: attr_id@ },
            GuestStartAction::PersistNewSession { attr_id } => GuestStartActionView::PersistNewSession {
                attr_id: attr_id@,
            },
            GuestStartAction::SignAndPost { request, url } => GuestStartActionView::SignAndPost {
                request: request@,
                url: url@,
            },
            GuestStartAction::NotifyAndAnswer { attr_id, body } => GuestStartActionView::NotifyAndAnswer {
                attr_id: attr_id@,
                body: body@,
            },
            GuestStartAction::Fail(e) => GuestStartActionView::Fail(*e),
        }
    }
}

/// What came back from the caller's operations.
#[derive(Debug)]
pub enum GuestStartEvent<E> {
    /// The outcome of [`GuestStartAction::RestartSession`].
    Restarted(Result<bool, E>),
    /// The outcome of [`GuestStartAction::PersistNewSession`].
    Persisted(Result<(), E>),
    /// The outcome of [`GuestStartAction::SignAndPost`]: the body of the core's answer.
    CoreAnswered(Result<String, E>),
}

/// The view of a [`GuestStartEvent`].
pub enum GuestStartEventView<E> {
    Restarted(Result<bool, E>),
    Persisted(Result<(), E>),
    CoreAnswered(Result<Seq<char>, E>),
}

impl<E> View for GuestStartEvent<E> {
    type V = GuestStartEventView<E>;

    open spec fn view(&self) -> GuestStartEventView<E> {
        match self {
            GuestStartEvent::Restarted(r) => GuestStartEventView::Restarted(*r),
            GuestStartEvent::Persisted(r) => GuestStartEventView::Persisted(*r),
            GuestStartEvent::CoreAnswered(r) => GuestStartEventView::CoreAnswered(
                match r {
                    Ok(b) => Ok(b@),
                    Err(e) => Err(*e),
                },
            ),
        }
    }
}

/// What a guest start sends to the core, and where.
#[derive(Debug)]
pub struct GuestStartPlan {
    pub attr_id: String,
    pub request: StartRequestAuthOnly,
    pub core_start_url: WebUrl,
}

/// The view of a [`GuestStartPlan`].
pub struct GuestStartPlanView {
    pub attr_id: Seq<char>,
    pub request: StartRequestAuthOnlyView,
    pub core_start_url: Seq<char>,
}

impl View for GuestStartPlan {
    type V = GuestStartPlanView;

    open spec fn view(&self) -> GuestStartPlanView {
        GuestStartPlanView { attr_id: self.attr_id@, request: self.request@, core_start_url: self.core_start_url@ }
    }
}

/// Where a guest start stands.
#[derive(Debug)]
pub enum GuestStartFlow {
    AwaitingRestart { plan: GuestStartPlan },
    AwaitingPersist { plan: GuestStartPlan },
    AwaitingCore { attr_id: String },
    Done,
}

/// The view of a [`GuestStartFlow`].
pub enum GuestStartFlowView {
    AwaitingRestart { plan: GuestStartPlanView },
    AwaitingPersist { plan: GuestStartPlanView },
    AwaitingCore { attr_id: Seq<char> },
    Done,
}

impl View for GuestStartFlow {
    type V = GuestStartFlowView;

    open spec fn view(&self) -> GuestStartFlowView {
        match self {
            GuestStartFlow::AwaitingRestart { plan } => GuestStartFlowView::AwaitingRestart { plan: plan@ },
            GuestStartFlow::AwaitingPersist { plan } => GuestStartFlowView::AwaitingPersist { plan: plan@ },
            GuestStartFlow::AwaitingCore { attr_id } => GuestStartFlowView::AwaitingCore { attr_id: attr_id@ },
            GuestStartFlow::Done => GuestStartFlowView::Done,
        }
    }
}

/// The request that starts authentication at the core for a guest: the token's
/// purpose, the chosen method, the token's redirect URL as communication URL, and the
/// URL at which the result is reported.
pub open spec fn guest_auth_request(
    token_purpose: Seq<char>,
    auth_method: Seq<char>,
    redirect_url: Seq<char>,
    attr_url: Seq<char>,
) -> StartRequestAuthOnlyView {
    StartRequestAuthOnlyView { purpose: token_purpose, auth_method, comm_url: redirect_url, attr_url: Some(attr_url) }
}

/// How a guest start begins: a request whose purpose differs from the token's is
/// refused; otherwise the guest's session is restarted under `attr_id`.
pub open spec fn guest_start_begin<E>(
    token_purpose: Seq<char>,
    redirect_url: Seq<char>,
    request_purpose: Seq<char>,
    auth_method: Seq<char>,
    attr_id: Seq<char>,
    attr_url: Seq<char>,
    core_start_url: Seq<char>,
) -> Result<(GuestStartFlowView, GuestStartActionView<E>), Seq<char>> {
    if request_purpose != token_purpose {
        Err(purpose_mismatch_message())
    } else {
        Ok((
            GuestStartFlowView::AwaitingRestart {
                plan: GuestStartPlanView {
                    attr_id,
                    request: guest_auth_request(token_purpose, auth_method, redirect_url, attr_url),
                    core_start_url,
                },
            },
            GuestStartActionView::RestartSession { attr_id },
        ))
    }
}

/// The next state and action of a guest start on an event, `None` where the state does
/// not expect that event.
pub open spec fn guest_start_next<E>(flow: GuestStartFlowView, event: GuestStartEventView<E>) -> Option<
    (GuestStartFlowView, GuestStartActionView<E>),
> {
    match flow {
        GuestStartFlowView::AwaitingRestart { plan } => match event {
            GuestStartEventView::Restarted(Err(e)) => Some((GuestStartFlowView::Done, GuestStartActionView::Fail(e))),
            GuestStartEventView::Restarted(Ok(true)) => Some((
                GuestStartFlowView::AwaitingCore { attr_id: plan.attr_id },
                GuestStartActionView::SignAndPost { request: plan.request, url: plan.core_start_url },
            )),
            GuestStartEventView::Restarted(Ok(false)) => Some((
                GuestStartFlowView::AwaitingPersist { plan },
                GuestStartActionView::PersistNewSession { attr_id: plan.attr_id },
            )),
            _ => None,
        },
        GuestStartFlowView::AwaitingPersist { plan } => match event {
            GuestStartEventView::Persisted(Err(e)) => Some((GuestStartFlowView::Done, GuestStartActionView::Fail(e))),
            GuestStartEventView::Persisted(Ok(())) => Some((
                GuestStartFlowView::AwaitingCore { attr_id: plan.attr_id },
                GuestStartActionView::SignAndPost { request: plan.request, url: plan.core_start_url },
            )),
            _ => None,
        },
        GuestStartFlowView::AwaitingCore { attr_id } => match event {
            GuestStartEventView::CoreAnswered(Err(e)) => Some(
                (GuestStartFlowView::Done, GuestStartActionView::Fail(e)),
            ),
            GuestStartEventView::CoreAnswered(Ok(body)) => Some((
                GuestStartFlowView::Done,
                GuestStartActionView::NotifyAndAnswer { attr_id, body },
            )),
            _ => None,
        },
        GuestStartFlowView::Done => None,
    }
}

impl GuestStartFlow {
    /// Begins a guest start (`POST /start/<guest_token>`), given the verified token, the
    /// request, a fresh `attr_id`, the URL at which the result is to be reported, and
    /// the core's start URL.
    pub fn begin<E>(
        token: GuestTokenInfo,
        request: StartRequest,
        attr_id: String,
        attr_url: WebUrl,
        core_start_url: WebUrl,
    ) -> (r: Result<(GuestStartFlow, GuestStartAction<E>), GuestError>)
        ensures
            match r {
                Ok((flow, action)) => guest_start_begin::<E>(
                    token.purpose@,
                    token.redirect_url@,
                    request.purpose@,
                    request.auth_method@,
                    attr_id@,
                    attr_url@,
                    core_start_url@,
                ) == Ok::<(GuestStartFlowView, GuestStartActionView<E>), Seq<char>>((flow@, action@)),
                Err(GuestError::BadRequest(m)) => guest_start_begin::<E>(
                    token.purpose@,
                    token.redirect_url@,
                    request.purpose@,
                    request.auth_method@,
                    attr_id@,
                    attr_url@,
                    core_start_url@,
                ) == Err::<(GuestStartFlowView, GuestStartActionView<E>), Seq<char>>(m@),
            },
    {
        if !str_eq(request.purpose.as_str(), token.purpose.as_str()) {
            return Err(GuestError::BadRequest(String::from_str(
                "Purpose from start request does not match guest token purpose.",
            )));
        }
        let restart = GuestStartAction::RestartSession { attr_id: attr_id.clone() };
        let plan = GuestStartPlan {
            attr_id,
            request: StartRequestAuthOnly {
                purpose: token.purpose,
                auth_method: request.auth_method,
                comm_url: token.redirect_url,
                attr_url: Some(attr_url),
            },
            core_start_url,
        };
        Ok((GuestStartFlow::AwaitingRestart { plan }, restart))
    }

    /// Begins a guest start with its URLs resolved from the configuration: the result of
    /// `attr_id` is reported at `auth_result/<attr_id>` under the internal URL, and the
    /// core is asked at `start` under the core URL. Where the purposes agree, both must
    /// resolve.
    pub fn begin_joined<E>(
        token: GuestTokenInfo,
        request: StartRequest,
        attr_id: String,
        internal_url: &BaseUrl,
        core_url: &BaseUrl,
    ) -> (r: Result<(GuestStartFlow, GuestStartAction<E>), GuestError>)
        requires
            request.purpose@ == token.purpose@ ==> guest_start_urls_ready(internal_url@, core_url@, attr_id@),
        ensures
            match r {
                Ok((flow, action)) => guest_start_begin::<E>(
                    token.purpose@,
                    token.redirect_url@,
                    request.purpose@,
                    request.auth_method@,
                    attr_id@,
                    joined_attr_url(internal_url@, attr_id@).unwrap(),
                    url_join(core_url@, "start"@).unwrap(),
                ) == Ok::<(GuestStartFlowView, GuestStartActionView<E>), Seq<char>>((flow@, action@)),
                Err(GuestError::BadRequest(m)) => guest_start_begin::<E>(
                    token.purpose@,
                    token.redirect_url@,
                    request.purpose@,
                    request.auth_method@,
                    attr_id@,
                    joined_attr_url(internal_url@, attr_id@).unwrap(),
                    url_join(core_url@, "start"@).unwrap(),
                ) == Err::<(GuestStartFlowView, GuestStartActionView<E>), Seq<char>>(m@),
            },
    {
        if !str_eq(request.purpose.as_str(), token.purpose.as_str()) {
            return Err(GuestError::BadRequest(String::from_str(
                "Purpose from start request does not match guest token purpose.",
            )));
        }
        let path = concatenate("auth_result/", attr_id.as_str());
        let attr_url = internal_url.join(path.as_str());
        let core_start_url = core_url.join("start");
        GuestStartFlow::begin(token, request, attr_id, attr_url, core_start_url)
    }

    /// Begins a guest start with its URLs resolved from the configuration, or gives
    /// `None` where the purposes agree but a URL does not resolve.
    pub fn begin_joined_checked<E>(
        token: GuestTokenInfo,
        request: StartRequest,
        attr_id: String,
        internal_url: &BaseUrl,
        core_url: &BaseUrl,
    ) -> (r: Option<Result<(GuestStartFlow, GuestStartAction<E>), GuestError>>)
        ensures
            r is None <==> (request.purpose@ == token.purpose@ && !guest_start_urls_ready(
                internal_url@,
                core_url@,
                attr_id@,
            )),
            match r {
                Some(Ok((flow, action))) => guest_start_begin::<E>(
                    token.purpose@,
                    token.redirect_url@,
                    request.purpose@,
                    request.auth_method@,
                    attr_id@,
                    joined_attr_url(internal_url@, attr_id@).unwrap(),
                    url_join(core_url@, "start"@).unwrap(),
                ) == Ok::<(GuestStartFlowView, GuestStartActionView<E>), Seq<char>>((flow@, action@)),
                Some(Err(GuestError::BadRequest(m))) => guest_start_begin::<E>(
                    token.purpose@,
                    token.redirect_url@,
                    request.purpose@,
                    request.auth_method@,
                    attr_id@,
                    joined_attr_url(internal_url@, attr_id@).unwrap(),
                    url_join(core_url@, "start"@).unwrap(),
                ) == Err::<(GuestStartFlowView, GuestStartActionView<E>), Seq<char>>(m@),
                None => true,
            },
    {
        if str_eq(request.purpose.as_str(), token.purpose.as_str()) {
            let path = concatenate("auth_result/", attr_id.as_str());
            if internal_url.try_join(path.as_str()).is_none() || core_url.try_join("start").is_none() {
                return None;
            }
        }
        Some(GuestStartFlow::begin_joined(token, request, attr_id, internal_url, core_url))
    }

    /// Whether the guest start expects this event now.
    pub fn accepts<E>(&self, event: &GuestStartEvent<E>) -> (r: bool)
        ensures
            r == guest_start_next(self@, event@) is Some,
    {
        match (self, event) {
            (GuestStartFlow::AwaitingRestart { .. }, GuestStartEvent::Restarted(_)) => true,
            (GuestStartFlow::AwaitingPersist { .. }, GuestStartEvent::Persisted(_)) => true,
            (GuestStartFlow::AwaitingCore { .. }, GuestStartEvent::CoreAnswered(_)) => true,
            _ => false,
        }
    }

    /// Takes the outcome of the last action and gives the next state and action.
    pub fn step<E>(self, event: GuestStartEvent<E>) -> (r: (GuestStartFlow, GuestStartAction<E>))
        requires
            guest_start_next(self@, event@) is Some,
        ensures
            guest_start_next(self@, event@) == Some((r.0@, r.1@)),
    {
        match (self, event) {
            (GuestStartFlow::AwaitingRestart { .. }, GuestStartEvent::Restarted(Err(e))) => (
                GuestStartFlow::Done,
                GuestStartAction::Fail(e),
            ),
            (GuestStartFlow::AwaitingRestart { plan }, GuestStartEvent::Restarted(Ok(true))) => (
                GuestStartFlow::AwaitingCore { attr_id: plan.attr_id },
                GuestStartAction::SignAndPost { request: plan.request, url: plan.core_start_url },
            ),
            (GuestStartFlow::AwaitingRestart { plan }, GuestStartEvent::Restarted(Ok(false))) => {
                let persist = GuestStartAction::PersistNewSession { attr_id: plan.attr_id.clone() };
                (GuestStartFlow::AwaitingPersist { plan }, persist)
            },
            (GuestStartFlow::AwaitingPersist { .. }, GuestStartEvent::Persisted(Err(e))) => (
                GuestStartFlow::Done,
                GuestStartAction::Fail(e),
            ),
            (GuestStartFlow::AwaitingPersist { plan }, GuestStartEvent::Persisted(Ok(()))) => (
                GuestStartFlow::AwaitingCore { attr_id: plan.attr_id },
                GuestStartAction::SignAndPost { request: plan.request, url: plan.core_start_url },
            ),
            (GuestStartFlow::AwaitingCore { .. }, GuestStartEvent::CoreAnswered(Err(e))) => (
                GuestStartFlow::Done,
                GuestStartAction::Fail(e),
            ),
            (GuestStartFlow::AwaitingCore { attr_id }, GuestStartEvent::CoreAnswered(Ok(body))) => (
                GuestStartFlow::Done,
                GuestStartAction::NotifyAndAnswer { attr_id, body },
            ),
            (_, _) => {
                // excluded by the precondition: no state expects this event
                assert(false);
                (GuestStartFlow::Done, GuestStartAction::RestartSession { attr_id: String::new() })
            },
        }
    }
}

/// The core's start URL: `<core URL>/start`.
pub fn core_start_url_formatted(core_url: &str) -> (r: String)
    ensures
        r@ == core_url@ + "/start"@,
{
    concatenate(core_url, "/start")
}

/// The core's start URL: `start` resolved against the core URL, `None` where that fails.
pub fn core_start_url_joined(core_url: &BaseUrl) -> (r: Option<WebUrl>)
    ensures
        match r {
            Some(u) => url_join(core_url@, "start"@) == Some(u@),
            None => url_join(core_url@, "start"@) is None,
        },
{
    core_url.try_join("start")
}

/// A guest start refuses a request whose purpose differs from the guest token's, with
/// the fixed message; otherwise it goes on, and what it will send the core carries the
/// token's purpose, the chosen method, the token's redirect URL and the attribute URL.
pub proof fn law_guest_start_checks_purpose<E>(
    token_purpose: Seq<char>,
    redirect_url: Seq<char>,
    request_purpose: Seq<char>,
    auth_method: Seq<char>,
    attr_id: Seq<char>,
    attr_url: Seq<char>,
    core_start_url: Seq<char>,
)
    ensures
        guest_start_begin::<E>(token_purpose, redirect_url, request_purpose, auth_method, attr_id, attr_url, core_start_url)
            is Err <==> request_purpose != token_purpose,
        guest_start_begin::<E>(token_purpose, redirect_url, request_purpose, auth_method, attr_id, attr_url, core_start_url)
            matches Err(m) ==> m == purpose_mismatch_message(),
        guest_start_begin::<E>(token_purpose, redirect_url, request_purpose, auth_method, attr_id, attr_url, core_start_url)
            matches Ok((GuestStartFlowView::AwaitingRestart { plan }, _)) ==> plan.request == guest_auth_request(
            request_purpose,
            auth_method,
            redirect_url,
            attr_url,
        ),
{
}

/// The core is asked only once the guest's session is stored: a request goes to the
/// core exactly on a restarted session or a newly persisted one, and it is the planned
/// request to the planned URL.
pub proof fn law_core_asked_after_session_stored<E>(flow: GuestStartFlowView, event: GuestStartEventView<E>)
    requires
        guest_start_next(flow, event) is Some,
    ensures
        guest_start_next(flow, event).unwrap().1 is SignAndPost <==> (event matches GuestStartEventView::Restarted(
            Ok(true),
        ) || event matches GuestStartEventView::Persisted(Ok(()))),
        guest_start_next(flow, event).unwrap().1 matches GuestStartActionView::SignAndPost { request, url } ==> (
        flow matches GuestStartFlowView::AwaitingRestart { plan } && request == plan.request && url
            == plan.core_start_url) || (flow matches GuestStartFlowView::AwaitingPersist { plan } && request
            == plan.request && url == plan.core_start_url),
{
}

/// A new session is stored only where restarting found none.
pub proof fn law_persist_only_without_session<E>(flow: GuestStartFlowView, event: GuestStartEventView<E>)
    requires
        guest_start_next(flow, event) is Some,
    ensures
        guest_start_next(flow, event).unwrap().1 is PersistNewSession <==> event matches GuestStartEventView::Restarted(
            Ok(false),
        ),
{
}

/// Listeners are told of the attribute id, and the guest answered, only on the core's
/// answer; any failure ends the start with that failure.
pub proof fn law_guest_start_outcomes<E>(flow: GuestStartFlowView, event: GuestStartEventView<E>)
    requires
        guest_start_next(flow, event) is Some,
    ensures
        guest_start_next(flow, event).unwrap().1 is NotifyAndAnswer ==> event matches GuestStartEventView::CoreAnswered(
            Ok(_),
        ),
        event matches GuestStartEventView::Restarted(Err(e)) ==> guest_start_next(flow, event).unwrap() == (
            GuestStartFlowView::Done,
            GuestStartActionView::<E>::Fail(e),
        ),
        event matches GuestStartEventView::Persisted(Err(e)) ==> guest_start_next(flow, event).unwrap() == (
            GuestStartFlowView::Done,
            GuestStartActionView::<E>::Fail(e),
        ),
        event matches GuestStartEventView::CoreAnswered(Err(e)) ==> guest_start_next(flow, event).unwrap() == (
            GuestStartFlowView::Done,
            GuestStartActionView::<E>::Fail(e),
        ),
        guest_start_next(flow, event).unwrap().0 is Done <==> (guest_start_next(flow, event).unwrap().1 is Fail
            || guest_start_next(flow, event).unwrap().1 is NotifyAndAnswer),
{
}

/// A guest start ends: each step moves strictly forward through restarting, storing,
/// and asking the core, so at most three events reach it.
pub open spec fn guest_start_rank(flow: GuestStartFlowView) -> nat {
    match flow {
        GuestStartFlowView::AwaitingRestart { .. } => 3,
        GuestStartFlowView::AwaitingPersist { .. } => 2,
        GuestStartFlowView::AwaitingCore { .. } => 1,
        GuestStartFlowView::Done => 0,
    }
}

/// Every step of a guest start lowers its rank.
pub proof fn law_guest_start_ends<E>(flow: GuestStartFlowView, event: GuestStartEventView<E>)
    requires
        guest_start_next(flow, event) is Some,
    ensures
        guest_start_rank(guest_start_next(flow, event).unwrap().0) < guest_start_rank(flow),
{
}

/// The attribute id that a guest start is working under, `None` once it is done.
pub open spec fn guest_flow_attr_id(flow: GuestStartFlowView) -> Option<Seq<char>> {
    match flow {
        GuestStartFlowView::AwaitingRestart { plan } => Some(plan.attr_id),
        GuestStartFlowView::AwaitingPersist { plan } => Some(plan.attr_id),
        GuestStartFlowView::AwaitingCore { attr_id } => Some(attr_id),
        GuestStartFlowView::Done => None,
    }
}

/// The attribute id that an action names, if it names one.
pub open spec fn guest_action_attr_id<E>(action: GuestStartActionView<E>) -> Option<Seq<char>> {
    match action {
        GuestStartActionView::RestartSession { attr_id } => Some(attr_id),
        GuestStartActionView::PersistNewSession { attr_id } => Some(attr_id),
        GuestStartActionView::NotifyAndAnswer { attr_id, .. } => Some(attr_id),
        _ => None,
    }
}

/// A guest start works under the one attribute id that it began with: beginning names
/// it, every step keeps it until the start is done, and every session, storage and
/// notification action names it. So the listeners are told of exactly the `attr_id`
/// that the session was restarted or stored under, whichever way the session was had.
pub proof fn law_guest_start_keeps_attr_id<E>(
    token_purpose: Seq<char>,
    redirect_url: Seq<char>,
    request_purpose: Seq<char>,
    auth_method: Seq<char>,
    attr_id: Seq<char>,
    attr_url: Seq<char>,
    core_start_url: Seq<char>,
    flow: GuestStartFlowView,
    event: GuestStartEventView<E>,
)
    ensures
        guest_start_begin::<E>(
            token_purpose,
            redirect_url,
            request_purpose,
            auth_method,
            attr_id,
            attr_url,
            core_start_url,
        ) matches Ok((f, a)) ==> guest_flow_attr_id(f) == Some(attr_id) && guest_action_attr_id(a) == Some(
            attr_id,
        ),
        guest_start_next(flow, event) matches Some((next, action)) ==> {
            &&& next is Done || guest_flow_attr_id(next) == guest_flow_attr_id(flow)
            &&& guest_action_attr_id(action) is Some ==> guest_action_attr_id(action) == guest_flow_attr_id(flow)
        },
{
}

/// The two ways a guest start succeeds, for any inputs: whether the guest's session was
/// restarted or a new one stored, the core is asked with the token's purpose, the chosen
/// method, the token's redirect URL and the given attribute URL, at the given start URL;
/// and once it answers, the listeners are told of the `attr_id` that the start began with
/// and the guest gets the core's answer.
pub proof fn law_guest_start_success<E>(
    token_purpose: Seq<char>,
    redirect_url: Seq<char>,
    auth_method: Seq<char>,
    attr_id: Seq<char>,
    attr_url: Seq<char>,
    core_start_url: Seq<char>,
    restarted: bool,
    body: Seq<char>,
)
    ensures
        ({
            let begun = guest_start_begin::<E>(
                token_purpose,
                redirect_url,
                token_purpose,
                auth_method,
                attr_id,
                attr_url,
                core_start_url,
            );
            let f0 = (begun->Ok_0).0;
            let f1 = if restarted {
                guest_start_next(f0, GuestStartEventView::<E>::Restarted(Ok(true))).unwrap().0
            } else {
                guest_start_next(
                    guest_start_next(f0, GuestStartEventView::<E>::Restarted(Ok(false))).unwrap().0,
                    GuestStartEventView::<E>::Persisted(Ok(())),
                ).unwrap().0
            };
            let posted = if restarted {
                guest_start_next(f0, GuestStartEventView::<E>::Restarted(Ok(true))).unwrap().1
            } else {
                guest_start_next(
                    guest_start_next(f0, GuestStartEventView::<E>::Restarted(Ok(false))).unwrap().0,
                    GuestStartEventView::<E>::Persisted(Ok(())),
                ).unwrap().1
            };
            &&& begun matches Ok((_, GuestStartActionView::RestartSession { attr_id: a })) && a == attr_id
            &&& posted matches GuestStartActionView::SignAndPost { request, url } && url == core_start_url
                && request.purpose == token_purpose && request.auth_method == auth_method && request.comm_url
                == redirect_url && request.attr_url == Some(attr_url)
            &&& guest_start_next(f1, GuestStartEventView::<E>::CoreAnswered(Ok(body))) == Some(
                (
                    GuestStartFlowView::Done,
                    GuestStartActionView::<E>::NotifyAndAnswer { attr_id: attr_id, body: body },
                ),
            )
        }),
{
}

} // verus!
