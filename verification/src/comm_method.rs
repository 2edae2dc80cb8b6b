//! The core's communication methods: how a communication plugin is asked to
//! start a session, with or without the authentication result at hand.
//!
//! Talking to the plugin is left to the caller. [`CommunicationMethod::start`] and
//! [`CommunicationMethod::start_with_auth_result`] give the first request to send and
//! the state of the exchange; [`CommFlow::step`] takes the plugin's answer and gives the
//! next request or the final outcome.
use vstd::prelude::*;
use crate::common::{StartCommRequest, StartCommRequestView, StartCommResponse, StartCommResponseView, option_text};
use crate::weburl::{WebUrl, query_pair_fits, url_append_pair};
use crate::text::concatenate;

verus! {

/// Seconds after which a request to a communication plugin is abandoned.
pub const REQUEST_TIMEOUT_SECS: u64 = 5;

/// A communication plugin, as configured in the core.
#[derive(Debug, Clone)]
pub struct CommunicationMethod {
    tag: String,
    name: String,
    start_url: String,
    disable_attributes_at_start: bool,
}

/// The view of a [`CommunicationMethod`].
pub struct CommunicationMethodView {
    pub tag: Seq<char>,
    pub name: Seq<char>,
    pub start_url: Seq<char>,
    pub disable_attributes_at_start: bool,
}

impl View for CommunicationMethod {
    type V = CommunicationMethodView;

    closed spec fn view(&self) -> CommunicationMethodView {
        CommunicationMethodView {
            tag: self.tag@,
            name: self.name@,
            start_url: self.start_url@,
            disable_attributes_at_start: self.disable_attributes_at_start,
        }
    }
}

/// A request to send to the communication plugin.
#[derive(Debug)]
#[allow(inconsistent_fields)]
pub enum CommRequest {
    /// POST `body` as JSON to `url`; with `error_for_status`, an answer whose status is
    /// not a success counts as an error.
    StartCommunication { url: String, body: StartCommRequest, error_for_status: bool, timeout_secs: u64 },
    /// POST `body` with the given content type to `url`; the answer's status is not looked at.
    DeliverAuthResult { url: WebUrl, content_type: String, body: String, timeout_secs: u64 },
}

/// The view of a [`CommRequest`].
#[allow(inconsistent_fields)]
pub enum CommRequestView {
    StartCommunication {
        url: Seq<char>,
        body: StartCommRequestView,
        error_for_status: bool,
        timeout_secs: u64,
    },
    DeliverAuthResult { url: Seq<char>, content_type: Seq<char>, body: Seq<char>, timeout_secs: u64 },
}

impl View for CommRequest {
    type V = CommRequestView;

    open spec fn view(&self) -> CommRequestView {
        match self {
            CommRequest::StartCommunication { url, body, error_for_status, timeout_secs } =>
                CommRequestView::StartCommunication {
                url: url@,
                body: body@,
                error_for_status: *error_for_status,
                timeout_secs: *timeout_secs,
            },
            CommRequest::DeliverAuthResult { url, content_type, body, timeout_secs } =>
                CommRequestView::DeliverAuthResult {
                url: url@,
                content_type: content_type@,
                body: body@,
                timeout_secs: *timeout_secs,
            },
        }
    }
}

/// What came back from the plugin; `E` is the transport's error.
#[derive(Debug)]
pub enum CommEvent<E> {
    /// The answer to [`CommRequest::StartCommunication`].
    StartAnswered(Result<StartCommResponse, E>),
    /// The outcome of [`CommRequest::DeliverAuthResult`].
    AuthResultDelivered(Result<(), E>),
}

/// The view of a [`CommEvent`].
pub enum CommEventView<E> {
    StartAnswered(Result<StartCommResponseView, E>),
    AuthResultDelivered(Result<(), E>),
}

/// The view of an answer to a start request.
pub open spec fn answer_view<E>(r: Result<StartCommResponse, E>) -> Result<StartCommResponseView, E> {
    match r {
        Ok(v) => Ok(v@),
        Err(e) => Err(e),
    }
}

impl<E> View for CommEvent<E> {
    type V = CommEventView<E>;

    open spec fn view(&self) -> CommEventView<E> {
        match self {
            CommEvent::StartAnswered(r) => CommEventView::StartAnswered(answer_view(*r)),
            CommEvent::AuthResultDelivered(r) => CommEventView::AuthResultDelivered(*r),
        }
    }
}

/// What to do next.
#[derive(Debug)]
pub enum CommStep<E> {
    /// Send this request, and hand its outcome to [`CommFlow::step`].
    Send(CommRequest),
    /// The exchange is over, with this outcome.
    Finished(Result<StartCommResponse, E>),
}

/// The view of a [`CommStep`].
pub enum CommStepView<E> {
    Send(CommRequestView),
    Finished(Result<StartCommResponseView, E>),
}

impl<E> View for CommStep<E> {
    type V = CommStepView<E>;

    open spec fn view(&self) -> CommStepView<E> {
        match self {
            CommStep::Send(r) => CommStepView::Send(r@),
            CommStep::Finished(r) => CommStepView::Finished(answer_view(*r)),
        }
    }
}

/// Where an exchange with a communication plugin stands.
#[derive(Debug)]
pub enum CommFlow {
    /// The start request was sent; its answer is the outcome.
    AwaitingStart,
    /// The start request was sent without the authentication result, which is still
    /// to be handed over.
    AwaitingFallbackStart { auth_result: String },
    /// The authentication result is being posted to the plugin; `client_url` is where
    /// the user goes once it arrived.
    AwaitingDelivery { client_url: WebUrl },
    /// Nothing more to do.
    Done,
}

/// The view of a [`CommFlow`].
pub enum CommFlowView {
    AwaitingStart,
    AwaitingFallbackStart { auth_result: Seq<char> },
    AwaitingDelivery { client_url: Seq<char> },
    Done,
}

impl View for CommFlow {
    type V = CommFlowView;

    open spec fn view(&self) -> CommFlowView {
        match self {
            CommFlow::AwaitingStart => CommFlowView::AwaitingStart,
            CommFlow::AwaitingFallbackStart { auth_result } => CommFlowView::AwaitingFallbackStart {
                auth_result: auth_result@,
            },
            CommFlow::AwaitingDelivery { client_url } => CommFlowView::AwaitingDelivery {
                client_url: client_url@,
            },
            CommFlow::Done => CommFlowView::Done,
        }
    }
}

/// The URL of a plugin's start endpoint.
pub open spec fn start_endpoint(start_url: Seq<char>) -> Seq<char> {
    start_url + "/start_communication"@
}

/// The start request for `purpose`, carrying `auth_result` when there is one.
pub open spec fn start_request(
    m: CommunicationMethodView,
    purpose: Seq<char>,
    auth_result: Option<Seq<char>>,
    error_for_status: bool,
) -> CommRequestView {
    CommRequestView::StartCommunication {
        url: start_endpoint(m.start_url),
        body: StartCommRequestView { purpose, auth_result },
        error_for_status,
        timeout_secs: REQUEST_TIMEOUT_SECS,
    }
}

/// How [`CommunicationMethod::start`] begins: the start request without an
/// authentication result, whose answer is the outcome whatever its status.
pub open spec fn start_spec(m: CommunicationMethodView, purpose: Seq<char>) -> (CommFlowView, CommRequestView) {
    (CommFlowView::AwaitingStart, start_request(m, purpose, None, false))
}

/// How [`CommunicationMethod::start_with_auth_result`] begins. A plugin that takes the
/// result at start gets it in the start request, and a failure status counts as an
/// error; otherwise the plugin is started without it, and the result is kept to be
/// handed over once the plugin answered.
pub open spec fn start_with_auth_result_spec(
    m: CommunicationMethodView,
    purpose: Seq<char>,
    auth_result: Seq<char>,
) -> (CommFlowView, CommRequestView) {
    if m.disable_attributes_at_start {
        (CommFlowView::AwaitingFallbackStart { auth_result }, start_request(m, purpose, None, false))
    } else {
        (CommFlowView::AwaitingStart, start_request(m, purpose, Some(auth_result), true))
    }
}

/// The next state and step of an exchange on an event, `None` where the state does not
/// expect that event.
pub open spec fn comm_next<E>(flow: CommFlowView, event: CommEventView<E>) -> Option<(CommFlowView, CommStepView<E>)> {
    match flow {
        CommFlowView::AwaitingStart => match event {
            CommEventView::StartAnswered(r) => Some((CommFlowView::Done, CommStepView::Finished(r))),
            CommEventView::AuthResultDelivered(_) => None,
        },
        CommFlowView::AwaitingFallbackStart { auth_result } => match event {
            CommEventView::StartAnswered(Err(e)) => Some((CommFlowView::Done, CommStepView::Finished(Err(e)))),
            CommEventView::StartAnswered(Ok(data)) => match data.attr_url {
                Some(attr_url) => Some((
                    CommFlowView::AwaitingDelivery { client_url: data.client_url },
                    CommStepView::Send(CommRequestView::DeliverAuthResult {
                        url: attr_url,
                        content_type: "application/jwt"@,
                        body: auth_result,
                        timeout_secs: REQUEST_TIMEOUT_SECS,
                    }),
                )),
                None => Some((
                    CommFlowView::Done,
                    CommStepView::Finished(Ok(StartCommResponseView {
                        client_url: url_append_pair(data.client_url, "result"@, auth_result),
                        attr_url: None,
                    })),
                )),
            },
            CommEventView::AuthResultDelivered(_) => None,
        },
        CommFlowView::AwaitingDelivery { client_url } => match event {
            CommEventView::AuthResultDelivered(Ok(())) => Some((
                CommFlowView::Done,
                CommStepView::Finished(Ok(StartCommResponseView { client_url, attr_url: None })),
            )),
            CommEventView::AuthResultDelivered(Err(e)) => Some((CommFlowView::Done, CommStepView::Finished(Err(e)))),
            CommEventView::StartAnswered(_) => None,
        },
        CommFlowView::Done => None,
    }
}

/// The sizes for which appending the result to the client URL stays inside what the URL
/// library can hold; only an answer that names no attribute URL gets it appended.
pub open spec fn comm_within_limits<E>(flow: CommFlowView, event: CommEventView<E>) -> bool {
    match (flow, event) {
        (CommFlowView::AwaitingFallbackStart { auth_result }, CommEventView::StartAnswered(Ok(data))) =>
            data.attr_url is None ==> query_pair_fits(data.client_url, "result"@, auth_result),
        _ => true,
    }
}

/// How [`CommunicationMethod::start_with_attributes_fallback`] begins: the plain start
/// request, with the authentication result kept to be handed over afterwards.
pub open spec fn fallback_spec(m: CommunicationMethodView, purpose: Seq<char>, auth_result: Seq<char>) -> (
    CommFlowView,
    CommRequestView,
) {
    (CommFlowView::AwaitingFallbackStart { auth_result }, start_request(m, purpose, None, false))
}

impl CommunicationMethod {
    /// A communication method with the given tag, display name, start URL, and whether
    /// the plugin must be started without the authentication result.
    pub fn new(tag: String, name: String, start_url: String, disable_attributes_at_start: bool) -> (r: Self)
        ensures
            r@ == (CommunicationMethodView {
                tag: tag@,
                name: name@,
                start_url: start_url@,
                disable_attributes_at_start,
            }),
    {
        CommunicationMethod { tag, name, start_url, disable_attributes_at_start }
    }

    /// The method's tag.
    pub fn tag(&self) -> (r: &String)
        ensures
            r@ == self@.tag,
    {
        &self.tag
    }

    /// The method's display name.
    pub fn name(&self) -> (r: &str)
        ensures
            r@ == self@.name,
    {
        self.name.as_str()
    }

    fn start_request(&self, purpose: &str, auth_result: Option<String>, error_for_status: bool) -> (r: CommRequest)
        ensures
            r@ == start_request(self@, purpose@, option_text(auth_result), error_for_status),
    {
        CommRequest::StartCommunication {
            url: concatenate(self.start_url.as_str(), "/start_communication"),
            body: StartCommRequest { purpose: String::from_str(purpose), auth_result },
            error_for_status,
            timeout_secs: REQUEST_TIMEOUT_SECS,
        }
    }

    /// Starts a communication session to be composed with an authentication session.
    pub fn start(&self, purpose: &str) -> (r: (CommFlow, CommRequest))
        ensures
            (r.0@, r.1@) == start_spec(self@, purpose@),
    {
        (CommFlow::AwaitingStart, self.start_request(purpose, None, false))
    }

    /// Starts a communication session for which the authentication result is at hand.
    pub fn start_with_auth_result(&self, purpose: &str, auth_result: &str) -> (r: (CommFlow, CommRequest))
        ensures
            (r.0@, r.1@) == start_with_auth_result_spec(self@, purpose@, auth_result@),
    {
        if self.disable_attributes_at_start {
            self.start_with_attributes_fallback(purpose, auth_result)
        } else {
            (CommFlow::AwaitingStart, self.start_request(purpose, Some(String::from_str(auth_result)), true))
        }
    }

    /// Fallback for plugins that do not take the authentication result at start: start
    /// plainly, and hand the result over afterwards.
    pub fn start_with_attributes_fallback(&self, purpose: &str, auth_result: &str) -> (r: (CommFlow, CommRequest))
        ensures
            (r.0@, r.1@) == fallback_spec(self@, purpose@, auth_result@),
    {
        let (_, request) = self.start(purpose);
        (CommFlow::AwaitingFallbackStart { auth_result: String::from_str(auth_result) }, request)
    }
}

impl CommFlow {
    /// Whether the exchange expects this event now.
    pub fn accepts<E>(&self, event: &CommEvent<E>) -> (r: bool)
        ensures
            r == comm_next(self@, event@) is Some,
    {
        match (self, event) {
            (CommFlow::AwaitingStart, CommEvent::StartAnswered(_)) => true,
            (CommFlow::AwaitingFallbackStart { .. }, CommEvent::StartAnswered(_)) => true,
            (CommFlow::AwaitingDelivery { .. }, CommEvent::AuthResultDelivered(_)) => true,
            _ => false,
        }
    }

    /// Takes what came back from the plugin and gives the next state and step.
    pub fn step<E>(self, event: CommEvent<E>) -> (r: (CommFlow, CommStep<E>))
        requires
            comm_next(self@, event@) is Some,
            comm_within_limits(self@, event@),
        ensures
            comm_next(self@, event@) == Some((r.0@, r.1@)),
    {
        match (self, event) {
            (CommFlow::AwaitingStart, CommEvent::StartAnswered(r)) => (CommFlow::Done, CommStep::Finished(r)),
            (CommFlow::AwaitingFallbackStart { .. }, CommEvent::StartAnswered(Err(e))) => (
                CommFlow::Done,
                CommStep::Finished(Err(e)),
            ),
            (CommFlow::AwaitingFallbackStart { auth_result }, CommEvent::StartAnswered(Ok(data))) => {
                match data.attr_url {
                    Some(attr_url) => (
                        CommFlow::AwaitingDelivery { client_url: data.client_url },
                        CommStep::Send(CommRequest::DeliverAuthResult {
                            url: attr_url,
                            content_type: String::from_str("application/jwt"),
                            body: auth_result,
                            timeout_secs: REQUEST_TIMEOUT_SECS,
                        }),
                    ),
                    None => {
                        proof {
                            reveal_strlit("result");
                        }
                        let client_url = data.client_url.with_query_pair("result", auth_result.as_str());
                        (CommFlow::Done, CommStep::Finished(Ok(StartCommResponse { client_url, attr_url: None })))
                    },
                }
            },
            (CommFlow::AwaitingDelivery { client_url }, CommEvent::AuthResultDelivered(Ok(()))) => (
                CommFlow::Done,
                CommStep::Finished(Ok(StartCommResponse { client_url, attr_url: None })),
            ),
            (CommFlow::AwaitingDelivery { .. }, CommEvent::AuthResultDelivered(Err(e))) => (
                CommFlow::Done,
                CommStep::Finished(Err(e)),
            ),
            (_, other) => {
                // excluded by the precondition: no state expects this event
                assert(false);
                (CommFlow::Done, CommStep::Send(CommRequest::StartCommunication {
                    url: String::new(),
                    body: StartCommRequest { purpose: String::new(), auth_result: None },
                    error_for_status: false,
                    timeout_secs: REQUEST_TIMEOUT_SECS,
                }))
            },
        }
    }
}

/// An exchange ends: a step finishes exactly when the exchange is done, and the only
/// step that sends a further request is the hand-over of the authentication result,
/// after which the next answer finishes it. So every exchange ends after at most two
/// answers from the plugin.
pub proof fn law_exchange_ends<E>(flow: CommFlowView, event: CommEventView<E>)
    requires
        comm_next(flow, event) is Some,
    ensures
        (comm_next(flow, event).unwrap().1 is Finished) <==> (comm_next(flow, event).unwrap().0 is Done),
        comm_next(flow, event).unwrap().1 is Send ==> (flow is AwaitingFallbackStart
            && comm_next(flow, event).unwrap().0 is AwaitingDelivery),
        flow is AwaitingDelivery ==> comm_next(flow, event).unwrap().1 is Finished,
{
}

/// A plugin's answer to a start request that carries everything is the outcome, unchanged.
pub proof fn law_start_answer_is_outcome<E>(answer: Result<StartCommResponseView, E>)
    ensures
        comm_next(CommFlowView::AwaitingStart, CommEventView::StartAnswered(answer)) == Some(
            (CommFlowView::Done, CommStepView::Finished(answer)),
        ),
{
}

/// Once the authentication result is handed over afterwards, a successful outcome never
/// names an attribute URL.
pub proof fn law_fallback_outcome_has_no_attr_url<E>(flow: CommFlowView, event: CommEventView<E>)
    requires
        flow is AwaitingFallbackStart || flow is AwaitingDelivery,
        comm_next(flow, event) is Some,
    ensures
        comm_next(flow, event).unwrap().1 matches CommStepView::Finished(Ok(resp)) ==> resp.attr_url is None,
{
}

/// The authentication result reaches the plugin exactly one way. A plugin that takes it
/// at start finds it in the start request. Otherwise the start request does not carry
/// it, and on every successful answer it is either posted, as a JWT, to the attribute
/// URL that the plugin named, or, where the plugin named none, appended to the client URL
/// as the `result` query parameter.
pub proof fn law_auth_result_handed_over<E>(
    m: CommunicationMethodView,
    purpose: Seq<char>,
    auth_result: Seq<char>,
    answer: StartCommResponseView,
)
    ensures
        !m.disable_attributes_at_start ==> start_with_auth_result_spec(m, purpose, auth_result).1 == start_request(
            m,
            purpose,
            Some(auth_result),
            true,
        ),
        m.disable_attributes_at_start ==> {
            let (flow, request) = start_with_auth_result_spec(m, purpose, auth_result);
            let next = comm_next::<E>(flow, CommEventView::StartAnswered(Ok(answer)));
            &&& request == start_request(m, purpose, None, false)
            &&& next is Some
            &&& match answer.attr_url {
                Some(attr_url) => next.unwrap().1 == CommStepView::<E>::Send(
                    CommRequestView::DeliverAuthResult {
                        url: attr_url,
                        content_type: "application/jwt"@,
                        body: auth_result,
                        timeout_secs: REQUEST_TIMEOUT_SECS,
                    },
                ),
                None => next.unwrap().1 == CommStepView::<E>::Finished(Ok(StartCommResponseView {
                    client_url: url_append_pair(answer.client_url, "result"@, auth_result),
                    attr_url: None,
                })),
            }
        },
{
}

/// The fallback, where the plugin names no attribute URL: the only request is the start
/// request, and the outcome is the plugin's client URL with the query pair
/// `result=<auth_result>` appended, and no attribute URL.
pub proof fn law_fallback_without_attr_url<E>(
    m: CommunicationMethodView,
    purpose: Seq<char>,
    auth_result: Seq<char>,
    answer: StartCommResponseView,
)
    requires
        answer.attr_url is None,
    ensures
        fallback_spec(m, purpose, auth_result).1 == start_request(m, purpose, None, false),
        comm_next::<E>(fallback_spec(m, purpose, auth_result).0, CommEventView::StartAnswered(Ok(answer)))
            == Some((
            CommFlowView::Done,
            CommStepView::<E>::Finished(Ok(StartCommResponseView {
                client_url: url_append_pair(answer.client_url, "result"@, auth_result),
                attr_url: None,
            })),
        )),
{
}

/// The fallback, where the plugin names an attribute URL: exactly one further request
/// posts the authentication result as a JWT to that URL; once it is delivered, whatever
/// the answer's status, the outcome is the plugin's client URL unchanged, with no
/// attribute URL.
pub proof fn law_fallback_delivers_to_attr_url<E>(
    m: CommunicationMethodView,
    purpose: Seq<char>,
    auth_result: Seq<char>,
    answer: StartCommResponseView,
    attr_url: Seq<char>,
)
    requires
        answer.attr_url == Some(attr_url),
    ensures
        comm_next::<E>(fallback_spec(m, purpose, auth_result).0, CommEventView::StartAnswered(Ok(answer)))
            == Some((
            CommFlowView::AwaitingDelivery { client_url: answer.client_url },
            CommStepView::<E>::Send(CommRequestView::DeliverAuthResult {
                url: attr_url,
                content_type: "application/jwt"@,
                body: auth_result,
                timeout_secs: REQUEST_TIMEOUT_SECS,
            }),
        )),
        comm_next::<E>(
            CommFlowView::AwaitingDelivery { client_url: answer.client_url },
            CommEventView::AuthResultDelivered(Ok(())),
        ) == Some((
            CommFlowView::Done,
            CommStepView::<E>::Finished(Ok(StartCommResponseView { client_url: answer.client_url, attr_url: None })),
        )),
{
}

/// The fallback's failures: a failed start ends with that error and sends the
/// authentication result nowhere; a failed delivery ends with its error.
pub proof fn law_fallback_failures<E>(
    m: CommunicationMethodView,
    purpose: Seq<char>,
    auth_result: Seq<char>,
    client_url: Seq<char>,
    e: E,
)
    ensures
        comm_next::<E>(fallback_spec(m, purpose, auth_result).0, CommEventView::StartAnswered(Err(e))) == Some(
            (CommFlowView::Done, CommStepView::<E>::Finished(Err(e))),
        ),
        comm_next::<E>(CommFlowView::AwaitingDelivery { client_url }, CommEventView::AuthResultDelivered(Err(e)))
            == Some((CommFlowView::Done, CommStepView::<E>::Finished(Err(e)))),
{
}

/// Every start request goes to the configured start URL followed by exactly
/// `/start_communication`, waits at most five seconds, and carries the purpose it was
/// made for. A plain start
/// carries no authentication result and takes any answer status; a start with the
/// result carries it (and takes only a success status) exactly when the plugin takes
/// it at start.
pub proof fn law_start_request_target(m: CommunicationMethodView, purpose: Seq<char>, auth_result: Seq<char>)
    ensures
        start_spec(m, purpose).1 matches CommRequestView::StartCommunication {
            url,
            body,
            error_for_status,
            timeout_secs,
        } && url == m.start_url + "/start_communication"@ && body.purpose == purpose && body.auth_result is None
            && !error_for_status && timeout_secs == 5,
        start_with_auth_result_spec(m, purpose, auth_result).1 matches CommRequestView::StartCommunication {
            url,
            body,
            error_for_status,
            timeout_secs,
        } && timeout_secs == 5 && url == m.start_url + "/start_communication"@ && body.purpose == purpose && (body.auth_result
            == if m.disable_attributes_at_start {
            None
        } else {
            Some(auth_result)
        }) && error_for_status == !m.disable_attributes_at_start,
{
}

} // verus!
