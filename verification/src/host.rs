//! The host side of a communication plugin: the live feed that tells a host when a
//! guest's attributes arrive, and the attribute page.
use vstd::prelude::*;

verus! {

/// A message of the live feed.
#[derive(Debug, Clone, Copy, PartialEq, Eq)]
pub enum LiveMessage {
    /// The feed is open.
    Start,
    /// Attributes of one of the host's guests changed.
    Update,
    /// The feed ended after it was allowed (or the host token was not valid).
    BadRequest,
    /// The feed is over.
    Forbidden,
}

/// The text that a live feed message is sent as.
pub open spec fn live_message_text(m: LiveMessage) -> Seq<char> {
    match m {
        LiveMessage::Start => "start"@,
        LiveMessage::Update => "update"@,
        LiveMessage::BadRequest => "badrequest"@,
        LiveMessage::Forbidden => "forbidden"@,
    }
}

impl LiveMessage {
    /// The text that the message is sent as.
    pub fn as_str(&self) -> (s: &'static str)
        ensures
            s@ == live_message_text(*self),
    {
        match self {
            LiveMessage::Start => "start",
            LiveMessage::Update => "update",
            LiveMessage::BadRequest => "badrequest",
            LiveMessage::Forbidden => "forbidden",
        }
    }
}

/// Where a live feed stands.
#[derive(Debug)]
pub enum LiveState {
    /// Waiting for the next attribute update of any guest.
    Listening { room_id: String },
    /// An update for `attr_id` came; the sessions of the host's room are being looked up.
    AwaitingSessions { room_id: String, attr_id: String },
    /// The feed is over.
    Ended,
}

/// The view of a [`LiveState`].
pub enum LiveStateView {
    Listening { room_id: Seq<char> },
    AwaitingSessions { room_id: Seq<char>, attr_id: Seq<char> },
    Ended,
}

impl View for LiveState {
    type V = LiveStateView;

    open spec fn view(&self) -> LiveStateView {
        match self {
            LiveState::Listening { room_id } => LiveStateView::Listening { room_id: room_id@ },
            LiveState::AwaitingSessions { room_id, attr_id } => LiveStateView::AwaitingSessions {
                room_id: room_id@,
                attr_id: attr_id@,
            },
            LiveState::Ended => LiveStateView::Ended,
        }
    }
}

/// What happened to a live feed.
#[derive(Debug)]
pub enum LiveEvent {
    /// The attributes of the session with `attr_id` changed.
    Message { attr_id: String },
    /// The update channel closed.
    Closed,
    /// Updates were missed.
    Lagged,
    /// The server shuts down.
    Shutdown,
    /// No database connection could be had to look up sessions.
    NoDatabase,
    /// The attribute ids of the sessions of the host's room.
    SessionsFound(Vec<String>),
    /// Looking up the sessions failed.
    SessionsFailed,
}

/// The view of a [`LiveEvent`].
pub enum LiveEventView {
    Message { attr_id: Seq<char> },
    Closed,
    Lagged,
    Shutdown,
    NoDatabase,
    SessionsFound(Seq<Seq<char>>),
    SessionsFailed,
}

impl View for LiveEvent {
    type V = LiveEventView;

    open spec fn view(&self) -> LiveEventView {
        match self {
            LiveEvent::Message { attr_id } => LiveEventView::Message { attr_id: attr_id@ },
            LiveEvent::Closed => LiveEventView::Closed,
            LiveEvent::Lagged => LiveEventView::Lagged,
            LiveEvent::Shutdown => LiveEventView::Shutdown,
            LiveEvent::NoDatabase => LiveEventView::NoDatabase,
            LiveEvent::SessionsFound(ids) => LiveEventView::SessionsFound(ids@.map_values(|s: String| s@)),
            LiveEvent::SessionsFailed => LiveEventView::SessionsFailed,
        }
    }
}

/// What a live feed does on a step: the messages to send, and the room whose sessions
/// to look up, if any.
#[derive(Debug)]
pub struct LiveOutput {
    pub messages: Vec<LiveMessage>,
    pub query_room: Option<String>,
}

/// The messages that close a feed that was allowed.
pub open spec fn closing_messages() -> Seq<LiveMessage> {
    seq![LiveMessage::BadRequest, LiveMessage::Forbidden]
}

/// How a live feed opens: a host that is not logged in only gets `forbidden`; a host
/// token that does not verify gets `badrequest` and `forbidden`; otherwise the feed
/// starts listening for the host's room.
pub open spec fn live_open(authorized: bool, room_id: Option<Seq<char>>) -> (LiveStateView, Seq<LiveMessage>) {
    if !authorized {
        (LiveStateView::Ended, seq![LiveMessage::Forbidden])
    } else {
        match room_id {
            None => (LiveStateView::Ended, closing_messages()),
            Some(room) => (LiveStateView::Listening { room_id: room }, seq![LiveMessage::Start]),
        }
    }
}

/// The next state, messages and lookup of a live feed on an event, `None` where the
/// state does not expect that event.
pub open spec fn live_next(state: LiveStateView, event: LiveEventView) -> Option<
    (LiveStateView, Seq<LiveMessage>, Option<Seq<char>>),
> {
    match state {
        LiveStateView::Listening { room_id } => match event {
            LiveEventView::Message { attr_id } => Some(
                (LiveStateView::AwaitingSessions { room_id, attr_id }, Seq::empty(), Some(room_id)),
            ),
            LiveEventView::Lagged => Some((LiveStateView::Listening { room_id }, Seq::empty(), None)),
            LiveEventView::Closed => Some((LiveStateView::Ended, closing_messages(), None)),
            LiveEventView::Shutdown => Some((LiveStateView::Ended, closing_messages(), None)),
            _ => None,
        },
        LiveStateView::AwaitingSessions { room_id, attr_id } => match event {
            LiveEventView::SessionsFound(ids) => Some((
                LiveStateView::Listening { room_id },
                if ids.contains(attr_id) {
                    seq![LiveMessage::Update]
                } else {
                    Seq::empty()
                },
                None,
            )),
            LiveEventView::SessionsFailed => Some((LiveStateView::Listening { room_id }, Seq::empty(), None)),
            LiveEventView::NoDatabase => Some((LiveStateView::Ended, closing_messages(), None)),
            _ => None,
        },
        LiveStateView::Ended => None,
    }
}

/// Whether `ids` holds `id`.
fn contains_text(ids: &Vec<String>, id: &String) -> (r: bool)
    ensures
        r == ids@.map_values(|s: String| s@).contains(id@),
{
    let ghost texts = ids@.map_values(|s: String| s@);
    let n = ids.len();
    let mut i: usize = 0;
    while i < n
        invariant
            n == ids@.len(),
            texts == ids@.map_values(|s: String| s@),
            i <= n,
            forall|j: int| 0 <= j < i ==> texts[j] != id@,
        decreases n - i,
    {
        if ids[i] == *id {
            assert(texts[i as int] == id@);
            return true;
        }
        i = i + 1;
    }
    proof {
        if texts.contains(id@) {
            let j = choose|j: int| 0 <= j < texts.len() && texts[j] == id@;
            assert(texts[j] != id@);
        }
    }
    false
}

impl LiveState {
    /// Opens the live feed of a host (`GET /live/<token>`), given whether the host is
    /// logged in and, where the host token verified, its room.
    pub fn open(authorized: bool, room_id: Option<String>) -> (r: (LiveState, Vec<LiveMessage>))
        ensures
            (r.0@, r.1@) == live_open(
                authorized,
                match room_id {
                    Some(s) => Some(s@),
                    None => None,
                },
            ),
    {
        let mut messages: Vec<LiveMessage> = Vec::new();
        if !authorized {
            messages.push(LiveMessage::Forbidden);
            assert(messages@ =~= seq![LiveMessage::Forbidden]);
            return (LiveState::Ended, messages);
        }
        match room_id {
            None => {
                messages.push(LiveMessage::BadRequest);
                messages.push(LiveMessage::Forbidden);
                assert(messages@ =~= closing_messages());
                (LiveState::Ended, messages)
            },
            Some(room_id) => {
                messages.push(LiveMessage::Start);
                assert(messages@ =~= seq![LiveMessage::Start]);
                (LiveState::Listening { room_id }, messages)
            },
        }
    }

    /// Whether the feed expects this event now.
    pub fn accepts(&self, event: &LiveEvent) -> (r: bool)
        ensures
            r == live_next(self@, event@) is Some,
    {
        match (self, event) {
            (LiveState::Listening { .. }, LiveEvent::Message { .. }) => true,
            (LiveState::Listening { .. }, LiveEvent::Lagged) => true,
            (LiveState::Listening { .. }, LiveEvent::Closed) => true,
            (LiveState::Listening { .. }, LiveEvent::Shutdown) => true,
            (LiveState::AwaitingSessions { .. }, LiveEvent::SessionsFound(_)) => true,
            (LiveState::AwaitingSessions { .. }, LiveEvent::SessionsFailed) => true,
            (LiveState::AwaitingSessions { .. }, LiveEvent::NoDatabase) => true,
            _ => false,
        }
    }

    /// Takes an event and gives the next state and what to do.
    pub fn step(self, event: LiveEvent) -> (r: (LiveState, LiveOutput))
        requires
            live_next(self@, event@) is Some,
        ensures
            live_next(self@, event@) == Some(
                (
                    r.0@,
                    r.1.messages@,
                    match r.1.query_room {
                        Some(s) => Some(s@),
                        None => None,
                    },
                ),
            ),
    {
        let mut messages: Vec<LiveMessage> = Vec::new();
        proof {
            assert(messages@ =~= Seq::<LiveMessage>::empty());
        }
        match (self, event) {
            (LiveState::Listening { room_id }, LiveEvent::Message { attr_id }) => {
                let query = room_id.clone();
                (
                    LiveState::AwaitingSessions { room_id, attr_id },
                    LiveOutput { messages, query_room: Some(query) },
                )
            },
            (LiveState::Listening { room_id }, LiveEvent::Lagged) => (
                LiveState::Listening { room_id },
                LiveOutput { messages, query_room: None },
            ),
            (LiveState::AwaitingSessions { room_id, attr_id }, LiveEvent::SessionsFound(ids)) => {
                if contains_text(&ids, &attr_id) {
                    messages.push(LiveMessage::Update);
                    assert(messages@ =~= seq![LiveMessage::Update]);
                }
                (LiveState::Listening { room_id }, LiveOutput { messages, query_room: None })
            },
            (LiveState::AwaitingSessions { room_id, .. }, LiveEvent::SessionsFailed) => (
                LiveState::Listening { room_id },
                LiveOutput { messages, query_room: None },
            ),
            (_, _) => {
                // the feed ends: on a closed channel, on shutdown, or without a database
                messages.push(LiveMessage::BadRequest);
                messages.push(LiveMessage::Forbidden);
                assert(messages@ =~= closing_messages());
                (LiveState::Ended, LiveOutput { messages, query_room: None })
            },
        }
    }
}

/// What the attribute page shows.
#[derive(Debug)]
pub enum AttributeUiPlan<T> {
    /// The credentials of the guests of the host that this verified token names.
    ShowCredentials(T),
    /// A bad request with this message.
    Reject(String),
    /// The login page.
    ShowLogin,
}

/// The attribute page (`GET /<token>`): a host that is not logged in gets the login page;
/// a logged-in host with a token that verifies gets the credentials; otherwise the
/// request is bad.
pub fn attribute_ui<T, E>(authorized: bool, host_token: Result<T, E>) -> (r: AttributeUiPlan<T>)
    ensures
        !authorized ==> r is ShowLogin,
        authorized ==> match host_token {
            Ok(t) => r == AttributeUiPlan::ShowCredentials(t),
            Err(_) => r matches AttributeUiPlan::Reject(m) && m@ == "invalid host token"@,
        },
{
    if authorized {
        match host_token {
            Ok(t) => AttributeUiPlan::ShowCredentials(t),
            Err(_) => AttributeUiPlan::Reject(String::from_str("invalid host token")),
        }
    } else {
        AttributeUiPlan::ShowLogin
    }
}

/// The credentials to show: those found, or none where looking them up failed.
pub fn credentials_or_empty<T, E>(found: Result<Vec<T>, E>) -> (r: Vec<T>)
    ensures
        match found {
            Ok(v) => r == v,
            Err(_) => r@.len() == 0,
        },
{
    match found {
        Ok(v) => v,
        Err(_) => Vec::new(),
    }
}

/// The kind of a static file.
#[derive(Debug, Clone, Copy, PartialEq, Eq)]
pub enum ContentKind {
    Css,
    JavaScript,
}

/// A static file served as it is.
#[derive(Debug)]
pub struct StaticAsset {
    pub kind: ContentKind,
    pub template: String,
}

/// The attribute page's style sheet (`GET /attribute.css`).
pub fn attribute_css() -> (r: StaticAsset)
    ensures
        r.kind == ContentKind::Css,
        r.template@ == "templates/attribute.css"@,
{
    StaticAsset { kind: ContentKind::Css, template: String::from_str("templates/attribute.css") }
}

/// The attribute page's script (`GET /attribute.js`).
pub fn attribute_js() -> (r: StaticAsset)
    ensures
        r.kind == ContentKind::JavaScript,
        r.template@ == "templates/attribute.js"@,
{
    StaticAsset { kind: ContentKind::JavaScript, template: String::from_str("templates/attribute.js") }
}

/// A live feed ends exactly with `badrequest` and `forbidden` once it was opened, and with
/// `forbidden` alone for a host that is not logged in; `forbidden` is only ever sent as
/// the last message, and `start` only to a logged-in host whose token verified.
pub proof fn law_live_feed_closes(authorized: bool, room_id: Option<Seq<char>>, state: LiveStateView, event: LiveEventView)
    ensures
        live_open(authorized, room_id).0 is Ended ==> live_open(authorized, room_id).1.last() == LiveMessage::Forbidden,
        !(live_open(authorized, room_id).0 is Ended) ==> live_open(authorized, room_id).1 == seq![LiveMessage::Start],
        live_open(authorized, room_id).1.contains(LiveMessage::Start) <==> (authorized && room_id is Some),
        live_open(authorized, room_id).1.contains(LiveMessage::BadRequest) <==> (authorized && room_id is None),
        live_next(state, event) matches Some((next, messages, _)) ==> (next is Ended <==> messages
            == closing_messages()),
        live_next(state, event) matches Some((next, messages, _)) ==> !messages.contains(LiveMessage::Forbidden)
            || next is Ended,
{
    assert(seq![LiveMessage::Forbidden].contains(LiveMessage::Forbidden) && seq![LiveMessage::Forbidden][0] == LiveMessage::Forbidden);
    assert(closing_messages()[0] == LiveMessage::BadRequest);
    assert(seq![LiveMessage::Start][0] == LiveMessage::Start);
    if live_open(authorized, room_id).1.contains(LiveMessage::Start) {
        let i = choose|i: int| 0 <= i < live_open(authorized, room_id).1.len() && live_open(authorized, room_id).1[i] == LiveMessage::Start;
    }
    if live_open(authorized, room_id).1.contains(LiveMessage::BadRequest) {
        let i = choose|i: int| 0 <= i < live_open(authorized, room_id).1.len() && live_open(authorized, room_id).1[i] == LiveMessage::BadRequest;
    }
    match live_next(state, event) {
        Some((next, messages, _)) => {
            if messages.contains(LiveMessage::Forbidden) {
                let i = choose|i: int| 0 <= i < messages.len() && messages[i] == LiveMessage::Forbidden;
            }
            if messages == closing_messages() {
                assert(messages[0] == LiveMessage::BadRequest);
            }
        },
        None => {},
    }
}

/// A host is told of an update only for a guest of its own room: `update` is sent
/// exactly when the looked-up sessions of the room hold the attribute id that changed.
pub proof fn law_update_only_for_own_guests(state: LiveStateView, event: LiveEventView)
    requires
        live_next(state, event) is Some,
    ensures
        live_next(state, event).unwrap().1.contains(LiveMessage::Update) <==> (state matches LiveStateView::AwaitingSessions {
            attr_id,
            ..
        } && event matches LiveEventView::SessionsFound(ids) && ids.contains(attr_id)),
{
    let messages = live_next(state, event).unwrap().1;
    if messages.contains(LiveMessage::Update) {
        let i = choose|i: int| 0 <= i < messages.len() && messages[i] == LiveMessage::Update;
    }
    assert(seq![LiveMessage::Update][0] == LiveMessage::Update);
}

/// The state and all messages of a live feed after a run of events, `None` where some
/// event of the run is not one that the feed expects at that point.
pub open spec fn live_run(state: LiveStateView, events: Seq<LiveEventView>) -> Option<
    (LiveStateView, Seq<LiveMessage>),
>
    decreases events.len(),
{
    if events.len() == 0 {
        Some((state, Seq::empty()))
    } else {
        match live_next(state, events[0]) {
            None => None,
            Some((next, messages, _)) => match live_run(next, events.skip(1)) {
                None => None,
                Some((last, rest)) => Some((last, messages + rest)),
            },
        }
    }
}

/// How many of the events are update messages from the queue.
pub open spec fn queue_message_count(events: Seq<LiveEventView>) -> nat
    decreases events.len(),
{
    if events.len() == 0 {
        0
    } else {
        (if events[0] is Message {
            1nat
        } else {
            0nat
        }) + queue_message_count(events.skip(1))
    }
}

/// The messages of a feed that was opened, after `start`: a run of `update`s, followed,
/// where the feed ended, by `badrequest` and `forbidden`.
pub open spec fn updates_then_close(messages: Seq<LiveMessage>, ended: bool) -> bool {
    let body = if ended {
        messages.len() - 2
    } else {
        messages.len() as int
    };
    &&& 0 <= body
    &&& forall|i: int| 0 <= i < body ==> messages[i] == LiveMessage::Update
    &&& ended ==> messages.subrange(body, messages.len() as int) == closing_messages()
}

/// The number of `update`s in such messages.
pub open spec fn update_count(messages: Seq<LiveMessage>, ended: bool) -> int {
    if ended {
        messages.len() - 2
    } else {
        messages.len() as int
    }
}

proof fn lemma_live_run(state: LiveStateView, events: Seq<LiveEventView>)
    requires
        !(state is Ended),
        live_run(state, events) is Some,
    ensures
        ({
            let (last, messages) = live_run(state, events).unwrap();
            &&& updates_then_close(messages, last is Ended)
            &&& update_count(messages, last is Ended) <= queue_message_count(events) + (if state is AwaitingSessions {
                1int
            } else {
                0int
            })
        }),
    decreases events.len(),
{
    if events.len() == 0 {
        return;
    }
    let (next, first, _) = live_next(state, events[0]).unwrap();
    let tail = events.skip(1);
    let (last, rest) = live_run(next, tail).unwrap();
    let messages = first + rest;
    if next is Ended {
        assert(first == closing_messages());
        if tail.len() > 0 {
            assert(live_next(next, tail[0]) is None);
        }
        assert(rest =~= Seq::<LiveMessage>::empty());
        assert(messages =~= closing_messages());
        assert(messages.subrange(0, 2) =~= closing_messages());
    } else {
        lemma_live_run(next, tail);
        assert(first.len() <= 1);
        assert(forall|i: int| 0 <= i < first.len() ==> first[i] == LiveMessage::Update);
        let body = update_count(rest, last is Ended);
        assert forall|i: int| 0 <= i < first.len() + body implies messages[i] == LiveMessage::Update by {
            if i >= first.len() {
                assert(messages[i] == rest[i - first.len()]);
            }
        }
        if last is Ended {
            assert(messages.subrange(first.len() + body, messages.len() as int) =~= rest.subrange(
                body,
                rest.len() as int,
            ));
        }
    }
}

/// A feed that opened sends `start` first; after it, only `update`s, at most one for each
/// update message taken from the queue (missed ones are skipped); and, where it ends
/// (the queue closed, the server shut down, or no database could be had), `badrequest`
/// and then `forbidden`, after which it takes no further event.
pub proof fn law_live_feed_run(room_id: Seq<char>, events: Seq<LiveEventView>)
    requires
        live_run(live_open(true, Some(room_id)).0, events) is Some,
    ensures
        live_open(true, Some(room_id)).1 == seq![LiveMessage::Start],
        ({
            let (last, messages) = live_run(live_open(true, Some(room_id)).0, events).unwrap();
            &&& updates_then_close(messages, last is Ended)
            &&& update_count(messages, last is Ended) <= queue_message_count(events)
            &&& last is Ended ==> forall|e: LiveEventView| #[trigger] live_next(last, e) is None
        }),
{
    lemma_live_run(live_open(true, Some(room_id)).0, events);
}

/// The room of a live feed, `None` once it ended.
pub open spec fn live_room(state: LiveStateView) -> Option<Seq<char>> {
    match state {
        LiveStateView::Listening { room_id } => Some(room_id),
        LiveStateView::AwaitingSessions { room_id, .. } => Some(room_id),
        LiveStateView::Ended => None,
    }
}

/// The room of a live feed never changes: each step keeps it until the feed ends, every
/// update message from the queue looks up the sessions of that room, and no other
/// room is ever looked up. After an update message the feed awaits the sessions for
/// that message's attribute id.
pub proof fn law_live_feed_keeps_room(state: LiveStateView, event: LiveEventView)
    ensures
        live_open(true, Some(live_room(state).unwrap())).0 matches LiveStateView::Listening { room_id }
            && room_id == live_room(state).unwrap(),
        live_next(state, event) matches Some((next, _, query)) ==> {
            &&& next is Ended || live_room(next) == live_room(state)
            &&& query is Some ==> query == live_room(state)
            &&& event matches LiveEventView::Message { attr_id } ==> (query == live_room(state)
                && (next matches LiveStateView::AwaitingSessions { attr_id: awaited, .. } && awaited == attr_id))
        },
{
}

} // verus!
