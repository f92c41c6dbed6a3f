//! Routing the client's events: login first, then reactions.

use crate::auth::{
    auth_event_in, auth_next, AuthError, AuthEvent, AuthStep, Authorization, AuthorizationState,
    AuthorizationView, Challenge,
};
use crate::filter::{reacts, FilterSettings, FilterView};
use crate::json::{document_of, integer_at, integer_in, json_text, parse, text_at, text_in};
use crate::number::{parse_i64, parsed_i64};
use crate::price::{extract_price, pattern_of, price_of};
use crate::requests::{
    legacy_reaction_view, reaction_requests, ready_requests, ready_requests_view, send_message,
    text_message_view, texts, typed_reaction_view, STORAGE_NOTICE,
};
use crate::text::{
    chars_of, optional_str, optional_text, pieces, same_chars, same_text, split, trim, trimmed,
    views,
};
use std::collections::HashSet;
use vstd::prelude::*;

verus! {

broadcast use vstd::std_specs::hash::group_hash_axioms;

/// How long one poll for an event waits during the login, in milliseconds.
pub const AUTH_POLL_MILLIS: u64 = 100;

/// How long one poll for an event waits once the client is ready, in
/// milliseconds.
pub const STEADY_POLL_MILLIS: u64 = 1000;

/// The pause between the two payloads of a reaction, in microseconds.
pub const REACTION_GAP_MICROS: u64 = 10;

/// The longest time spent looking for the confirmation of a reaction, in
/// milliseconds.
pub const CONFIRMATION_LIMIT_MILLIS: u64 = 50;

/// The identifiers written by a list of pieces: each piece is trimmed, and
/// the pieces that write no 64-bit integer are left out.
pub open spec fn identifiers(pieces: Seq<Seq<char>>) -> Seq<i64>
    decreases pieces.len(),
{
    if pieces.len() == 0 {
        Seq::empty()
    } else {
        let rest = identifiers(pieces.drop_last());
        match parsed_i64(trimmed(pieces.last())) {
            Some(id) => rest.push(id),
            None => rest,
        }
    }
}

/// The identifiers in a comma-separated list.
pub open spec fn id_list(config: Seq<char>) -> Seq<i64> {
    identifiers(pieces(config, ','))
}

/// The message text is one of the administrative commands, white space
/// around it aside.
pub open spec fn is_admin_command(text: Seq<char>) -> bool {
    let command = trimmed(text);
    ||| command == "/list"@
    ||| command == "/list@reaction_bot"@
    ||| command == "/clear"@
    ||| command == "/clear@reaction_bot"@
}

/// What to send for an event.
pub enum Dispatch {
    /// Nothing.
    Ignore,
    /// One payload that answers an administrative command.
    Reply(String),
    /// A reaction to the message with this chat and this identifier: the
    /// two payloads, to be sent in this order.
    React(i64, i64, String, String),
}

/// What to send for an event, as plain values.
pub enum DispatchView {
    Ignore,
    Reply(Seq<char>),
    React(i64, i64, Seq<char>, Seq<char>),
}

impl View for Dispatch {
    type V = DispatchView;

    open spec fn view(&self) -> DispatchView {
        match self {
            Dispatch::Ignore => DispatchView::Ignore,
            Dispatch::Reply(payload) => DispatchView::Reply(payload@),
            Dispatch::React(chat_id, message_id, typed, legacy) => DispatchView::React(
                *chat_id,
                *message_id,
                typed@,
                legacy@,
            ),
        }
    }
}

/// A text message that arrived in a chat. A message may come without an
/// identifier; such a message can be answered but not reacted to.
pub struct IncomingMessage {
    pub chat_id: i64,
    pub message_id: Option<i64>,
    pub text: String,
}

/// A message as plain values.
pub struct IncomingMessageView {
    pub chat_id: i64,
    pub message_id: Option<i64>,
    pub text: Seq<char>,
}

impl View for IncomingMessage {
    type V = IncomingMessageView;

    open spec fn view(&self) -> IncomingMessageView {
        IncomingMessageView {
            chat_id: self.chat_id,
            message_id: self.message_id,
            text: self.text@,
        }
    }
}

/// The message made of what was found in a document of type `kind`: the
/// type is the one for new messages, and a chat and a text were found.
pub open spec fn message_from(
    kind: Option<Seq<char>>,
    chat_id: Option<i64>,
    message_id: Option<i64>,
    text: Option<Seq<char>>,
) -> Option<IncomingMessageView> {
    if kind == Some("updateNewMessage"@) && chat_id is Some && text is Some {
        Some(IncomingMessageView { chat_id: chat_id->0, message_id, text: text->0 })
    } else {
        None
    }
}

/// The message that a received document announces.
pub open spec fn message_in(doc: serde_json::Value) -> Option<IncomingMessageView> {
    message_from(
        text_in(doc, "/@type"@),
        integer_in(doc, "/message/chat_id"@),
        integer_in(doc, "/message/id"@),
        text_in(doc, "/message/content/text/text"@),
    )
}

/// A document of type `kind`, in which the chat `chat` and the message
/// `message` were found, confirms the reaction to a message: it is a plain
/// acknowledgement, or an update of the reactions of that very message.
pub open spec fn confirmation_from(
    kind: Option<Seq<char>>,
    chat: Option<i64>,
    message: Option<i64>,
    chat_id: i64,
    message_id: i64,
) -> bool {
    ||| kind == Some("ok"@)
    ||| (kind == Some("updateMessageReactions"@) && chat == Some(chat_id) && message == Some(
        message_id,
    ))
}

/// What to send for `message`, in which the amount `price` was found. An
/// administrative command is answered whatever the chat. Any other message
/// earns a reaction where the chat is allowed, the message has an
/// identifier and the filters accept it.
pub open spec fn message_dispatch(
    message: IncomingMessageView,
    price: Option<i32>,
    allowed: Set<i64>,
    filters: FilterView,
) -> DispatchView {
    if is_admin_command(message.text) {
        DispatchView::Reply(json_text(text_message_view(message.chat_id, STORAGE_NOTICE@)))
    } else if allowed.contains(message.chat_id) && message.message_id is Some && reacts(
        filters,
        message.text,
        price,
    ) {
        DispatchView::React(
            message.chat_id,
            message.message_id->0,
            json_text(typed_reaction_view(message.chat_id, message.message_id->0)),
            json_text(legacy_reaction_view(message.chat_id, message.message_id->0)),
        )
    } else {
        DispatchView::Ignore
    }
}

/// What to send for a received document: nothing unless it announces a new
/// message with a chat identifier and a text.
pub open spec fn document_dispatch(
    doc: Option<serde_json::Value>,
    pattern: Seq<char>,
    allowed: Set<i64>,
    filters: FilterView,
) -> DispatchView {
    match doc {
        Some(doc) => match message_in(doc) {
            Some(message) => message_dispatch(
                message,
                price_of(pattern, message.text),
                allowed,
                filters,
            ),
            None => DispatchView::Ignore,
        },
        None => DispatchView::Ignore,
    }
}

/// A received document confirms the reaction to a message.
pub open spec fn document_confirms(
    doc: Option<serde_json::Value>,
    chat_id: i64,
    message_id: i64,
) -> bool {
    match doc {
        Some(doc) => confirmation_from(
            text_in(doc, "/@type"@),
            integer_in(doc, "/chat_id"@),
            integer_in(doc, "/message_id"@),
            chat_id,
            message_id,
        ),
        None => false,
    }
}

/// A message in a chat that is not allowed earns no reaction: unless it is
/// an administrative command, nothing is sent for it.
pub proof fn lemma_unlisted_chat_earns_nothing(
    message: IncomingMessageView,
    price: Option<i32>,
    allowed: Set<i64>,
    filters: FilterView,
)
    requires
        !allowed.contains(message.chat_id),
    ensures
        !(message_dispatch(message, price, allowed, filters) is React),
        !is_admin_command(message.text) ==> message_dispatch(message, price, allowed, filters)
            is Ignore,
{
}

/// A reaction is sent only for a message that the filters accept, and then
/// it is the pair of payloads for that very chat and message.
pub proof fn lemma_reaction_only_when_filters_accept(
    message: IncomingMessageView,
    price: Option<i32>,
    allowed: Set<i64>,
    filters: FilterView,
)
    requires
        message_dispatch(message, price, allowed, filters) is React,
    ensures
        reacts(filters, message.text, price),
        allowed.contains(message.chat_id),
        message.message_id is Some,
        message_dispatch(message, price, allowed, filters) == DispatchView::React(
            message.chat_id,
            message.message_id->0,
            json_text(typed_reaction_view(message.chat_id, message.message_id->0)),
            json_text(legacy_reaction_view(message.chat_id, message.message_id->0)),
        ),
{
}

/// The identifiers in a comma-separated list, in order.
pub fn parse_id_list(config: &str) -> (r: Vec<i64>)
    ensures
        r@ == id_list(config@),
{
    let parts = split(&chars_of(config), ',');
    let mut out: Vec<i64> = Vec::new();
    let mut i: usize = 0;
    assert(views(parts@).take(0) =~= Seq::<Seq<char>>::empty());
    while i < parts.len()
        invariant
            i <= parts.len(),
            out@ == identifiers(views(parts@).take(i as int)),
        decreases parts.len() - i,
    {
        proof {
            let next = views(parts@).take(i + 1);
            assert(next.drop_last() =~= views(parts@).take(i as int));
            assert(next.last() == parts@[i as int]@);
        }
        match parse_i64(&trim(&parts[i])) {
            Some(id) => {
                out.push(id);
            },
            None => {},
        }
        i += 1;
    }
    assert(views(parts@).take(i as int) =~= views(parts@));
    out
}

/// Whether a message text is an administrative command.
pub fn admin_command(text: &str) -> (r: bool)
    ensures
        r == is_admin_command(text@),
{
    let command = trim(&chars_of(text));
    same_chars(&command, &chars_of("/list")) || same_chars(
        &command,
        &chars_of("/list@reaction_bot"),
    ) || same_chars(&command, &chars_of("/clear")) || same_chars(
        &command,
        &chars_of("/clear@reaction_bot"),
    )
}

/// The chats in which messages may earn a reaction.
pub struct ChatAllowList {
    ids: HashSet<i64>,
}

impl View for ChatAllowList {
    type V = Set<i64>;

    closed spec fn view(&self) -> Set<i64> {
        self.ids@
    }
}

impl ChatAllowList {
    /// The list that holds exactly the given chats.
    pub fn new(chats: &Vec<i64>) -> (r: Self)
        ensures
            r@ == chats@.to_set(),
    {
        let mut ids: HashSet<i64> = HashSet::new();
        let mut i: usize = 0;
        assert(chats@.take(0).to_set() =~= Set::<i64>::empty());
        while i < chats.len()
            invariant
                i <= chats.len(),
                ids@ == chats@.take(i as int).to_set(),
            decreases chats.len() - i,
        {
            ids.insert(chats[i]);
            proof {
                let next = chats@.take(i + 1);
                assert(next =~= chats@.take(i as int).push(chats@[i as int]));
                assert forall|id: i64| next.to_set().contains(id) <==> chats@.take(
                    i as int,
                ).to_set().insert(chats@[i as int]).contains(id) by {
                    if next.contains(id) {
                        let k = choose|k: int| 0 <= k < next.len() && next[k] == id;
                        if k < i {
                            assert(chats@.take(i as int)[k] == id);
                        }
                    }
                    if chats@.take(i as int).contains(id) {
                        let k = choose|k: int|
                            0 <= k < chats@.take(i as int).len() && chats@.take(i as int)[k] == id;
                        assert(next[k] == id);
                    }
                    if id == chats@[i as int] {
                        assert(next[i as int] == id);
                    }
                }
                assert(next.to_set() =~= chats@.take(i as int).to_set().insert(chats@[i as int]));
            }
            i += 1;
        }
        assert(chats@.take(i as int) =~= chats@);
        ChatAllowList { ids }
    }

    /// The list written as comma-separated identifiers.
    pub fn from_config(config: &str) -> (r: Self)
        ensures
            r@ == id_list(config@).to_set(),
    {
        ChatAllowList::new(&parse_id_list(config))
    }

    /// Whether messages in `chat_id` may earn a reaction.
    pub fn contains(&self, chat_id: i64) -> (r: bool)
        ensures
            r == self@.contains(chat_id),
    {
        self.ids.contains(&chat_id)
    }
}

/// The message made of what was found in a document of type `kind`.
pub fn assemble_message(
    kind: Option<&str>,
    chat_id: Option<i64>,
    message_id: Option<i64>,
    text: Option<String>,
) -> (r: Option<IncomingMessage>)
    ensures
        match r {
            Some(message) => message_from(
                optional_str(kind),
                chat_id,
                message_id,
                optional_text(text),
            ) == Some(message@),
            None => message_from(optional_str(kind), chat_id, message_id, optional_text(text))
                is None,
        },
{
    match kind {
        Some(kind) => if !same_text(kind, "updateNewMessage") {
            return None;
        },
        None => {
            return None;
        },
    }
    match (chat_id, text) {
        (Some(chat_id), Some(text)) => Some(IncomingMessage { chat_id, message_id, text }),
        _ => None,
    }
}

/// The message that a received document announces.
pub fn read_message(doc: &serde_json::Value) -> (r: Option<IncomingMessage>)
    ensures
        match r {
            Some(message) => message_in(*doc) == Some(message@),
            None => message_in(*doc) is None,
        },
{
    let kind = text_at(doc, "/@type");
    let is_message = match &kind {
        Some(kind) => same_text(kind.as_str(), "updateNewMessage"),
        None => false,
    };
    if !is_message {
        return None;
    }
    assemble_message(
        Some("updateNewMessage"),
        integer_at(doc, "/message/chat_id"),
        integer_at(doc, "/message/id"),
        text_at(doc, "/message/content/text/text"),
    )
}

/// Whether a document of type `kind`, in which the chat `chat` and the
/// message `message` were found, confirms the reaction to a message.
pub fn is_confirmation(
    kind: Option<&str>,
    chat: Option<i64>,
    message: Option<i64>,
    chat_id: i64,
    message_id: i64,
) -> (r: bool)
    ensures
        r == confirmation_from(optional_str(kind), chat, message, chat_id, message_id),
{
    match kind {
        Some(kind) => {
            if same_text(kind, "ok") {
                true
            } else if same_text(kind, "updateMessageReactions") {
                match (chat, message) {
                    (Some(c), Some(m)) => c == chat_id && m == message_id,
                    _ => false,
                }
            } else {
                false
            }
        },
        None => false,
    }
}

/// What to send for `message`, in which the amount `price` was found.
pub fn dispatch_message(
    message: &IncomingMessage,
    price: Option<i32>,
    allowed: &ChatAllowList,
    filters: &FilterSettings,
) -> (r: Dispatch)
    ensures
        r@ == message_dispatch(message@, price, allowed@, filters@),
{
    if admin_command(message.text.as_str()) {
        return Dispatch::Reply(send_message(message.chat_id, STORAGE_NOTICE));
    }
    if !allowed.contains(message.chat_id) {
        return Dispatch::Ignore;
    }
    match message.message_id {
        Some(message_id) => if filters.decide(message.text.as_str(), price) {
            let (typed, legacy) = reaction_requests(message.chat_id, message_id);
            Dispatch::React(message.chat_id, message_id, typed, legacy)
        } else {
            Dispatch::Ignore
        },
        None => Dispatch::Ignore,
    }
}

/// What to send for the received payload `raw`, amounts being read with
/// `regex`.
pub fn dispatch(
    raw: &str,
    allowed: &ChatAllowList,
    filters: &FilterSettings,
    regex: &regex::Regex,
) -> (r: Dispatch)
    ensures
        r@ == document_dispatch(document_of(raw@), pattern_of(*regex), allowed@, filters@),
{
    let doc = match parse(raw) {
        Some(doc) => doc,
        None => {
            return Dispatch::Ignore;
        },
    };
    match read_message(&doc) {
        Some(message) => {
            let price = extract_price(message.text.as_str(), regex);
            dispatch_message(&message, price, allowed, filters)
        },
        None => Dispatch::Ignore,
    }
}

/// Whether the received payload `raw` confirms the reaction to a message.
pub fn confirms_reaction(raw: &str, chat_id: i64, message_id: i64) -> (r: bool)
    ensures
        r == document_confirms(document_of(raw@), chat_id, message_id),
{
    let doc = match parse(raw) {
        Some(doc) => doc,
        None => {
            return false;
        },
    };
    let kind = text_at(&doc, "/@type");
    is_confirmation(
        match &kind {
            Some(kind) => Some(kind.as_str()),
            None => None,
        },
        integer_at(&doc, "/chat_id"),
        integer_at(&doc, "/message_id"),
        chat_id,
        message_id,
    )
}

/// What the caller of the event loop does next.
pub enum LoopAction {
    /// Poll for the next event.
    Poll,
    /// Ask the operator, send the answer, then poll.
    Ask(Challenge),
    /// Send these payloads in order, then poll.
    Send(Vec<String>),
    /// React to the message with this chat and this identifier: send the
    /// two payloads in this order, then poll.
    React(i64, i64, String, String),
    /// Give up: the login has failed.
    Fail(AuthError),
}

/// What the caller of the event loop does next, as plain values.
pub enum LoopActionView {
    Poll,
    Ask(Challenge),
    Send(Seq<Seq<char>>),
    React(i64, i64, Seq<char>, Seq<char>),
    Fail(AuthError),
}

impl View for LoopAction {
    type V = LoopActionView;

    open spec fn view(&self) -> LoopActionView {
        match self {
            LoopAction::Poll => LoopActionView::Poll,
            LoopAction::Ask(challenge) => LoopActionView::Ask(*challenge),
            LoopAction::Send(payloads) => LoopActionView::Send(texts(payloads@)),
            LoopAction::React(chat_id, message_id, typed, legacy) => LoopActionView::React(
                *chat_id,
                *message_id,
                typed@,
                legacy@,
            ),
            LoopAction::Fail(error) => LoopActionView::Fail(*error),
        }
    }
}

/// The event loop: the login, and what steady operation needs.
pub struct EventLoop {
    login: Authorization,
    allowed: ChatAllowList,
    chats: Vec<i64>,
    filters: FilterSettings,
}

/// The event loop as plain values.
pub struct EventLoopView {
    pub login: AuthorizationView,
    pub chats: Seq<i64>,
    pub filters: FilterView,
}

/// What the payloads of a dispatch are.
pub open spec fn dispatch_action(dispatch: DispatchView) -> LoopActionView {
    match dispatch {
        DispatchView::Ignore => LoopActionView::Poll,
        DispatchView::Reply(payload) => LoopActionView::Send(seq![payload]),
        DispatchView::React(chat_id, message_id, typed, legacy) => LoopActionView::React(
            chat_id,
            message_id,
            typed,
            legacy,
        ),
    }
}

/// The loop after one poll gave `raw` (`None` where nothing arrived in
/// time), and what the caller does next. While the login lasts, events go
/// to it, and the moment it is ready the requests for chats and reactions go
/// out. From then on the login stays as it is and events are dispatched.
pub open spec fn loop_next(before: EventLoopView, raw: Option<Seq<char>>, pattern: Seq<char>) -> (
    EventLoopView,
    LoopActionView,
) {
    if before.login.state is Ready {
        (
            before,
            match raw {
                Some(raw) => dispatch_action(
                    document_dispatch(
                        document_of(raw),
                        pattern,
                        before.chats.to_set(),
                        before.filters,
                    ),
                ),
                None => LoopActionView::Poll,
            },
        )
    } else {
        let (login, step) = auth_next(
            before.login,
            match raw {
                Some(raw) => auth_event_in(document_of(raw)),
                None => AuthEvent::Other,
            },
        );
        (
            EventLoopView { login, chats: before.chats, filters: before.filters },
            match step {
                AuthStep::Continue => LoopActionView::Poll,
                AuthStep::Ask(challenge) => LoopActionView::Ask(challenge),
                AuthStep::Ready => LoopActionView::Send(ready_requests_view(before.chats)),
                AuthStep::Failed(error) => LoopActionView::Fail(error),
            },
        )
    }
}

impl View for EventLoop {
    type V = EventLoopView;

    closed spec fn view(&self) -> EventLoopView {
        EventLoopView { login: self.login@, chats: self.chats@, filters: self.filters@ }
    }
}

impl EventLoop {
    /// The login is well formed, and the allowed chats are the listed ones.
    pub closed spec fn wf(&self) -> bool {
        &&& self.login.wf()
        &&& self.allowed@ == self.chats@.to_set()
    }

    /// A loop at the start of the login.
    pub fn new(chats: Vec<i64>, filters: FilterSettings) -> (r: Self)
        ensures
            r.wf(),
            r@.login == (AuthorizationView {
                state: AuthorizationState::WaitParameters,
                attempts: 0,
            }),
            r@.chats == chats@,
            r@.filters == filters@,
    {
        let allowed = ChatAllowList::new(&chats);
        EventLoop { login: Authorization::new(), allowed, chats, filters }
    }

    /// Whether the login is over and events are dispatched.
    pub fn is_steady(&self) -> (r: bool)
        ensures
            r == (self@.login.state is Ready),
    {
        match self.login.state() {
            AuthorizationState::Ready => true,
            _ => false,
        }
    }

    /// How long the next poll waits, in milliseconds.
    pub fn poll_millis(&self) -> (r: u64)
        ensures
            r == if self@.login.state is Ready {
                STEADY_POLL_MILLIS
            } else {
                AUTH_POLL_MILLIS
            },
    {
        if self.is_steady() {
            STEADY_POLL_MILLIS
        } else {
            AUTH_POLL_MILLIS
        }
    }

    /// Takes what one poll gave into the loop and says what to do next.
    pub fn on_payload(&mut self, raw: Option<&str>, regex: &regex::Regex) -> (r: LoopAction)
        requires
            old(self).wf(),
        ensures
            final(self).wf(),
            (final(self)@, r@) == loop_next(old(self)@, optional_str(raw), pattern_of(*regex)),
    {
        if self.is_steady() {
            match raw {
                Some(raw) => match dispatch(raw, &self.allowed, &self.filters, regex) {
                    Dispatch::Ignore => LoopAction::Poll,
                    Dispatch::Reply(payload) => {
                        let payloads: Vec<String> = vec![payload];
                        assert(texts(payloads@) =~= seq![payload@]);
                        LoopAction::Send(payloads)
                    },
                    Dispatch::React(chat_id, message_id, typed, legacy) => LoopAction::React(
                        chat_id,
                        message_id,
                        typed,
                        legacy,
                    ),
                },
                None => LoopAction::Poll,
            }
        } else {
            match self.login.on_payload(raw) {
                AuthStep::Continue => LoopAction::Poll,
                AuthStep::Ask(challenge) => LoopAction::Ask(challenge),
                AuthStep::Ready => LoopAction::Send(ready_requests(&self.chats)),
                AuthStep::Failed(error) => LoopAction::Fail(error),
            }
        }
    }
}

} // verus!
