//! Bringing the messaging client from its first state to a ready one.

use crate::json::{document_of, json_text, parse, render, text_at, text_in, JsonView};
use crate::requests::{answer, answer_view};
use crate::text::{chars_of, optional_str, same_text, string_of, trim, trimmed};
use vstd::prelude::*;

verus! {

/// How many error events end the login.
pub const MAX_AUTH_ATTEMPTS: u8 = 3;

/// Where the login stands.
#[derive(Clone, Copy, Debug, PartialEq, Eq, Structural)]
pub enum AuthorizationState {
    WaitParameters,
    WaitPhoneNumber,
    WaitCode,
    WaitPassword,
    Ready,
    Error,
}

/// What the operator is asked for.
#[derive(Clone, Copy, Debug, PartialEq, Eq, Structural)]
pub enum Challenge {
    PhoneNumber,
    Code,
    Password,
}

/// Why the login failed.
#[derive(Clone, Copy, Debug, PartialEq, Eq, Structural)]
pub enum AuthError {
    /// The client reported as many errors as the login allows.
    AuthExhausted,
}

/// What an event of the client means to the login.
#[derive(Clone, Copy, Debug, PartialEq, Eq, Structural)]
pub enum AuthEvent {
    /// The client announced a state; `None` where the login does not act on
    /// the announced state.
    StateUpdate(Option<AuthorizationState>),
    /// The client reported an error.
    Error,
    /// Anything else, a payload that is no JSON document included.
    Other,
}

/// What the caller does after an event.
#[derive(Clone, Copy, Debug, PartialEq, Eq, Structural)]
pub enum AuthStep {
    /// Poll for the next event.
    Continue,
    /// Ask the operator, then send the answer built by [`challenge_answer`].
    Ask(Challenge),
    /// The client is ready.
    Ready,
    /// The login is over.
    Failed(AuthError),
}

/// The login: its state and the number of error events seen.
pub struct Authorization {
    state: AuthorizationState,
    attempts: u8,
}

/// The login as plain values.
pub struct AuthorizationView {
    pub state: AuthorizationState,
    pub attempts: int,
}

/// The state that the client announces under `name`, where the login acts
/// on it.
pub open spec fn announced_state(name: Seq<char>) -> Option<AuthorizationState> {
    if name == "authorizationStateWaitTdlibParameters"@ {
        Some(AuthorizationState::WaitParameters)
    } else if name == "authorizationStateWaitPhoneNumber"@ {
        Some(AuthorizationState::WaitPhoneNumber)
    } else if name == "authorizationStateWaitCode"@ {
        Some(AuthorizationState::WaitCode)
    } else if name == "authorizationStateWaitPassword"@ {
        Some(AuthorizationState::WaitPassword)
    } else if name == "authorizationStateReady"@ {
        Some(AuthorizationState::Ready)
    } else {
        None
    }
}

/// The event that a document of type `kind` is, `state` being the type of
/// its announced authorization state.
pub open spec fn auth_event_from(kind: Option<Seq<char>>, state: Option<Seq<char>>) -> AuthEvent {
    match kind {
        Some(kind) => if kind == "updateAuthorizationState"@ {
            AuthEvent::StateUpdate(
                match state {
                    Some(name) => announced_state(name),
                    None => None,
                },
            )
        } else if kind == "error"@ {
            AuthEvent::Error
        } else {
            AuthEvent::Other
        },
        None => AuthEvent::Other,
    }
}

/// The event that a received document is.
pub open spec fn auth_event_in(doc: Option<serde_json::Value>) -> AuthEvent {
    match doc {
        Some(doc) => auth_event_from(
            text_in(doc, "/@type"@),
            text_in(doc, "/authorization_state/@type"@),
        ),
        None => AuthEvent::Other,
    }
}

/// What the caller does once `state` is announced.
pub open spec fn step_on(state: AuthorizationState) -> AuthStep {
    match state {
        AuthorizationState::WaitPhoneNumber => AuthStep::Ask(Challenge::PhoneNumber),
        AuthorizationState::WaitCode => AuthStep::Ask(Challenge::Code),
        AuthorizationState::WaitPassword => AuthStep::Ask(Challenge::Password),
        AuthorizationState::Ready => AuthStep::Ready,
        AuthorizationState::Error => AuthStep::Failed(AuthError::AuthExhausted),
        AuthorizationState::WaitParameters => AuthStep::Continue,
    }
}

/// The login after `event`, and what the caller does next. A login that is
/// ready or failed stays so. An announced state is taken over. An error is
/// counted, and the login fails when the count reaches the limit. Nothing
/// else changes anything.
pub open spec fn auth_next(login: AuthorizationView, event: AuthEvent) -> (
    AuthorizationView,
    AuthStep,
) {
    if login.state is Ready || login.state is Error {
        (login, step_on(login.state))
    } else {
        match event {
            AuthEvent::StateUpdate(Some(state)) => (
                AuthorizationView { state, attempts: login.attempts },
                step_on(state),
            ),
            AuthEvent::Error => if login.attempts + 1 >= MAX_AUTH_ATTEMPTS {
                (
                    AuthorizationView {
                        state: AuthorizationState::Error,
                        attempts: login.attempts + 1,
                    },
                    AuthStep::Failed(AuthError::AuthExhausted),
                )
            } else {
                (
                    AuthorizationView { state: login.state, attempts: login.attempts + 1 },
                    AuthStep::Continue,
                )
            },
            _ => (login, AuthStep::Continue),
        }
    }
}

/// The request that answers `challenge` with what the operator typed, the
/// white space around it removed.
pub open spec fn challenge_answer_view(challenge: Challenge, input: Seq<char>) -> JsonView {
    match challenge {
        Challenge::PhoneNumber => answer_view(
            "setAuthenticationPhoneNumber"@,
            "phone_number"@,
            trimmed(input),
        ),
        Challenge::Code => answer_view("checkAuthenticationCode"@, "code"@, trimmed(input)),
        Challenge::Password => answer_view(
            "checkAuthenticationPassword"@,
            "password"@,
            trimmed(input),
        ),
    }
}

/// An event that is neither an announced state nor an error leaves the
/// login as it was, its error count included.
pub proof fn lemma_other_events_change_nothing(login: AuthorizationView, event: AuthEvent)
    requires
        event is Other || event == AuthEvent::StateUpdate(None),
    ensures
        auth_next(login, event).0 == login,
        !(login.state is Ready || login.state is Error) ==> auth_next(login, event).1
            == AuthStep::Continue,
{
}

/// A login that is under way fails on an error exactly when that error is
/// the last one allowed, and until then an error only adds to the count.
pub proof fn lemma_error_budget(login: AuthorizationView)
    requires
        !(login.state is Ready || login.state is Error),
        0 <= login.attempts < MAX_AUTH_ATTEMPTS,
    ensures
        auth_next(login, AuthEvent::Error).0.attempts == login.attempts + 1,
        auth_next(login, AuthEvent::Error).1 is Failed <==> login.attempts + 1
            == MAX_AUTH_ATTEMPTS,
        !(auth_next(login, AuthEvent::Error).1 is Failed) ==> auth_next(
            login,
            AuthEvent::Error,
        ).0.state == login.state,
{
}

/// The state that the client announces under `name`.
pub fn announced(name: &str) -> (r: Option<AuthorizationState>)
    ensures
        r == announced_state(name@),
{
    if same_text(name, "authorizationStateWaitTdlibParameters") {
        Some(AuthorizationState::WaitParameters)
    } else if same_text(name, "authorizationStateWaitPhoneNumber") {
        Some(AuthorizationState::WaitPhoneNumber)
    } else if same_text(name, "authorizationStateWaitCode") {
        Some(AuthorizationState::WaitCode)
    } else if same_text(name, "authorizationStateWaitPassword") {
        Some(AuthorizationState::WaitPassword)
    } else if same_text(name, "authorizationStateReady") {
        Some(AuthorizationState::Ready)
    } else {
        None
    }
}

/// The event that a document of type `kind` is, `state` being the type of
/// its announced authorization state.
pub fn classify_auth_event(kind: Option<&str>, state: Option<&str>) -> (r: AuthEvent)
    ensures
        r == auth_event_from(optional_str(kind), optional_str(state)),
{
    match kind {
        Some(kind) => if same_text(kind, "updateAuthorizationState") {
            AuthEvent::StateUpdate(
                match state {
                    Some(name) => announced(name),
                    None => None,
                },
            )
        } else if same_text(kind, "error") {
            AuthEvent::Error
        } else {
            AuthEvent::Other
        },
        None => AuthEvent::Other,
    }
}

/// The event that the payload `raw` is.
pub fn read_auth_event(raw: &str) -> (r: AuthEvent)
    ensures
        r == auth_event_in(document_of(raw@)),
{
    match parse(raw) {
        Some(doc) => {
            let kind = text_at(&doc, "/@type");
            let state = text_at(&doc, "/authorization_state/@type");
            classify_auth_event(
                match &kind {
                    Some(s) => Some(s.as_str()),
                    None => None,
                },
                match &state {
                    Some(s) => Some(s.as_str()),
                    None => None,
                },
            )
        },
        None => AuthEvent::Other,
    }
}

/// The payload that answers `challenge` with what the operator typed.
pub fn challenge_answer(challenge: Challenge, input: &str) -> (r: String)
    ensures
        r@ == json_text(challenge_answer_view(challenge, input@)),
{
    let value = string_of(&trim(&chars_of(input)));
    let request = match challenge {
        Challenge::PhoneNumber => answer(
            "setAuthenticationPhoneNumber",
            "phone_number",
            value.as_str(),
        ),
        Challenge::Code => answer("checkAuthenticationCode", "code", value.as_str()),
        Challenge::Password => answer("checkAuthenticationPassword", "password", value.as_str()),
    };
    render(&request)
}

impl View for Authorization {
    type V = AuthorizationView;

    closed spec fn view(&self) -> AuthorizationView {
        AuthorizationView { state: self.state, attempts: self.attempts as int }
    }
}

impl Authorization {
    /// A login never counts more errors than the limit, and one that has
    /// counted as many has failed.
    pub open spec fn wf(&self) -> bool {
        &&& 0 <= self@.attempts <= MAX_AUTH_ATTEMPTS
        &&& self@.attempts == MAX_AUTH_ATTEMPTS ==> self@.state is Error
    }

    /// A login that waits for the client's first state.
    pub fn new() -> (r: Self)
        ensures
            r.wf(),
            r@ == (AuthorizationView { state: AuthorizationState::WaitParameters, attempts: 0 }),
    {
        Authorization { state: AuthorizationState::WaitParameters, attempts: 0 }
    }

    /// Where the login stands.
    pub fn state(&self) -> (r: AuthorizationState)
        ensures
            r == self@.state,
    {
        self.state
    }

    /// How many error events the login has counted.
    pub fn attempts(&self) -> (r: u8)
        ensures
            r == self@.attempts,
    {
        self.attempts
    }

    /// Takes one event into the login and says what the caller does next.
    pub fn step(&mut self, event: AuthEvent) -> (r: AuthStep)
        requires
            old(self).wf(),
        ensures
            final(self).wf(),
            (final(self)@, r) == auth_next(old(self)@, event),
    {
        match self.state {
            AuthorizationState::Ready => AuthStep::Ready,
            AuthorizationState::Error => AuthStep::Failed(AuthError::AuthExhausted),
            _ => match event {
                AuthEvent::StateUpdate(Some(state)) => {
                    self.state = state;
                    match state {
                        AuthorizationState::WaitPhoneNumber => AuthStep::Ask(
                            Challenge::PhoneNumber,
                        ),
                        AuthorizationState::WaitCode => AuthStep::Ask(Challenge::Code),
                        AuthorizationState::WaitPassword => AuthStep::Ask(Challenge::Password),
                        AuthorizationState::Ready => AuthStep::Ready,
                        AuthorizationState::Error => AuthStep::Failed(AuthError::AuthExhausted),
                        AuthorizationState::WaitParameters => AuthStep::Continue,
                    }
                },
                AuthEvent::Error => {
                    self.attempts = self.attempts + 1;
                    if self.attempts >= MAX_AUTH_ATTEMPTS {
                        self.state = AuthorizationState::Error;
                        AuthStep::Failed(AuthError::AuthExhausted)
                    } else {
                        AuthStep::Continue
                    }
                },
                _ => AuthStep::Continue,
            },
        }
    }

    /// Takes what one poll of the client gave (`None` where nothing arrived
    /// in time) into the login.
    pub fn on_payload(&mut self, raw: Option<&str>) -> (r: AuthStep)
        requires
            old(self).wf(),
        ensures
            final(self).wf(),
            (final(self)@, r) == auth_next(
                old(self)@,
                match raw {
                    Some(raw) => auth_event_in(document_of(raw@)),
                    None => AuthEvent::Other,
                },
            ),
    {
        let event = match raw {
            Some(raw) => read_auth_event(raw),
            None => AuthEvent::Other,
        };
        self.step(event)
    }
}

} // verus!
