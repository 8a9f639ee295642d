use vstd::prelude::*;

use crate::error::Error;

verus! {

/// The record that the backend keeps for the identity an authentication
/// context refers to. It never holds the token.
#[derive(Debug, Clone, PartialEq, Eq)]
pub struct IdentityRecord {
    pub id: String,
    pub is_admin: bool,
    pub first_name: String,
    pub last_name: String,
    pub email: String,
}

pub struct RecordView {
    pub id: Seq<char>,
    pub is_admin: bool,
    pub first_name: Seq<char>,
    pub last_name: Seq<char>,
    pub email: Seq<char>,
}

impl View for IdentityRecord {
    type V = RecordView;

    open spec fn view(&self) -> RecordView {
        RecordView {
            id: self.id@,
            is_admin: self.is_admin,
            first_name: self.first_name@,
            last_name: self.last_name@,
            email: self.email@,
        }
    }
}

/// The identity resolved for one request, with the token that proved it.
#[derive(Debug, Clone, PartialEq, Eq, PartialOrd, Ord)]
pub struct Session {
    token: String,
    id: String,
    is_admin: bool,
    first_name: String,
    last_name: String,
    email: String,
}

pub struct SessionView {
    pub token: Seq<char>,
    pub id: Seq<char>,
    pub is_admin: bool,
    pub first_name: Seq<char>,
    pub last_name: Seq<char>,
    pub email: Seq<char>,
}

impl View for Session {
    type V = SessionView;

    closed spec fn view(&self) -> SessionView {
        SessionView {
            token: self.token@,
            id: self.id@,
            is_admin: self.is_admin,
            first_name: self.first_name@,
            last_name: self.last_name@,
            email: self.email@,
        }
    }
}

/// The session made of a backend record and the token that led to it.
pub open spec fn session_of(token: Seq<char>, record: RecordView) -> SessionView {
    SessionView {
        token,
        id: record.id,
        is_admin: record.is_admin,
        first_name: record.first_name,
        last_name: record.last_name,
        email: record.email,
    }
}

impl Session {
    /// Attaches the token to the record that the backend reported for it.
    pub fn new(token: String, record: IdentityRecord) -> (s: Session)
        ensures
            s@ == session_of(token@, record@),
    {
        Session {
            token,
            id: record.id,
            is_admin: record.is_admin,
            first_name: record.first_name,
            last_name: record.last_name,
            email: record.email,
        }
    }

    pub fn token(&self) -> (r: &str)
        ensures
            r@ == self@.token,
    {
        self.token.as_str()
    }

    pub fn is_admin(&self) -> (r: bool)
        ensures
            r == self@.is_admin,
    {
        self.is_admin
    }

    pub fn id(&self) -> (r: &str)
        ensures
            r@ == self@.id,
    {
        self.id.as_str()
    }

    pub fn first_name(&self) -> (r: &str)
        ensures
            r@ == self@.first_name,
    {
        self.first_name.as_str()
    }

    pub fn last_name(&self) -> (r: &str)
        ensures
            r@ == self@.last_name,
    {
        self.last_name.as_str()
    }

    pub fn email(&self) -> (r: &str)
        ensures
            r@ == self@.email,
    {
        self.email.as_str()
    }
}

/// The name of the cookie that carries the bearer token.
pub const TOKEN_COOKIE: &'static str = "token";

/// The cookie that hands a token to the client: host-wide, sent over TLS
/// only, hidden from scripts and never sent cross-site.
#[derive(Debug, Clone, PartialEq, Eq)]
pub struct TokenCookie {
    pub name: String,
    pub value: String,
    pub path: String,
    pub secure: bool,
    pub http_only: bool,
    pub same_site_strict: bool,
}

impl TokenCookie {
    pub fn for_token(token: String) -> (c: TokenCookie)
        ensures
            c.name@ == TOKEN_COOKIE@,
            c.value@ == token@,
            c.path@ == "/"@,
            c.secure,
            c.http_only,
            c.same_site_strict,
    {
        TokenCookie {
            name: String::from_str(TOKEN_COOKIE),
            value: token,
            path: String::from_str("/"),
            secure: true,
            http_only: true,
            same_site_strict: true,
        }
    }
}

/// The outside work that a resolution waits on.
#[derive(Debug, Clone, Copy, PartialEq, Eq, Structural)]
pub enum ResolveStep {
    /// Borrow a connection from the pool.
    Connection,
    /// Authenticate the token on the borrowed connection.
    Authenticate,
    /// Ask the backend for the record the authentication context refers to.
    CurrentRecord,
}

/// What came of the step a resolution asked for.
#[derive(Debug, Clone, PartialEq, Eq)]
pub enum ResolveEvent {
    ConnectionReady,
    ConnectionUnavailable,
    Authenticated,
    Rejected,
    /// The backend answered the lookup; `None` when it found no record.
    Record(Option<IdentityRecord>),
    LookupFailed,
}

/// Where a resolution stands: waiting on a step, or finished.
pub enum ResolveOutcome {
    Waiting(ResolveStep),
    Finished(Result<SessionView, Error>),
}

/// Where a resolution starts, from the token the request carried.
pub open spec fn resolve_start(token: Option<Seq<char>>) -> ResolveOutcome {
    match token {
        None => ResolveOutcome::Finished(Err(Error::NoToken)),
        Some(_) => ResolveOutcome::Waiting(ResolveStep::Connection),
    }
}

/// One move of a resolution that waits on `awaiting` and learns `event`.
/// Anything but the expected success ends it; every failure after the pool
/// has handed out a connection is reported as `AuthFailed`.
pub open spec fn resolve_next(
    token: Seq<char>,
    awaiting: ResolveStep,
    event: ResolveEvent,
) -> ResolveOutcome {
    match awaiting {
        ResolveStep::Connection => match event {
            ResolveEvent::ConnectionReady => ResolveOutcome::Waiting(ResolveStep::Authenticate),
            ResolveEvent::ConnectionUnavailable => ResolveOutcome::Finished(
                Err(Error::BackendUnavailable),
            ),
            _ => ResolveOutcome::Finished(Err(Error::AuthFailed)),
        },
        ResolveStep::Authenticate => match event {
            ResolveEvent::Authenticated => ResolveOutcome::Waiting(ResolveStep::CurrentRecord),
            _ => ResolveOutcome::Finished(Err(Error::AuthFailed)),
        },
        ResolveStep::CurrentRecord => match event {
            ResolveEvent::Record(Some(r)) => ResolveOutcome::Finished(Ok(session_of(token, r@))),
            _ => ResolveOutcome::Finished(Err(Error::AuthFailed)),
        },
    }
}

/// A resolution waiting on `awaiting`, fed the events in order.
pub open spec fn continue_run(
    token: Seq<char>,
    awaiting: ResolveStep,
    events: Seq<ResolveEvent>,
) -> ResolveOutcome
    decreases events.len(),
{
    if events.len() == 0 {
        ResolveOutcome::Waiting(awaiting)
    } else {
        match resolve_next(token, awaiting, events[0]) {
            ResolveOutcome::Waiting(next) => continue_run(token, next, events.drop_first()),
            finished => finished,
        }
    }
}

/// A whole resolution: the token the request carried, then the events.
pub open spec fn resolve_run(token: Option<Seq<char>>, events: Seq<ResolveEvent>) -> ResolveOutcome {
    match token {
        None => ResolveOutcome::Finished(Err(Error::NoToken)),
        Some(t) => continue_run(t, ResolveStep::Connection, events),
    }
}

/// A resolution in progress.
pub struct Resolver {
    token: String,
    awaiting: ResolveStep,
}

pub struct ResolverView {
    pub token: Seq<char>,
    pub awaiting: ResolveStep,
}

impl View for Resolver {
    type V = ResolverView;

    closed spec fn view(&self) -> ResolverView {
        ResolverView { token: self.token@, awaiting: self.awaiting }
    }
}

/// A resolution either goes on or has its answer.
pub enum Resolution {
    Pending(Resolver),
    Resolved(Result<Session, Error>),
}

impl Resolution {
    pub open spec fn outcome(&self) -> ResolveOutcome {
        match self {
            Resolution::Pending(r) => ResolveOutcome::Waiting(r@.awaiting),
            Resolution::Resolved(Ok(s)) => ResolveOutcome::Finished(Ok(s@)),
            Resolution::Resolved(Err(e)) => ResolveOutcome::Finished(Err(*e)),
        }
    }
}

impl Resolver {
    /// Begins resolving the token a request carried, if any.
    pub fn start(token: Option<String>) -> (r: Resolution)
        ensures
            r.outcome() == resolve_start(
                match token {
                    Some(t) => Some(t@),
                    None => None,
                },
            ),
            r matches Resolution::Pending(p) ==> token matches Some(t) && p@.token == t@,
    {
        match token {
            None => Resolution::Resolved(Err(Error::NoToken)),
            Some(t) => Resolution::Pending(Resolver { token: t, awaiting: ResolveStep::Connection }),
        }
    }

    /// The step to perform next.
    pub fn awaiting(&self) -> (r: ResolveStep)
        ensures
            r == self@.awaiting,
    {
        self.awaiting
    }

    /// The token being resolved, to hand to the backend.
    pub fn token(&self) -> (r: &str)
        ensures
            r@ == self@.token,
    {
        self.token.as_str()
    }

    /// Moves on with what came of the awaited step.
    pub fn advance(self, event: ResolveEvent) -> (r: Resolution)
        ensures
            r.outcome() == resolve_next(self@.token, self@.awaiting, event),
            r matches Resolution::Pending(p) ==> p@.token == self@.token,
    {
        match self.awaiting {
            ResolveStep::Connection => match event {
                ResolveEvent::ConnectionReady => Resolution::Pending(
                    Resolver { token: self.token, awaiting: ResolveStep::Authenticate },
                ),
                ResolveEvent::ConnectionUnavailable => Resolution::Resolved(
                    Err(Error::BackendUnavailable),
                ),
                _ => Resolution::Resolved(Err(Error::AuthFailed)),
            },
            ResolveStep::Authenticate => match event {
                ResolveEvent::Authenticated => Resolution::Pending(
                    Resolver { token: self.token, awaiting: ResolveStep::CurrentRecord },
                ),
                _ => Resolution::Resolved(Err(Error::AuthFailed)),
            },
            ResolveStep::CurrentRecord => match event {
                ResolveEvent::Record(Some(record)) => Resolution::Resolved(
                    Ok(Session::new(self.token, record)),
                ),
                _ => Resolution::Resolved(Err(Error::AuthFailed)),
            },
        }
    }
}

/// A resolution that ends in a session went through the pool, had the token
/// accepted, and then read the record of the authentication context: the
/// session is that record with the token attached, never another identity.
pub proof fn lemma_session_is_authenticated_identity(
    token: Seq<char>,
    events: Seq<ResolveEvent>,
    s: SessionView,
)
    requires
        resolve_run(Some(token), events) == ResolveOutcome::Finished(Ok(s)),
    ensures
        events.len() >= 3,
        events[0] == ResolveEvent::ConnectionReady,
        events[1] == ResolveEvent::Authenticated,
        events[2] matches ResolveEvent::Record(Some(r)) && s == session_of(token, r@),
{
    let e1 = events.drop_first();
    let e2 = e1.drop_first();
    assert(events.len() > 0);
    assert(events[0] == ResolveEvent::ConnectionReady);
    assert(continue_run(token, ResolveStep::Authenticate, e1) == ResolveOutcome::Finished(
        Ok(s),
    ));
    assert(e1.len() > 0);
    assert(e1[0] == ResolveEvent::Authenticated);
    assert(continue_run(token, ResolveStep::CurrentRecord, e2) == ResolveOutcome::Finished(
        Ok(s),
    ));
    assert(e2.len() > 0);
}

/// A request without a token is answered `NoToken`, whatever would follow.
pub proof fn lemma_missing_token(events: Seq<ResolveEvent>)
    ensures
        resolve_run(None, events) == ResolveOutcome::Finished(Err(Error::NoToken)),
{
}

} // verus!
