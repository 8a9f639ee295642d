use vstd::prelude::*;

use crate::auth::Session;
use crate::error::Error;
use crate::response::{has_header, Header, ResponseHead, ResponseView};

verus! {

/// Where a denied request is sent.
pub const HOME: &'static str = "/";

/// The request header by which an in-page fragment loader announces itself.
pub const FRAGMENT_REQUEST_HEADER: &'static str = "HX-Request";

/// The response header that tells a fragment loader where to navigate.
pub const FRAGMENT_REDIRECT_HEADER: &'static str = "HX-Redirect";

pub const LOCATION_HEADER: &'static str = "Location";

pub const STATUS_OK: u16 = 200;

pub const STATUS_SEE_OTHER: u16 = 303;

/// What a gate makes of a request.
#[derive(Debug, Clone, PartialEq, Eq)]
pub enum GateDecision {
    Allow,
    Deny { redirect_target: String },
}

impl View for GateDecision {
    /// `None` lets the request through; `Some(t)` sends it to `t`.
    type V = Option<Seq<char>>;

    open spec fn view(&self) -> Option<Seq<char>> {
        match self {
            GateDecision::Allow => None,
            GateDecision::Deny { redirect_target } => Some(redirect_target@),
        }
    }
}

/// The anonymous-only gate: a request with a session goes home.
pub open spec fn anonymous_gate(session: Result<Session, Error>) -> Option<Seq<char>> {
    match session {
        Ok(_) => Some(HOME@),
        Err(_) => None,
    }
}

/// The admin-only gate: only a session of an administrator passes.
pub open spec fn admin_gate(session: Result<Session, Error>) -> Option<Seq<char>> {
    match session {
        Ok(s) => if s@.is_admin {
            None
        } else {
            Some(HOME@)
        },
        Err(_) => Some(HOME@),
    }
}

fn deny_home() -> (d: GateDecision)
    ensures
        d@ == Some(HOME@),
{
    GateDecision::Deny { redirect_target: String::from_str(HOME) }
}

/// The anonymous-only gate, for pages such as sign-in.
pub fn redirect_already_logged_in(session: &Result<Session, Error>) -> (d: GateDecision)
    ensures
        d@ == anonymous_gate(*session),
{
    match session {
        Ok(_) => deny_home(),
        Err(_) => GateDecision::Allow,
    }
}

/// The admin-only gate.
pub fn assert_is_admin(session: &Result<Session, Error>) -> (d: GateDecision)
    ensures
        d@ == admin_gate(*session),
{
    match session {
        Ok(s) => if s.is_admin() {
            GateDecision::Allow
        } else {
            deny_home()
        },
        Err(_) => deny_home(),
    }
}

/// The response that sends a request to `to`: for a fragment loader a
/// `200 OK` with the out-of-band header, otherwise `303 See Other`.
pub open spec fn redirect_view(fragment_request: bool, to: Seq<char>) -> ResponseView {
    if fragment_request {
        ResponseView {
            status: STATUS_OK,
            headers: seq![(FRAGMENT_REDIRECT_HEADER@, to)],
            body: Seq::empty(),
        }
    } else {
        ResponseView {
            status: STATUS_SEE_OTHER,
            headers: seq![(LOCATION_HEADER@, to)],
            body: Seq::empty(),
        }
    }
}

pub fn redirect(fragment_request: bool, to: &str) -> (r: ResponseHead)
    ensures
        r@ == redirect_view(fragment_request, to@),
{
    let mut r = if fragment_request {
        ResponseHead::with_status(STATUS_OK)
    } else {
        ResponseHead::with_status(STATUS_SEE_OTHER)
    };
    let name = if fragment_request {
        FRAGMENT_REDIRECT_HEADER
    } else {
        LOCATION_HEADER
    };
    r.append(Header::new(name, to));
    assert(r@.headers =~= redirect_view(fragment_request, to@).headers);
    r
}

/// The response a gate sends by itself: none for an allowed request, a
/// redirect to the chosen path for a denied one.
pub open spec fn gate_response_view(decision: Option<Seq<char>>, fragment_request: bool) -> Option<
    ResponseView,
> {
    match decision {
        None => None,
        Some(to) => Some(redirect_view(fragment_request, to)),
    }
}

pub fn gate_response(decision: &GateDecision, fragment_request: bool) -> (r: Option<ResponseHead>)
    ensures
        r is None <==> decision@ is None,
        r matches Some(h) ==> Some(h@) == gate_response_view(decision@, fragment_request),
{
    match decision {
        GateDecision::Allow => None,
        GateDecision::Deny { redirect_target } => Some(
            redirect(fragment_request, redirect_target.as_str()),
        ),
    }
}

/// The headers every response carries, in the order they are appended.
pub open spec fn security_headers_view() -> Seq<(Seq<char>, Seq<char>)> {
    seq![
        ("X-Frame-Options"@, "DENY"@),
        ("X-XSS-Protection"@, "1; mode=block"@),
        ("X-Content-Type-Options"@, "nosniff"@),
        ("Referrer-Policy"@, "no-referrer"@),
        ("Strict-Transport-Security"@, "max-age=63072000; includeSubDomains"@),
    ]
}

pub open spec fn with_security_headers(r: ResponseView) -> ResponseView {
    ResponseView { status: r.status, headers: r.headers + security_headers_view(), body: r.body }
}

/// Appends the security headers to a response, whatever produced it.
pub fn insert_securiy_headers(response: &mut ResponseHead)
    ensures
        final(response)@ == with_security_headers(old(response)@),
{
    response.append(Header::new("X-Frame-Options", "DENY"));
    response.append(Header::new("X-XSS-Protection", "1; mode=block"));
    response.append(Header::new("X-Content-Type-Options", "nosniff"));
    response.append(Header::new("Referrer-Policy", "no-referrer"));
    response.append(
        Header::new("Strict-Transport-Security", "max-age=63072000; includeSubDomains"),
    );
    assert(response@.headers =~= old(response)@.headers + security_headers_view());
}

/// The admin-only gate lets a request through exactly when its session
/// resolved and belongs to an administrator; the anonymous-only gate lets
/// it through exactly when no session resolved. Both send everyone else home.
pub proof fn lemma_gate_policies(session: Result<Session, Error>)
    ensures
        admin_gate(session) is None <==> (session matches Ok(s) && s@.is_admin),
        anonymous_gate(session) is None <==> session is Err,
        admin_gate(session) is Some ==> admin_gate(session) == Some(HOME@),
        anonymous_gate(session) is Some ==> anonymous_gate(session) == Some(HOME@),
{
}

/// A denied request is sent to the chosen path in both forms: status 200
/// with `HX-Redirect` for a fragment loader, status 303 with `Location` for
/// any other request.
pub proof fn lemma_denial_encodings(to: Seq<char>)
    ensures
        gate_response_view(Some(to), true) matches Some(r) && r.status == STATUS_OK && has_header(
            r,
            FRAGMENT_REDIRECT_HEADER@,
            to,
        ),
        gate_response_view(Some(to), false) matches Some(r) && r.status == STATUS_SEE_OTHER
            && has_header(r, LOCATION_HEADER@, to),
        gate_response_view(None, true) is None,
        gate_response_view(None, false) is None,
{
    assert(redirect_view(true, to).headers[0] == (FRAGMENT_REDIRECT_HEADER@, to));
    assert(redirect_view(false, to).headers[0] == (LOCATION_HEADER@, to));
}

/// After the security headers are appended, a response carries each of
/// them with its exact value and keeps every header it had, so a redirect
/// issued by a gate still redirects.
pub proof fn lemma_security_headers_everywhere(r: ResponseView)
    ensures
        forall|i: int|
            0 <= i < security_headers_view().len() ==> has_header(
                with_security_headers(r),
                (#[trigger] security_headers_view()[i]).0,
                security_headers_view()[i].1,
            ),
        forall|n: Seq<char>, v: Seq<char>|
            has_header(r, n, v) ==> has_header(#[trigger] with_security_headers(r), n, v),
        with_security_headers(r).status == r.status,
{
    let w = with_security_headers(r);
    assert forall|i: int| 0 <= i < security_headers_view().len() implies has_header(
        w,
        (#[trigger] security_headers_view()[i]).0,
        security_headers_view()[i].1,
    ) by {
        assert(w.headers[r.headers.len() + i] == security_headers_view()[i]);
    }
    assert forall|n: Seq<char>, v: Seq<char>| has_header(r, n, v) implies has_header(w, n, v) by {
        let j = choose|j: int| 0 <= j < r.headers.len() && r.headers[j] == (n, v);
        assert(w.headers[j] == (n, v));
    }
}

} // verus!
