use request_edge::auth::{IdentityRecord, Session};
use request_edge::error::Error;
use request_edge::middleware::{
    assert_is_admin, gate_response, insert_securiy_headers, redirect, redirect_already_logged_in,
    GateDecision, FRAGMENT_REDIRECT_HEADER, FRAGMENT_REQUEST_HEADER, HOME,
};
use request_edge::response::{Header, ResponseHead};

fn session(is_admin: bool) -> Session {
    Session::new(
        "tok".to_string(),
        IdentityRecord {
            id: "user:1".to_string(),
            is_admin,
            first_name: "Grace".to_string(),
            last_name: "Hopper".to_string(),
            email: "grace@example.com".to_string(),
        },
    )
}

fn home() -> GateDecision {
    GateDecision::Deny { redirect_target: "/".to_string() }
}

fn pairs(r: &ResponseHead) -> Vec<(&str, &str)> {
    r.headers.iter().map(|h| (h.name.as_str(), h.value.as_str())).collect()
}

const SECURITY: [(&str, &str); 5] = [
    ("X-Frame-Options", "DENY"),
    ("X-XSS-Protection", "1; mode=block"),
    ("X-Content-Type-Options", "nosniff"),
    ("Referrer-Policy", "no-referrer"),
    ("Strict-Transport-Security", "max-age=63072000; includeSubDomains"),
];

#[test]
fn admin_gate_allows_only_administrators() {
    assert_eq!(assert_is_admin(&Ok(session(true))), GateDecision::Allow);
    assert_eq!(assert_is_admin(&Ok(session(false))), home());
    assert_eq!(assert_is_admin(&Err(Error::AuthFailed)), home());
    assert_eq!(assert_is_admin(&Err(Error::NoToken)), home());
    assert_eq!(assert_is_admin(&Err(Error::BackendUnavailable)), home());
}

#[test]
fn anonymous_gate_is_the_complement_on_session_presence() {
    assert_eq!(redirect_already_logged_in(&Ok(session(true))), home());
    assert_eq!(redirect_already_logged_in(&Ok(session(false))), home());
    assert_eq!(redirect_already_logged_in(&Err(Error::NoToken)), GateDecision::Allow);
    assert_eq!(redirect_already_logged_in(&Err(Error::AuthFailed)), GateDecision::Allow);
}

#[test]
fn fragment_redirect_is_ok_with_out_of_band_header() {
    let r = redirect(true, "/");
    assert_eq!(r.status, 200);
    assert_eq!(pairs(&r), vec![("HX-Redirect", "/")]);
    assert_eq!(FRAGMENT_REDIRECT_HEADER, "HX-Redirect");
    assert_eq!(FRAGMENT_REQUEST_HEADER, "HX-Request");
    assert!(r.body.is_empty());
}

#[test]
fn plain_redirect_is_see_other_to_the_same_path() {
    let r = redirect(false, "/somewhere");
    assert_eq!(r.status, 303);
    assert_eq!(pairs(&r), vec![("Location", "/somewhere")]);
}

#[test]
fn denied_request_gets_redirect_in_both_encodings() {
    let d = assert_is_admin(&Ok(session(false)));
    let frag = gate_response(&d, true).unwrap();
    let plain = gate_response(&d, false).unwrap();
    assert_eq!(frag.status, 200);
    assert_eq!(pairs(&frag), vec![("HX-Redirect", HOME)]);
    assert_eq!(plain.status, 303);
    assert_eq!(pairs(&plain), vec![("Location", HOME)]);
}

#[test]
fn allowed_request_gets_no_gate_response() {
    assert_eq!(gate_response(&GateDecision::Allow, true), None);
    assert_eq!(gate_response(&GateDecision::Allow, false), None);
}

#[test]
fn security_headers_on_allowed_response() {
    let mut r = ResponseHead::with_status(200);
    r.append(Header::new("Content-Type", "text/html"));
    insert_securiy_headers(&mut r);
    let mut expected = vec![("Content-Type", "text/html")];
    expected.extend(SECURITY);
    assert_eq!(pairs(&r), expected);
    assert_eq!(r.status, 200);
}

#[test]
fn security_headers_on_denied_response() {
    let mut r = gate_response(&home(), true).unwrap();
    insert_securiy_headers(&mut r);
    let mut expected = vec![("HX-Redirect", "/")];
    expected.extend(SECURITY);
    assert_eq!(pairs(&r), expected);
    let mut r = gate_response(&home(), false).unwrap();
    insert_securiy_headers(&mut r);
    assert_eq!(r.status, 303);
    assert_eq!(&pairs(&r)[1..], &SECURITY[..]);
}

#[test]
fn security_headers_are_appended_not_merged() {
    let mut r = ResponseHead::with_status(200);
    r.append(Header::new("X-Frame-Options", "SAMEORIGIN"));
    insert_securiy_headers(&mut r);
    assert_eq!(r.headers.len(), 6);
    assert_eq!(pairs(&r)[0], ("X-Frame-Options", "SAMEORIGIN"));
    assert_eq!(pairs(&r)[1], ("X-Frame-Options", "DENY"));
}
