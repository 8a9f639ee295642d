use request_edge::error::Error;

#[test]
fn error_texts() {
    assert_eq!(Error::NoToken.describe(), "No token provided");
    assert_eq!(Error::AuthFailed.describe(), "Authentication failed");
    assert_eq!(Error::BackendUnavailable.describe(), "Backend unavailable");
    assert_eq!(Error::UpstreamUnavailable.describe(), "Upstream unavailable");
    assert_eq!(Error::ConfigurationInvalid.describe(), "Invalid configuration");
}

#[test]
fn error_response_hides_detail() {
    for e in [Error::BackendUnavailable, Error::UpstreamUnavailable, Error::AuthFailed] {
        let r = e.into_response();
        assert_eq!(r.status, 500);
        assert!(r.headers.is_empty());
        assert_eq!(r.body, "Internal Server Error");
    }
}
