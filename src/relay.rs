use vstd::prelude::*;

use crate::error::Error;

verus! {

/// The text of the URI that `http` assembles from a scheme, an authority
/// and a path with its query, or `None` where it refuses one of them.
pub uninterp spec fn built_uri(scheme: Seq<char>, authority: Seq<char>, path: Seq<char>) -> Option<
    Seq<char>,
>;

/// Relies on `http::Uri::builder` (`scheme`, `authority`, `path_and_query`,
/// `build`) and on the `Display` of `http::Uri`: whether the parts are
/// accepted, and the text written for them, depend on the three parts alone.
#[verifier::external_body]
fn build_uri(scheme: &str, authority: &str, path: &str) -> (r: Option<String>)
    ensures
        r matches Some(u) ==> built_uri(scheme@, authority@, path@) == Some(u@),
        r is None ==> built_uri(scheme@, authority@, path@) is None,
{
    match http::Uri::builder().scheme(scheme).authority(authority).path_and_query(path).build() {
        Ok(uri) => Some(uri.to_string()),
        Err(_) => None,
    }
}

/// `s` holds the separator `://` at `i`.
pub open spec fn separator_at(s: Seq<char>, i: int) -> bool {
    0 <= i && i + 3 <= s.len() && s[i] == ':' && s[i + 1] == '/' && s[i + 2] == '/'
}

/// The first place at or after `i` where `s` holds `://`.
pub open spec fn separator_from(s: Seq<char>, i: int) -> Option<int>
    decreases s.len() - i,
{
    if i < 0 || i + 3 > s.len() {
        None
    } else if separator_at(s, i) {
        Some(i)
    } else {
        separator_from(s, i + 1)
    }
}

/// The upstream service that relayed requests go to.
#[derive(Debug, Clone, PartialEq, Eq)]
pub struct ProxyTarget {
    scheme: String,
    authority: String,
}

pub struct ProxyTargetView {
    pub scheme: Seq<char>,
    pub authority: Seq<char>,
}

impl View for ProxyTarget {
    type V = ProxyTargetView;

    closed spec fn view(&self) -> ProxyTargetView {
        ProxyTargetView { scheme: self.scheme@, authority: self.authority@ }
    }
}

/// The target an address of the form `scheme://authority` names, split at
/// its first `://`, if `http` accepts both halves; the check path `/` only
/// completes the URI.
pub open spec fn target_of(address: Seq<char>) -> Option<ProxyTargetView> {
    match separator_from(address, 0) {
        None => None,
        Some(i) => {
            let scheme = address.subrange(0, i);
            let authority = address.subrange(i + 3, address.len() as int);
            if built_uri(scheme, authority, "/"@) is Some {
                Some(ProxyTargetView { scheme, authority })
            } else {
                None
            }
        },
    }
}

impl ProxyTarget {
    /// Reads the upstream address given at start-up; an address that does
    /// not split into a scheme and an authority is a configuration error.
    pub fn parse(address: &str) -> (r: Result<ProxyTarget, Error>)
        ensures
            r matches Ok(t) ==> target_of(address@) == Some(t@),
            r is Err ==> target_of(address@) is None && r == Err::<ProxyTarget, Error>(
                Error::ConfigurationInvalid,
            ),
    {
        let n = address.unicode_len();
        let mut i: usize = 0;
        while i < n && n - i >= 3
            invariant
                n == address@.len(),
                i <= n,
                separator_from(address@, 0) == separator_from(address@, i as int),
            decreases n - i,
        {
            if address.get_char(i) == ':' && address.get_char(i + 1) == '/' && address.get_char(i + 2)
                == '/' {
                let scheme = address.substring_char(0, i);
                let authority = address.substring_char(i + 3, n);
                match build_uri(scheme, authority, HOME_PATH) {
                    Some(_) => {
                        return Ok(
                            ProxyTarget {
                                scheme: String::from_str(scheme),
                                authority: String::from_str(authority),
                            },
                        );
                    },
                    None => {
                        return Err(Error::ConfigurationInvalid);
                    },
                }
            }
            i = i + 1;
        }
        Err(Error::ConfigurationInvalid)
    }

    pub fn scheme(&self) -> (r: &str)
        ensures
            r@ == self@.scheme,
    {
        self.scheme.as_str()
    }

    pub fn authority(&self) -> (r: &str)
        ensures
            r@ == self@.authority,
    {
        self.authority.as_str()
    }
}

const HOME_PATH: &'static str = "/";

/// A route whose requests are relayed upstream.
#[derive(Debug, Clone, PartialEq, Eq)]
pub enum RelayRoute {
    /// Uploads, all to one fixed upstream path.
    Upload,
    /// A fetch of the item with the identifier taken from the request path.
    FetchById(String),
}

/// The upstream path a route is relayed to.
pub open spec fn upstream_path(route: RelayRoute) -> Seq<char> {
    match route {
        RelayRoute::Upload => "/new"@,
        RelayRoute::FetchById(id) => "/"@ + id@,
    }
}

impl RelayRoute {
    pub fn upstream_path(&self) -> (r: String)
        ensures
            r@ == upstream_path(*self),
    {
        match self {
            RelayRoute::Upload => String::from_str("/new"),
            RelayRoute::FetchById(id) => String::from_str("/").concat(id.as_str()),
        }
    }
}

/// An outbound request: the inbound method, headers and body, untouched,
/// sent to a new URI.
pub struct RelayRequest<M, H, B> {
    pub method: M,
    pub uri: String,
    pub headers: H,
    pub body: B,
}

/// Prepares the outbound request for a relayed one. The body is moved as it
/// is, never read, so a stream stays a stream. A URI that `http` refuses
/// makes the upstream unavailable.
pub fn plan_relay<M, H, B>(
    target: &ProxyTarget,
    route: &RelayRoute,
    method: M,
    headers: H,
    body: B,
) -> (r: Result<RelayRequest<M, H, B>, Error>)
    ensures
        r is Ok <==> built_uri(target@.scheme, target@.authority, upstream_path(*route)) is Some,
        r matches Ok(o) ==> Some(o.uri@) == built_uri(
            target@.scheme,
            target@.authority,
            upstream_path(*route),
        ) && o.method == method && o.headers == headers && o.body == body,
        r matches Err(e) ==> e == Error::UpstreamUnavailable,
{
    let path = route.upstream_path();
    match build_uri(target.scheme(), target.authority(), path.as_str()) {
        Some(uri) => Ok(RelayRequest { method, uri, headers, body }),
        None => Err(Error::UpstreamUnavailable),
    }
}

/// What a relayed request answers: the upstream's response as it came, or
/// `UpstreamUnavailable` for any failure to reach it.
pub fn upstream_outcome<T, E>(sent: Result<T, E>) -> (r: Result<T, Error>)
    ensures
        r is Ok <==> sent is Ok,
        r matches Ok(w) ==> (sent matches Ok(v) && w == v),
        r matches Err(e) ==> e == Error::UpstreamUnavailable,
{
    match sent {
        Ok(v) => Ok(v),
        Err(_) => Err(Error::UpstreamUnavailable),
    }
}

} // verus!
