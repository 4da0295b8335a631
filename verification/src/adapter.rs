//! What the resolver of the network self-test decides: where a request
//! goes, and how many of the addresses found for a name are used.

use vstd::prelude::*;

verus! {

/// Most addresses that the resolver hands on for one name.
pub const MAX_ADDRESSES: usize = 16;

/// What a URL says of where it points.
#[derive(Debug, Clone, PartialEq, Eq)]
pub struct UrlParts {
    /// The host, where the URL has one.
    pub host: Option<String>,
    /// The port that the URL gives, or else the one that goes with its
    /// scheme, where there is one.
    pub port: Option<u16>,
}

/// What a URL says of where it points, as a mathematical value.
pub struct UrlPartsView {
    pub host: Option<Seq<char>>,
    pub port: Option<u16>,
}

impl View for UrlParts {
    type V = UrlPartsView;

    open spec fn view(&self) -> UrlPartsView {
        UrlPartsView {
            host: match self.host {
                Some(host) => Some(host@),
                None => None,
            },
            port: self.port,
        }
    }
}

/// Where a request goes.
#[derive(Debug, Clone, PartialEq, Eq)]
pub struct Target {
    pub host: String,
    pub port: u16,
}

/// Where a request goes, as a mathematical value.
pub struct TargetView {
    pub host: Seq<char>,
    pub port: u16,
}

impl View for Target {
    type V = TargetView;

    open spec fn view(&self) -> TargetView {
        TargetView { host: self.host@, port: self.port }
    }
}

/// Why a name was not resolved.
#[derive(Debug, Clone, PartialEq, Eq)]
pub enum ResolveError {
    /// The address of the request is no URL with a host and a port.
    BadUri(String),
    /// No address was found for the name.
    HostNotFound,
}

/// Why a name was not resolved, as a mathematical value.
pub enum ResolveErrorView {
    BadUri(Seq<char>),
    HostNotFound,
}

impl View for ResolveError {
    type V = ResolveErrorView;

    open spec fn view(&self) -> ResolveErrorView {
        match self {
            ResolveError::BadUri(reason) => ResolveErrorView::BadUri(reason@),
            ResolveError::HostNotFound => ResolveErrorView::HostNotFound,
        }
    }
}

/// Host and port of `uri` as the crate `url` reads them, or, where it does
/// not read `uri` as an absolute URL, its error in words.
pub uninterp spec fn url_parts(uri: Seq<char>) -> Result<UrlPartsView, Seq<char>>;

/// The same result with its parts as mathematical values.
pub open spec fn parts_view(parts: Result<UrlParts, String>) -> Result<UrlPartsView, Seq<char>> {
    match parts {
        Ok(parts) => Ok(parts@),
        Err(error) => Err(error@),
    }
}

/// The same result with its parts as mathematical values.
pub open spec fn target_view(target: Result<Target, ResolveError>) -> Result<
    TargetView,
    ResolveErrorView,
> {
    match target {
        Ok(target) => Ok(target@),
        Err(error) => Err(error@),
    }
}

/// Calls `Url::parse` of the crate `url` and hands out `Url::host_str` and
/// `Url::port_or_known_default` of the URL, or the error printed as text.
#[verifier::external_body]
fn split_url(uri: &str) -> (parts: Result<UrlParts, String>)
    ensures
        parts_view(parts) == url_parts(uri@),
{
    match url::Url::parse(uri) {
        Ok(url) => Ok(
            UrlParts {
                host: url.host_str().map(|host| host.to_string()),
                port: url.port_or_known_default(),
            },
        ),
        Err(error) => Err(error.to_string()),
    }
}

/// Where a request goes, given what its URL says.
pub open spec fn target_of_parts(parts: Result<UrlPartsView, Seq<char>>) -> Result<
    TargetView,
    ResolveErrorView,
> {
    match parts {
        Err(error) => Err(ResolveErrorView::BadUri(error)),
        Ok(parts) => match parts.host {
            None => Err(ResolveErrorView::BadUri("host"@)),
            Some(host) => match parts.port {
                None => Err(ResolveErrorView::BadUri("port"@)),
                Some(port) => Ok(TargetView { host, port }),
            },
        },
    }
}

/// Where a request goes, given what its URL says: to its host and port. A
/// URL without either is refused, with the name of what it lacks.
pub fn target_of(parts: Result<UrlParts, String>) -> (target: Result<Target, ResolveError>)
    ensures
        target_view(target) == target_of_parts(parts_view(parts)),
{
    match parts {
        Err(error) => Err(ResolveError::BadUri(error)),
        Ok(parts) => match parts.host {
            None => Err(ResolveError::BadUri("host".to_owned())),
            Some(host) => match parts.port {
                None => Err(ResolveError::BadUri("port".to_owned())),
                Some(port) => Ok(Target { host, port }),
            },
        },
    }
}

/// Where the request for `uri` goes.
pub fn resolve_target(uri: &str) -> (target: Result<Target, ResolveError>)
    ensures
        target_view(target) == target_of_parts(url_parts(uri@)),
{
    target_of(split_url(uri))
}

/// How many of the `found` addresses of a name the resolver hands on, from
/// the first: all, but no more than sixteen. A name without an address is
/// not resolved.
pub fn usable_addresses(found: usize) -> (count: Result<usize, ResolveError>)
    ensures
        found == 0 ==> count == Err::<usize, ResolveError>(ResolveError::HostNotFound),
        0 < found <= MAX_ADDRESSES ==> count == Ok::<usize, ResolveError>(found),
        found > MAX_ADDRESSES ==> count == Ok::<usize, ResolveError>(MAX_ADDRESSES),
{
    if found == 0 {
        Err(ResolveError::HostNotFound)
    } else if found > MAX_ADDRESSES {
        Ok(MAX_ADDRESSES)
    } else {
        Ok(found)
    }
}

} // verus!
