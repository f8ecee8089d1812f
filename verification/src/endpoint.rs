//! Addresses: where each resource is fetched from, and where the stream is.
//!
//! Addresses are kept as text. Resolving a reference against a base and
//! exchanging a scheme are left to the `url` crate.

use crate::cache::Buffer;
use crate::error::ConnectError;
use url::Url;
use vstd::prelude::*;

verus! {

/// The buffers that the service offers, each under a path of its own.
#[derive(Debug, Clone, Copy, PartialEq, Eq)]
pub enum BufferType {
    Colormap,
    Placemap,
    Heatmap,
    Virginmap,
    InitialColormap,
}

/// Path of the canvas metadata, relative to the base address.
pub const INFO_PATH: &'static str = "info";

/// Path of the statistics document, relative to the base address.
pub const STATS_PATH: &'static str = "stats/stats.json";

/// Path of the streaming endpoint, relative to the base address.
pub const STREAM_PATH: &'static str = "ws";

impl BufferType {
    /// Path of the buffer, relative to the base address.
    pub open spec fn spec_path(self) -> &'static str {
        match self {
            BufferType::Colormap => "boarddata",
            BufferType::Placemap => "placemap",
            BufferType::Heatmap => "heatmap",
            BufferType::Virginmap => "virginmap",
            BufferType::InitialColormap => "initialboarddata",
        }
    }

    /// Path of the buffer, relative to the base address.
    pub fn path(self) -> (r: &'static str)
        ensures
            r == self.spec_path(),
    {
        match self {
            BufferType::Colormap => "boarddata",
            BufferType::Placemap => "placemap",
            BufferType::Heatmap => "heatmap",
            BufferType::Virginmap => "virginmap",
            BufferType::InitialColormap => "initialboarddata",
        }
    }
}

impl From<BufferType> for &'static str {
    fn from(buffer: BufferType) -> (r: Self) {
        buffer.path()
    }
}

impl vstd::std_specs::convert::FromSpecImpl<BufferType> for &'static str {
    open spec fn obeys_from_spec() -> bool {
        true
    }

    open spec fn from_spec(buffer: BufferType) -> Self {
        buffer.spec_path()
    }
}

impl Buffer {
    /// The buffer of the service that fills this slot.
    pub fn source(self) -> (r: BufferType)
        ensures
            r == match self {
                Buffer::Colors => BufferType::Colormap,
                Buffer::InitialColors => BufferType::InitialColormap,
                Buffer::Mask => BufferType::Placemap,
            },
    {
        match self {
            Buffer::Colors => BufferType::Colormap,
            Buffer::InitialColors => BufferType::InitialColormap,
            Buffer::Mask => BufferType::Placemap,
        }
    }
}

/// The scheme of `text` read as an absolute URL by `url::Url::parse`; `None`
/// where `text` is no absolute URL.
pub uninterp spec fn url_scheme(text: Seq<char>) -> Option<Seq<char>>;

/// The URL that `url::Url::join` resolves `reference` to against the absolute
/// URL `base`, as text; `None` where `base` is no absolute URL or the
/// reference cannot be resolved.
pub uninterp spec fn url_join(base: Seq<char>, reference: Seq<char>) -> Option<Seq<char>>;

/// The absolute URL `text` after `url::Url::set_scheme` gave it `scheme`, as
/// text; `None` where `text` is no absolute URL or the scheme is refused.
pub uninterp spec fn url_with_scheme(text: Seq<char>, scheme: Seq<char>) -> Option<Seq<char>>;

/// Calls `url::Url::parse` on `text` and `url::Url::scheme` on what it gives.
/// Claims only that the outcome is the one named `url_scheme`: that it depends
/// on `text` alone.
#[verifier::external_body]
fn scheme_of(text: &str) -> (r: Option<String>)
    ensures
        match r {
            Some(scheme) => url_scheme(text@) == Some(scheme@),
            None => url_scheme(text@) is None,
        },
{
    match Url::parse(text) {
        Ok(url) => Some(url.scheme().to_owned()),
        Err(_) => None,
    }
}

/// Calls `url::Url::join` on `base`, parsed, with `reference`, and gives the
/// result as text. Claims only that the outcome is the one named `url_join`:
/// that it depends on the two texts alone.
#[verifier::external_body]
fn join(base: &str, reference: &str) -> (r: Option<String>)
    ensures
        match r {
            Some(joined) => url_join(base@, reference@) == Some(joined@),
            None => url_join(base@, reference@) is None,
        },
{
    match Url::parse(base) {
        Ok(url) => match url.join(reference) {
            Ok(joined) => Some(String::from(joined)),
            Err(_) => None,
        },
        Err(_) => None,
    }
}

/// Calls `url::Url::set_scheme` on `text`, parsed, with `scheme`, and gives
/// the changed URL as text. Claims only that the outcome is the one named
/// `url_with_scheme`: that it depends on the two texts alone.
#[verifier::external_body]
fn with_scheme(text: &str, scheme: &str) -> (r: Option<String>)
    ensures
        match r {
            Some(changed) => url_with_scheme(text@, scheme@) == Some(changed@),
            None => url_with_scheme(text@, scheme@) is None,
        },
{
    match Url::parse(text) {
        Ok(mut url) => match url.set_scheme(scheme) {
            Ok(()) => Some(String::from(url)),
            Err(()) => None,
        },
        Err(_) => None,
    }
}

/// The scheme of the stream for a base address with `scheme`: `ws` for
/// `http`, `wss` for `https`, none for any other.
pub open spec fn stream_scheme(scheme: Seq<char>) -> Option<Seq<char>> {
    if scheme == "http"@ {
        Some("ws"@)
    } else if scheme == "https"@ {
        Some("wss"@)
    } else {
        None
    }
}

/// The address of the stream for the base address `base`, or why there is none.
pub open spec fn stream_endpoint(base: Seq<char>) -> Result<Seq<char>, EndpointFault> {
    match url_scheme(base) {
        None => Err(EndpointFault::Base),
        Some(scheme) => match stream_scheme(scheme) {
            None => Err(EndpointFault::Scheme(scheme)),
            Some(target) => match url_join(base, STREAM_PATH@) {
                None => Err(EndpointFault::Base),
                Some(joined) => match url_with_scheme(joined, target) {
                    None => Err(EndpointFault::Base),
                    Some(endpoint) => Ok(endpoint),
                },
            },
        },
    }
}

/// Why a base address has no stream: its scheme is neither `http` nor
/// `https`, or it is no absolute URL that the path of the stream resolves
/// against.
pub enum EndpointFault {
    Scheme(Seq<char>),
    Base,
}

/// Whether `e` is the error that stands for `fault`.
pub open spec fn reports(e: ConnectError, fault: EndpointFault) -> bool {
    match fault {
        EndpointFault::Scheme(scheme) => e matches ConnectError::InvalidSiteScheme(s) && s@
            == scheme,
        EndpointFault::Base => e == ConnectError::InvalidSiteBase,
    }
}

fn same_text(a: &str, b: &str) -> (r: bool)
    ensures
        r == (a@ == b@),
{
    let left: String = a.to_owned();
    let right: String = b.to_owned();
    left == right
}

/// Maps the scheme of a base address to the scheme of its stream.
pub fn map_scheme(scheme: &str) -> (r: Option<&'static str>)
    ensures
        match r {
            Some(target) => stream_scheme(scheme@) == Some(target@),
            None => stream_scheme(scheme@) is None,
        },
{
    if same_text(scheme, "http") {
        Some("ws")
    } else if same_text(scheme, "https") {
        Some("wss")
    } else {
        None
    }
}

/// The address of `path` under the base address `base`; `None` where there
/// is none.
pub fn resource_location(base: &str, path: &str) -> (r: Option<String>)
    ensures
        match r {
            Some(location) => url_join(base@, path@) == Some(location@),
            None => url_join(base@, path@) is None,
        },
{
    join(base, path)
}

/// Derives the address of the stream from the base address: the path `ws`
/// under the base, with scheme `ws` in place of `http` and `wss` in place of
/// `https`. A base with any other scheme is refused with that scheme, before
/// anything is resolved.
pub fn websocket_endpoint(base: &str) -> (r: Result<String, ConnectError>)
    ensures
        match r {
            Ok(endpoint) => stream_endpoint(base@) == Ok::<Seq<char>, EndpointFault>(endpoint@),
            Err(e) => stream_endpoint(base@) matches Err(fault) && reports(e, fault),
        },
{
    let scheme: String = match scheme_of(base) {
        Some(scheme) => scheme,
        None => {
            return Err(ConnectError::InvalidSiteBase);
        },
    };
    let target: &'static str = match map_scheme(scheme.as_str()) {
        Some(target) => target,
        None => {
            return Err(ConnectError::InvalidSiteScheme(scheme));
        },
    };
    let joined: String = match join(base, STREAM_PATH) {
        Some(joined) => joined,
        None => {
            return Err(ConnectError::InvalidSiteBase);
        },
    };
    match with_scheme(joined.as_str(), target) {
        Some(endpoint) => Ok(endpoint),
        None => Err(ConnectError::InvalidSiteBase),
    }
}

} // verus!
