//! One request's way through the proxy, as the decisions between the waits:
//! for the caller's body, for a bearer value, for the upstream's reply.

use vstd::prelude::*;
use crate::authenticator::AuthError;
use crate::headers::{Header, Direction, models, kept, upstream_headers, request_headers, response_headers};
use crate::target::{target, upstream_url};

verus! {

/// The status told to a caller whose body could not be read.
pub const BAD_REQUEST: u16 = 400;

/// The status told to a caller when the token endpoint or the upstream
/// failed the proxy.
pub const BAD_GATEWAY: u16 = 502;

/// The request line and the headers of what a caller sent.
#[derive(Clone, Debug, PartialEq, Eq)]
pub struct Inbound {
    pub method: String,
    pub path: String,
    pub query: Option<String>,
    pub headers: Vec<Header>,
}

/// A caller's request with its body read in full.
#[derive(Clone, Debug, PartialEq, Eq)]
pub struct Buffered {
    pub inbound: Inbound,
    pub body: Vec<u8>,
}

/// The request that goes upstream.
#[derive(Clone, Debug, PartialEq, Eq)]
pub struct Outbound {
    pub method: String,
    pub url: String,
    pub headers: Vec<Header>,
    pub body: Vec<u8>,
}

/// A response: the upstream's, or the one relayed to the caller.
#[derive(Clone, Debug, PartialEq, Eq)]
pub struct Reply {
    pub status: u16,
    pub headers: Vec<Header>,
    pub body: Vec<u8>,
}

/// Why the proxy answers a request itself.
#[derive(Clone, Debug, PartialEq, Eq)]
pub enum Refusal {
    /// The caller's body could not be read in full.
    InboundBody(String),
    /// No bearer value could be had.
    Auth(AuthError),
    /// The upstream could not be reached, or the call did not complete.
    Upstream(String),
}

/// The status for each refusal: the caller's own fault is a bad request,
/// everything behind the proxy a bad gateway.
pub open spec fn refusal_status(r: Refusal) -> u16 {
    match r {
        Refusal::InboundBody(_) => BAD_REQUEST,
        Refusal::Auth(_) => BAD_GATEWAY,
        Refusal::Upstream(_) => BAD_GATEWAY,
    }
}

/// The view of an optional text.
pub open spec fn query_view(query: Option<String>) -> Option<Seq<char>> {
    match query {
        Some(q) => Some(q@),
        None => None,
    }
}

impl Refusal {
    /// The status that the caller is answered with.
    pub fn status(&self) -> (code: u16)
        ensures
            code == refusal_status(*self),
    {
        match self {
            Refusal::InboundBody(_) => BAD_REQUEST,
            Refusal::Auth(_) => BAD_GATEWAY,
            Refusal::Upstream(_) => BAD_GATEWAY,
        }
    }
}

/// The caller's body has been read, or reading it has failed: go on to ask
/// for a bearer value with the whole body in hand, or refuse.
pub fn on_inbound_body(inbound: Inbound, body: Result<Vec<u8>, String>) -> (next: Result<
    Buffered,
    Refusal,
>)
    ensures
        match next {
            Ok(b) => body matches Ok(bytes) && b.inbound == inbound && b.body == bytes,
            Err(Refusal::InboundBody(m)) => body matches Err(why) && m == why,
            Err(_) => false,
        },
{
    match body {
        Ok(bytes) => Ok(Buffered { inbound, body: bytes }),
        Err(why) => Err(Refusal::InboundBody(why)),
    }
}

/// The authenticator has answered: with a bearer value the request goes
/// upstream, under the same method, to the base with the caller's path and
/// query, with the caller's headers filtered and the proxy's credentials
/// put in, and with the caller's body; without one the caller is refused.
pub fn on_bearer(upstream_base: &str, request: Buffered, bearer: Result<String, AuthError>) -> (next:
    Result<Outbound, Refusal>)
    ensures
        match next {
            Ok(out) => bearer matches Ok(value) && out.method == request.inbound.method && out.url@
                == target(upstream_base@, request.inbound.path@, query_view(request.inbound.query))
                && models(out.headers@) == upstream_headers(
                models(request.inbound.headers@),
                value@,
            ) && out.body == request.body,
            Err(Refusal::Auth(e)) => bearer matches Err(cause) && e == cause,
            Err(_) => false,
        },
{
    match bearer {
        Ok(value) => {
            let url = match &request.inbound.query {
                Some(q) => upstream_url(upstream_base, request.inbound.path.as_str(), Some(q.as_str())),
                None => upstream_url(upstream_base, request.inbound.path.as_str(), None),
            };
            let headers = request_headers(&request.inbound.headers, value.as_str());
            Ok(Outbound { method: request.inbound.method, url, headers, body: request.body })
        },
        Err(cause) => Err(Refusal::Auth(cause)),
    }
}

/// The upstream has answered, or the call has failed: any answer is relayed
/// with its status and its body as they are and its headers without the
/// hop-by-hop ones, whatever the status; a failed call refuses the caller.
pub fn on_upstream(reply: Result<Reply, String>) -> (next: Result<Reply, Refusal>)
    ensures
        match next {
            Ok(relayed) => reply matches Ok(got) && relayed.status == got.status && relayed.body
                == got.body && models(relayed.headers@) == kept(
                models(got.headers@),
                Direction::Response,
            ),
            Err(Refusal::Upstream(m)) => reply matches Err(why) && m == why,
            Err(_) => false,
        },
{
    match reply {
        Ok(got) => {
            let headers = response_headers(&got.headers);
            Ok(Reply { status: got.status, headers, body: got.body })
        },
        Err(why) => Err(Refusal::Upstream(why)),
    }
}

} // verus!
