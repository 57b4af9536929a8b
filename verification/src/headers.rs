//! Which headers cross the proxy, in each direction, and how a header list
//! is shown in a log.

use vstd::prelude::*;
use crate::text::{ascii_chars, ascii_decodes_bytewise, same_ignoring_case, utf8_text};

verus! {

/// One header line: a name and the bytes of its value.
#[derive(Clone, Debug, PartialEq, Eq)]
pub struct Header {
    pub name: String,
    pub value: Vec<u8>,
}

/// What the contracts say of a header.
pub struct HeaderModel {
    pub name: Seq<char>,
    pub value: Seq<u8>,
}

impl View for Header {
    type V = HeaderModel;

    open spec fn view(&self) -> HeaderModel {
        HeaderModel { name: self.name@, value: self.value@ }
    }
}

/// The models of a list of headers, in order.
pub open spec fn models(headers: Seq<Header>) -> Seq<HeaderModel> {
    Seq::new(headers.len(), |i: int| headers[i]@)
}

/// The direction in which a header list crosses the proxy.
#[derive(Clone, Copy, PartialEq, Eq, Debug)]
pub enum Direction {
    /// From the caller to the upstream.
    Request,
    /// From the upstream back to the caller.
    Response,
}

/// A header that is meaningful for one connection only.
pub open spec fn is_hop_by_hop(name: Seq<char>) -> bool {
    ||| same_ignoring_case(name, "connection"@)
    ||| same_ignoring_case(name, "keep-alive"@)
    ||| same_ignoring_case(name, "proxy-authenticate"@)
    ||| same_ignoring_case(name, "proxy-authorization"@)
    ||| same_ignoring_case(name, "te"@)
    ||| same_ignoring_case(name, "trailer"@)
    ||| same_ignoring_case(name, "transfer-encoding"@)
    ||| same_ignoring_case(name, "upgrade"@)
}

/// A header that carries the caller's credentials.
pub open spec fn is_authorization(name: Seq<char>) -> bool {
    same_ignoring_case(name, "authorization"@)
}

/// A header that is not copied in the given direction: the hop-by-hop
/// headers either way, and on the way up also the caller's credentials and
/// the caller's `Host`.
pub open spec fn is_stripped(name: Seq<char>, dir: Direction) -> bool {
    is_hop_by_hop(name) || (dir == Direction::Request && (is_authorization(name)
        || same_ignoring_case(name, "host"@)))
}

/// The headers that are copied, in their order.
pub open spec fn kept(headers: Seq<HeaderModel>, dir: Direction) -> Seq<HeaderModel>
    decreases headers.len(),
{
    if headers.len() == 0 {
        Seq::empty()
    } else if is_stripped(headers.last().name, dir) {
        kept(headers.drop_last(), dir)
    } else {
        kept(headers.drop_last(), dir).push(headers.last())
    }
}

/// The header that carries the proxy's own credentials.
pub open spec fn bearer_header(bearer: Seq<char>) -> HeaderModel {
    HeaderModel { name: "authorization"@, value: vstd::utf8::encode_utf8(bearer) }
}

/// What the upstream is sent: the caller's headers that are copied, then the
/// proxy's own credentials.
pub open spec fn upstream_headers(inbound: Seq<HeaderModel>, bearer: Seq<char>) -> Seq<
    HeaderModel,
> {
    kept(inbound, Direction::Request).push(bearer_header(bearer))
}

/// Whether a header name is one of the hop-by-hop names.
pub fn hop_by_hop(name: &str) -> (b: bool)
    ensures
        b == is_hop_by_hop(name@),
{
    name.eq_ignore_ascii_case("connection") || name.eq_ignore_ascii_case("keep-alive")
        || name.eq_ignore_ascii_case("proxy-authenticate") || name.eq_ignore_ascii_case(
        "proxy-authorization",
    ) || name.eq_ignore_ascii_case("te") || name.eq_ignore_ascii_case("trailer")
        || name.eq_ignore_ascii_case("transfer-encoding") || name.eq_ignore_ascii_case("upgrade")
}

/// Whether a header of this name is left out in the given direction.
pub fn stripped(name: &str, dir: Direction) -> (b: bool)
    ensures
        b == is_stripped(name@, dir),
{
    if hop_by_hop(name) {
        true
    } else {
        match dir {
            Direction::Request => name.eq_ignore_ascii_case("authorization")
                || name.eq_ignore_ascii_case("host"),
            Direction::Response => false,
        }
    }
}

/// The headers that cross the proxy in the given direction: every header
/// whose name is not stripped, in the order given, name and value unchanged.
pub fn forwarded(headers: &Vec<Header>, dir: Direction) -> (out: Vec<Header>)
    ensures
        models(out@) == kept(models(headers@), dir),
{
    let mut out: Vec<Header> = Vec::new();
    let mut i: usize = 0;
    assert(models(headers@).take(0) =~= Seq::empty());
    assert(models(out@) =~= Seq::empty());
    while i < headers.len()
        invariant
            i <= headers.len(),
            models(out@) == kept(models(headers@).take(i as int), dir),
        decreases headers.len() - i,
    {
        let h = &headers[i];
        proof {
            let upto = models(headers@).take(i as int + 1);
            assert(upto.drop_last() =~= models(headers@).take(i as int));
            assert(upto.last() == h@);
        }
        if !stripped(h.name.as_str(), dir) {
            let value = h.value.clone();
            assert(value@ =~= h.value@);
            let ghost before = models(out@);
            out.push(Header { name: h.name.clone(), value });
            assert(models(out@) =~= before.push(h@));
        }
        i += 1;
    }
    assert(models(headers@).take(i as int) =~= models(headers@));
    out
}

/// The headers of the request that goes upstream: the caller's headers
/// without the stripped ones, then an `authorization` header with the
/// proxy's bearer value. Nothing that the caller sent under that name is
/// left.
pub fn request_headers(inbound: &Vec<Header>, bearer: &str) -> (out: Vec<Header>)
    ensures
        models(out@) == upstream_headers(models(inbound@), bearer@),
        forall|i: int|
            0 <= i < out@.len() - 1 ==> !is_stripped(#[trigger] models(out@)[i].name, Direction::Request),
{
    let mut out = forwarded(inbound, Direction::Request);
    proof {
        kept_holds_no_stripped(models(inbound@), Direction::Request);
    }
    let ghost before = models(out@);
    out.push(Header { name: "authorization".to_owned(), value: bearer.as_bytes_vec() });
    assert(models(out@) =~= before.push(bearer_header(bearer@)));
    out
}

/// The headers of the response that goes back to the caller: the upstream's
/// headers without the hop-by-hop ones.
pub fn response_headers(upstream: &Vec<Header>) -> (out: Vec<Header>)
    ensures
        models(out@) == kept(models(upstream@), Direction::Response),
{
    forwarded(upstream, Direction::Response)
}

/// No stripped header is among those kept, every kept header is one of the
/// given ones, and a list without stripped headers is kept whole.
pub proof fn kept_holds_no_stripped(headers: Seq<HeaderModel>, dir: Direction)
    ensures
        kept(headers, dir).len() <= headers.len(),
        forall|i: int|
            0 <= i < kept(headers, dir).len() ==> !is_stripped(
                (#[trigger] kept(headers, dir)[i]).name,
                dir,
            ) && headers.contains(kept(headers, dir)[i]),
        (forall|j: int| 0 <= j < headers.len() ==> !is_stripped((#[trigger] headers[j]).name, dir))
            ==> kept(headers, dir) == headers,
    decreases headers.len(),
{
    if headers.len() > 0 {
        let front = headers.drop_last();
        kept_holds_no_stripped(front, dir);
        assert forall|i: int| 0 <= i < kept(headers, dir).len() implies headers.contains(
            #[trigger] kept(headers, dir)[i],
        ) by {
            let h = kept(headers, dir)[i];
            if i < kept(front, dir).len() {
                assert(front.contains(h));
                let k = choose|k: int| 0 <= k < front.len() && front[k] == h;
                assert(headers[k] == h);
            } else {
                assert(headers[headers.len() - 1] == h);
            }
        }
        if forall|j: int| 0 <= j < headers.len() ==> !is_stripped((#[trigger] headers[j]).name, dir) {
            assert forall|j: int| 0 <= j < front.len() implies !is_stripped(
                (#[trigger] front[j]).name,
                dir,
            ) by {
                assert(front[j] == headers[j]);
            }
            assert(!is_stripped(headers[headers.len() - 1].name, dir));
            assert(kept(headers, dir) =~= headers);
        }
    } else {
        assert(kept(headers, dir) =~= headers);
    }
}

/// A byte that a log can show as it is: printable ASCII or a tab.
pub open spec fn is_visible(b: u8) -> bool {
    32 <= b < 127 || b == 9
}

/// Every byte of a value can be shown as it is.
pub open spec fn all_visible(value: Seq<u8>) -> bool {
    forall|i: int| 0 <= i < value.len() ==> is_visible(#[trigger] value[i])
}

/// What a log shows for a header's value: a fixed word in place of
/// credentials, the value's characters where all of them are visible,
/// another fixed word where they are not.
pub open spec fn shown(header: HeaderModel) -> Seq<char> {
    if is_authorization(header.name) {
        "<redacted>"@
    } else if all_visible(header.value) {
        ascii_chars(header.value)
    } else {
        "<bin>"@
    }
}

/// Whether every byte of a value can be shown as it is.
pub fn visible(value: &Vec<u8>) -> (b: bool)
    ensures
        b == all_visible(value@),
{
    let mut i: usize = 0;
    while i < value.len()
        invariant
            i <= value.len(),
            forall|j: int| 0 <= j < i ==> is_visible(#[trigger] value@[j]),
        decreases value.len() - i,
    {
        let b: u8 = value[i];
        if !((32 <= b && b < 127) || b == 9) {
            return false;
        }
        i += 1;
    }
    true
}

/// What a log shows for one header's value.
pub fn shown_value(header: &Header) -> (text: String)
    ensures
        text@ == shown(header@),
{
    if header.name.as_str().eq_ignore_ascii_case("authorization") {
        "<redacted>".to_owned()
    } else if visible(&header.value) {
        proof {
            ascii_decodes_bytewise(header.value@);
        }
        match utf8_text(header.value.as_slice()) {
            Some(s) => s.to_owned(),
            None => "<bin>".to_owned(),
        }
    } else {
        "<bin>".to_owned()
    }
}

/// A header list as a log shows it: each name as it is, beside what is
/// shown for its value. No credentials are among the values.
pub fn redact_headers(headers: &Vec<Header>) -> (out: Vec<(String, String)>)
    ensures
        out@.len() == headers@.len(),
        forall|i: int|
            0 <= i < out@.len() ==> (#[trigger] out@[i]).0@ == headers@[i].name@ && out@[i].1@
                == shown(headers@[i]@),
{
    let mut out: Vec<(String, String)> = Vec::new();
    let mut i: usize = 0;
    while i < headers.len()
        invariant
            i <= headers.len(),
            out@.len() == i,
            forall|k: int|
                0 <= k < i ==> (#[trigger] out@[k]).0@ == headers@[k].name@ && out@[k].1@ == shown(
                    headers@[k]@,
                ),
        decreases headers.len() - i,
    {
        let h = &headers[i];
        let text = shown_value(h);
        out.push((h.name.clone(), text));
        i += 1;
    }
    out
}

} // verus!
