//! What the handlers answer, as plain values: a status code, at most one
//! redirect header, and a text body. The server turns it into a response.
use vstd::prelude::*;

verus! {

/// A response header that sends the browser elsewhere.
#[derive(Debug)]
pub struct RedirectHeader {
    /// `hx-redirect` (for htmx requests) or `location`.
    pub name: &'static str,
    pub value: String,
}

/// An answer to a request.
#[derive(Debug)]
pub struct Reply {
    pub status: u16,
    pub header: Option<RedirectHeader>,
    pub body: String,
}

/// The name of the htmx redirect header.
pub open spec fn hx_redirect_name() -> Seq<char> {
    "hx-redirect"@
}

/// `r` is a 200 answer with an empty body that tells htmx to go to `target`.
pub open spec fn is_hx_redirect(r: Reply, target: Seq<char>) -> bool {
    &&& r.status == 200
    &&& r.header matches Some(h) && h.name@ == hx_redirect_name() && h.value@ == target
    &&& r.body@ == Seq::<char>::empty()
}

/// A 200 answer that tells htmx to go to `target`.
pub fn hx_redirect(target: String) -> (r: Reply)
    ensures
        is_hx_redirect(r, target@),
{
    Reply {
        status: 200,
        header: Some(RedirectHeader { name: "hx-redirect", value: target }),
        body: String::new(),
    }
}

/// An answer with `status`, no header, and `body`.
pub fn plain_reply(status: u16, body: String) -> (r: Reply)
    ensures
        r.status == status,
        r.header is None,
        r.body@ == body@,
{
    Reply { status, header: None, body }
}

} // verus!
