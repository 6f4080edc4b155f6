//! Request blocking: a request that a script makes is refused when its
//! address names a domain of the denylist.

use vstd::prelude::*;
use crate::text::{chars_of, contains, find};

verus! {

/// Status code of the response that takes the place of a blocked request.
pub const FORBIDDEN_STATUS: i32 = 403;

/// The kind of resource that a request is made for.
#[derive(Clone, Copy, Debug, PartialEq, Eq, Structural)]
pub enum ResourceContext {
    /// A script.
    Script,
    /// Anything else: a document, an image, a stylesheet and so on.
    Other,
}

/// The response that takes the place of a request.
#[derive(Clone, Copy, Debug, PartialEq, Eq)]
pub struct Response {
    pub status: i32,
    pub reason: &'static str,
    pub headers: &'static str,
    pub body: &'static str,
}

/// What becomes of a request.
#[derive(Clone, Copy, Debug, PartialEq, Eq)]
pub enum Verdict {
    /// The request goes on as it is.
    Pass,
    /// The request is answered with this response and goes no further.
    Block(Response),
}

/// Whether `address` holds an entry of `denylist` as a substring.
pub open spec fn is_denied(address: Seq<char>, denylist: Seq<String>) -> bool {
    exists|k: int| 0 <= k < denylist.len() && contains(address, #[trigger] denylist[k]@)
}

/// Whether a request is refused: it is made for a script and its address
/// holds an entry of the denylist.
pub open spec fn is_refused(
    context: ResourceContext,
    address: Seq<char>,
    denylist: Seq<String>,
) -> bool {
    context is Script && is_denied(address, denylist)
}

/// Whether `response` is the fixed answer to a blocked request.
pub open spec fn is_forbidden(response: Response) -> bool {
    &&& response.status == FORBIDDEN_STATUS
    &&& response.reason@ == "Forbidden"@
    &&& response.headers@ == "Content-Type: text/plain"@
    &&& response.body@ == "Blocked by client"@
}

/// The fixed answer to a blocked request.
pub fn forbidden() -> (response: Response)
    ensures
        is_forbidden(response),
{
    Response {
        status: FORBIDDEN_STATUS,
        reason: "Forbidden",
        headers: "Content-Type: text/plain",
        body: "Blocked by client",
    }
}

/// Tests the address of a request against the denylist, entry by entry.
pub fn is_blocked(address: &str, denylist: &Vec<String>) -> (blocked: bool)
    ensures
        blocked == is_denied(address@, denylist@),
{
    let target = chars_of(address);
    let mut k: usize = 0;
    while k < denylist.len()
        invariant
            k <= denylist.len(),
            target@ == address@,
            forall|m: int| 0 <= m < k ==> !contains(address@, #[trigger] denylist@[m]@),
        decreases denylist.len() - k,
    {
        let domain = chars_of(denylist[k].as_str());
        if find(&target, &domain).is_some() {
            return true;
        }
        k += 1;
    }
    false
}

/// Decides what becomes of a request.
///
/// A request for a script whose address holds an entry of the denylist is
/// answered with the fixed forbidden response. Every other request passes
/// untouched.
pub fn filter_request(context: ResourceContext, address: &str, denylist: &Vec<String>) -> (verdict:
    Verdict)
    ensures
        is_refused(context, address@, denylist@) ==> (verdict matches Verdict::Block(response)
            && is_forbidden(response)),
        !is_refused(context, address@, denylist@) ==> verdict is Pass,
{
    match context {
        ResourceContext::Script => {
            if is_blocked(address, denylist) {
                Verdict::Block(forbidden())
            } else {
                Verdict::Pass
            }
        },
        ResourceContext::Other => Verdict::Pass,
    }
}

} // verus!
