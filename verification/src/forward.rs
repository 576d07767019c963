//! The forwarding contract's computable parts: the target URL an entry is
//! replayed against, and the rule for what counts as a successful delivery.
//! The outbound POST itself is transport work and stays outside the library;
//! its status code comes back in as a plain number.

use vstd::prelude::*;

verus! {

/// The delivery target: protocol, then "://", then the destination host,
/// then the entry's uri, concatenated verbatim.
pub open spec fn target_url(proto: Seq<char>, dest: Seq<char>, uri: Seq<char>) -> Seq<char> {
    proto + "://"@ + dest + uri
}

/// Build the URL that one entry is delivered to.
pub fn build_target_url(proto: &str, dest: &str, uri: &str) -> (r: String)
    ensures
        r@ == target_url(proto@, dest@, uri@),
{
    let mut out = String::from_str(proto);
    out.append("://");
    out.append(dest);
    out.append(uri);
    proof {
        assert(out@ =~= target_url(proto@, dest@, uri@));
    }
    out
}

/// A delivery succeeded exactly when the response status is 200: any other
/// status, other 2xx codes included, counts as failure.
pub fn delivery_succeeded(status: u16) -> (r: bool)
    ensures
        r == (status == 200),
{
    status == 200
}

} // verus!
