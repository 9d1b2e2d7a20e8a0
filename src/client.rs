//! The request side of a lookup: where the service is asked.
use vstd::prelude::*;

verus! {

/// The address that looks up `stdnbr`: the service's fixed endpoint, the
/// identifier as the `stdnbr` parameter, and the summary flag set.
pub open spec fn request_url_of(stdnbr: Seq<char>) -> Seq<char> {
    "http://classify.oclc.org/classify2/Classify?stdnbr="@ + stdnbr + "&summary=true"@
}

/// Builds the address of the one request that looks up `stdnbr`.
pub fn request_url(stdnbr: &str) -> (r: String)
    ensures
        r@ == request_url_of(stdnbr@),
{
    let mut url = String::from_str("http://classify.oclc.org/classify2/Classify?stdnbr=");
    url.append(stdnbr);
    url.append("&summary=true");
    url
}

} // verus!
