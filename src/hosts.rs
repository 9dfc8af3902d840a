use vstd::prelude::*;

use url::Url;

use crate::text::same_text;

verus! {

/// The host of `url` as the `url` crate parses it; `None` where it does
/// not parse or names no host.
pub uninterp spec fn host_of(url: Seq<char>) -> Option<Seq<char>>;

/// Relies on url::Url::parse and url::Url::host_str: the host of a URL,
/// when the text parses and has one.
#[verifier::external_body]
fn get_domain(url: &str) -> (r: Option<String>)
    ensures
        r is None <==> host_of(url@) is None,
        r is Some ==> host_of(url@) == Some(r->Some_0@),
{
    Url::parse(url).ok().and_then(|u| u.host_str().map(|s| s.to_string()))
}

/// The hosts of the video service whose formats are probed.
pub open spec fn is_recognized_host_text(host: Seq<char>) -> bool {
    host == "www.youtube.com"@ || host == "youtu.be"@
}

/// A URL on a recognized host.
pub open spec fn is_recognized_url_text(url: Seq<char>) -> bool {
    match host_of(url) {
        Some(h) => is_recognized_host_text(h),
        None => false,
    }
}

/// Whether `host` is one of the video service's hosts.
pub fn is_recognized_host(host: &str) -> (r: bool)
    ensures
        r == is_recognized_host_text(host@),
{
    same_text(host, "www.youtube.com") || same_text(host, "youtu.be")
}

/// Whether `url` is on one of the video service's hosts.
pub fn is_recognized_url(url: &str) -> (r: bool)
    ensures
        r == is_recognized_url_text(url@),
{
    match get_domain(url) {
        Some(h) => is_recognized_host(h.as_str()),
        None => false,
    }
}

} // verus!
