use vstd::prelude::*;

verus! {

/// A request as a smart function receives it.
#[derive(Debug)]
pub struct Request {
    pub method: String,
    pub uri: String,
    pub headers: http::HeaderMap<http::HeaderValue>,
    pub body: Option<Vec<u8>>,
}

/// A response as a smart function hands it back.
#[derive(Debug)]
pub struct Response {
    pub status: u16,
    pub headers: http::HeaderMap<http::HeaderValue>,
    pub body: Option<Vec<u8>>,
}

/// Whether `status` lies in the success class.
pub open spec fn is_success(status: u16) -> bool {
    200 <= status <= 299
}

impl Response {
    /// Whether the response reports success.
    pub fn ok(&self) -> (success: bool)
        ensures
            success == is_success(self.status),
    {
        200 <= self.status && self.status <= 299
    }
}

/// The host in the authority of `uri`, where `uri` is a URI that has one.
pub uninterp spec fn host_of_uri(uri: Seq<char>) -> Option<Seq<char>>;

/// The characters of an optional text.
pub open spec fn text_of(text: Option<String>) -> Option<Seq<char>> {
    match text {
        Some(t) => Some(t@),
        None => None,
    }
}

/// Parses `uri` with `http::Uri::from_str` and reads `http::Uri::host`:
/// nothing where the text is no URI or has no authority.
#[verifier::external_body]
pub(crate) fn uri_host(uri: &str) -> (host: Option<String>)
    ensures
        text_of(host) == host_of_uri(uri@),
{
    uri.parse::<http::Uri>().ok().and_then(|parsed| parsed.host().map(|host| host.to_string()))
}

} // verus!
