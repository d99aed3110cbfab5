//! What is sent to an upstream provider, as plain values, and the types of
//! the HTTP client that the library carries without looking into them.

use vstd::prelude::*;
use crate::text::text_pairs;

verus! {

/// `reqwest::Client`, the handle that sends requests. Carried, never read.
#[verifier::external_type_specification]
#[verifier::external_body]
pub struct ExClient(reqwest::Client);

/// `reqwest::Url`, a parsed URL. Carried, never read.
#[verifier::external_type_specification]
#[verifier::external_body]
pub struct ExUrl(reqwest::Url);

/// `reqwest::Error`, a failure of the transport or of decoding a body.
/// Carried, never read.
#[verifier::external_type_specification]
#[verifier::external_body]
pub struct ExTransportError(reqwest::Error);

/// One GET request to a provider.
#[derive(Debug)]
pub struct ApiRequest {
    /// The reference to resolve against the provider's base URL; `None` where
    /// the base URL itself is asked.
    pub path: Option<String>,
    /// Header names and values, in the order in which they are set.
    pub headers: Vec<(String, String)>,
    /// Names and values of the query parameters, in order.
    pub query: Vec<(String, String)>,
}

/// An [`ApiRequest`] by its texts.
pub struct ApiRequestView {
    pub path: Option<Seq<char>>,
    pub headers: Seq<(Seq<char>, Seq<char>)>,
    pub query: Seq<(Seq<char>, Seq<char>)>,
}

impl View for ApiRequest {
    type V = ApiRequestView;

    open spec fn view(&self) -> ApiRequestView {
        ApiRequestView {
            path: match self.path {
                Some(p) => Some(p@),
                None => None,
            },
            headers: text_pairs(self.headers@),
            query: text_pairs(self.query@),
        }
    }
}

/// A name and a value, owned.
pub fn pair(name: &str, value: &str) -> (r: (String, String))
    ensures
        r.0@ == name@,
        r.1@ == value@,
{
    (name.to_owned(), value.to_owned())
}

} // verus!
