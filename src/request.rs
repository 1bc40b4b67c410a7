//! The HTTP requests that the client sends, and how their URLs are encoded.

use vstd::prelude::*;

verus! {

/// The HTTP method of a request.
#[derive(Debug, Clone, Copy, PartialEq, Eq)]
pub enum HttpMethod {
    Get,
    Post,
}

/// A request ready to be sent: method, full URL with its query string, and body.
#[derive(Debug, Clone)]
pub struct HttpRequest {
    pub method: HttpMethod,
    pub url: String,
    pub body: Option<String>,
}

/// The model of a request: method, URL and body as character sequences.
pub struct RequestView {
    pub method: HttpMethod,
    pub url: Seq<char>,
    pub body: Option<Seq<char>>,
}

impl View for HttpRequest {
    type V = RequestView;

    open spec fn view(&self) -> RequestView {
        RequestView {
            method: self.method,
            url: self.url@,
            body: match self.body {
                Some(b) => Some(b@),
                None => None,
            },
        }
    }
}

/// Query parameters as pairs of character sequences, in order.
pub open spec fn params_view(ps: Seq<(String, String)>) -> Seq<(Seq<char>, Seq<char>)> {
    ps.map_values(|p: (String, String)| (p.0@, p.1@))
}

/// The URL parsed from `base` with each pair appended, form-urlencoded, to its
/// query, as it serializes; `None` where `base` is no absolute URL.
pub uninterp spec fn url_with_params(
    base: Seq<char>,
    params: Seq<(Seq<char>, Seq<char>)>,
) -> Option<Seq<char>>;

/// Relies on `Url::parse_with_params` of the url crate, as reqwest re-exports
/// it, and on `Url::into_string`: the serialized URL is a function of the base
/// and the pairs alone.
#[verifier::external_body]
pub(crate) fn encode_url(base: &str, params: &Vec<(String, String)>) -> (r: Option<String>)
    ensures
        match r {
            Some(u) => url_with_params(base@, params_view(params@)) == Some(u@),
            None => url_with_params(base@, params_view(params@)) is None,
        },
{
    match reqwest::Url::parse_with_params(base, params.iter()) {
        Ok(u) => Some(u.into_string()),
        Err(_) => None,
    }
}

} // verus!
