use crate::date::Date;
use crate::rate_limit::RateLimitInfo;
use vstd::prelude::*;

verus! {

#[verifier::external_type_specification]
#[verifier::external_body]
pub struct ExParseError(url::ParseError);

#[verifier::external_type_specification]
#[verifier::external_body]
pub struct ExReqwestError(reqwest::Error);

/// Client errors
#[derive(Debug)]
pub enum APODClientError {
    /// Service URL cannot be created
    InvalidURL { source: url::ParseError },
    /// Rate limit exceeded for this API key
    RateLimitError,
    /// IO error encountered while performing request
    IOError { source: reqwest::Error },
    /// Request failed with invalid HTTP status code; the cause is the HTTP
    /// client's own error, where it reported one
    RequestStatusError { status: u16, source: Option<reqwest::Error> },
    /// Error while decoding response content
    DecodeError { source: reqwest::Error },
}

/// The service's address, used by `APODClient::new`.
pub open spec fn default_base_url() -> Seq<char> {
    "https://api.nasa.gov/planetary/apod"@
}

/// A client for the NASA "Astronomy Picture Of the Day" service: the
/// service's base URL and an API key, both fixed at construction.
pub struct APODClient {
    base_url: String,
    api_key: String,
}

/// A query parameter: name and value.
pub type QueryPair = (String, String);

/// The text of each name and value of a list of query parameters.
pub open spec fn pair_views(pairs: Seq<QueryPair>) -> Seq<(Seq<char>, Seq<char>)> {
    pairs.map_values(|p: QueryPair| (p.0@, p.1@))
}

/// `true` or `false`.
pub open spec fn bool_text(b: bool) -> Seq<char> {
    if b {
        "true"@
    } else {
        "false"@
    }
}

/// The query of a request, in order: `api_key`, `hd`, then `date` where the
/// date gives one.
pub open spec fn query_spec(api_key: Seq<char>, date: Date, hd: bool) -> Seq<(Seq<char>, Seq<char>)> {
    let head = seq![("api_key"@, api_key), ("hd"@, bool_text(hd))];
    match date.param_spec() {
        Some(d) => head.push(("date"@, d)),
        None => head,
    }
}

/// The serialization of the URL that `base` parses to, with `pairs` appended
/// to its query in form-urlencoded form; `None` where `base` is no URL.
pub uninterp spec fn url_with_query(base: Seq<char>, pairs: Seq<(Seq<char>, Seq<char>)>) -> Option<
    Seq<char>,
>;

/// Relies on `url::Url::parse_with_params`: it parses `base` and, where that
/// succeeds, appends each pair to the query; the URL is handed back as its
/// serialization.
#[verifier::external_body]
fn parse_with_params(base: &str, pairs: &Vec<QueryPair>) -> (r: Result<String, url::ParseError>)
    ensures
        match r {
            Ok(s) => url_with_query(base@, pair_views(pairs@)) == Some(s@),
            Err(_) => url_with_query(base@, pair_views(pairs@)) is None,
        },
{
    url::Url::parse_with_params(base, pairs).map(String::from)
}

impl APODClient {
    /// The base URL the client was built with.
    pub closed spec fn base_url_spec(&self) -> Seq<char> {
        self.base_url@
    }

    /// The API key the client was built with.
    pub closed spec fn api_key_spec(&self) -> Seq<char> {
        self.api_key@
    }

    /// Build a client using the provided `api_key` and the service's own address.
    pub fn new(api_key: &str) -> (r: Self)
        ensures
            r.base_url_spec() == default_base_url(),
            r.api_key_spec() == api_key@,
    {
        Self::config("https://api.nasa.gov/planetary/apod", api_key)
    }

    /// Build a client by overriding server `base_url` and providing `api_key`
    pub fn config(base_url: &str, api_key: &str) -> (r: Self)
        ensures
            r.base_url_spec() == base_url@,
            r.api_key_spec() == api_key@,
    {
        APODClient { base_url: String::from_str(base_url), api_key: String::from_str(api_key) }
    }

    /// The query parameters of a request for `date`, high definition or not.
    pub fn query_pairs(&self, date: &Date, hd: bool) -> (r: Vec<QueryPair>)
        ensures
            pair_views(r@) == query_spec(self.api_key_spec(), *date, hd),
    {
        let hd_text = if hd {
            String::from_str("true")
        } else {
            String::from_str("false")
        };
        let mut pairs: Vec<QueryPair> = Vec::new();
        pairs.push((String::from_str("api_key"), self.api_key.clone()));
        pairs.push((String::from_str("hd"), hd_text));
        match date.as_param() {
            Some(d) => pairs.push((String::from_str("date"), d)),
            None => {},
        }
        assert(pair_views(pairs@) =~= query_spec(self.api_key_spec(), *date, hd));
        pairs
    }

    /// The URL of a request for `date`, high definition or not; fails where the
    /// base URL cannot be parsed.
    pub fn build_url(&self, date: &Date, hd: bool) -> (r: Result<String, APODClientError>)
        ensures
            match r {
                Ok(s) => url_with_query(self.base_url_spec(), query_spec(self.api_key_spec(), *date, hd))
                    == Some(s@),
                Err(e) => url_with_query(
                    self.base_url_spec(),
                    query_spec(self.api_key_spec(), *date, hd),
                ) is None && e is InvalidURL,
            },
    {
        let pairs = self.query_pairs(date, hd);
        match parse_with_params(self.base_url.as_str(), &pairs) {
            Ok(s) => Ok(s),
            Err(source) => Err(APODClientError::InvalidURL { source }),
        }
    }
}

/// What to do with a response, once its status and rate-limit headers are
/// known.
#[derive(Debug, Clone, Copy, PartialEq, Eq, Structural)]
pub enum ResponseAction {
    /// Fail with `APODClientError::RateLimitError`.
    RateLimited,
    /// Fail with `APODClientError::RequestStatusError` for this status.
    StatusFailed { status: u16 },
    /// Decode the body as `APODMetadata`.
    DecodeBody,
}

/// A status that marks a failed request: any status outside the success
/// class 2xx.
pub open spec fn is_error_status(status: u16) -> bool {
    !(200 <= status <= 299)
}

/// What a response with this quota and status leads to.
pub open spec fn response_action_spec(info: RateLimitInfo, status: u16) -> ResponseAction {
    if info.remaining == 0 {
        ResponseAction::RateLimited
    } else if is_error_status(status) {
        ResponseAction::StatusFailed { status }
    } else {
        ResponseAction::DecodeBody
    }
}

/// Decides what a response leads to. An exhausted quota is reported first,
/// whatever the status; then any status outside 2xx; the body is read only
/// otherwise.
pub fn response_action(info: &RateLimitInfo, status: u16) -> (r: ResponseAction)
    ensures
        r == response_action_spec(*info, status),
        info.remaining == 0 ==> r == ResponseAction::RateLimited,
        info.remaining != 0 && is_error_status(status) ==> r == (ResponseAction::StatusFailed {
            status,
        }),
{
    if info.remaining == 0 {
        ResponseAction::RateLimited
    } else if status < 200 || status > 299 {
        ResponseAction::StatusFailed { status }
    } else {
        ResponseAction::DecodeBody
    }
}

} // verus!
