//! A typed client library for the Wise Old Man REST API.
//!
//! The crate holds everything the client decides or computes: the metric
//! vocabularies with their two-phase wire decoder, URL and query-string
//! building for every endpoint, and the dispatch on HTTP status and body.
//! The transport itself (connection handling, TLS, the async calls) is left
//! to the embedding application.
pub mod clients;
pub mod models;
pub mod text;

use vstd::prelude::*;

use crate::text::dec_int;
use crate::text::i32_to_string;

verus! {

/// The top-level API families exposed by the upstream service.
pub enum ApiEndpoint {
    Player,
    Group,
}

impl ApiEndpoint {
    /// The path prefix that every endpoint of this family starts with.
    pub open spec fn path_spec(self) -> Seq<char> {
        match self {
            ApiEndpoint::Player => "/players"@,
            ApiEndpoint::Group => "/groups"@,
        }
    }

    pub fn as_str(&self) -> (r: &'static str)
        ensures
            r@ == self.path_spec(),
    {
        match self {
            ApiEndpoint::Player => "/players",
            ApiEndpoint::Group => "/groups",
        }
    }
}

/// One `key=value` query parameter.
pub type QueryParam = (String, String);

/// An ordered list of query parameters, rendered in the order given.
pub type QueryParams = Vec<QueryParam>;

/// An optional result window for list-returning endpoints. An unset field
/// falls back to the upstream default: 20 results from offset 0.
#[derive(Debug, Clone, Copy)]
pub struct Pagination {
    pub limit: Option<i32>,
    pub offset: Option<i32>,
}

impl Pagination {
    /// The limit actually sent: the field, or 20 where it is unset.
    pub open spec fn limit_or_default(self) -> int {
        match self.limit {
            Some(l) => l as int,
            None => 20,
        }
    }

    /// The offset actually sent: the field, or 0 where it is unset.
    pub open spec fn offset_or_default(self) -> int {
        match self.offset {
            Some(o) => o as int,
            None => 0,
        }
    }

    /// The two query parameters this window contributes, in order.
    pub fn to_query(&self) -> (r: QueryParams)
        ensures
            r@.len() == 2,
            r@[0].0@ == "limit"@,
            r@[0].1@ == dec_int(self.limit_or_default()),
            r@[1].0@ == "offset"@,
            r@[1].1@ == dec_int(self.offset_or_default()),
    {
        let limit_value: i32 = match self.limit {
            Some(l) => l,
            None => 20,
        };
        let offset_value: i32 = match self.offset {
            Some(o) => o,
            None => 0,
        };
        let mut out: QueryParams = Vec::new();
        out.push(("limit".to_owned(), i32_to_string(limit_value)));
        out.push(("offset".to_owned(), i32_to_string(offset_value)));
        out
    }
}

/// The characters of an ordered parameter list.
pub open spec fn params_view(ps: Seq<(String, String)>) -> Seq<(Seq<char>, Seq<char>)> {
    ps.map_values(|p: (String, String)| (p.0@, p.1@))
}

/// The rendering of `ps[i..]` in a query string: each pair becomes
/// `key=value`, the first pair overall is prefixed with `?`, every later one
/// with `&`.
pub open spec fn query_string_from(ps: Seq<(Seq<char>, Seq<char>)>, i: int) -> Seq<char>
    decreases ps.len() - i,
{
    if i < 0 || i >= ps.len() {
        Seq::empty()
    } else {
        (if i == 0 {
            seq!['?']
        } else {
            seq!['&']
        }) + ps[i].0 + seq!['='] + ps[i].1 + query_string_from(ps, i + 1)
    }
}

/// The full query string of an ordered parameter list; empty when the list
/// is empty.
pub open spec fn query_string_spec(ps: Seq<(Seq<char>, Seq<char>)>) -> Seq<char> {
    query_string_from(ps, 0)
}

/// Renders query parameters in the order supplied by the caller.
pub fn query_params_to_string(query_params: &QueryParams) -> (r: String)
    ensures
        r@ == query_string_spec(params_view(query_params@)),
{
    let mut out = String::new();
    let len = query_params.len();
    let mut i: usize = 0;
    while i < len
        invariant
            i <= len,
            len == query_params@.len(),
            out@ + query_string_from(params_view(query_params@), i as int) == query_string_spec(
                params_view(query_params@),
            ),
        decreases len - i,
    {
        let p = &query_params[i];
        if i == 0 {
            text::push_char(&mut out, '?');
        } else {
            text::push_char(&mut out, '&');
        }
        out.append(p.0.as_str());
        text::push_char(&mut out, '=');
        out.append(p.1.as_str());
        i = i + 1;
    }
    out
}

/// The query parameters a pagination option contributes: none when it is
/// absent, its limit and offset (with their defaults) when it is present.
pub open spec fn pagination_params_spec(p: Option<Pagination>) -> Seq<(Seq<char>, Seq<char>)> {
    match p {
        Some(pg) => seq![
            ("limit"@, dec_int(pg.limit_or_default())),
            ("offset"@, dec_int(pg.offset_or_default())),
        ],
        None => Seq::empty(),
    }
}

/// Joins a base URL, an endpoint path and an optional query-parameter list
/// into one absolute URL.
pub fn get_url(base_url: &str, endpoint_url: String, query_params: Option<&QueryParams>) -> (r:
    String)
    ensures
        r@ == base_url@ + endpoint_url@ + (match query_params {
            Some(q) => query_string_spec(params_view(q@)),
            None => Seq::empty(),
        }),
{
    let mut out = base_url.to_owned();
    out.append(endpoint_url.as_str());
    match query_params {
        Some(q) => {
            let qs = query_params_to_string(q);
            out.append(qs.as_str());
        },
        None => {
            proof {
                assert(out@ + Seq::<char>::empty() =~= out@);
            }
        },
    }
    out
}

/// What can go wrong in a client call: a network failure surfaced unchanged,
/// a body that could not be decoded, an error the upstream service reported,
/// or a metric token no vocabulary recognizes.
#[derive(Debug, Clone, PartialEq, Eq)]
pub enum WomError {
    Transport(String),
    Decode(String),
    Upstream(String),
    UnknownMetric(String),
}

impl WomError {
    /// The text carried by this error.
    pub open spec fn message_spec(self) -> Seq<char> {
        match self {
            WomError::Transport(s) => s@,
            WomError::Decode(s) => s@,
            WomError::Upstream(s) => s@,
            WomError::UnknownMetric(s) => s@,
        }
    }

    pub fn message(&self) -> (r: &String)
        ensures
            r@ == self.message_spec(),
    {
        match self {
            WomError::Transport(s) => s,
            WomError::Decode(s) => s,
            WomError::Upstream(s) => s,
            WomError::UnknownMetric(s) => s,
        }
    }
}

/// The `message` field of the upstream error envelope `{ "message": ... }`,
/// when `body` is a JSON document that carries one; a function of the body
/// text alone.
pub uninterp spec fn envelope_message_of(body: Seq<char>) -> Option<Seq<char>>;

/// Relies on serde_json::from_str and serde_json::Value::get / Value::as_str:
/// parses the error envelope `{ "message": <string> }` and hands out the
/// message, or nothing when the body is not such a document.
#[verifier::external_body]
fn parse_error_envelope(body: &str) -> (r: Option<String>)
    ensures
        r matches Some(m) ==> envelope_message_of(body@) == Some(m@),
        r is None ==> envelope_message_of(body@) is None,
{
    match serde_json::from_str::<serde_json::Value>(body) {
        Ok(v) => match v.get("message") {
            Some(m) => match m.as_str() {
                Some(s) => Some(s.to_string()),
                None => None,
            },
            None => None,
        },
        Err(_) => None,
    }
}

/// Dispatches on a completed exchange, given as status and raw body (or the
/// transport failure's text). A 200 hands the body through for decoding;
/// every other status is read as the upstream error envelope, whose message
/// is surfaced, falling back to a decode error carrying the body; a
/// transport failure is surfaced unchanged.
pub fn handle_response(response: Result<(u16, String), String>) -> (r: Result<String, WomError>)
    ensures
        response matches Ok(p) ==> (if p.0 == 200 {
            r matches Ok(b) && b@ == p.1@
        } else {
            match envelope_message_of(p.1@) {
                Some(m) => r matches Err(e) && e matches WomError::Upstream(s) && s@ == m,
                None => r matches Err(e) && e matches WomError::Decode(s) && s@ == p.1@,
            }
        }),
        response matches Err(t) ==> (r matches Err(e) && e matches WomError::Transport(s) && s@
            == t@),
{
    match response {
        Ok((status, body)) => {
            if status == 200 {
                Ok(body)
            } else {
                match parse_error_envelope(body.as_str()) {
                    Some(m) => Err(WomError::Upstream(m)),
                    None => Err(WomError::Decode(body)),
                }
            }
        },
        Err(t) => Err(WomError::Transport(t)),
    }
}

} // verus!
