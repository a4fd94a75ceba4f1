//! WebSocket endpoint construction over `reqwest`'s URL type.

use vstd::prelude::*;
use crate::text::{concat, str_equal};

verus! {

/// What parsing a URL gives: its scheme, or the parser's error message.
pub uninterp spec fn url_scheme_result(raw: Seq<char>) -> Result<Seq<char>, Seq<char>>;

/// What re-parsing a URL and replacing its scheme, path and query gives: the
/// serialized URL, the parser's error message, or `None` when the scheme
/// could not be replaced.
pub uninterp spec fn url_rebuild_result(
    raw: Seq<char>,
    scheme: Seq<char>,
    path: Seq<char>,
    query: Seq<char>,
) -> Result<Seq<char>, Option<Seq<char>>>;

pub open spec fn string_result_view(r: Result<String, String>) -> Result<Seq<char>, Seq<char>> {
    match r {
        Ok(s) => Ok(s@),
        Err(e) => Err(e@),
    }
}

pub open spec fn rebuild_view(r: Result<String, Option<String>>) -> Result<
    Seq<char>,
    Option<Seq<char>>,
> {
    match r {
        Ok(s) => Ok(s@),
        Err(Some(e)) => Err(Some(e@)),
        Err(None) => Err(None),
    }
}

/// Parses a URL with `reqwest::Url::parse` and returns its scheme
/// (`Url::scheme`), or the parse error's message. The contract names the
/// result as a function of the input alone; the URL grammar is not restated.
#[verifier::external_body]
fn parse_url_scheme(raw: &str) -> (r: Result<String, String>)
    ensures
        string_result_view(r) == url_scheme_result(raw@),
{
    match reqwest::Url::parse(raw) {
        Ok(url) => Ok(url.scheme().to_string()),
        Err(error) => Err(error.to_string()),
    }
}

/// Parses a URL with `reqwest::Url::parse`, then calls `set_scheme`,
/// `set_path` and `set_query(Some(..))` and serializes it. The contract names
/// the result as a function of the four arguments alone.
#[verifier::external_body]
fn rebuild_url(raw: &str, scheme: &str, path: &str, query: &str) -> (r: Result<
    String,
    Option<String>,
>)
    ensures
        rebuild_view(r) == url_rebuild_result(raw@, scheme@, path@, query@),
{
    let mut url = match reqwest::Url::parse(raw) {
        Ok(url) => url,
        Err(error) => return Err(Some(error.to_string())),
    };
    if url.set_scheme(scheme).is_err() {
        return Err(None);
    }
    url.set_path(path);
    url.set_query(Some(query));
    Ok(url.to_string())
}

/// The WebSocket URI for a server URL rebuilt with a given scheme.
pub open spec fn rebuilt_ws_uri(raw: Seq<char>, scheme: Seq<char>, token: Seq<char>) -> Result<
    Seq<char>,
    Seq<char>,
> {
    match url_rebuild_result(raw, scheme, "/ws"@, "token="@ + token) {
        Ok(u) => Ok(u),
        Err(Some(e)) => Err(e),
        Err(None) => Err("failed to set websocket scheme"@),
    }
}

/// The WebSocket URI of a server: `https`/`wss` servers get `wss`, `http`/`ws`
/// servers get `ws`, the path becomes `/ws` and the query `token=<token>`.
/// Any other scheme, or a URL that does not parse, is an error message.
pub open spec fn ws_uri_result(raw: Seq<char>, token: Seq<char>) -> Result<Seq<char>, Seq<char>> {
    match url_scheme_result(raw) {
        Err(e) => Err(e),
        Ok(s) => if s == "https"@ || s == "wss"@ {
            rebuilt_ws_uri(raw, "wss"@, token)
        } else if s == "http"@ || s == "ws"@ {
            rebuilt_ws_uri(raw, "ws"@, token)
        } else {
            Err("unsupported base scheme: "@ + s)
        },
    }
}

fn rebuild_ws(raw: &str, scheme: &str, token: &str) -> (r: Result<String, String>)
    ensures
        string_result_view(r) == rebuilt_ws_uri(raw@, scheme@, token@),
{
    let query = concat("token=", token);
    match rebuild_url(raw, scheme, "/ws", query.as_str()) {
        Ok(u) => Ok(u),
        Err(Some(e)) => Err(e),
        Err(None) => Err("failed to set websocket scheme".to_string()),
    }
}

/// Builds the WebSocket URI of a server for an access token; the error is a message.
pub fn build_ws_uri(raw_server_url: &str, token: &str) -> (r: Result<String, String>)
    ensures
        string_result_view(r) == ws_uri_result(raw_server_url@, token@),
{
    let scheme = match parse_url_scheme(raw_server_url) {
        Ok(s) => s,
        Err(e) => return Err(e),
    };
    if str_equal(scheme.as_str(), "https") || str_equal(scheme.as_str(), "wss") {
        rebuild_ws(raw_server_url, "wss", token)
    } else if str_equal(scheme.as_str(), "http") || str_equal(scheme.as_str(), "ws") {
        rebuild_ws(raw_server_url, "ws", token)
    } else {
        Err(concat("unsupported base scheme: ", scheme.as_str()))
    }
}

/// The part of a URI before its query: a label that can be shown without the token.
pub open spec fn endpoint_label(uri: Seq<char>) -> Seq<char>
    decreases uri.len(),
{
    if uri.len() == 0 || uri[0] == '?' {
        Seq::empty()
    } else {
        seq![uri[0]] + endpoint_label(uri.drop_first())
    }
}

/// The URI without its query, for display.
pub fn public_endpoint_label(uri: &str) -> (label: String)
    ensures
        label@ == endpoint_label(uri@),
{
    let chars = crate::text::chars_of(uri);
    let mut out: Vec<char> = Vec::new();
    let mut i: usize = 0;
    proof {
        assert(uri@.skip(0) =~= uri@);
        assert(out@ + endpoint_label(uri@) =~= endpoint_label(uri@));
    }
    while i < chars.len()
        invariant
            chars@ == uri@,
            i <= chars@.len(),
            endpoint_label(uri@) == out@ + endpoint_label(uri@.skip(i as int)),
        ensures
            i <= chars@.len(),
            i < chars@.len() ==> chars@[i as int] == '?',
            endpoint_label(uri@) == out@ + endpoint_label(uri@.skip(i as int)),
        decreases chars@.len() - i,
    {
        if chars[i] == '?' {
            proof {
                assert(uri@.skip(i as int)[0] == '?');
            }
            break;
        }
        proof {
            let rest = uri@.skip(i as int);
            assert(rest[0] == chars@[i as int]);
            assert(rest.drop_first() =~= uri@.skip(i + 1));
            assert(out@.push(chars@[i as int]) + endpoint_label(uri@.skip(i + 1)) =~= out@ + (
            seq![rest[0]] + endpoint_label(rest.drop_first())));
        }
        out.push(chars[i]);
        i = i + 1;
    }
    proof {
        if i == chars.len() {
            assert(uri@.skip(i as int).len() == 0);
        } else {
            assert(uri@.skip(i as int)[0] == '?');
        }
        assert(endpoint_label(uri@.skip(i as int)) == Seq::<char>::empty());
        assert(out@ =~= out@ + endpoint_label(uri@.skip(i as int)));
    }
    crate::text::string_from_chars(&out)
}

} // verus!
