//! Decisions of the local OAuth redirect listener.
//!
//! The listener exists only for one login attempt. It accepts the provider's
//! redirect, validates the `state` parameter, shows the user a short
//! confirmation page, and hands the authorization code back to the flow.
//! Reading the socket and writing the answer happen around these functions;
//! what to answer, and whether the login may continue, is decided here.

use vstd::prelude::*;
use vstd::utf8::encode_utf8;

use crate::codecs::{form_pairs, form_urlencoded_pairs, opt_string_view, pairs_view};
use crate::text::{chars_eq, chars_of, decimal, decimal_string, split_once, split_once_chars, string_from_chars, words, words_of};

verus! {

/// Raised when the callback listener cannot serve an authorization code.
#[derive(Debug, Clone, Copy, PartialEq, Eq, Structural)]
pub enum CallbackError {
    /// The local port could not be bound.
    Bind,
    /// The attempt was cancelled while waiting.
    Cancelled,
    /// The listener failed while waiting for the redirect.
    Accept,
}

/// Largest redirect request jinn will read.
pub const MAX_REQUEST_BYTES: usize = 8192;

/// The request target of a `GET <target> ...` request line.
pub open spec fn request_target_of(line: Seq<char>) -> Option<Seq<char>> {
    let w = words(line);
    if w.len() >= 2 && w[0] == "GET"@ {
        Some(w[1])
    } else {
        None
    }
}

/// A request target split into its path and query string.
pub open spec fn target_parts(target: Seq<char>) -> (Seq<char>, Seq<char>) {
    match split_once(target, '?') {
        Some((path, query)) => (path, query),
        None => (target, Seq::empty()),
    }
}

/// The value of the first pair named `key`.
pub open spec fn first_value(pairs: Seq<(Seq<char>, Seq<char>)>, key: Seq<char>) -> Option<Seq<char>>
    decreases pairs.len(),
{
    if pairs.len() == 0 {
        None
    } else if pairs[0].0 == key {
        Some(pairs[0].1)
    } else {
        first_value(pairs.drop_first(), key)
    }
}

/// A minimal self-contained HTML page.
pub open spec fn page_html(title: Seq<char>, detail: Seq<char>) -> Seq<char> {
    "<!doctype html><html><head><meta charset=\"utf-8\"><title>"@ + title
        + "</title></head><body style=\"font-family:system-ui,sans-serif;padding:3rem;text-align:center\"><h1>"@
        + title + "</h1><p>"@ + detail + "</p></body></html>"@
}

/// The page shown after a successful authorization.
pub open spec fn success_html() -> Seq<char> {
    page_html("Authentication complete"@, "You can close this window and return to jinn."@)
}

/// The page shown when a callback could not be accepted.
pub open spec fn error_html(detail: Seq<char>) -> Seq<char> {
    page_html("Authentication failed"@, detail)
}

/// What the listener answers to one request line, and the authorization code
/// it hands back when the request was the expected callback.
pub open spec fn callback_decision(line: Seq<char>, path: Seq<char>, expected_state: Seq<char>) -> (
    u16,
    Seq<char>,
    Option<Seq<char>>,
) {
    match request_target_of(line) {
        None => (400, error_html("Malformed request."@), None),
        Some(target) => {
            let (request_path, query) = target_parts(target);
            if request_path != path {
                (404, error_html("Unexpected callback path."@), None)
            } else {
                let params = form_pairs(encode_utf8(query));
                if first_value(params, "state"@) != Some(expected_state) {
                    (400, error_html("Authorization state mismatch."@), None)
                } else {
                    match first_value(params, "code"@) {
                        Some(code) => if code.len() > 0 {
                            (200, success_html(), Some(code))
                        } else {
                            (400, error_html("Missing authorization code."@), None)
                        },
                        None => (400, error_html("Missing authorization code."@), None),
                    }
                }
            }
        },
    }
}

/// The reason phrase sent with a status code.
pub open spec fn reason_phrase(status: u16) -> Seq<char> {
    if status == 200 {
        "OK"@
    } else if status == 404 {
        "Not Found"@
    } else {
        "Bad Request"@
    }
}

/// A minimal HTTP/1.1 response that closes the connection.
pub open spec fn http_response_text(status: u16, body: Seq<char>) -> Seq<char> {
    "HTTP/1.1 "@ + decimal(status as nat) + " "@ + reason_phrase(status)
        + "\r\nContent-Type: text/html; charset=utf-8\r\nContent-Length: "@ + decimal(
        encode_utf8(body).len(),
    ) + "\r\nConnection: close\r\n\r\n"@ + body
}

/// What the listener does with one request.
#[derive(Debug, Clone, PartialEq, Eq)]
pub struct CallbackReply {
    /// The status code of the answer.
    pub status: u16,
    /// The HTML page sent back to the browser.
    pub body: String,
    /// The authorization code, when the request was the awaited callback.
    pub code: Option<String>,
}

/// Extracts the request target from a `GET /path?query HTTP/1.1` line.
pub fn request_target(request_line: &str) -> (r: Option<String>)
    ensures
        opt_string_view(r) == request_target_of(request_line@),
{
    let cs = chars_of(request_line);
    let w = words_of(cs.as_slice());
    proof {
        assert(w@.map_values(|v: Vec<char>| v@).len() == w@.len());
    }
    if w.len() < 2 {
        return None;
    }
    let get = chars_of("GET");
    let is_get = chars_eq(w[0].as_slice(), get.as_slice());
    proof {
        assert(w@.map_values(|v: Vec<char>| v@)[0] == w@[0]@);
        assert(w@.map_values(|v: Vec<char>| v@)[1] == w@[1]@);
    }
    if is_get {
        Some(string_from_chars(w[1].as_slice()))
    } else {
        None
    }
}

/// Splits a request target into its path and query string.
pub fn split_target(target: &str) -> (r: (String, String))
    ensures
        (r.0@, r.1@) == target_parts(target@),
{
    let cs = chars_of(target);
    match split_once_chars(cs.as_slice(), '?') {
        Some((path, query)) => (string_from_chars(path.as_slice()), string_from_chars(query.as_slice())),
        None => (target.to_owned(), String::new()),
    }
}

/// Renders a minimal self-contained HTML page.
pub fn page(title: &str, detail: &str) -> (s: String)
    ensures
        s@ == page_html(title@, detail@),
{
    let mut s = String::from_str("<!doctype html><html><head><meta charset=\"utf-8\"><title>");
    s.append(title);
    s.append(
        "</title></head><body style=\"font-family:system-ui,sans-serif;padding:3rem;text-align:center\"><h1>",
    );
    s.append(title);
    s.append("</h1><p>");
    s.append(detail);
    s.append("</p></body></html>");
    s
}

/// The page shown after a successful authorization.
pub fn success_page() -> (s: String)
    ensures
        s@ == success_html(),
{
    page("Authentication complete", "You can close this window and return to jinn.")
}

/// The page shown when a callback could not be accepted.
pub fn error_page(detail: &str) -> (s: String)
    ensures
        s@ == error_html(detail@),
{
    page("Authentication failed", detail)
}

/// The value of the first pair named `key`.
fn first_value_of(pairs: &Vec<(String, String)>, key: &str) -> (r: Option<String>)
    ensures
        opt_string_view(r) == first_value(pairs_view(pairs@), key@),
{
    let k = chars_of(key);
    let mut i: usize = 0;
    proof {
        lemma_skip_zero_pairs(pairs@);
    }
    while i < pairs.len()
        invariant
            i <= pairs@.len(),
            k@ == key@,
            first_value(pairs_view(pairs@), key@) == first_value(
                pairs_view(pairs@.skip(i as int)),
                key@,
            ),
        decreases pairs@.len() - i,
    {
        let name = chars_of(pairs[i].0.as_str());
        proof {
            assert(pairs_view(pairs@.skip(i as int)).drop_first() =~= pairs_view(
                pairs@.skip(i + 1),
            ));
            assert(pairs_view(pairs@.skip(i as int))[0] == (pairs@[i as int].0@, pairs@[
                i as int
            ].1@));
        }
        if chars_eq(name.as_slice(), k.as_slice()) {
            return Some(pairs[i].1.clone());
        }
        i = i + 1;
    }
    proof {
        assert(pairs_view(pairs@.skip(i as int)) =~= Seq::<(Seq<char>, Seq<char>)>::empty());
    }
    None
}

proof fn lemma_skip_zero_pairs(v: Seq<(String, String)>)
    ensures
        v.skip(0) == v,
{
    assert(v.skip(0) =~= v);
}

/// Decides the answer to one request line: an error page for anything but
/// the awaited redirect, or the success page and the authorization code.
///
/// Requests to other paths, or carrying a mismatched `state`, are refused and
/// the listener keeps waiting.
pub fn callback_reply(request_line: &str, path: &str, expected_state: &str) -> (r: CallbackReply)
    ensures
        (r.status, r.body@, opt_string_view(r.code)) == callback_decision(
            request_line@,
            path@,
            expected_state@,
        ),
{
    let target = match request_target(request_line) {
        Some(t) => t,
        None => {
            return CallbackReply { status: 400, body: error_page("Malformed request."), code: None };
        },
    };
    let (request_path, query) = split_target(target.as_str());
    let rp = chars_of(request_path.as_str());
    let p = chars_of(path);
    if !chars_eq(rp.as_slice(), p.as_slice()) {
        return CallbackReply {
            status: 404,
            body: error_page("Unexpected callback path."),
            code: None,
        };
    }
    let params = form_urlencoded_pairs(query.as_str().as_bytes());
    let state = first_value_of(&params, "state");
    let state_ok = match &state {
        Some(s) => {
            let a = chars_of(s.as_str());
            let b = chars_of(expected_state);
            chars_eq(a.as_slice(), b.as_slice())
        },
        None => false,
    };
    if !state_ok {
        return CallbackReply {
            status: 400,
            body: error_page("Authorization state mismatch."),
            code: None,
        };
    }
    match first_value_of(&params, "code") {
        Some(code) => {
            if code.as_str().is_empty() {
                CallbackReply {
                    status: 400,
                    body: error_page("Missing authorization code."),
                    code: None,
                }
            } else {
                CallbackReply { status: 200, body: success_page(), code: Some(code) }
            }
        },
        None => CallbackReply {
            status: 400,
            body: error_page("Missing authorization code."),
            code: None,
        },
    }
}

/// The reason phrase sent with a status code.
pub fn status_reason(status: u16) -> (s: &'static str)
    ensures
        s@ == reason_phrase(status),
{
    if status == 200 {
        "OK"
    } else if status == 404 {
        "Not Found"
    } else {
        "Bad Request"
    }
}

/// Builds the HTTP response the listener writes before closing the
/// connection.
pub fn http_response(status: u16, body: &str) -> (s: String)
    ensures
        s@ == http_response_text(status, body@),
{
    let mut s = String::from_str("HTTP/1.1 ");
    let code = decimal_string(status as u64);
    s.append(code.as_str());
    s.append(" ");
    s.append(status_reason(status));
    s.append("\r\nContent-Type: text/html; charset=utf-8\r\nContent-Length: ");
    let len = body.as_bytes().len();
    let len_text = decimal_string(len as u64);
    s.append(len_text.as_str());
    s.append("\r\nConnection: close\r\n\r\n");
    s.append(body);
    s
}

} // verus!
