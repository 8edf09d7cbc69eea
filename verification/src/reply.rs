//! Reading the reply to a command.
//!
//! A command succeeds or fails by what the server answers. The readers here
//! take the answer as text and say what it means; none of them talks to the
//! server.

use crate::browser::{generate_browser_links, Browser, Cookie, CookieModel, Timeouts, WindowRect};
use crate::decode::{
    bool_value_in, cookie_models, cookie_of, cookies_in, cookies_of, from_value_to_cookie,
    parse_reply, session_id_in, session_id_of, string_list_in, string_list_of, string_value_in,
    text_entry, texts, timeouts_in, timeouts_of, window_pair_in, window_rect_in, window_rect_of,
};
use crate::envelope::{is_success_marker, success_marker};
use crate::error::{CommandError, TransportError};
use crate::json::{json_entry, json_parse, tree_entry, JsonTree};
use crate::text::{contains, has_substring};
use vstd::prelude::*;
use vstd::string::*;

verus! {

/// The reply reports an error: the word `error` stands somewhere in it.
pub open spec fn reports_error(resp: Seq<char>) -> bool {
    has_substring(resp, "error"@)
}

/// Whether the reply reports an error.
pub fn is_error_reply(resp: &str) -> (r: bool)
    ensures
        r == reports_error(resp@),
{
    contains(resp, "error")
}

/// A command that returns nothing has failed where its reply reports an
/// error; the reply is then handed back as the failure.
pub fn fail_on_error(resp: String) -> (r: Result<(), String>)
    ensures
        match r {
            Ok(_) => !reports_error(resp@),
            Err(e) => reports_error(resp@) && e == resp,
        },
{
    if is_error_reply(resp.as_str()) {
        Err(resp)
    } else {
        Ok(())
    }
}

/// A command that returns nothing has succeeded where the body of its reply
/// is exactly the success marker; any other body is handed back as the
/// failure.
pub fn expect_success(resp: String) -> (r: Result<(), String>)
    ensures
        match r {
            Ok(_) => resp@ == success_marker(),
            Err(e) => resp@ != success_marker() && e == resp,
        },
{
    if is_success_marker(resp.as_str()) {
        Ok(())
    } else {
        Err(resp)
    }
}

/// Judges the outcome of a cycle for a command that returns nothing. The
/// command has succeeded exactly where a body came back and is the success
/// marker. Where the cycle failed, its error is handed on; any other body is
/// handed back as the failure.
pub fn confirm_success(body: Result<String, TransportError>) -> (r: Result<(), CommandError>)
    ensures
        match body {
            Err(e) => r == Err::<(), CommandError>(CommandError::Transport(e)),
            Ok(resp) => if resp@ == success_marker() {
                r is Ok
            } else {
                r == Err::<(), CommandError>(CommandError::Reply(resp))
            },
        },
{
    match body {
        Err(e) => Err(CommandError::Transport(e)),
        Ok(resp) => match expect_success(resp) {
            Ok(()) => Ok(()),
            Err(reply) => Err(CommandError::Reply(reply)),
        },
    }
}

/// Judges the outcome of the text path for a command that returns a plain
/// text, such as an address, a title or a window handle. The command gives
/// the extracted text, unchanged, unless that text reports an error, in which
/// case it is handed back as the failure. Where the cycle failed, its error
/// is handed on.
pub fn text_unless_error(extracted: Result<String, TransportError>) -> (r: Result<
    String,
    CommandError,
>)
    ensures
        match extracted {
            Err(e) => r == Err::<String, CommandError>(CommandError::Transport(e)),
            Ok(text) => if reports_error(text@) {
                r == Err::<String, CommandError>(CommandError::Reply(text))
            } else {
                r == Ok::<String, CommandError>(text)
            },
        },
{
    match extracted {
        Err(e) => Err(CommandError::Transport(e)),
        Ok(text) => match raw_unless_error(text) {
            Ok(text) => Ok(text),
            Err(reply) => Err(CommandError::Reply(reply)),
        },
    }
}

/// A command that returns a text as it is, such as the whole reply to a
/// script: that text, unless it reports an error.
pub fn raw_unless_error(resp: String) -> (r: Result<String, String>)
    ensures
        match r {
            Ok(text) => !reports_error(resp@) && text == resp,
            Err(e) => reports_error(resp@) && e == resp,
        },
{
    if is_error_reply(resp.as_str()) {
        Err(resp)
    } else {
        Ok(resp)
    }
}

/// The reply to a property request: the reply as it is, `null` in place of
/// the success marker, unless the reply reports an error.
pub fn property_unless_error(resp: String) -> (r: Result<String, String>)
    ensures
        match r {
            Ok(text) => !reports_error(resp@) && text@ == (if resp@ == success_marker() {
                "null"@
            } else {
                resp@
            }),
            Err(e) => reports_error(resp@) && e == resp,
        },
{
    if is_error_reply(resp.as_str()) {
        return Err(resp);
    }
    if is_success_marker(resp.as_str()) {
        Ok(String::from_str("null"))
    } else {
        Ok(resp)
    }
}

/// The document that a reply parses to.
pub open spec fn reply_document(resp: Seq<char>) -> Option<JsonTree> {
    json_parse(vstd::utf8::encode_utf8(resp))
}

/// The `value` entry of a reply that reports no error.
pub open spec fn reply_value(resp: Seq<char>) -> Option<JsonTree> {
    if reports_error(resp) {
        None
    } else {
        match reply_document(resp) {
            Some(doc) => tree_entry(doc, "value"@),
            None => None,
        }
    }
}

/// The timeouts that the reply to a timeouts request carries. A reply that
/// reports an error or carries no timeouts is handed back as the failure.
pub fn timeouts_from_reply(resp: String) -> (r: Result<Timeouts, String>)
    ensures
        match r {
            Ok(t) => reply_value(resp@) matches Some(v) && timeouts_of(v) == Some(t),
            Err(e) => e == resp && !(reply_value(resp@) matches Some(v) && timeouts_of(v) is Some),
        },
{
    if is_error_reply(resp.as_str()) {
        return Err(resp);
    }
    let doc = match parse_reply(resp.as_str()) {
        Some(doc) => doc,
        None => {
            return Err(resp);
        },
    };
    let found = match json_entry(&doc, "value") {
        Some(value) => timeouts_in(value),
        None => None,
    };
    match found {
        Some(t) => Ok(t),
        None => Err(resp),
    }
}

/// The list of handles that a reply carries. A reply that reports an error
/// or carries no list of strings is handed back as the failure.
pub fn handles_from_reply(resp: String) -> (r: Result<Vec<String>, String>)
    ensures
        match r {
            Ok(list) => reply_value(resp@) matches Some(v) && string_list_of(v) == Some(
                texts(list@),
            ),
            Err(e) => e == resp && !(reply_value(resp@) matches Some(v) && string_list_of(v)
                is Some),
        },
{
    if is_error_reply(resp.as_str()) {
        return Err(resp);
    }
    let doc = match parse_reply(resp.as_str()) {
        Some(doc) => doc,
        None => {
            return Err(resp);
        },
    };
    let found = match json_entry(&doc, "value") {
        Some(value) => string_list_in(value),
        None => None,
    };
    match found {
        Some(list) => Ok(list),
        None => Err(resp),
    }
}

/// The handle and the kind of the window that a reply announces. A reply
/// that reports an error or lacks either of them is handed back as the
/// failure.
pub fn window_from_reply(resp: String) -> (r: Result<(String, String), String>)
    ensures
        match r {
            Ok((handle, kind)) => reply_value(resp@) matches Some(v) && text_entry(v, "handle"@)
                == Some(handle@) && text_entry(v, "type"@) == Some(kind@),
            Err(e) => e == resp && !(reply_value(resp@) matches Some(v) && text_entry(
                v,
                "handle"@,
            ) is Some && text_entry(v, "type"@) is Some),
        },
{
    if is_error_reply(resp.as_str()) {
        return Err(resp);
    }
    let doc = match parse_reply(resp.as_str()) {
        Some(doc) => doc,
        None => {
            return Err(resp);
        },
    };
    let found = match json_entry(&doc, "value") {
        Some(value) => window_pair_in(value),
        None => None,
    };
    match found {
        Some(pair) => Ok(pair),
        None => Err(resp),
    }
}

/// The rectangle that a reply carries. A reply that reports an error or
/// carries no rectangle is handed back as the failure.
pub fn window_rect_from_reply(resp: String) -> (r: Result<WindowRect, String>)
    ensures
        match r {
            Ok(rect) => reply_value(resp@) matches Some(v) && window_rect_of(v) == Some(rect),
            Err(e) => e == resp && !(reply_value(resp@) matches Some(v) && window_rect_of(v)
                is Some),
        },
{
    if is_error_reply(resp.as_str()) {
        return Err(resp);
    }
    let doc = match parse_reply(resp.as_str()) {
        Some(doc) => doc,
        None => {
            return Err(resp);
        },
    };
    let found = match json_entry(&doc, "value") {
        Some(value) => window_rect_in(value),
        None => None,
    };
    match found {
        Some(rect) => Ok(rect),
        None => Err(resp),
    }
}

/// The string that a reply carries, such as the source of a page or the
/// text of an element. A reply that reports an error or carries no string
/// is handed back as the failure.
pub fn string_from_reply(resp: String) -> (r: Result<String, String>)
    ensures
        match r {
            Ok(text) => reply_value(resp@) == Some(JsonTree::Text(text@)),
            Err(e) => e == resp && !(reply_value(resp@) matches Some(v) && v is Text),
        },
{
    if is_error_reply(resp.as_str()) {
        return Err(resp);
    }
    let doc = match parse_reply(resp.as_str()) {
        Some(doc) => doc,
        None => {
            return Err(resp);
        },
    };
    match string_value_in(&doc) {
        Some(text) => Ok(text),
        None => Err(resp),
    }
}

/// The attribute that a reply carries: `null` for the success marker, the
/// string of any other reply as [`string_from_reply`] reads it.
pub fn attribute_from_reply(resp: String) -> (r: Result<String, String>)
    ensures
        match r {
            Ok(text) => !reports_error(resp@) && (if resp@ == success_marker() {
                text@ == "null"@
            } else {
                reply_value(resp@) == Some(JsonTree::Text(text@))
            }),
            Err(e) => e == resp && (reports_error(resp@) || (resp@ != success_marker()
                && !(reply_value(resp@) matches Some(v) && v is Text))),
        },
{
    if is_error_reply(resp.as_str()) {
        return Err(resp);
    }
    if is_success_marker(resp.as_str()) {
        return Ok(String::from_str("null"));
    }
    string_from_reply(resp)
}

/// The truth value that a reply carries. A reply that reports an error or
/// carries no boolean is handed back as the failure.
pub fn bool_from_reply(resp: String) -> (r: Result<bool, String>)
    ensures
        match r {
            Ok(b) => reply_value(resp@) == Some(JsonTree::Bool(b)),
            Err(e) => e == resp && !(reply_value(resp@) matches Some(v) && v is Bool),
        },
{
    if is_error_reply(resp.as_str()) {
        return Err(resp);
    }
    let doc = match parse_reply(resp.as_str()) {
        Some(doc) => doc,
        None => {
            return Err(resp);
        },
    };
    match bool_value_in(&doc) {
        Some(b) => Ok(b),
        None => Err(resp),
    }
}

/// The cookies that a reply lists. A reply that reports an error or
/// carries no list of cookies is handed back as the failure.
pub fn cookies_from_reply(resp: String) -> (r: Result<Vec<Cookie>, String>)
    ensures
        match r {
            Ok(list) => reply_value(resp@) matches Some(v) && cookies_of(v) == Some(
                cookie_models(list@),
            ),
            Err(e) => e == resp && !(reply_value(resp@) matches Some(v) && cookies_of(v) is Some),
        },
{
    if is_error_reply(resp.as_str()) {
        return Err(resp);
    }
    let doc = match parse_reply(resp.as_str()) {
        Some(doc) => doc,
        None => {
            return Err(resp);
        },
    };
    let found = match json_entry(&doc, "value") {
        Some(value) => cookies_in(value),
        None => None,
    };
    match found {
        Some(list) => Ok(list),
        None => Err(resp),
    }
}

/// The reply looks like a cookie: the words `domain`, `expiry` and `name`
/// all stand in it.
pub open spec fn looks_like_cookie(resp: Seq<char>) -> bool {
    has_substring(resp, "domain"@) && has_substring(resp, "expiry"@) && has_substring(
        resp,
        "name"@,
    )
}

/// The cookie that the `value` entry of a reply describes, where the reply
/// looks like a cookie.
pub open spec fn reply_cookie(resp: Seq<char>) -> Option<CookieModel> {
    if looks_like_cookie(resp) {
        match reply_document(resp) {
            Some(doc) => match tree_entry(doc, "value"@) {
                Some(v) => cookie_of(v),
                None => None,
            },
            None => None,
        }
    } else {
        None
    }
}

/// The cookie that the reply to a cookie request carries. A reply that does
/// not look like a cookie, or describes none, is handed back as the
/// failure.
pub fn cookie_from_reply(resp: String) -> (r: Result<Cookie, String>)
    ensures
        match r {
            Ok(cookie) => reply_cookie(resp@) == Some(cookie@),
            Err(e) => e == resp && reply_cookie(resp@) is None,
        },
{
    let text = resp.as_str();
    if !(contains(text, "domain") && contains(text, "expiry") && contains(text, "name")) {
        return Err(resp);
    }
    let doc = match parse_reply(resp.as_str()) {
        Some(doc) => doc,
        None => {
            return Err(resp);
        },
    };
    let found = match json_entry(&doc, "value") {
        Some(value) => from_value_to_cookie(value),
        None => None,
    };
    match found {
        Some(cookie) => Ok(cookie),
        None => Err(resp),
    }
}

/// The session that a reply announces, whatever else the reply holds.
pub open spec fn reply_session(resp: Seq<char>) -> Option<Seq<char>> {
    match reply_document(resp) {
        Some(doc) => session_id_of(doc),
        None => None,
    }
}

/// The session on the server at `ip` and `port` that the reply to a
/// session request announces. A reply that announces none is handed back as
/// the failure.
pub fn session_from_reply(ip: &str, port: &str, resp: String) -> (r: Result<Browser, String>)
    ensures
        match r {
            Ok(browser) => reply_session(resp@) matches Some(id) && browser.linked(ip@, port@, id),
            Err(e) => e == resp && reply_session(resp@) is None,
        },
{
    let doc = match parse_reply(resp.as_str()) {
        Some(doc) => doc,
        None => {
            return Err(resp);
        },
    };
    match session_id_in(&doc) {
        Some(sess_id) => Ok(generate_browser_links(ip, port, sess_id.as_str())),
        None => Err(resp),
    }
}

/// As [`session_from_reply`], but a reply that reports an error announces
/// no session, whatever else it holds.
pub fn session_unless_error(ip: &str, port: &str, resp: String) -> (r: Result<Browser, String>)
    ensures
        match r {
            Ok(browser) => !reports_error(resp@) && (reply_session(resp@) matches Some(id)
                && browser.linked(ip@, port@, id)),
            Err(e) => e == resp && (reports_error(resp@) || reply_session(resp@) is None),
        },
{
    if is_error_reply(resp.as_str()) {
        return Err(resp);
    }
    session_from_reply(ip, port, resp)
}

} // verus!
