//! Request serialization and the text-level framing of a reply.

use crate::envelope::{envelope_text, extract_text, text_result};
use crate::error::TransportError;
use crate::json::json_parse;
use crate::text::{
    chars_of, decimal, ends_with, find_chars, has_substring, lemma_encode_utf8_concat,
    lemma_first_index, lemma_split_at_first_of_concat, push_decimal, split_at_first,
};
use vstd::prelude::*;
use vstd::string::*;

verus! {

/// The three request methods of the protocol.
#[derive(Clone, Copy, Debug, PartialEq, Eq, Structural)]
pub enum Method {
    GET,
    POST,
    DELETE,
}

/// How an element is looked up, with the selector to use.
pub enum LocatorStrategy {
    CSS(&'static str),
    LINKTEXT(&'static str),
    PARTLINKTEXT(&'static str),
    TAGNAME(&'static str),
    XPATH(&'static str),
}

/// The host that local requests name.
pub open spec fn local_host() -> Seq<char> {
    "127.0.0.1"@
}

/// The blank line that ends the metadata of a message.
pub open spec fn separator() -> Seq<char> {
    "\r\n\r\n"@
}

/// The request line up to the path.
pub open spec fn method_prefix(method: Method) -> Seq<char> {
    match method {
        Method::GET => "GET /"@,
        Method::POST => "POST /"@,
        Method::DELETE => "DELETE /"@,
    }
}

/// Each header line followed by a line break, in the order given.
pub open spec fn header_block(headers: Seq<String>) -> Seq<char>
    decreases headers.len(),
{
    if headers.len() == 0 {
        Seq::empty()
    } else {
        header_block(headers.drop_last()) + headers.last()@ + "\r\n"@
    }
}

/// Everything of a request that comes before the body: request line, host
/// line, header lines and the terminator.
pub open spec fn request_head(
    method: Method,
    host: Seq<char>,
    path: Seq<char>,
    headers: Seq<String>,
) -> Seq<char> {
    method_prefix(method) + path + " HTTP/1.1\r\n"@ + "Host: "@ + host + "\r\n"@ + header_block(
        headers,
    ) + separator()
}

/// The wire text of a request. Only a POST carries its body.
pub open spec fn request_text(
    method: Method,
    host: Seq<char>,
    path: Seq<char>,
    headers: Seq<String>,
    body: Seq<char>,
) -> Seq<char> {
    if method == Method::POST {
        request_head(method, host, path, headers) + body
    } else {
        request_head(method, host, path, headers)
    }
}

/// A POST request ends with exactly its body.
pub proof fn lemma_post_ends_with_body(
    host: Seq<char>,
    path: Seq<char>,
    headers: Seq<String>,
    body: Seq<char>,
)
    ensures
        ends_with(request_text(Method::POST, host, path, headers, body), body),
{
    let head = request_head(Method::POST, host, path, headers);
    assert((head + body).subrange((head + body).len() - body.len(), (head + body).len() as int)
        =~= body);
}

/// On the wire, the bytes of a POST request end with exactly the bytes of
/// its body.
pub proof fn lemma_post_bytes_end_with_body(
    host: Seq<char>,
    path: Seq<char>,
    headers: Seq<String>,
    body: Seq<char>,
)
    ensures
        ends_with(
            vstd::utf8::encode_utf8(request_text(Method::POST, host, path, headers, body)),
            vstd::utf8::encode_utf8(body),
        ),
{
    let head = vstd::utf8::encode_utf8(request_head(Method::POST, host, path, headers));
    let tail = vstd::utf8::encode_utf8(body);
    lemma_encode_utf8_concat(request_head(Method::POST, host, path, headers), body);
    assert((head + tail).subrange((head + tail).len() - tail.len(), (head + tail).len() as int)
        =~= tail);
}

/// A GET or DELETE request is the same whatever body is supplied, so a body
/// that does not already occur in the head does not occur in the request.
pub proof fn lemma_bodiless_request_ignores_body(
    method: Method,
    host: Seq<char>,
    path: Seq<char>,
    headers: Seq<String>,
    body: Seq<char>,
)
    requires
        method != Method::POST,
    ensures
        request_text(method, host, path, headers, body) == request_head(
            method,
            host,
            path,
            headers,
        ),
        !has_substring(request_head(method, host, path, headers), body) ==> !has_substring(
            request_text(method, host, path, headers, body),
            body,
        ),
{
}

fn build_request(method: Method, host: &str, path: &str, headers: &Vec<String>, body: &str) -> (r:
    String)
    ensures
        r@ == request_text(method, host@, path@, headers@, body@),
{
    let mut request = match method {
        Method::GET => String::from_str("GET /"),
        Method::POST => String::from_str("POST /"),
        Method::DELETE => String::from_str("DELETE /"),
    };
    request.append(path);
    request.append(" HTTP/1.1\r\n");
    request.append("Host: ");
    request.append(host);
    request.append("\r\n");
    let ghost start = request@;
    let mut i: usize = 0;
    while i < headers.len()
        invariant
            i <= headers.len(),
            request@ == start + header_block(headers@.take(i as int)),
        decreases headers.len() - i,
    {
        request.append(headers[i].as_str());
        request.append("\r\n");
        proof {
            let next = headers@.take(i + 1);
            assert(next.drop_last() == headers@.take(i as int));
            assert(next.last() == headers@[i as int]);
            assert(request@ =~= start + header_block(next));
        }
        i += 1;
    }
    assert(headers@.take(headers.len() as int) == headers@);
    request.append("\r\n\r\n");
    match method {
        Method::POST => {
            request.append(body);
        },
        _ => {},
    }
    assert(request@ =~= request_text(method, host@, path@, headers@, body@));
    request
}

/// Serializes a request to the local server: request line, `Host: 127.0.0.1`,
/// the header lines as given, the terminator and, for a POST only, the body.
/// Nothing is validated and nothing is recomputed: a length header goes out
/// as the caller wrote it.
pub fn create_req(method: Method, path: &str, headers: Vec<String>, body: &str) -> (r: String)
    ensures
        r@ == request_text(method, local_host(), path@, headers@, body@),
        method == Method::POST ==> ends_with(r@, body@) && ends_with(
            vstd::utf8::encode_utf8(r@),
            vstd::utf8::encode_utf8(body@),
        ),
        method != Method::POST ==> r@ == request_head(method, local_host(), path@, headers@),
{
    proof {
        lemma_post_ends_with_body(local_host(), path@, headers@, body@);
        lemma_post_bytes_end_with_body(local_host(), path@, headers@, body@);
    }
    build_request(method, "127.0.0.1", path, &headers, body)
}

/// Serializes a request that names `ip` as its host; otherwise as
/// [`create_req`].
pub fn create_remote_req(ip: &str, method: Method, path: &str, headers: Vec<String>, body: &str) -> (r:
    String)
    ensures
        r@ == request_text(method, ip@, path@, headers@, body@),
        method == Method::POST ==> ends_with(r@, body@) && ends_with(
            vstd::utf8::encode_utf8(r@),
            vstd::utf8::encode_utf8(body@),
        ),
        method != Method::POST ==> r@ == request_head(method, ip@, path@, headers@),
{
    proof {
        lemma_post_ends_with_body(ip@, path@, headers@, body@);
        lemma_post_bytes_end_with_body(ip@, path@, headers@, body@);
    }
    build_request(method, ip, path, &headers, body)
}

/// The length that the protocol declares for a body: its byte length plus two.
pub open spec fn declared_length(content: Seq<char>) -> nat {
    vstd::utf8::encode_utf8(content).len() + 2
}

/// The one header line that declares the length of `content`.
pub open spec fn length_header(content: Seq<char>) -> Seq<char> {
    "Content-Length:"@ + decimal(declared_length(content))
}

/// The header list for a body: a single `Content-Length` line that declares
/// the body's byte length plus two.
pub fn cont_length_header(content: &str) -> (r: Vec<String>)
    ensures
        r@.len() == 1,
        r@[0]@ == length_header(content@),
{
    let declared: u128 = content.as_bytes().len() as u128 + 2;
    let mut line = String::from_str("Content-Length:");
    push_decimal(&mut line, declared);
    let mut out: Vec<String> = Vec::new();
    out.push(line);
    out
}

/// One command as it goes on the wire: method, path, header lines and body.
/// It is made for one call and dropped once it is serialized.
pub struct WireRequest {
    pub method: Method,
    pub path: String,
    pub headers: Vec<String>,
    pub body: String,
}

impl WireRequest {
    /// The conventions of the protocol hold: a POST declares the byte length
    /// of its body plus two in its one header line, and a GET or DELETE has
    /// neither header lines nor a body.
    pub open spec fn wf(&self) -> bool {
        if self.method == Method::POST {
            self.headers@.len() == 1 && self.headers@[0]@ == length_header(self.body@)
        } else {
            self.headers@.len() == 0 && self.body@.len() == 0
        }
    }

    /// This is the GET request for `path`.
    pub open spec fn is_get(&self, path: Seq<char>) -> bool {
        &&& self.method == Method::GET
        &&& self.path@ == path
        &&& self.wf()
    }

    /// This is the DELETE request for `path`.
    pub open spec fn is_delete(&self, path: Seq<char>) -> bool {
        &&& self.method == Method::DELETE
        &&& self.path@ == path
        &&& self.wf()
    }

    /// This is the POST request for `path` with `body`.
    pub open spec fn is_post(&self, path: Seq<char>, body: Seq<char>) -> bool {
        &&& self.method == Method::POST
        &&& self.path@ == path
        &&& self.body@ == body
        &&& self.wf()
    }

    /// The text that goes to the local server.
    pub open spec fn wire_text(&self) -> Seq<char> {
        request_text(self.method, local_host(), self.path@, self.headers@, self.body@)
    }

    /// A GET request: no header lines, no body.
    pub fn get(path: &str) -> (r: Self)
        ensures
            r.is_get(path@),
    {
        WireRequest {
            method: Method::GET,
            path: String::from_str(path),
            headers: Vec::new(),
            body: String::new(),
        }
    }

    /// A DELETE request: no header lines, no body.
    pub fn delete(path: &str) -> (r: Self)
        ensures
            r.is_delete(path@),
    {
        WireRequest {
            method: Method::DELETE,
            path: String::from_str(path),
            headers: Vec::new(),
            body: String::new(),
        }
    }

    /// A POST request with its one length header.
    pub fn post(path: &str, body: &str) -> (r: Self)
        ensures
            r.is_post(path@, body@),
    {
        WireRequest {
            method: Method::POST,
            path: String::from_str(path),
            headers: cont_length_header(body),
            body: String::from_str(body),
        }
    }

    /// Serializes the request for the local server, as [`create_req`] does.
    pub fn to_wire(&self) -> (r: String)
        ensures
            r@ == self.wire_text(),
    {
        build_request(
            self.method,
            "127.0.0.1",
            self.path.as_str(),
            &self.headers,
            self.body.as_str(),
        )
    }
}

/// The name that the protocol knows a locator strategy by.
pub open spec fn strategy_name(strategy: LocatorStrategy) -> Seq<char> {
    match strategy {
        LocatorStrategy::CSS(_) => "css selector"@,
        LocatorStrategy::LINKTEXT(_) => "link text"@,
        LocatorStrategy::PARTLINKTEXT(_) => "partial link text"@,
        LocatorStrategy::TAGNAME(_) => "tag name"@,
        LocatorStrategy::XPATH(_) => "xpath"@,
    }
}

/// The selector that a locator strategy carries.
pub open spec fn strategy_selector(strategy: LocatorStrategy) -> Seq<char> {
    match strategy {
        LocatorStrategy::CSS(s) => s@,
        LocatorStrategy::LINKTEXT(s) => s@,
        LocatorStrategy::PARTLINKTEXT(s) => s@,
        LocatorStrategy::TAGNAME(s) => s@,
        LocatorStrategy::XPATH(s) => s@,
    }
}

/// The body of a request that looks for elements.
pub open spec fn find_element_text(strategy: LocatorStrategy) -> Seq<char> {
    "{\"using\":\""@ + strategy_name(strategy) + "\",\"value\":\""@ + strategy_selector(strategy)
        + "\"}"@
}

/// The body of a request that looks for elements by `loc_strategy`.
pub fn body_for_find_element(loc_strategy: LocatorStrategy) -> (r: String)
    ensures
        r@ == find_element_text(loc_strategy),
{
    let (name, selector) = match loc_strategy {
        LocatorStrategy::CSS(selector) => ("css selector", selector),
        LocatorStrategy::LINKTEXT(selector) => ("link text", selector),
        LocatorStrategy::PARTLINKTEXT(selector) => ("partial link text", selector),
        LocatorStrategy::TAGNAME(selector) => ("tag name", selector),
        LocatorStrategy::XPATH(selector) => ("xpath", selector),
    };
    let mut body = String::from_str("{\"using\":\"");
    body.append(name);
    body.append("\",\"value\":\"");
    body.append(selector);
    body.append("\"}");
    body
}

/// The text of the `value` entry of a body, by the parsed document: the
/// content of a string as it is, the compact JSON text of anything else. A
/// body that is not JSON, or that holds no such entry, has none.
pub fn parse_value(body: &str) -> (r: Result<String, TransportError>)
    ensures
        text_result(r) == envelope_text(json_parse(vstd::utf8::encode_utf8(body@))),
{
    extract_text(body.as_bytes())
}

/// What [`resp_body`] says where a response has no body.
pub open spec fn no_body_message() -> Seq<char> {
    "Can't get the response body"@
}

/// The body of a response held as text: everything after the first blank
/// line, taken whole. A response without a blank line has no body.
pub fn resp_body(response: String) -> (r: Result<String, &'static str>)
    ensures
        match r {
            Ok(body) => split_at_first(response@, separator()) matches Some(parts) && parts.1
                == body@,
            Err(message) => split_at_first(response@, separator()) is None && message@
                == no_body_message(),
        },
{
    let text = chars_of(response.as_str());
    let sep = chars_of("\r\n\r\n");
    match find_chars(&text, &sep) {
        Some(i) => {
            proof {
                lemma_first_index(text@, sep@, i as int);
                reveal_strlit("\r\n\r\n");
                assert(sep@.len() == 4);
                assert(crate::text::occurs_at(text@, sep@, i as int));
            }
            let end: usize = text.len();
            let mut body = String::new();
            let mut k: usize = i + 4;
            while k < end
                invariant
                    i + 4 <= k <= end,
                    end == text.len(),
                    body@ == text@.subrange(i + 4, k as int),
                decreases end - k,
            {
                body.push(text[k]);
                k += 1;
                assert(body@ =~= text@.subrange(i + 4, k as int));
            }
            assert(body@ =~= text@.skip(i + 4));
            Ok(body)
        },
        None => Err("Can't get the response body"),
    }
}

/// A response built as metadata, blank line, body gives back exactly that
/// body, whatever the body holds, provided the metadata neither holds a
/// blank line nor ends with a line break.
pub proof fn lemma_resp_body_of_concat(metadata: Seq<char>, body: Seq<char>)
    requires
        !has_substring(metadata, separator()),
        !ends_with(metadata, "\r\n"@),
    ensures
        split_at_first(metadata + separator() + body, separator()) == Some((metadata, body)),
{
    reveal_strlit("\r\n\r\n");
    reveal_strlit("\r\n");
    assert(separator() =~= seq!['\r', '\n', '\r', '\n']);
    assert("\r\n"@ =~= seq!['\r', '\n']);
    lemma_split_at_first_of_concat(metadata, body, '\r', '\n');
}

} // verus!
