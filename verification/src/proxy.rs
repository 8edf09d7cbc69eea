//! Proxy settings of a session.

use crate::text::{decimal, list_text, push_decimal, push_list};
use vstd::prelude::*;
use vstd::string::*;

verus! {

/// The proxy settings of a session, kept as the JSON object under
/// construction: `{` at first, then the settings made so far, closed by `}`.
///
/// See <https://www.w3.org/TR/webdriver/#proxy>.
pub struct Proxy {
    pub proxy_string: String,
}

/// The kinds of proxy configuration.
pub enum ProxyType {
    Pac,
    Direct,
    Autodetect,
    System,
    Manual,
}

/// The word that the protocol uses for a kind of proxy configuration.
pub open spec fn proxy_type_word(proxy_type: ProxyType) -> Seq<char> {
    match proxy_type {
        ProxyType::Pac => "pac"@,
        ProxyType::System => "system"@,
        ProxyType::Manual => "manual"@,
        ProxyType::Direct => "direct"@,
        ProxyType::Autodetect => "autodetect"@,
    }
}

/// An object under construction with one more member: the closing brace, if
/// the text ends with one, gives way to a comma before the member, which
/// brings its own.
pub open spec fn with_member(st: Seq<char>, member: Seq<char>) -> Seq<char> {
    if st.len() > 0 && st.last() == '}' {
        st.drop_last() + seq![','] + member
    } else {
        st + member
    }
}

/// A member whose value is a string: `"key":"value"}`.
pub open spec fn string_member(key: Seq<char>, value: Seq<char>) -> Seq<char> {
    seq!['"'] + key + "\":\""@ + value + "\"}"@
}

/// A member whose value is written as it is: `"key":value}`.
pub open spec fn plain_member(key: Seq<char>, value: Seq<char>) -> Seq<char> {
    seq!['"'] + key + "\":"@ + value + seq!['}']
}

/// Adds one member, closing brace included, to an object under construction.
pub fn construct_the_str(st: &mut String, text: &str)
    ensures
        final(st)@ == with_member(old(st)@, text@),
{
    match st.pop() {
        Some(c) => {
            if c == '}' {
                st.push(',');
            } else {
                st.push(c);
                assert(st@ =~= old(st)@);
            }
        },
        None => {},
    }
    st.append(text);
}

/// The bracketed list of the items, each in double quotes.
pub fn from_vec_to_str(vec: Vec<&str>) -> (r: String)
    ensures
        r@ == list_text(vec@, true),
{
    let mut s = String::new();
    push_list(&mut s, &vec, true);
    assert(s@ =~= list_text(vec@, true));
    s
}

fn string_member_text(key: &str, value: &str) -> (r: String)
    ensures
        r@ == string_member(key@, value@),
{
    let mut text = String::from_str("\"");
    text.append(key);
    text.append("\":\"");
    text.append(value);
    text.append("\"}");
    proof {
        reveal_strlit("\"");
    }
    assert(text@ =~= string_member(key@, value@));
    text
}

fn plain_member_text(key: &str, value: &str) -> (r: String)
    ensures
        r@ == plain_member(key@, value@),
{
    let mut text = String::from_str("\"");
    text.append(key);
    text.append("\":");
    text.append(value);
    text.push('}');
    proof {
        reveal_strlit("\"");
    }
    assert(text@ =~= plain_member(key@, value@));
    text
}

impl Proxy {
    /// No settings yet.
    pub fn new() -> (r: Self)
        ensures
            r.proxy_string@ == "{"@,
    {
        Proxy { proxy_string: String::from_str("{") }
    }

    /// Sets the kind of proxy configuration.
    pub fn set_proxy_type(&mut self, proxy_type: ProxyType) -> (r: &mut Self)
        ensures
            r.proxy_string@ == with_member(
                old(self).proxy_string@,
                string_member("proxyType"@, proxy_type_word(proxy_type)),
            ),
            *final(self) == *final(r),
    {
        let word = match proxy_type {
            ProxyType::Pac => "pac",
            ProxyType::System => "system",
            ProxyType::Manual => "manual",
            ProxyType::Direct => "direct",
            ProxyType::Autodetect => "autodetect",
        };
        let text = string_member_text("proxyType", word);
        construct_the_str(&mut self.proxy_string, text.as_str());
        self
    }

    /// Sets the URL of the proxy auto-config file, for the kind `pac`.
    pub fn set_proxy_autoconfig_url(&mut self, url: &str) -> (r: &mut Self)
        ensures
            r.proxy_string@ == with_member(
                old(self).proxy_string@,
                string_member("proxyAutoconfigUrl"@, url@),
            ),
            *final(self) == *final(r),
    {
        let text = string_member_text("proxyAutoconfigUrl", url);
        construct_the_str(&mut self.proxy_string, text.as_str());
        self
    }

    /// Sets the proxy host for FTP traffic, for the kind `manual`.
    pub fn set_ftp_proxy(&mut self, host_and_port: &str) -> (r: &mut Self)
        ensures
            r.proxy_string@ == with_member(
                old(self).proxy_string@,
                string_member("ftpProxy"@, host_and_port@),
            ),
            *final(self) == *final(r),
    {
        let text = string_member_text("ftpProxy", host_and_port);
        construct_the_str(&mut self.proxy_string, text.as_str());
        self
    }

    /// Sets the proxy host for HTTP traffic, for the kind `manual`.
    pub fn set_http_proxy(&mut self, host_and_port: &str) -> (r: &mut Self)
        ensures
            r.proxy_string@ == with_member(
                old(self).proxy_string@,
                string_member("httpProxy"@, host_and_port@),
            ),
            *final(self) == *final(r),
    {
        let text = string_member_text("httpProxy", host_and_port);
        construct_the_str(&mut self.proxy_string, text.as_str());
        self
    }

    /// Lists the addresses that bypass the proxy, for the kind `manual`.
    pub fn set_no_proxy(&mut self, exceptions: Vec<&str>) -> (r: &mut Self)
        ensures
            r.proxy_string@ == with_member(
                old(self).proxy_string@,
                plain_member("noProxy"@, list_text(exceptions@, true)),
            ),
            *final(self) == *final(r),
    {
        let list = from_vec_to_str(exceptions);
        let text = plain_member_text("noProxy", list.as_str());
        construct_the_str(&mut self.proxy_string, text.as_str());
        self
    }

    /// Sets the proxy host for encrypted TLS traffic, for the kind `manual`.
    pub fn set_ssl_proxy(&mut self, host_and_port: &str) -> (r: &mut Self)
        ensures
            r.proxy_string@ == with_member(
                old(self).proxy_string@,
                string_member("sslProxy"@, host_and_port@),
            ),
            *final(self) == *final(r),
    {
        let text = string_member_text("sslProxy", host_and_port);
        construct_the_str(&mut self.proxy_string, text.as_str());
        self
    }

    /// Sets the host of a SOCKS proxy, for the kind `manual`.
    pub fn set_socks_proxy(&mut self, host_and_port: &str) -> (r: &mut Self)
        ensures
            r.proxy_string@ == with_member(
                old(self).proxy_string@,
                string_member("socksProxy"@, host_and_port@),
            ),
            *final(self) == *final(r),
    {
        let text = string_member_text("socksProxy", host_and_port);
        construct_the_str(&mut self.proxy_string, text.as_str());
        self
    }

    /// Sets the SOCKS version, for the kind `manual`.
    pub fn set_socks_version(&mut self, version: u8) -> (r: &mut Self)
        ensures
            r.proxy_string@ == with_member(
                old(self).proxy_string@,
                plain_member("socksVersion"@, decimal(version as nat)),
            ),
            *final(self) == *final(r),
    {
        let mut numeral = String::new();
        push_decimal(&mut numeral, version as u128);
        assert(numeral@ =~= decimal(version as nat));
        let text = plain_member_text("socksVersion", numeral.as_str());
        construct_the_str(&mut self.proxy_string, text.as_str());
        self
    }
}

} // verus!
