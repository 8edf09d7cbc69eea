//! The capabilities that a new session is asked for.

use crate::browser::{browser_name, browser_word, timeouts_text, BrowserName, Timeouts};
use crate::chromeoptions::ChromeOptions;
use crate::firefoxoptions::FirefoxOptions;
use crate::proxy::Proxy;
use crate::safarioptions::SafariOptions;
use crate::text::{pop_tail, without_tail};
use vstd::prelude::*;
use vstd::string::*;

verus! {

/// The body of a session request under construction. Every capability is
/// put under `alwaysMatch`: a session that cannot meet one of them is not
/// started. Browser and platform are given at the start, the rest is
/// optional.
///
/// See <https://www.w3.org/TR/webdriver/#capabilities>.
pub struct Capabilities {
    pub cap_string: String,
}

/// The body that asks for a browser on a platform and nothing more.
pub open spec fn base_capabilities(browser: BrowserName, platform: Seq<char>) -> Seq<char> {
    "\n        {\n            \"capabilities\": {\n                \"alwaysMatch\": {\n                    \"browserName\": \""@
        + browser_word(browser) + "\",\n                    \"platformName\": \""@ + platform
        + "\"}}}"@
}

/// A body with one more capability: the three closing braces give way to a
/// comma and the member, and are put back behind it.
pub open spec fn with_member(st: Seq<char>, member: Seq<char>) -> Seq<char> {
    without_tail(st, 3) + seq![','] + member + "}}}"@
}

/// A body with the options of a browser: they go in as a member, and the
/// comma that the options end with is taken out again.
pub open spec fn with_options(st: Seq<char>, options: Seq<char>) -> Seq<char> {
    without_tail(with_member(st, options), 5) + "}}}}"@
}

/// A member whose value is a quoted string: `"key":"value"`.
pub open spec fn string_capability(key: Seq<char>, value: Seq<char>) -> Seq<char> {
    seq!['"'] + key + "\":\""@ + value + seq!['"']
}

/// A member whose value is written as it is: `"key":value`.
pub open spec fn plain_capability(key: Seq<char>, value: Seq<char>) -> Seq<char> {
    seq!['"'] + key + "\":"@ + value
}

/// Puts one member before the three closing braces of a body.
pub fn update(st: &mut String, text: &str)
    ensures
        final(st)@ == with_member(old(st)@, text@),
{
    pop_tail(st, 3);
    st.push(',');
    st.append(text);
    st.append("}}}");
}

fn string_capability_text(key: &str, value: &str) -> (r: String)
    ensures
        r@ == string_capability(key@, value@),
{
    let mut text = String::new();
    text.push('"');
    text.append(key);
    text.append("\":\"");
    text.append(value);
    text.push('"');
    assert(text@ =~= string_capability(key@, value@));
    text
}

fn plain_capability_text(key: &str, value: &str) -> (r: String)
    ensures
        r@ == plain_capability(key@, value@),
{
    let mut text = String::new();
    text.push('"');
    text.append(key);
    text.append("\":");
    text.append(value);
    assert(text@ =~= plain_capability(key@, value@));
    text
}

fn insert_options(st: &mut String, options: &str)
    ensures
        final(st)@ == with_options(old(st)@, options@),
{
    update(st, options);
    pop_tail(st, 5);
    st.append("}}}}");
}

impl Capabilities {
    /// Asks for `browser` on `platform`.
    pub fn new(browser: BrowserName, platform: &str) -> (r: Self)
        ensures
            r.cap_string@ == base_capabilities(browser, platform@),
    {
        let mut cap_string = String::from_str(
            "\n        {\n            \"capabilities\": {\n                \"alwaysMatch\": {\n                    \"browserName\": \"",
        );
        cap_string.append(browser_name(&browser));
        cap_string.append("\",\n                    \"platformName\": \"");
        cap_string.append(platform);
        cap_string.append("\"}}}");
        Capabilities { cap_string }
    }

    /// Adds the options of a Chrome session.
    pub fn set_chrome_options(&mut self, options: ChromeOptions) -> (r: &mut Self)
        ensures
            r.cap_string@ == with_options(old(self).cap_string@, options.string_for_session@),
            *final(self) == *final(r),
    {
        insert_options(&mut self.cap_string, options.string_for_session.as_str());
        self
    }

    /// Adds the options of a Firefox session.
    pub fn set_firefox_options(&mut self, options: FirefoxOptions) -> (r: &mut Self)
        ensures
            r.cap_string@ == with_options(old(self).cap_string@, options.string_for_session@),
            *final(self) == *final(r),
    {
        insert_options(&mut self.cap_string, options.string_for_session.as_str());
        self
    }

    /// Accepts the options of a Safari session. They are not written into
    /// the body: the capabilities stay as they are.
    pub fn set_safari_options(&mut self, options: SafariOptions) -> (r: &mut Self)
        ensures
            *r == *old(self),
            *final(self) == *final(r),
    {
        self
    }

    /// Asks for a version of the browser.
    pub fn set_browser_version(&mut self, version: &str) -> (r: &mut Self)
        ensures
            r.cap_string@ == with_member(
                old(self).cap_string@,
                string_capability("browserVersion"@, version@),
            ),
            *final(self) == *final(r),
    {
        let text = string_capability_text("browserVersion", version);
        update(&mut self.cap_string, text.as_str());
        self
    }

    /// Lets the session accept certificates that are not trusted.
    pub fn enable_insecure_certs(&mut self) -> (r: &mut Self)
        ensures
            r.cap_string@ == with_member(old(self).cap_string@, "\"acceptInsecureCerts\":true"@),
            *final(self) == *final(r),
    {
        update(&mut self.cap_string, "\"acceptInsecureCerts\":true");
        self
    }

    /// Sets the page load strategy.
    pub fn set_pageload_strategy(&mut self, strategy: &str) -> (r: &mut Self)
        ensures
            r.cap_string@ == with_member(
                old(self).cap_string@,
                string_capability("pageLoadStrategy"@, strategy@),
            ),
            *final(self) == *final(r),
    {
        let text = string_capability_text("pageLoadStrategy", strategy);
        update(&mut self.cap_string, text.as_str());
        self
    }

    /// Sets the proxy.
    pub fn set_proxy(&mut self, proxy: Proxy) -> (r: &mut Self)
        ensures
            r.cap_string@ == with_member(
                old(self).cap_string@,
                plain_capability("proxy"@, proxy.proxy_string@),
            ),
            *final(self) == *final(r),
    {
        let text = plain_capability_text("proxy", proxy.proxy_string.as_str());
        update(&mut self.cap_string, text.as_str());
        self
    }

    /// Asks for a session whose windows cannot be resized or moved.
    pub fn disable_window_rect(&mut self) -> (r: &mut Self)
        ensures
            r.cap_string@ == with_member(old(self).cap_string@, "\"setWindowRect\":false"@),
            *final(self) == *final(r),
    {
        update(&mut self.cap_string, "\"setWindowRect\":false");
        self
    }

    /// Sets the timeouts of the session.
    pub fn set_timeouts(&mut self, timeouts: Timeouts) -> (r: &mut Self)
        ensures
            r.cap_string@ == with_member(
                old(self).cap_string@,
                plain_capability("timeouts"@, timeouts_text(timeouts)),
            ),
            *final(self) == *final(r),
    {
        let json = timeouts.to_json();
        let text = plain_capability_text("timeouts", json.as_str());
        update(&mut self.cap_string, text.as_str());
        self
    }

    /// Asks for strict checks on file inputs.
    pub fn enable_strict_file_interact(&mut self) -> (r: &mut Self)
        ensures
            r.cap_string@ == with_member(
                old(self).cap_string@,
                "\"strictFileInteractability\":true"@,
            ),
            *final(self) == *final(r),
    {
        update(&mut self.cap_string, "\"strictFileInteractability\":true");
        self
    }

    /// Sets what happens to a prompt that nobody handles.
    pub fn set_unhandled_prompt_behavior(&mut self, behavior: &str) -> (r: &mut Self)
        ensures
            r.cap_string@ == with_member(
                old(self).cap_string@,
                string_capability("unhandledPromptBehavior"@, behavior@),
            ),
            *final(self) == *final(r),
    {
        let text = string_capability_text("unhandledPromptBehavior", behavior);
        update(&mut self.cap_string, text.as_str());
        self
    }
}

} // verus!
