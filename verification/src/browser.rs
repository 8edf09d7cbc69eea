//! The browser session and the values that its commands exchange.

use crate::actions::{actions_body, trees, with_ids, Actions};
use crate::capabilities::Capabilities;
use crate::chromeoptions::ChromeOptions;
use crate::decode::{is_element_array, is_element_object};
use crate::element::{are_elements_of, element_of_reply, elements_of_reply, is_element_of, Element};
use crate::firefoxoptions::FirefoxOptions;
use crate::json::{json_quote, json_text, JsonTree};
use crate::reply::{is_error_reply, reply_value, reports_error};
use crate::reqs::{body_for_find_element, find_element_text, LocatorStrategy, WireRequest};
use crate::safarioptions::SafariOptions;
use crate::text::{
    bool_word, decimal, list_text, pop_tail, push_bool, push_decimal, push_list,
    push_signed_decimal, signed_decimal, without_tail,
};
use vstd::prelude::*;
use vstd::string::*;

verus! {

/// The browsers that a session can drive.
pub enum BrowserName {
    Chrome,
    Firefox,
    Safari,
}

/// What `new_window` opens.
pub enum NewWindowType {
    Tab,
    Window,
}

/// The orientation of a printed page.
pub enum Orientation {
    PORTRAIT,
    LANDSCAPE,
}

/// The name that the protocol knows a browser by.
pub open spec fn browser_word(browser: BrowserName) -> Seq<char> {
    match browser {
        BrowserName::Chrome => "chrome"@,
        BrowserName::Firefox => "firefox"@,
        BrowserName::Safari => "safari"@,
    }
}

/// The name that the protocol knows a browser by.
pub fn browser_name(browser: &BrowserName) -> (r: &'static str)
    ensures
        r@ == browser_word(*browser),
{
    match browser {
        BrowserName::Chrome => "chrome",
        BrowserName::Firefox => "firefox",
        BrowserName::Safari => "safari",
    }
}

/// The word that the protocol uses for an orientation.
pub fn orientation_name(orientation: &Orientation) -> (r: &'static str)
    ensures
        r@ == (match *orientation {
            Orientation::PORTRAIT => "portrait"@,
            Orientation::LANDSCAPE => "landscape"@,
        }),
{
    match orientation {
        Orientation::PORTRAIT => "portrait",
        Orientation::LANDSCAPE => "landscape",
    }
}

/// Size and position of a window.
#[derive(Debug, PartialEq, Clone, Copy)]
pub struct WindowRect {
    pub height: i32,
    pub width: i32,
    pub x: i32,
    pub y: i32,
}

/// The JSON text of a window rectangle.
pub open spec fn window_rect_text(rect: WindowRect) -> Seq<char> {
    "{\"height\":"@ + signed_decimal(rect.height as int) + ",\"width\":"@ + signed_decimal(
        rect.width as int,
    ) + ",\"x\":"@ + signed_decimal(rect.x as int) + ",\"y\":"@ + signed_decimal(rect.y as int)
        + seq!['}']
}

impl WindowRect {
    pub fn new(height: i32, width: i32, x: i32, y: i32) -> (r: WindowRect)
        ensures
            r == (WindowRect { height, width, x, y }),
    {
        WindowRect { height, width, x, y }
    }

    /// The rectangle as JSON text, members in the order of the fields.
    pub fn to_json(&self) -> (r: String)
        ensures
            r@ == window_rect_text(*self),
    {
        let mut text = String::from_str("{\"height\":");
        push_signed_decimal(&mut text, self.height as i64);
        text.append(",\"width\":");
        push_signed_decimal(&mut text, self.width as i64);
        text.append(",\"x\":");
        push_signed_decimal(&mut text, self.x as i64);
        text.append(",\"y\":");
        push_signed_decimal(&mut text, self.y as i64);
        text.push('}');
        assert(text@ =~= window_rect_text(*self));
        text
    }
}

/// A cookie of the session.
#[allow(non_snake_case)]
#[derive(Debug, Clone)]
pub struct Cookie {
    pub domain: String,
    pub expiry: u64,
    pub httpOnly: bool,
    pub name: String,
    pub path: String,
    pub secure: bool,
    pub value: String,
    pub sameSite: String,
}

/// A cookie as a mathematical value.
#[allow(non_snake_case)]
pub struct CookieModel {
    pub domain: Seq<char>,
    pub expiry: u64,
    pub httpOnly: bool,
    pub name: Seq<char>,
    pub path: Seq<char>,
    pub secure: bool,
    pub value: Seq<char>,
    pub sameSite: Seq<char>,
}

impl View for Cookie {
    type V = CookieModel;

    open spec fn view(&self) -> CookieModel {
        CookieModel {
            domain: self.domain@,
            expiry: self.expiry,
            httpOnly: self.httpOnly,
            name: self.name@,
            path: self.path@,
            secure: self.secure,
            value: self.value@,
            sameSite: self.sameSite@,
        }
    }
}

/// The JSON string literal of a text.
pub open spec fn quoted(s: Seq<char>) -> Seq<char> {
    json_text(JsonTree::Text(s))
}

/// The JSON text of a cookie.
pub open spec fn cookie_text(c: CookieModel) -> Seq<char> {
    "{\"domain\":"@ + quoted(c.domain) + ",\"expiry\":"@ + decimal(c.expiry as nat)
        + ",\"httpOnly\":"@ + bool_word(c.httpOnly) + ",\"name\":"@ + quoted(c.name)
        + ",\"path\":"@ + quoted(c.path) + ",\"secure\":"@ + bool_word(c.secure) + ",\"value\":"@
        + quoted(c.value) + ",\"sameSite\":"@ + quoted(c.sameSite) + seq!['}']
}

impl Cookie {
    /// A cookie with every field given.
    pub fn new_all(
        domain: String,
        expiry: u64,
        same_site: String,
        http_only: bool,
        name: String,
        path: String,
        secure: bool,
        value: String,
    ) -> (r: Self)
        ensures
            r@ == (CookieModel {
                domain: domain@,
                expiry,
                httpOnly: http_only,
                name: name@,
                path: path@,
                secure,
                value: value@,
                sameSite: same_site@,
            }),
    {
        Cookie {
            domain,
            expiry,
            httpOnly: http_only,
            name,
            path,
            sameSite: same_site,
            secure,
            value,
        }
    }

    /// A cookie with a name and a value; everything else as in
    /// [`Cookie::default`].
    pub fn new(name: String, value: String) -> (r: Self)
        ensures
            r@ == (CookieModel {
                domain: Seq::empty(),
                expiry: 0,
                httpOnly: false,
                name: name@,
                path: Seq::empty(),
                secure: false,
                value: value@,
                sameSite: "None"@,
            }),
    {
        Cookie {
            domain: String::new(),
            expiry: 0,
            httpOnly: false,
            name,
            path: String::new(),
            secure: false,
            value,
            sameSite: String::from_str("None"),
        }
    }

    pub fn get_domain(&self) -> (r: String)
        ensures
            r@ == self@.domain,
    {
        self.domain.clone()
    }

    pub fn get_expiry(&self) -> (r: u64)
        ensures
            r == self@.expiry,
    {
        self.expiry
    }

    pub fn get_http_only(&self) -> (r: bool)
        ensures
            r == self@.httpOnly,
    {
        self.httpOnly
    }

    pub fn get_name(&self) -> (r: String)
        ensures
            r@ == self@.name,
    {
        self.name.clone()
    }

    pub fn get_path(&self) -> (r: String)
        ensures
            r@ == self@.path,
    {
        self.path.clone()
    }

    pub fn get_secure(&self) -> (r: bool)
        ensures
            r == self@.secure,
    {
        self.secure
    }

    pub fn get_value(&self) -> (r: String)
        ensures
            r@ == self@.value,
    {
        self.value.clone()
    }

    pub fn get_same_site(&self) -> (r: String)
        ensures
            r@ == self@.sameSite,
    {
        self.sameSite.clone()
    }

    pub fn set_domain(&mut self, domain: String)
        ensures
            final(self)@ == (CookieModel { domain: domain@, ..old(self)@ }),
    {
        self.domain = domain;
    }

    pub fn set_expiry(&mut self, expiry: u64)
        ensures
            final(self)@ == (CookieModel { expiry, ..old(self)@ }),
    {
        self.expiry = expiry;
    }

    pub fn set_http_only(&mut self, http_only: bool)
        ensures
            final(self)@ == (CookieModel { httpOnly: http_only, ..old(self)@ }),
    {
        self.httpOnly = http_only;
    }

    pub fn set_path(&mut self, path: String)
        ensures
            final(self)@ == (CookieModel { path: path@, ..old(self)@ }),
    {
        self.path = path;
    }

    pub fn set_secure(&mut self, secure: bool)
        ensures
            final(self)@ == (CookieModel { secure, ..old(self)@ }),
    {
        self.secure = secure;
    }

    pub fn set_same_site(&mut self, same_site: String)
        ensures
            final(self)@ == (CookieModel { sameSite: same_site@, ..old(self)@ }),
    {
        self.sameSite = same_site;
    }

    /// The cookie as JSON text, members in the order of the fields, strings
    /// quoted and escaped as JSON asks.
    pub fn to_json(&self) -> (r: String)
        ensures
            r@ == cookie_text(self@),
    {
        let mut text = String::from_str("{\"domain\":");
        text.append(json_quote(self.domain.as_str()).as_str());
        text.append(",\"expiry\":");
        push_decimal(&mut text, self.expiry as u128);
        text.append(",\"httpOnly\":");
        push_bool(&mut text, self.httpOnly);
        text.append(",\"name\":");
        text.append(json_quote(self.name.as_str()).as_str());
        text.append(",\"path\":");
        text.append(json_quote(self.path.as_str()).as_str());
        text.append(",\"secure\":");
        push_bool(&mut text, self.secure);
        text.append(",\"value\":");
        text.append(json_quote(self.value.as_str()).as_str());
        text.append(",\"sameSite\":");
        text.append(json_quote(self.sameSite.as_str()).as_str());
        text.push('}');
        assert(text@ =~= cookie_text(self@));
        text
    }
}

impl Default for Cookie {
    /// No name, no value, no domain, no path, no expiry, no flags, and the
    /// same-site policy `None`.
    fn default() -> (r: Self)
        ensures
            r@ == (CookieModel {
                domain: Seq::empty(),
                expiry: 0,
                httpOnly: false,
                name: Seq::empty(),
                path: Seq::empty(),
                secure: false,
                value: Seq::empty(),
                sameSite: "None"@,
            }),
    {
        Cookie {
            domain: String::new(),
            expiry: 0,
            httpOnly: false,
            name: String::new(),
            path: String::new(),
            secure: false,
            value: String::new(),
            sameSite: String::from_str("None"),
        }
    }
}

/// The implicit, page load and script timeouts of a session, in
/// milliseconds.
#[allow(non_snake_case)]
#[derive(Debug, PartialEq, Clone, Copy)]
pub struct Timeouts {
    pub implicit: u32,
    pub pageLoad: u32,
    pub script: u32,
}

/// The JSON text of the timeouts.
pub open spec fn timeouts_text(t: Timeouts) -> Seq<char> {
    "{\"implicit\":"@ + decimal(t.implicit as nat) + ",\"pageLoad\":"@ + decimal(
        t.pageLoad as nat,
    ) + ",\"script\":"@ + decimal(t.script as nat) + seq!['}']
}

impl Timeouts {
    /// Timeouts with every field given.
    pub fn set_all(implicit: u32, page_load: u32, script: u32) -> (r: Timeouts)
        ensures
            r == (Timeouts { implicit, pageLoad: page_load, script }),
    {
        Timeouts { implicit, pageLoad: page_load, script }
    }

    /// The timeouts that a fresh Chrome session has.
    pub fn new() -> (r: Timeouts)
        ensures
            r == (Timeouts { implicit: 0, pageLoad: 300000, script: 30000 }),
    {
        Timeouts { implicit: 0, pageLoad: 300000, script: 30000 }
    }

    pub fn set_implicit(&mut self, implicit: u32)
        ensures
            *final(self) == (Timeouts { implicit, ..*old(self) }),
    {
        self.implicit = implicit;
    }

    pub fn set_page_load(&mut self, page_load: u32)
        ensures
            *final(self) == (Timeouts { pageLoad: page_load, ..*old(self) }),
    {
        self.pageLoad = page_load;
    }

    pub fn set_script(&mut self, script: u32)
        ensures
            *final(self) == (Timeouts { script, ..*old(self) }),
    {
        self.script = script;
    }

    /// The timeouts as JSON text, members in the order of the fields.
    pub fn to_json(&self) -> (r: String)
        ensures
            r@ == timeouts_text(*self),
    {
        let mut text = String::from_str("{\"implicit\":");
        push_decimal(&mut text, self.implicit as u128);
        text.append(",\"pageLoad\":");
        push_decimal(&mut text, self.pageLoad as u128);
        text.append(",\"script\":");
        push_decimal(&mut text, self.script as u128);
        text.push('}');
        assert(text@ =~= timeouts_text(*self));
        text
    }
}

/// The margins of a printed page.
#[derive(Debug, PartialEq, Clone, Copy)]
pub struct Margin {
    pub top: u32,
    pub bottom: u32,
    pub left: u32,
    pub right: u32,
}

impl Margin {
    pub fn new(top: u32, bottom: u32, left: u32, right: u32) -> (r: Self)
        ensures
            r == (Margin { top, bottom, left, right }),
    {
        Margin { top, bottom, left, right }
    }

    pub fn set_top(&mut self, top: u32)
        ensures
            *final(self) == (Margin { top, ..*old(self) }),
    {
        self.top = top;
    }

    pub fn set_bottom(&mut self, bottom: u32)
        ensures
            *final(self) == (Margin { bottom, ..*old(self) }),
    {
        self.bottom = bottom
    }

    pub fn set_left(&mut self, left: u32)
        ensures
            *final(self) == (Margin { left, ..*old(self) }),
    {
        self.left = left;
    }

    pub fn set_right(&mut self, right: u32)
        ensures
            *final(self) == (Margin { right, ..*old(self) }),
    {
        self.right = right;
    }
}

impl Default for Margin {
    /// One on every side.
    fn default() -> (r: Self)
        ensures
            r == (Margin { top: 1, bottom: 1, left: 1, right: 1 }),
    {
        Margin { top: 1, bottom: 1, left: 1, right: 1 }
    }
}

/// The path of a command of a session: the session's own path and the
/// command's suffix.
pub open spec fn session_path(sess_id: Seq<char>, suffix: Seq<char>) -> Seq<char> {
    "wd/hub/session/"@ + sess_id + suffix
}

fn session_url(sess_id: &str, suffix: &str) -> (r: String)
    ensures
        r@ == session_path(sess_id@, suffix@),
{
    let mut url = String::from_str("wd/hub/session/");
    url.append(sess_id);
    url.append(suffix);
    url
}

/// A browser session: the address of the server and the path of every
/// command of the session.
#[derive(Debug)]
pub struct Browser {
    pub ip: String,
    pub port: String,
    pub session_url: String,
    pub go_to_url: String,
    pub timeouts_url: String,
    pub back_url: String,
    pub forward_url: String,
    pub refresh_url: String,
    pub title_url: String,
    pub window_url: String,
    pub window_handles_url: String,
    pub window_new_url: String,
    pub window_rect_url: String,
    pub frame_url: String,
    pub frame_parent_url: String,
    pub window_maximize_url: String,
    pub window_minimize_url: String,
    pub window_fullscreen_url: String,
    pub element_url: String,
    pub element_active_url: String,
    pub elements_url: String,
    pub source_url: String,
    pub execute_sync_url: String,
    pub execute_async_url: String,
    pub cookie_url: String,
    pub actions_url: String,
    pub alert_dismiss_url: String,
    pub alert_accept_url: String,
    pub alert_text_url: String,
    pub screenshot_url: String,
    pub print_page_url: String,
}

impl Browser {
    /// Every field but the session's own path is as in `other`.
    pub open spec fn linked_but_session(&self, other: Browser) -> bool {
        &&& self.ip == other.ip
        &&& self.port == other.port
        &&& self.go_to_url == other.go_to_url
        &&& self.timeouts_url == other.timeouts_url
        &&& self.back_url == other.back_url
        &&& self.forward_url == other.forward_url
        &&& self.refresh_url == other.refresh_url
        &&& self.title_url == other.title_url
        &&& self.window_url == other.window_url
        &&& self.window_handles_url == other.window_handles_url
        &&& self.window_new_url == other.window_new_url
        &&& self.window_rect_url == other.window_rect_url
        &&& self.frame_url == other.frame_url
        &&& self.frame_parent_url == other.frame_parent_url
        &&& self.window_maximize_url == other.window_maximize_url
        &&& self.window_minimize_url == other.window_minimize_url
        &&& self.window_fullscreen_url == other.window_fullscreen_url
        &&& self.element_url == other.element_url
        &&& self.element_active_url == other.element_active_url
        &&& self.elements_url == other.elements_url
        &&& self.source_url == other.source_url
        &&& self.execute_sync_url == other.execute_sync_url
        &&& self.execute_async_url == other.execute_async_url
        &&& self.cookie_url == other.cookie_url
        &&& self.actions_url == other.actions_url
        &&& self.alert_dismiss_url == other.alert_dismiss_url
        &&& self.alert_accept_url == other.alert_accept_url
        &&& self.alert_text_url == other.alert_text_url
        &&& self.screenshot_url == other.screenshot_url
        &&& self.print_page_url == other.print_page_url
    }

    /// Every path is the one that the session `sess_id` has for its command,
    /// and the server is the one at `ip` and `port`.
    pub open spec fn linked(&self, ip: Seq<char>, port: Seq<char>, sess_id: Seq<char>) -> bool {
        &&& self.ip@ == ip
        &&& self.port@ == port
        &&& self.session_url@ == session_path(sess_id, ""@)
        &&& self.go_to_url@ == session_path(sess_id, "/url"@)
        &&& self.timeouts_url@ == session_path(sess_id, "/timeouts"@)
        &&& self.back_url@ == session_path(sess_id, "/back"@)
        &&& self.forward_url@ == session_path(sess_id, "/forward"@)
        &&& self.refresh_url@ == session_path(sess_id, "/refresh"@)
        &&& self.title_url@ == session_path(sess_id, "/title"@)
        &&& self.window_url@ == session_path(sess_id, "/window"@)
        &&& self.window_handles_url@ == session_path(sess_id, "/window/handles"@)
        &&& self.window_new_url@ == session_path(sess_id, "/window/new"@)
        &&& self.window_rect_url@ == session_path(sess_id, "/window/rect"@)
        &&& self.frame_url@ == session_path(sess_id, "/frame"@)
        &&& self.frame_parent_url@ == session_path(sess_id, "/frame/parent"@)
        &&& self.window_maximize_url@ == session_path(sess_id, "/window/maximize"@)
        &&& self.window_minimize_url@ == session_path(sess_id, "/window/minimize"@)
        &&& self.window_fullscreen_url@ == session_path(sess_id, "/window/fullscreen"@)
        &&& self.element_url@ == session_path(sess_id, "/element"@)
        &&& self.element_active_url@ == session_path(sess_id, "/element/active"@)
        &&& self.elements_url@ == session_path(sess_id, "/elements"@)
        &&& self.source_url@ == session_path(sess_id, "/source"@)
        &&& self.execute_sync_url@ == session_path(sess_id, "/execute/sync"@)
        &&& self.execute_async_url@ == session_path(sess_id, "/execute/async"@)
        &&& self.cookie_url@ == session_path(sess_id, "/cookie"@)
        &&& self.actions_url@ == session_path(sess_id, "/actions"@)
        &&& self.alert_dismiss_url@ == session_path(sess_id, "/alert/dismiss"@)
        &&& self.alert_accept_url@ == session_path(sess_id, "/alert/accept"@)
        &&& self.alert_text_url@ == session_path(sess_id, "/alert/text"@)
        &&& self.screenshot_url@ == session_path(sess_id, "/screenshot"@)
        &&& self.print_page_url@ == session_path(sess_id, "/print"@)
    }
}

/// The session `sess_id` on the server at `ip` and `port`, with the path of
/// every command.
pub fn generate_browser_links(ip: &str, port: &str, sess_id: &str) -> (r: Browser)
    ensures
        r.linked(ip@, port@, sess_id@),
{
    Browser {
        port: String::from_str(port),
        ip: String::from_str(ip),
        session_url: session_url(sess_id, ""),
        go_to_url: session_url(sess_id, "/url"),
        timeouts_url: session_url(sess_id, "/timeouts"),
        back_url: session_url(sess_id, "/back"),
        forward_url: session_url(sess_id, "/forward"),
        refresh_url: session_url(sess_id, "/refresh"),
        title_url: session_url(sess_id, "/title"),
        window_url: session_url(sess_id, "/window"),
        window_handles_url: session_url(sess_id, "/window/handles"),
        window_new_url: session_url(sess_id, "/window/new"),
        window_rect_url: session_url(sess_id, "/window/rect"),
        frame_url: session_url(sess_id, "/frame"),
        frame_parent_url: session_url(sess_id, "/frame/parent"),
        window_maximize_url: session_url(sess_id, "/window/maximize"),
        window_minimize_url: session_url(sess_id, "/window/minimize"),
        window_fullscreen_url: session_url(sess_id, "/window/fullscreen"),
        element_url: session_url(sess_id, "/element"),
        element_active_url: session_url(sess_id, "/element/active"),
        elements_url: session_url(sess_id, "/elements"),
        source_url: session_url(sess_id, "/source"),
        execute_sync_url: session_url(sess_id, "/execute/sync"),
        execute_async_url: session_url(sess_id, "/execute/async"),
        cookie_url: session_url(sess_id, "/cookie"),
        actions_url: session_url(sess_id, "/actions"),
        alert_dismiss_url: session_url(sess_id, "/alert/dismiss"),
        alert_accept_url: session_url(sess_id, "/alert/accept"),
        alert_text_url: session_url(sess_id, "/alert/text"),
        screenshot_url: session_url(sess_id, "/screenshot"),
        print_page_url: session_url(sess_id, "/print"),
    }
}

/// The path under which sessions are created.
pub open spec fn new_session_path() -> Seq<char> {
    "wd/hub/session"@
}

/// The opening of a plain session request, up to and without the closing of
/// `capabilities`.
pub open spec fn always_match_platform(platform: Seq<char>) -> Seq<char> {
    "{\"capabilities\": {\"alwaysMatch\":{\"platformName\":\""@ + platform + "\"}"@
}

/// The body that asks for a plain session of `browser` on `platform`; the
/// arguments go to Chrome and are left out for the other browsers.
pub open spec fn session_body(browser: BrowserName, args: Seq<&str>, platform: Seq<char>) -> Seq<
    char,
> {
    match browser {
        BrowserName::Chrome => always_match_platform(platform)
            + ",\"firstMatch\":[{\"browserName\":\"chrome\",\"goog:chromeOptions\":{\"args\":"@
            + list_text(args, true) + "}}]}}"@,
        BrowserName::Firefox => always_match_platform(platform)
            + ",\"firstMatch\":[{\"browserName\":\"firefox\"}]}}"@,
        BrowserName::Safari => always_match_platform(platform)
            + ",\"firstMatch\":[{\"browserName\":\"safari\"}]}}"@,
    }
}

/// The body that asks for a remote session of `browser` on `platform`.
pub open spec fn remote_session_body(browser: BrowserName, platform: Seq<char>) -> Seq<char> {
    "{\n            \"capabilities\": {\n                \"alwaysMatch\": {\n                    \"platformName\": \""@
        + platform
        + "\"\n                },\n                \"firstMatch\": [\n                    {\"browserName\": \""@
        + browser_word(browser)
        + "\"}\n                ]\n            }\n        }\n        "@
}

/// The options of a browser as they go into a session request: without the
/// comma that they end with.
pub open spec fn closed_options(options: Seq<char>) -> Seq<char> {
    without_tail(options, 2) + seq!['}']
}

/// The body that asks for a session of `browser_word` on `platform` with the
/// browser's options.
pub open spec fn options_session_body(
    browser_word: Seq<char>,
    options: Seq<char>,
    platform: Seq<char>,
) -> Seq<char> {
    "{\n            \"capabilities\": {\n                \"alwaysMatch\": {\n                    \"platformName\": \""@
        + platform
        + "\"\n                },\n                \"firstMatch\": [\n                    {\"browserName\": \""@
        + browser_word + "\",\n                        "@ + closed_options(options)
        + "\n                    }\n                ]\n            }\n        }"@
}

/// The body that asks for a Safari session on `platform` with options.
pub open spec fn safari_session_body(options: Seq<char>, platform: Seq<char>) -> Seq<char> {
    "\n        {\n            \"capabilities\":{\n                \"alwaysMatch\":\n                    {\n                        \"platformName\":\""@
        + platform
        + "\",\n                        \"browserName\":\"safari\",\n                        "@
        + options + "\n                    }\n            }\n        }"@
}

/// The bracketed list of the arguments, each in double quotes.
pub fn gen_args(args: Vec<&str>) -> (r: String)
    ensures
        r@ == list_text(args@, true),
{
    let mut result = String::new();
    push_list(&mut result, &args, true);
    assert(result@ =~= list_text(args@, true));
    result
}

/// The bracketed list of the arguments as they are: an argument that is a
/// string brings its own quotes.
pub fn gen_script_args(args: &Vec<&str>) -> (r: String)
    ensures
        r@ == list_text(args@, false),
{
    let mut result = String::new();
    push_list(&mut result, args, false);
    assert(result@ =~= list_text(args@, false));
    result
}

fn always_match_platform_text(platform: &str) -> (r: String)
    ensures
        r@ == always_match_platform(platform@),
{
    let mut one = String::from_str("{\"capabilities\": {\"alwaysMatch\":{\"platformName\":\"");
    one.append(platform);
    one.append("\"}");
    one
}

/// The body that asks for a plain Chrome session launched with `args`.
pub fn create_chrome_session(args: Vec<&str>, platform: &str) -> (r: String)
    ensures
        r@ == session_body(BrowserName::Chrome, args@, platform@),
{
    let mut two = always_match_platform_text(platform);
    two.append(",\"firstMatch\":[{\"browserName\":\"chrome\",\"goog:chromeOptions\":{\"args\":");
    push_list(&mut two, &args, true);
    two.append("}}]}}");
    assert(two@ =~= session_body(BrowserName::Chrome, args@, platform@));
    two
}

/// The body that asks for a plain Firefox session.
pub fn create_firefox_session(platform: &str) -> (r: String)
    ensures
        r@ == session_body(BrowserName::Firefox, Seq::empty(), platform@),
{
    let mut two = always_match_platform_text(platform);
    two.append(",\"firstMatch\":[{\"browserName\":\"firefox\"}]}}");
    two
}

/// The body that asks for a plain Safari session.
pub fn create_safari_session(platform: &str) -> (r: String)
    ensures
        r@ == session_body(BrowserName::Safari, Seq::empty(), platform@),
{
    let mut two = always_match_platform_text(platform);
    two.append(",\"firstMatch\":[{\"browserName\":\"safari\"}]}}");
    two
}

/// The body that asks for a plain session of `browser` on `platform`.
pub fn create_session_body_json(browser: BrowserName, args: Vec<&str>, platform: &str) -> (r:
    String)
    ensures
        r@ == session_body(browser, args@, platform@),
{
    match browser {
        BrowserName::Chrome => create_chrome_session(args, platform),
        BrowserName::Firefox => create_firefox_session(platform),
        BrowserName::Safari => create_safari_session(platform),
    }
}

fn options_session_text(browser_word: &str, options: String, platform: &str) -> (r: String)
    ensures
        r@ == options_session_body(browser_word@, options@, platform@),
{
    let ghost given = options@;
    let mut options = options;
    pop_tail(&mut options, 2);
    options.push('}');
    let mut base_string = String::from_str(
        "{\n            \"capabilities\": {\n                \"alwaysMatch\": {\n                    \"platformName\": \"",
    );
    base_string.append(platform);
    base_string.append(
        "\"\n                },\n                \"firstMatch\": [\n                    {\"browserName\": \"",
    );
    base_string.append(browser_word);
    base_string.append("\",\n                        ");
    base_string.append(options.as_str());
    base_string.append("\n                    }\n                ]\n            }\n        }");
    assert(base_string@ =~= options_session_body(browser_word@, given, platform@));
    base_string
}

/// The body that asks for a Chrome session with options.
pub fn create_json_body_for_session_with_chrome_options(
    chrome_options: ChromeOptions,
    platform: &str,
) -> (r: String)
    ensures
        r@ == options_session_body("chrome"@, chrome_options.string_for_session@, platform@),
{
    options_session_text("chrome", chrome_options.string_for_session, platform)
}

/// The body that asks for a Firefox session with options.
pub fn create_json_body_for_session_with_firefox_options(
    ff_options: FirefoxOptions,
    platform: &str,
) -> (r: String)
    ensures
        r@ == options_session_body("firefox"@, ff_options.string_for_session@, platform@),
{
    options_session_text("firefox", ff_options.string_for_session, platform)
}

/// The body that asks for a Safari session with options.
pub fn create_json_body_for_session_with_safari_options(
    saf_options: SafariOptions,
    platform: &str,
) -> (r: String)
    ensures
        r@ == safari_session_body(saf_options.base_string@, platform@),
{
    let mut base_string = String::from_str(
        "\n        {\n            \"capabilities\":{\n                \"alwaysMatch\":\n                    {\n                        \"platformName\":\"",
    );
    base_string.append(platform);
    base_string.append(
        "\",\n                        \"browserName\":\"safari\",\n                        ",
    );
    base_string.append(saf_options.base_string.as_str());
    base_string.append("\n                    }\n            }\n        }");
    base_string
}

fn sub_path(base: &str, suffix: &str) -> (r: String)
    ensures
        r@ == base@ + suffix@,
{
    let mut path = String::from_str(base);
    path.append(suffix);
    path
}

impl Browser {
    /// Asks for a plain session of `browser` on `platform`. The arguments go
    /// to Chrome and are left out for Firefox and Safari.
    pub fn start_session(browser: BrowserName, args: Vec<&str>, platform: &str) -> (r: WireRequest)
        ensures
            r.is_post(new_session_path(), session_body(browser, args@, platform@)),
    {
        let req_body = create_session_body_json(browser, args, platform);
        WireRequest::post("wd/hub/session", req_body.as_str())
    }

    /// Asks for a session with the capabilities given.
    pub fn start_session_with_capabilities(capabilities: Capabilities) -> (r: WireRequest)
        ensures
            r.is_post(new_session_path(), capabilities.cap_string@),
    {
        WireRequest::post("wd/hub/session", capabilities.cap_string.as_str())
    }

    /// Asks a remote server for a session with the capabilities given.
    pub fn start_remote_session_with_capabilities(capabilities: Capabilities) -> (r: WireRequest)
        ensures
            r.is_post(new_session_path(), capabilities.cap_string@),
    {
        WireRequest::post("wd/hub/session", capabilities.cap_string.as_str())
    }

    /// Asks a remote server for a plain session of `browser` on `platform`.
    pub fn start_remote_session(browser: BrowserName, platform: &str) -> (r: WireRequest)
        ensures
            r.is_post(new_session_path(), remote_session_body(browser, platform@)),
    {
        let mut req_body = String::from_str(
            "{\n            \"capabilities\": {\n                \"alwaysMatch\": {\n                    \"platformName\": \"",
        );
        req_body.append(platform);
        req_body.append(
            "\"\n                },\n                \"firstMatch\": [\n                    {\"browserName\": \"",
        );
        req_body.append(browser_name(&browser));
        req_body.append("\"}\n                ]\n            }\n        }\n        ");
        WireRequest::post("wd/hub/session", req_body.as_str())
    }

    /// Asks for a Chrome session with options.
    pub fn start_chrome_session_with_options(options: ChromeOptions, platform: &str) -> (r:
        WireRequest)
        ensures
            r.is_post(
                new_session_path(),
                options_session_body("chrome"@, options.string_for_session@, platform@),
            ),
    {
        let body = create_json_body_for_session_with_chrome_options(options, platform);
        WireRequest::post("wd/hub/session", body.as_str())
    }

    /// Asks for a Firefox session with options.
    pub fn start_firefox_session_with_options(options: FirefoxOptions, platform: &str) -> (r:
        WireRequest)
        ensures
            r.is_post(
                new_session_path(),
                options_session_body("firefox"@, options.string_for_session@, platform@),
            ),
    {
        let body = create_json_body_for_session_with_firefox_options(options, platform);
        WireRequest::post("wd/hub/session", body.as_str())
    }

    /// Asks for a Safari session with options.
    pub fn start_safari_session_with_options(options: SafariOptions, platform: &str) -> (r:
        WireRequest)
        ensures
            r.is_post(new_session_path(), safari_session_body(options.base_string@, platform@)),
    {
        let body = create_json_body_for_session_with_safari_options(options, platform);
        WireRequest::post("wd/hub/session", body.as_str())
    }

    /// Opens a page or a local file.
    pub fn open(&self, uri: &str) -> (r: WireRequest)
        ensures
            r.is_post(self.go_to_url@, "{\"url\":\""@ + uri@ + "\"}"@),
    {
        let mut body = String::from_str("{\"url\":\"");
        body.append(uri);
        body.append("\"}");
        WireRequest::post(self.go_to_url.as_str(), body.as_str())
    }

    /// Asks for the address of the current page.
    pub fn get_link(&self) -> (r: WireRequest)
        ensures
            r.is_get(self.go_to_url@),
    {
        WireRequest::get(self.go_to_url.as_str())
    }

    /// Asks the server to end the session.
    pub fn close_browser(&self) -> (r: WireRequest)
        ensures
            r.is_delete(self.session_url@),
    {
        WireRequest::delete(self.session_url.as_str())
    }

    /// Asks for the timeouts of the session.
    pub fn get_timeouts(&self) -> (r: WireRequest)
        ensures
            r.is_get(self.timeouts_url@),
    {
        WireRequest::get(self.timeouts_url.as_str())
    }

    /// Sets the timeouts of the session.
    pub fn set_timeouts(&self, timeouts: &Timeouts) -> (r: WireRequest)
        ensures
            r.is_post(self.timeouts_url@, timeouts_text(*timeouts)),
    {
        let timeouts_json = timeouts.to_json();
        WireRequest::post(self.timeouts_url.as_str(), timeouts_json.as_str())
    }

    /// Goes back to the previous page.
    pub fn back(&self) -> (r: WireRequest)
        ensures
            r.is_post(self.back_url@, "{\"return\":true}"@),
    {
        WireRequest::post(self.back_url.as_str(), "{\"return\":true}")
    }

    /// Goes forward to the next page.
    pub fn forward(&self) -> (r: WireRequest)
        ensures
            r.is_post(self.forward_url@, "{\"forward\":true}"@),
    {
        WireRequest::post(self.forward_url.as_str(), "{\"forward\":true}")
    }

    /// Reloads the page.
    pub fn refresh(&self) -> (r: WireRequest)
        ensures
            r.is_post(self.refresh_url@, "{\"refresh\":true}"@),
    {
        WireRequest::post(self.refresh_url.as_str(), "{\"refresh\":true}")
    }

    /// Asks for the title of the current tab.
    pub fn get_title(&self) -> (r: WireRequest)
        ensures
            r.is_get(self.title_url@),
    {
        WireRequest::get(self.title_url.as_str())
    }

    /// Asks for the handle of the current window.
    pub fn get_window_handle(&self) -> (r: WireRequest)
        ensures
            r.is_get(self.window_url@),
    {
        WireRequest::get(self.window_url.as_str())
    }

    /// Asks for the handles of all open windows and tabs.
    pub fn get_window_handles(&self) -> (r: WireRequest)
        ensures
            r.is_get(self.window_handles_url@),
    {
        WireRequest::get(self.window_handles_url.as_str())
    }

    /// Switches to the window with the handle given.
    pub fn switch_to_window(&self, window_id: String) -> (r: WireRequest)
        ensures
            r.is_post(self.window_url@, "{\"handle\":\""@ + window_id@ + "\"}"@),
    {
        let mut body = String::from_str("{\"handle\":\"");
        body.append(window_id.as_str());
        body.append("\"}");
        WireRequest::post(self.window_url.as_str(), body.as_str())
    }

    /// Opens a new tab or a new window.
    pub fn new_window(&self, window_type: NewWindowType) -> (r: WireRequest)
        ensures
            r.is_post(
                self.window_new_url@,
                match window_type {
                    NewWindowType::Tab => "{\"type\":\"tab\"}"@,
                    NewWindowType::Window => "{\"type\":\"window\"}"@,
                },
            ),
    {
        let body = match window_type {
            NewWindowType::Tab => "{\"type\":\"tab\"}",
            NewWindowType::Window => "{\"type\":\"window\"}",
        };
        WireRequest::post(self.window_new_url.as_str(), body)
    }

    /// Closes the current window.
    pub fn close_window(&self) -> (r: WireRequest)
        ensures
            r.is_delete(self.window_url@),
    {
        WireRequest::delete(self.window_url.as_str())
    }

    /// Switches to the frame with the number given, counted from zero.
    pub fn switch_to_frame_by_id(&self, id: u64) -> (r: WireRequest)
        ensures
            r.is_post(self.frame_url@, "{\"id\":"@ + decimal(id as nat) + seq!['}']),
    {
        let mut body = String::from_str("{\"id\":");
        push_decimal(&mut body, id as u128);
        body.push('}');
        assert(body@ =~= "{\"id\":"@ + decimal(id as nat) + seq!['}']);
        WireRequest::post(self.frame_url.as_str(), body.as_str())
    }

    /// Switches to the frame that an element holds.
    pub fn switch_to_frame_by_element(&self, element: Element) -> (r: WireRequest)
        ensures
            r.is_post(
                self.frame_url@,
                "{\"id\":{\""@ + element.element_gr_id@ + "\":\""@ + element.element_id@
                    + "\"}}"@,
            ),
    {
        let mut body = String::from_str("{\"id\":{\"");
        body.append(element.element_gr_id.as_str());
        body.append("\":\"");
        body.append(element.element_id.as_str());
        body.append("\"}}");
        WireRequest::post(self.frame_url.as_str(), body.as_str())
    }

    /// Switches to the frame that holds the current one.
    pub fn switch_to_parent_frame(&self) -> (r: WireRequest)
        ensures
            r.is_post(self.frame_parent_url@, "{}"@),
    {
        WireRequest::post(self.frame_parent_url.as_str(), "{}")
    }

    /// Asks for the element that has the focus.
    pub fn get_active_element(&self) -> (r: WireRequest)
        ensures
            r.is_get(self.element_active_url@),
    {
        WireRequest::get(self.element_active_url.as_str())
    }

    /// Asks for the first element that the locator finds.
    pub fn find_element(&self, loc_strategy: LocatorStrategy) -> (r: WireRequest)
        ensures
            r.is_post(self.element_url@, find_element_text(loc_strategy)),
    {
        let body = body_for_find_element(loc_strategy);
        WireRequest::post(self.element_url.as_str(), body.as_str())
    }

    /// Asks for all elements that the locator finds.
    pub fn find_elements(&self, loc_strategy: LocatorStrategy) -> (r: WireRequest)
        ensures
            r.is_post(self.elements_url@, find_element_text(loc_strategy)),
    {
        let body = body_for_find_element(loc_strategy);
        WireRequest::post(self.elements_url.as_str(), body.as_str())
    }

    /// Asks for size and position of the current window.
    pub fn get_window_rect(&self) -> (r: WireRequest)
        ensures
            r.is_get(self.window_rect_url@),
    {
        WireRequest::get(self.window_rect_url.as_str())
    }

    /// Resizes and moves the current window.
    pub fn set_sindow_rect(&self, window_rect: &WindowRect) -> (r: WireRequest)
        ensures
            r.is_post(self.window_rect_url@, window_rect_text(*window_rect)),
    {
        let body = window_rect.to_json();
        WireRequest::post(self.window_rect_url.as_str(), body.as_str())
    }

    /// Maximizes the current window.
    pub fn maximize_window(&self) -> (r: WireRequest)
        ensures
            r.is_post(self.window_maximize_url@, "{}"@),
    {
        WireRequest::post(self.window_maximize_url.as_str(), "{}")
    }

    /// Minimizes the current window.
    pub fn minimize_window(&self) -> (r: WireRequest)
        ensures
            r.is_post(self.window_minimize_url@, "{}"@),
    {
        WireRequest::post(self.window_minimize_url.as_str(), "{}")
    }

    /// Makes the current window fill the screen.
    pub fn fullscreen(&self) -> (r: WireRequest)
        ensures
            r.is_post(self.window_fullscreen_url@, "{}"@),
    {
        WireRequest::post(self.window_fullscreen_url.as_str(), "{}")
    }

    /// Asks for the source of the page.
    pub fn source(&self) -> (r: WireRequest)
        ensures
            r.is_get(self.source_url@),
    {
        WireRequest::get(self.source_url.as_str())
    }

    /// Asks for all cookies that the browser holds.
    pub fn get_all_cookies(&self) -> (r: WireRequest)
        ensures
            r.is_get(self.cookie_url@),
    {
        WireRequest::get(self.cookie_url.as_str())
    }

    /// Asks for the cookie with the name given.
    pub fn get_cookie(&self, cookie_name: &str) -> (r: WireRequest)
        ensures
            r.is_get(self.cookie_url@ + "/"@ + cookie_name@),
    {
        let mut url = sub_path(self.cookie_url.as_str(), "/");
        url.append(cookie_name);
        WireRequest::get(url.as_str())
    }

    /// Adds a cookie.
    pub fn add_cookie(&self, cookie: Cookie) -> (r: WireRequest)
        ensures
            r.is_post(self.cookie_url@, "{\"cookie\": "@ + cookie_text(cookie@) + " }"@),
    {
        let cook = cookie.to_json();
        let mut body = String::from_str("{\"cookie\": ");
        body.append(cook.as_str());
        body.append(" }");
        WireRequest::post(self.cookie_url.as_str(), body.as_str())
    }

    /// Deletes the cookie with the name given.
    pub fn delete_cookie(&self, cookie_name: &str) -> (r: WireRequest)
        ensures
            r.is_delete(self.cookie_url@ + "/"@ + cookie_name@),
    {
        let mut uri = sub_path(self.cookie_url.as_str(), "/");
        uri.append(cookie_name);
        WireRequest::delete(uri.as_str())
    }

    /// Deletes all cookies.
    pub fn delete_all_cookies(&self) -> (r: WireRequest)
        ensures
            r.is_delete(self.cookie_url@),
    {
        WireRequest::delete(self.cookie_url.as_str())
    }

    /// Asks for a screenshot of the page.
    pub fn take_screenshot(&self) -> (r: WireRequest)
        ensures
            r.is_get(self.screenshot_url@),
    {
        WireRequest::get(self.screenshot_url.as_str())
    }

    /// Asks for a screenshot of one element.
    pub fn take_element_screenshot(&self, elem: &Element) -> (r: WireRequest)
        ensures
            r.is_get(self.element_url@ + "/"@ + elem.element_id@ + "/screenshot"@),
    {
        let mut uri = sub_path(self.element_url.as_str(), "/");
        uri.append(elem.element_id.as_str());
        uri.append("/screenshot");
        WireRequest::get(uri.as_str())
    }

    /// The body of a script request.
    pub open spec fn script_body(script: Seq<char>, args: Seq<&str>) -> Seq<char> {
        "{\"script\":\""@ + script + "\",\"args\":"@ + list_text(args, false) + seq!['}']
    }

    fn script_text(script: &str, args: &Vec<&str>) -> (r: String)
        ensures
            r@ == Self::script_body(script@, args@),
    {
        let mut body = String::from_str("{\"script\":\"");
        body.append(script);
        body.append("\",\"args\":");
        push_list(&mut body, args, false);
        body.push('}');
        assert(body@ =~= Self::script_body(script@, args@));
        body
    }

    /// Runs a script in the page and waits for it. An argument that is a
    /// string brings its own quotes.
    pub fn execute_sync(&self, script: &str, args: &Vec<&str>) -> (r: WireRequest)
        ensures
            r.is_post(self.execute_sync_url@, Self::script_body(script@, args@)),
    {
        let body = Self::script_text(script, args);
        WireRequest::post(self.execute_sync_url.as_str(), body.as_str())
    }

    /// Runs a script in the page that reports back when it is done.
    pub fn execute_async(&self, script: &str, args: &Vec<&str>) -> (r: WireRequest)
        ensures
            r.is_post(self.execute_async_url@, Self::script_body(script@, args@)),
    {
        let body = Self::script_text(script, args);
        WireRequest::post(self.execute_async_url.as_str(), body.as_str())
    }

    /// Prints the page with the settings given as JSON text.
    pub fn print(&self, print_settings: &str) -> (r: WireRequest)
        ensures
            r.is_post(self.print_page_url@, print_settings@),
    {
        WireRequest::post(self.print_page_url.as_str(), print_settings)
    }

    /// Dismisses the alert that is open.
    pub fn dismiss_alert(&self) -> (r: WireRequest)
        ensures
            r.is_post(self.alert_dismiss_url@, "{}"@),
    {
        WireRequest::post(self.alert_dismiss_url.as_str(), "{}")
    }

    /// Accepts the alert that is open.
    pub fn allow_alert(&self) -> (r: WireRequest)
        ensures
            r.is_post(self.alert_accept_url@, "{}"@),
    {
        WireRequest::post(self.alert_accept_url.as_str(), "{}")
    }

    /// Asks for the text of the alert that is open.
    pub fn get_alert_text(&self) -> (r: WireRequest)
        ensures
            r.is_get(self.alert_text_url@),
    {
        WireRequest::get(self.alert_text_url.as_str())
    }

    /// Sends a text to the alert that is open. The text is written into the
    /// body as it is, and the request goes to the path that dismisses alerts.
    pub fn send_alert_text(&self, text: &str) -> (r: WireRequest)
        ensures
            r.is_post(self.alert_dismiss_url@, "{\"text\":"@ + text@ + seq!['}']),
    {
        let mut body = String::from_str("{\"text\":");
        body.append(text);
        body.push('}');
        assert(body@ =~= "{\"text\":"@ + text@ + seq!['}']);
        WireRequest::post(self.alert_dismiss_url.as_str(), body.as_str())
    }

    /// Performs the actions: every source gets its `id`, and the sources go
    /// out as one document.
    pub fn perform_actions(&self, actions: Actions) -> (r: WireRequest)
        ensures
            r.is_post(self.actions_url@, actions_body(with_ids(trees(actions.actions@)))),
    {
        let mut actions = actions;
        actions.set_ids();
        let body = actions.to_json();
        WireRequest::post(self.actions_url.as_str(), body.as_str())
    }

    /// Releases every key and button that the session holds down.
    pub fn release_actions(&self) -> (r: WireRequest)
        ensures
            r.is_delete(self.actions_url@),
    {
        WireRequest::delete(self.actions_url.as_str())
    }
    /// The element that a reply names. A reply that reports an error or
    /// names no element is handed back as the failure.
    pub fn element_from_reply(&self, resp: String) -> (r: Result<Element, String>)
        ensures
            match r {
                Ok(el) => reply_value(resp@) matches Some(v) && is_element_object(v)
                    && is_element_of(el, self.ip@, self.port@, self.session_url@, v),
                Err(e) => e == resp && !(reply_value(resp@) matches Some(v) && is_element_object(
                    v,
                )),
            },
    {
        element_of_reply(self.ip.as_str(), self.port.as_str(), self.session_url.as_str(), resp)
    }

    /// The elements that a reply names, in its order. A reply that reports
    /// an error or carries anything but a list of elements is handed back as
    /// the failure.
    pub fn elements_from_reply(&self, resp: String) -> (r: Result<Vec<Element>, String>)
        ensures
            match r {
                Ok(list) => reply_value(resp@) matches Some(v) && are_elements_of(
                    list@,
                    self.ip@,
                    self.port@,
                    self.session_url@,
                    v,
                ),
                Err(e) => e == resp && !(reply_value(resp@) matches Some(v) && is_element_array(v)),
            },
    {
        elements_of_reply(self.ip.as_str(), self.port.as_str(), self.session_url.as_str(), resp)
    }

    /// Takes note of the reply to [`Browser::close_browser`]: unless it
    /// reports an error, the session is over and its own path is cleared.
    /// A reply that reports an error is handed back as the failure and
    /// leaves the session as it is.
    pub fn finish_close(&mut self, resp: String) -> (r: Result<(), String>)
        ensures
            match r {
                Ok(_) => !reports_error(resp@) && final(self).session_url@ == Seq::<char>::empty()
                    && final(self).linked_but_session(*old(self)),
                Err(e) => reports_error(resp@) && e == resp && *final(self) == *old(self),
            },
    {
        if is_error_reply(resp.as_str()) {
            return Err(resp);
        }
        self.session_url = String::new();
        Ok(())
    }
}

} // verus!
