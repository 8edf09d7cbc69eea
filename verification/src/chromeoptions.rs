//! Options of a Chrome session.

use crate::json::{json_text, JsonTree};
use crate::text::{bool_word, decimal, has_substring, list_text, push_bool, push_decimal, push_list, without_last};
use std::collections::HashMap;
use vstd::prelude::*;
use vstd::string::*;

verus! {

/// The Chrome options chosen so far, as the member `"goog:chromeOptions":{..}`
/// of the capabilities under construction. Each option can be set once.
///
/// See <https://chromedriver.chromium.org/capabilities>.
pub struct ChromeOptions {
    pub string_for_session: String,
}

/// A mobile device to emulate, as its JSON description.
///
/// See <https://chromedriver.chromium.org/mobile-emulation>.
pub struct MobileDevice {
    pub device_dict: String,
}

/// Preferences of performance logging.
#[allow(non_snake_case)]
#[derive(Debug)]
pub struct PerfLoggingPrefs {
    pub enableNetwork: bool,
    pub enablePage: bool,
    pub traceCategories: String,
    pub bufferUsageReportingInterval: u32,
}

/// The options so far with one more member put before the closing brace.
/// The member brings its own trailing comma.
pub open spec fn with_option(st: Seq<char>, member: Seq<char>) -> Seq<char> {
    without_last(st) + member + seq!['}']
}

/// A bracketed list of quoted items as a member's value: `[]` for no items,
/// else the list and a comma.
pub open spec fn list_value(items: Seq<&str>) -> Seq<char> {
    if items.len() == 0 {
        "[]"@
    } else {
        list_text(items, true) + seq![',']
    }
}

/// A member whose value is a quoted string: `"key":"value",`.
pub open spec fn string_option(key: Seq<char>, value: Seq<char>) -> Seq<char> {
    seq!['"'] + key + "\":\""@ + value + "\","@
}

/// A member whose value is written as it is: `"key":value,`.
pub open spec fn plain_option(key: Seq<char>, value: Seq<char>) -> Seq<char> {
    seq!['"'] + key + "\":"@ + value + seq![',']
}

/// A member whose value is a list of quoted strings: `"key":["a","b"],`,
/// and `"key":[]` for no items.
pub open spec fn list_option(key: Seq<char>, items: Seq<&str>) -> Seq<char> {
    seq!['"'] + key + "\":"@ + list_value(items)
}

/// The JSON text of performance logging preferences.
pub open spec fn perf_prefs_text(prefs: PerfLoggingPrefs) -> Seq<char> {
    "{\"enableNetwork\":"@ + bool_word(prefs.enableNetwork) + ",\"enablePage\":"@ + bool_word(
        prefs.enablePage,
    ) + ",\"traceCategories\":"@ + json_text(JsonTree::Text(prefs.traceCategories@))
        + ",\"bufferUsageReportingInterval\":"@ + decimal(
        prefs.bufferUsageReportingInterval as nat,
    ) + seq!['}']
}

/// The bracketed list of the items, each in double quotes, followed by a
/// comma; `[]` alone for no items.
pub fn from_str_vec_to_str(vec: Vec<&str>) -> (r: String)
    ensures
        r@ == list_value(vec@),
{
    if vec.len() == 0 {
        return String::from_str("[]");
    }
    let mut s = String::new();
    push_list(&mut s, &vec, true);
    s.push(',');
    assert(s@ =~= list_value(vec@));
    s
}

/// Puts one member before the closing brace of the options.
pub(crate) fn insert_option(st: &mut String, member: &str)
    ensures
        final(st)@ == with_option(old(st)@, member@),
{
    let _ = st.pop();
    st.append(member);
    st.push('}');
}

pub(crate) fn string_option_text(key: &str, value: &str) -> (r: String)
    ensures
        r@ == string_option(key@, value@),
{
    let mut text = String::new();
    text.push('"');
    text.append(key);
    text.append("\":\"");
    text.append(value);
    text.append("\",");
    assert(text@ =~= string_option(key@, value@));
    text
}

pub(crate) fn plain_option_text(key: &str, value: &str) -> (r: String)
    ensures
        r@ == plain_option(key@, value@),
{
    let mut text = String::new();
    text.push('"');
    text.append(key);
    text.append("\":");
    text.append(value);
    text.push(',');
    assert(text@ =~= plain_option(key@, value@));
    text
}

pub(crate) fn list_option_text(key: &str, items: Vec<&str>) -> (r: String)
    ensures
        r@ == list_option(key@, items@),
{
    let mut text = String::new();
    text.push('"');
    text.append(key);
    text.append("\":");
    let list = from_str_vec_to_str(items);
    text.append(list.as_str());
    assert(text@ =~= list_option(key@, items@));
    text
}

impl ChromeOptions {
    /// No options chosen.
    pub fn new() -> (r: Self)
        ensures
            r.string_for_session@ == "\"goog:chromeOptions\":{}"@,
    {
        ChromeOptions { string_for_session: String::from_str("\"goog:chromeOptions\":{}") }
    }

    /// The arguments that Chrome is launched with.
    pub fn add_args(&mut self, args: Vec<&str>) -> (r: &mut Self)
        requires
            !has_substring(old(self).string_for_session@, "args"@),
        ensures
            r.string_for_session@ == with_option(
                old(self).string_for_session@,
                list_option("args"@, args@),
            ),
            *final(self) == *final(r),
    {
        let text = list_option_text("args", args);
        insert_option(&mut self.string_for_session, text.as_str());
        self
    }

    /// The path to the Chrome executable.
    pub fn add_binary(&mut self, path: &str) -> (r: &mut Self)
        requires
            !has_substring(old(self).string_for_session@, "binary"@),
        ensures
            r.string_for_session@ == with_option(
                old(self).string_for_session@,
                string_option("binary"@, path@),
            ),
            *final(self) == *final(r),
    {
        let text = string_option_text("binary", path);
        insert_option(&mut self.string_for_session, text.as_str());
        self
    }

    /// The extensions to install: each item a packed extension in base64.
    pub fn add_extensions(&mut self, extensions: Vec<&str>) -> (r: &mut Self)
        requires
            !has_substring(old(self).string_for_session@, "extensions"@),
        ensures
            r.string_for_session@ == with_option(
                old(self).string_for_session@,
                list_option("extensions"@, extensions@),
            ),
            *final(self) == *final(r),
    {
        let text = list_option_text("extensions", extensions);
        insert_option(&mut self.string_for_session, text.as_str());
        self
    }

    /// Local state preferences. They are accepted and leave the options as
    /// they are: nothing of them is written.
    pub fn add_local_state(&mut self, local_state: HashMap<&str, &str>) -> (r: &mut Self)
        requires
            !has_substring(old(self).string_for_session@, "localState"@),
        ensures
            r.string_for_session@ == with_option(
                old(self).string_for_session@,
                Seq::<char>::empty(),
            ),
            *final(self) == *final(r),
    {
        let _ = self.string_for_session.pop();
        self.string_for_session.push('}');
        assert(self.string_for_session@ =~= with_option(
            old(self).string_for_session@,
            Seq::<char>::empty(),
        ));
        self
    }

    /// User profile preferences. They are accepted and leave the options as
    /// they are: nothing of them is written.
    pub fn add_prefs(&mut self, prefs: HashMap<&str, &str>) -> (r: &mut Self)
        requires
            !has_substring(old(self).string_for_session@, "prefs"@),
        ensures
            r.string_for_session@ == with_option(
                old(self).string_for_session@,
                Seq::<char>::empty(),
            ),
            *final(self) == *final(r),
    {
        let _ = self.string_for_session.pop();
        self.string_for_session.push('}');
        assert(self.string_for_session@ =~= with_option(
            old(self).string_for_session@,
            Seq::<char>::empty(),
        ));
        self
    }

    /// Whether Chrome outlives the driver.
    pub fn add_detach(&mut self, detach: bool) -> (r: &mut Self)
        requires
            !has_substring(old(self).string_for_session@, "detach"@),
        ensures
            r.string_for_session@ == with_option(
                old(self).string_for_session@,
                plain_option("detach"@, bool_word(detach)),
            ),
            *final(self) == *final(r),
    {
        let mut word = String::new();
        push_bool(&mut word, detach);
        assert(word@ =~= bool_word(detach));
        let text = plain_option_text("detach", word.as_str());
        insert_option(&mut self.string_for_session, text.as_str());
        self
    }

    /// The address of a debugger server to connect to, such as
    /// `127.0.0.1:38947`.
    pub fn add_debugger_address(&mut self, address: &str) -> (r: &mut Self)
        requires
            !has_substring(old(self).string_for_session@, "debuggerAddress"@),
        ensures
            r.string_for_session@ == with_option(
                old(self).string_for_session@,
                string_option("debuggerAddress"@, address@),
            ),
            *final(self) == *final(r),
    {
        let text = string_option_text("debuggerAddress", address);
        insert_option(&mut self.string_for_session, text.as_str());
        self
    }

    /// The command line switches that Chrome is launched without.
    pub fn add_exclude_switches(&mut self, switches: Vec<&str>) -> (r: &mut Self)
        requires
            !has_substring(old(self).string_for_session@, "excludeSwitches"@),
        ensures
            r.string_for_session@ == with_option(
                old(self).string_for_session@,
                list_option("excludeSwitches"@, switches@),
            ),
            *final(self) == *final(r),
    {
        let text = list_option_text("excludeSwitches", switches);
        insert_option(&mut self.string_for_session, text.as_str());
        self
    }

    /// The directory for minidumps (Linux only).
    pub fn add_minidump_path(&mut self, path: &str) -> (r: &mut Self)
        requires
            !has_substring(old(self).string_for_session@, "minidumpPath"@),
        ensures
            r.string_for_session@ == with_option(
                old(self).string_for_session@,
                string_option("minidumpPath"@, path@),
            ),
            *final(self) == *final(r),
    {
        let text = string_option_text("minidumpPath", path);
        insert_option(&mut self.string_for_session, text.as_str());
        self
    }

    /// The mobile device to emulate.
    pub fn add_mobile_emulation(&mut self, device: MobileDevice) -> (r: &mut Self)
        requires
            !has_substring(old(self).string_for_session@, "mobileEmulation"@),
        ensures
            r.string_for_session@ == with_option(
                old(self).string_for_session@,
                plain_option("mobileEmulation"@, device.device_dict@),
            ),
            *final(self) == *final(r),
    {
        let text = plain_option_text("mobileEmulation", device.device_dict.as_str());
        insert_option(&mut self.string_for_session, text.as_str());
        self
    }

    /// The preferences of performance logging.
    pub fn add_perf_logging_prefs(&mut self, prefs: PerfLoggingPrefs) -> (r: &mut Self)
        requires
            !has_substring(old(self).string_for_session@, "perfLoggingPrefs"@),
        ensures
            r.string_for_session@ == with_option(
                old(self).string_for_session@,
                plain_option("perfLoggingPrefs"@, perf_prefs_text(prefs)),
            ),
            *final(self) == *final(r),
    {
        let json = prefs.to_json();
        let text = plain_option_text("perfLoggingPrefs", json.as_str());
        insert_option(&mut self.string_for_session, text.as_str());
        self
    }

    /// The window types that show up among the window handles.
    pub fn add_window_types(&mut self, window_types: Vec<&str>) -> (r: &mut Self)
        requires
            !has_substring(old(self).string_for_session@, "windowTypes"@),
        ensures
            r.string_for_session@ == with_option(
                old(self).string_for_session@,
                list_option("windowTypes"@, window_types@),
            ),
            *final(self) == *final(r),
    {
        let text = list_option_text("windowTypes", window_types);
        insert_option(&mut self.string_for_session, text.as_str());
        self
    }
}

impl MobileDevice {
    /// A device that the Chrome devtools know by name.
    pub fn standard_device(device_name: &str) -> (r: Self)
        ensures
            r.device_dict@ == "{\"deviceName\":\""@ + device_name@ + "\"}"@,
    {
        let mut device_dict = String::from_str("{\"deviceName\":\"");
        device_dict.append(device_name);
        device_dict.append("\"}");
        MobileDevice { device_dict }
    }
}

impl PerfLoggingPrefs {
    pub fn set_enable_network(&mut self, en_network: bool)
        ensures
            *final(self) == (PerfLoggingPrefs { enableNetwork: en_network, ..*old(self) }),
    {
        self.enableNetwork = en_network;
    }

    pub fn set_enable_page(&mut self, en_page: bool)
        ensures
            *final(self) == (PerfLoggingPrefs { enablePage: en_page, ..*old(self) }),
    {
        self.enablePage = en_page;
    }

    pub fn set_trace_categories(&mut self, trace_cat: String)
        ensures
            *final(self) == (PerfLoggingPrefs { traceCategories: trace_cat, ..*old(self) }),
    {
        self.traceCategories = trace_cat;
    }

    pub fn set_buffer_usage_rep_interval(&mut self, buff: u32)
        ensures
            *final(self) == (PerfLoggingPrefs {
                bufferUsageReportingInterval: buff,
                ..*old(self)
            }),
    {
        self.bufferUsageReportingInterval = buff;
    }

    /// The preferences as JSON text, members in the order of the fields.
    pub fn to_json(&self) -> (r: String)
        ensures
            r@ == perf_prefs_text(*self),
    {
        let mut text = String::from_str("{\"enableNetwork\":");
        push_bool(&mut text, self.enableNetwork);
        text.append(",\"enablePage\":");
        push_bool(&mut text, self.enablePage);
        text.append(",\"traceCategories\":");
        let quoted = crate::json::json_quote(self.traceCategories.as_str());
        text.append(quoted.as_str());
        text.append(",\"bufferUsageReportingInterval\":");
        push_decimal(&mut text, self.bufferUsageReportingInterval as u128);
        text.push('}');
        assert(text@ =~= perf_prefs_text(*self));
        text
    }
}

impl Default for PerfLoggingPrefs {
    /// Network and page events on, no trace categories, a report every
    /// thousand milliseconds.
    fn default() -> (r: Self)
        ensures
            r.enableNetwork,
            r.enablePage,
            r.traceCategories@ == Seq::<char>::empty(),
            r.bufferUsageReportingInterval == 1000,
    {
        PerfLoggingPrefs {
            enableNetwork: true,
            enablePage: true,
            traceCategories: String::new(),
            bufferUsageReportingInterval: 1000,
        }
    }
}

} // verus!
