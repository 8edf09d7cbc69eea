//! Options of a Firefox session.

use crate::chromeoptions::{
    insert_option, list_option, list_option_text, plain_option, plain_option_text, string_option,
    string_option_text, with_option,
};
use crate::text::{has_substring, without_last};
use std::collections::HashMap;
use vstd::prelude::*;
use vstd::string::*;

verus! {

/// The Firefox options chosen so far, as the member
/// `"moz:firefoxOptions":{..}` of the capabilities under construction. Each
/// option can be set once.
///
/// See <https://developer.mozilla.org/en-US/docs/Web/WebDriver/Capabilities/firefoxOptions>.
pub struct FirefoxOptions {
    pub string_for_session: String,
}

/// How much the driver logs.
pub enum LogLevel {
    Trace,
    Debug,
    Config,
    Info,
    Warn,
    Error,
    Fatal,
}

/// The word that the driver knows a log level by.
pub open spec fn log_level_word(level: LogLevel) -> Seq<char> {
    match level {
        LogLevel::Trace => "trace"@,
        LogLevel::Debug => "debug"@,
        LogLevel::Config => "config"@,
        LogLevel::Info => "info"@,
        LogLevel::Warn => "warn"@,
        LogLevel::Error => "error"@,
        LogLevel::Fatal => "fatal"@,
    }
}

/// The member that sets the log level: `"log":{"level":"info"},`.
pub open spec fn log_option(level: LogLevel) -> Seq<char> {
    "\"log\":{\"level\":\""@ + log_level_word(level) + "\"},"@
}

/// Environment variables as members, each followed by a comma:
/// `"name":"value",`.
pub open spec fn env_members(vars: Seq<(&str, &str)>) -> Seq<char>
    decreases vars.len(),
{
    if vars.len() == 0 {
        Seq::empty()
    } else {
        env_members(vars.drop_last()) + seq!['"'] + vars.last().0@ + "\":\""@ + vars.last().1@
            + "\","@
    }
}

/// The member that sets the environment: the variables in braces, the comma
/// after the last one dropped, then a comma.
pub open spec fn env_option(vars: Seq<(&str, &str)>) -> Seq<char> {
    without_last("\"env\":{"@ + env_members(vars)) + "},"@
}

/// `vars` names every entry of `map` once, each with its value.
pub open spec fn lists_entries<'a>(vars: Seq<(&'a str, &'a str)>, map: Map<&'a str, &'a str>) -> bool {
    &&& forall|i: int|
        0 <= i < vars.len() ==> map.contains_key((#[trigger] vars[i]).0) && map[vars[i].0]
            == vars[i].1
    &&& forall|k: &'a str| #[trigger]
        map.contains_key(k) ==> exists|i: int| 0 <= i < vars.len() && (#[trigger] vars[i]).0 == k
    &&& forall|i: int, j: int|
        0 <= i < j < vars.len() ==> (#[trigger] vars[i]).0 != (#[trigger] vars[j]).0
}

/// A listing of a map that holds one entry is that entry.
pub proof fn lemma_listing_of_one<'a>(
    vars: Seq<(&'a str, &'a str)>,
    map: Map<&'a str, &'a str>,
    name: &'a str,
    value: &'a str,
)
    requires
        lists_entries(vars, map),
        map.contains_key(name),
        map[name] == value,
        forall|k: &'a str| map.contains_key(k) ==> k == name,
    ensures
        vars == seq![(name, value)],
{
    if vars.len() > 1 {
        assert(map.contains_key(vars[0].0));
        assert(map.contains_key(vars[1].0));
        assert(vars[0].0 == vars[1].0);
    }
    assert(map.contains_key(vars[0].0));
    assert(vars =~= seq![(name, value)]);
}

/// `HashMap::iter`, collected: every entry of the map once, with its value,
/// in the order in which the map hands them out. That order changes from
/// run to run, so nothing is claimed of it.
#[verifier::external_body]
fn map_entries<'a>(map: &HashMap<&'a str, &'a str>) -> (r: Vec<(&'a str, &'a str)>)
    ensures
        lists_entries(r@, map@),
{
    map.iter().map(|(k, v)| (*k, *v)).collect()
}

impl FirefoxOptions {
    /// No options chosen.
    pub fn new() -> (r: Self)
        ensures
            r.string_for_session@ == "\"moz:firefoxOptions\":{}"@,
    {
        FirefoxOptions { string_for_session: String::from_str("\"moz:firefoxOptions\":{}") }
    }

    /// The absolute path to the Firefox binary.
    pub fn add_binary(&mut self, path: &str) -> (r: &mut Self)
        requires
            !has_substring(old(self).string_for_session@, "binary"@),
        ensures
            r.string_for_session@ == with_option(
                old(self).string_for_session@,
                string_option("binary"@, path@),
            ),
            *final(self) == *final(r),
    {
        let text = string_option_text("binary", path);
        insert_option(&mut self.string_for_session, text.as_str());
        self
    }

    /// The arguments that Firefox is launched with.
    pub fn add_args(&mut self, args: Vec<&str>) -> (r: &mut Self)
        requires
            !has_substring(old(self).string_for_session@, "args"@),
        ensures
            r.string_for_session@ == with_option(
                old(self).string_for_session@,
                list_option("args"@, args@),
            ),
            *final(self) == *final(r),
    {
        let text = list_option_text("args", args);
        insert_option(&mut self.string_for_session, text.as_str());
        self
    }

    /// The preferences, given as the text of a JSON object.
    pub fn add_prefs(&mut self, prefs: &str) -> (r: &mut Self)
        requires
            !has_substring(old(self).string_for_session@, "prefs"@),
        ensures
            r.string_for_session@ == with_option(
                old(self).string_for_session@,
                plain_option("prefs"@, prefs@),
            ),
            *final(self) == *final(r),
    {
        let text = plain_option_text("prefs", prefs);
        insert_option(&mut self.string_for_session, text.as_str());
        self
    }

    /// How much the driver logs.
    pub fn add_log(&mut self, log_level: LogLevel) -> (r: &mut Self)
        requires
            !has_substring(old(self).string_for_session@, "log"@),
        ensures
            r.string_for_session@ == with_option(
                old(self).string_for_session@,
                log_option(log_level),
            ),
            *final(self) == *final(r),
    {
        let lev_to_str = match log_level {
            LogLevel::Trace => "trace",
            LogLevel::Debug => "debug",
            LogLevel::Config => "config",
            LogLevel::Info => "info",
            LogLevel::Warn => "warn",
            LogLevel::Error => "error",
            LogLevel::Fatal => "fatal",
        };
        let mut text = String::from_str("\"log\":{\"level\":\"");
        text.append(lev_to_str);
        text.append("\"},");
        insert_option(&mut self.string_for_session, text.as_str());
        self
    }

    /// The environment of the browser, from variables listed in the order in
    /// which they are to be written.
    pub fn add_env_vars(&mut self, vars: &Vec<(&str, &str)>) -> (r: &mut Self)
        requires
            !has_substring(old(self).string_for_session@, "env"@),
        ensures
            r.string_for_session@ == with_option(old(self).string_for_session@, env_option(vars@)),
            *final(self) == *final(r),
    {
        let mut temp_string = String::from_str("\"env\":{");
        let ghost head = temp_string@;
        let mut i: usize = 0;
        while i < vars.len()
            invariant
                i <= vars.len(),
                head == "\"env\":{"@,
                temp_string@ == head + env_members(vars@.take(i as int)),
            decreases vars.len() - i,
        {
            temp_string.push('"');
            temp_string.append(vars[i].0);
            temp_string.append("\":\"");
            temp_string.append(vars[i].1);
            temp_string.append("\",");
            proof {
                let now = vars@.take(i + 1);
                assert(now.drop_last() == vars@.take(i as int));
                assert(now.last() == vars@[i as int]);
                assert(temp_string@ =~= head + env_members(now));
            }
            i += 1;
        }
        assert(vars@.take(vars.len() as int) == vars@);
        let _ = temp_string.pop();
        temp_string.append("},");
        insert_option(&mut self.string_for_session, temp_string.as_str());
        self
    }

    /// The environment of the browser, from a map of variable names to
    /// values. The variables are written in the order in which the map hands
    /// them out, which is not fixed: the result is that of
    /// [`FirefoxOptions::add_env_vars`] for a listing of exactly the entries
    /// of the map, each once.
    pub fn add_env<'a>(&mut self, env_vars: HashMap<&'a str, &'a str>) -> (r: &mut Self)
        requires
            !has_substring(old(self).string_for_session@, "env"@),
        ensures
            exists|vars: Seq<(&'a str, &'a str)>|
                lists_entries(vars, env_vars@) && r.string_for_session@ == with_option(
                    old(self).string_for_session@,
                    #[trigger] env_option(vars),
                ),
            *final(self) == *final(r),
    {
        let vars = map_entries(&env_vars);
        self.add_env_vars(&vars)
    }
}

} // verus!
