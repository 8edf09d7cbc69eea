//! Options of a Safari session.

use crate::text::has_substring;
use vstd::prelude::*;
use vstd::string::*;

verus! {

/// The Safari capabilities switched on so far, as the members of a JSON
/// object separated by commas.
///
/// See <https://developer.apple.com/documentation/webkit/about_webdriver_for_safari>.
pub struct SafariOptions {
    pub base_string: String,
}

/// The members so far with one more: after a comma where there are any.
pub open spec fn with_capability(st: Seq<char>, member: Seq<char>) -> Seq<char> {
    if st.len() > 0 {
        st + seq![','] + member
    } else {
        member
    }
}

/// Adds one member to the members so far.
pub fn update_string(st: &mut String, text: &str)
    ensures
        final(st)@ == with_capability(old(st)@, text@),
{
    let empty = st.as_str().unicode_len() == 0;
    if !empty {
        st.push(',');
    }
    st.append(text);
    assert(st@ =~= with_capability(old(st)@, text@));
}

impl SafariOptions {
    /// Nothing switched on.
    pub fn new() -> (r: Self)
        ensures
            r.base_string@ == Seq::<char>::empty(),
    {
        SafariOptions { base_string: String::new() }
    }

    /// Preloads the Web Inspector and the JavaScript debugger in the
    /// background. It can be switched on once.
    pub fn enable_automatic_inspection(&mut self) -> (r: &mut Self)
        requires
            !has_substring(old(self).base_string@, "Inspection"@),
        ensures
            r.base_string@ == with_capability(
                old(self).base_string@,
                "\"safari:automaticInspection\":true"@,
            ),
            *final(self) == *final(r),
    {
        update_string(&mut self.base_string, "\"safari:automaticInspection\":true");
        self
    }

    /// Preloads the Web Inspector and starts a timeline recording in the
    /// background. It can be switched on once.
    pub fn enable_automatic_profiling(&mut self) -> (r: &mut Self)
        requires
            !has_substring(old(self).base_string@, "Profiling"@),
        ensures
            r.base_string@ == with_capability(
                old(self).base_string@,
                "\"safari:automaticProfiling\":true"@,
            ),
            *final(self) == *final(r),
    {
        update_string(&mut self.base_string, "\"safari:automaticProfiling\":true");
        self
    }

    /// Turns on the diagnostics of the driver. It can be switched on once.
    pub fn enable_diagnose(&mut self) -> (r: &mut Self)
        requires
            !has_substring(old(self).base_string@, "diagnose"@),
        ensures
            r.base_string@ == with_capability(old(self).base_string@, "\"safari:diagnose\":true"@),
            *final(self) == *final(r),
    {
        update_string(&mut self.base_string, "\"safari:diagnose\":true");
        self
    }

    /// Turns on the iOS simulator. It can be switched on once.
    pub fn enable_simulator(&mut self) -> (r: &mut Self)
        requires
            !has_substring(old(self).base_string@, "Simulator"@),
        ensures
            r.base_string@ == with_capability(
                old(self).base_string@,
                "\"safari:useSimulator\":true"@,
            ),
            *final(self) == *final(r),
    {
        update_string(&mut self.base_string, "\"safari:useSimulator\":true");
        self
    }
}

} // verus!
