//! The output levels the service can be configured to log at.
//!
//! Parsing is case-insensitive; an unknown name is reported back with its
//! lowercased text.  The process-argument handling around these levels
//! lives outside the library.

use vstd::prelude::*;

use crate::chars::{chars_to_string, lower_char, lower_chars, str_eq, to_lower_char};

verus! {

use vstd::string::{StrSliceExecFns, StringExecFns};

/// How much of the service's activity is logged.
#[derive(Debug, PartialEq, Eq, Structural, Clone, Copy)]
pub enum OutputLevel {
    Error,
    Warning,
    Verbose,
    Debug,
}

/// Parse an output level name, case-insensitively.  Each level is returned
/// exactly for its own name; anything else is an error quoting the
/// lowercased input.
pub fn parse_output_level(s: &str) -> (r: Result<OutputLevel, String>)
    ensures
        ({
            let lowered = lower_chars(s@);
            match r {
                Ok(lvl) => {
                    &&& (lvl is Error <==> lowered == "error"@)
                    &&& (lvl is Warning <==> lowered == "warning"@)
                    &&& (lvl is Verbose <==> lowered == "verbose"@)
                    &&& (lvl is Debug <==> lowered == "debug"@)
                },
                Err(msg) => {
                    &&& lowered != "error"@
                    &&& lowered != "warning"@
                    &&& lowered != "verbose"@
                    &&& lowered != "debug"@
                    &&& msg@ == "Unknown output level: "@ + lowered
                },
            }
        }),
{
    proof {
        reveal_strlit("error");
        reveal_strlit("warning");
        reveal_strlit("verbose");
        reveal_strlit("debug");
        assert("error"@.len() == 5);
        assert("warning"@.len() == 7);
        assert("verbose"@.len() == 7);
        assert("debug"@.len() == 5);
        assert("error"@[0] == 'e' && "debug"@[0] == 'd');
        assert("warning"@[0] == 'w' && "verbose"@[0] == 'v');
    }
    let n = s.unicode_len();
    let mut low: Vec<char> = Vec::new();
    let mut i: usize = 0;
    while i < n
        invariant
            i <= n,
            n == s@.len(),
            low@.len() == i,
            forall|k: int| 0 <= k < i ==> low@[k] == lower_char(s@[k]),
        decreases n - i,
    {
        low.push(to_lower_char(s.get_char(i)));
        i = i + 1;
    }
    proof {
        assert(low@ =~= lower_chars(s@));
    }
    let lowered = chars_to_string(&low);
    if str_eq(lowered.as_str(), "error") {
        Ok(OutputLevel::Error)
    } else if str_eq(lowered.as_str(), "warning") {
        Ok(OutputLevel::Warning)
    } else if str_eq(lowered.as_str(), "verbose") {
        Ok(OutputLevel::Verbose)
    } else if str_eq(lowered.as_str(), "debug") {
        Ok(OutputLevel::Debug)
    } else {
        let mut msg = "Unknown output level: ".to_owned();
        msg.append(lowered.as_str());
        Err(msg)
    }
}

impl core::str::FromStr for OutputLevel {
    type Err = String;

    fn from_str(s: &str) -> Result<OutputLevel, String> {
        parse_output_level(s)
    }
}

} // verus!
