//! Definitions shared by the tools that this crate supports, and the adapters
//! that parameterize segmentation and extraction for each of them.
pub mod clippy;
pub mod lints;
pub mod miri;

pub use lints::LintsOpt;

use crate::errors::{Error, ErrorV};
use crate::text::{eq_str, lower_seq, lower_str};
use vstd::prelude::*;
use vstd::string::StringExecFns;

verus! {

/// One outside command: the program to run, its arguments, and extra
/// environment entries. The crate only plans such commands; running them is
/// the caller's business.
#[derive(Debug, PartialEq, Eq)]
pub struct Command {
    pub app: String,
    pub args: Vec<String>,
    pub envs: Vec<(String, String)>,
}

/// The output of a tool can hold several sections of checked results; this
/// holds the sections worth reading, split apart, for each channel.
#[derive(Debug)]
pub struct FilteredOutput {
    pub stdout: Vec<String>,
    pub stderr: Vec<String>,
}

/// The analysis tools that diagnostics can be attributed to.
#[derive(Debug, Clone, Copy, PartialEq, Eq, Structural)]
pub enum SupportedTool {
    Clippy,
    Rustc,
    Miri,
    Sanitizer,
}

/// The canonical name of a tool.
pub open spec fn tool_name_spec(t: SupportedTool) -> Seq<char> {
    match t {
        SupportedTool::Clippy => "clippy"@,
        SupportedTool::Rustc => "rustc"@,
        SupportedTool::Miri => "miri"@,
        SupportedTool::Sanitizer => "sanitizer"@,
    }
}

/// The tool named by a string, compared without regard to ASCII case.
pub open spec fn tool_from_str_spec(s: Seq<char>) -> Option<SupportedTool> {
    if lower_seq(s) == "clippy"@ {
        Some(SupportedTool::Clippy)
    } else if lower_seq(s) == "rustc"@ {
        Some(SupportedTool::Rustc)
    } else if lower_seq(s) == "miri"@ {
        Some(SupportedTool::Miri)
    } else if lower_seq(s) == "sanitizer"@ {
        Some(SupportedTool::Sanitizer)
    } else {
        None
    }
}

impl SupportedTool {
    /// Every supported tool, in declaration order.
    pub fn all() -> (r: Vec<Self>)
        ensures
            r@ == seq![
                SupportedTool::Clippy,
                SupportedTool::Rustc,
                SupportedTool::Miri,
                SupportedTool::Sanitizer,
            ],
    {
        vec![SupportedTool::Clippy, SupportedTool::Rustc, SupportedTool::Miri, SupportedTool::Sanitizer]
    }

    /// The canonical, lower-case name of this tool.
    pub fn to_string(&self) -> (r: String)
        ensures
            r@ == tool_name_spec(*self),
    {
        match self {
            SupportedTool::Clippy => String::from_str("clippy"),
            SupportedTool::Rustc => String::from_str("rustc"),
            SupportedTool::Miri => String::from_str("miri"),
            SupportedTool::Sanitizer => String::from_str("sanitizer"),
        }
    }

    /// Reads a tool name, ignoring ASCII case; any other string is rejected
    /// with an error that lists the supported names.
    pub fn from_str(s: &str) -> (r: Result<Self, Error>)
        ensures
            r matches Ok(t) ==> tool_from_str_spec(s@) == Some(t),
            r is Ok <==> tool_from_str_spec(s@) is Some,
            r matches Err(e) ==> e@ == ErrorV::ParseUnsupportedEnumVariant(
                "tool name"@,
                s@,
                seq!["clippy"@, "rustc"@, "miri"@, "sanitizer"@],
            ),
    {
        let low = lower_str(s);
        if eq_str(low.as_str(), "clippy") {
            Ok(SupportedTool::Clippy)
        } else if eq_str(low.as_str(), "rustc") {
            Ok(SupportedTool::Rustc)
        } else if eq_str(low.as_str(), "miri") {
            Ok(SupportedTool::Miri)
        } else if eq_str(low.as_str(), "sanitizer") {
            Ok(SupportedTool::Sanitizer)
        } else {
            let names = vec![
                String::from_str("clippy"),
                String::from_str("rustc"),
                String::from_str("miri"),
                String::from_str("sanitizer"),
            ];
            assert(names.deep_view() =~= seq!["clippy"@, "rustc"@, "miri"@, "sanitizer"@]);
            Err(Error::ParseUnsupportedEnumVariant("tool name", s.to_owned(), names))
        }
    }
}

impl Default for SupportedTool {
    /// The tool assumed when none is named.
    fn default() -> (r: Self)
        ensures
            r == SupportedTool::Rustc,
    {
        SupportedTool::Rustc
    }
}

} // verus!
