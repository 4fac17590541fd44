//! The compiler-style lints adapter, serving both rustc lints and clippy
//! lints: help and note lines are gutter-prefixed (`= help: `), the code
//! gutter is a spaced ` | `, and the lint name surfaces either in a
//! `#[deny(<id>)]`-shaped note, in a `` `-W <id>` `` note, or — for clippy —
//! in the URL fragment of a documentation link.
use crate::errors::{Error, ErrorV};
use crate::extract::{
    bad_pattern, extract, extract_spec, rules_ok, ExtractRules, ExtractRulesV, IdRule, IdRuleV,
};
use crate::parser::output_file::CheckInfo;
use crate::segment::{segment, segment_spec, BannerStyle, SegmentRules, SegmentRulesV};
use crate::tools::{FilteredOutput, SupportedTool};
use vstd::prelude::*;
use vstd::string::StringExecFns;

verus! {

/// How this adapter segments a raw buffer: blank-line-delimited chunks, the
/// first chunk scanned line by line until a line begins with a severity
/// token, the last chunk dropped as a run summary when more than one
/// remains.
pub open spec fn lints_segment_rules() -> SegmentRulesV {
    SegmentRulesV {
        banner: BannerStyle::SeverityScan,
        severity_tokens: seq!["error"@, "warning"@],
        drop_last: true,
        require_gutter: false,
    }
}

/// How this adapter extracts fields, for clippy lints or rustc lints: the
/// gutter-prefixed markers, annotation text as the whole line minus its `= `
/// gutter, a spaced code gutter, and the most specific alternative of the
/// note pattern; only clippy help lines carry a lint name.
pub open spec fn lints_extract_rules(is_clippy: bool) -> ExtractRulesV {
    ExtractRulesV {
        help_marker: "= help: "@,
        note_marker: "= note: "@,
        strip_gutter: true,
        spaced_gutter: true,
        help_id: if is_clippy {
            Some(IdRuleV::LastGroup { pattern: "rust-clippy/master/index.html#(\\w+)"@ })
        } else {
            None
        },
        note_id: Some(IdRuleV::LastGroup { pattern: "(`-(?:W|D) (.*?)`)|(\\((.*?)\\)\\])"@ }),
        tool: if is_clippy {
            SupportedTool::Clippy
        } else {
            SupportedTool::Rustc
        },
    }
}

fn make_segment_rules() -> (r: SegmentRules)
    ensures
        r@ == lints_segment_rules(),
{
    let tokens = vec![String::from_str("error"), String::from_str("warning")];
    assert(tokens.deep_view() =~= seq!["error"@, "warning"@]);
    SegmentRules {
        banner: BannerStyle::SeverityScan,
        severity_tokens: tokens,
        drop_last: true,
        require_gutter: false,
    }
}

fn make_extract_rules(is_clippy: bool) -> (r: ExtractRules)
    ensures
        r@ == lints_extract_rules(is_clippy),
{
    ExtractRules {
        help_marker: String::from_str("= help: "),
        note_marker: String::from_str("= note: "),
        strip_gutter: true,
        spaced_gutter: true,
        help_id: if is_clippy {
            Some(
                IdRule::LastGroup {
                    pattern: String::from_str("rust-clippy/master/index.html#(\\w+)"),
                },
            )
        } else {
            None
        },
        note_id: Some(
            IdRule::LastGroup { pattern: String::from_str("(`-(?:W|D) (.*?)`)|(\\((.*?)\\)\\])") },
        ),
        tool: if is_clippy {
            SupportedTool::Clippy
        } else {
            SupportedTool::Rustc
        },
    }
}

/// Options for one lints run: whether the run is clippy rather than plain
/// rustc lints, whether it goes through the build tool, the source path to
/// check, and the lint names to enable. Building and running the command is
/// the caller's business; this adapter reads its captured output.
#[derive(Debug)]
pub struct LintsOpt {
    pub is_clippy: bool,
    pub use_cargo: bool,
    pub path: String,
    pub lint_names: Vec<String>,
}

impl Default for LintsOpt {
    /// A rustc-lints run with nothing set.
    fn default() -> (r: Self)
        ensures
            !r.is_clippy,
            !r.use_cargo,
            r.path@.len() == 0,
            r.lint_names@.len() == 0,
    {
        LintsOpt { is_clippy: false, use_cargo: false, path: String::new(), lint_names: Vec::new() }
    }
}

impl LintsOpt {
    /// Splits captured output into diagnostic blocks. Diagnostics of these
    /// tools arrive on the error channel, so the informational channel is
    /// left empty.
    pub fn filter_output(&self, stderr: &str) -> (r: FilteredOutput)
        ensures
            r.stdout@.len() == 0,
            r.stderr.deep_view() == segment_spec(stderr@, lints_segment_rules()),
    {
        let rules = make_segment_rules();
        FilteredOutput { stdout: Vec::new(), stderr: segment(stderr, &rules) }
    }

    /// Generalizes one diagnostic block to a [`CheckInfo`] record. Fails
    /// exactly when an extraction pattern of this adapter is not a valid
    /// regular expression.
    pub fn check_info(&self, raw_result: &str) -> (r: Result<CheckInfo, Error>)
        ensures
            r matches Ok(info) ==> info@ == extract_spec(
                lints_extract_rules(self.is_clippy),
                raw_result@,
            ),
            r is Ok <==> rules_ok(lints_extract_rules(self.is_clippy)),
            r matches Err(e) ==> e@ == ErrorV::InvalidPattern(
                bad_pattern(lints_extract_rules(self.is_clippy)),
            ),
    {
        let rules = make_extract_rules(self.is_clippy);
        extract(&rules, raw_result)
    }
}

} // verus!
