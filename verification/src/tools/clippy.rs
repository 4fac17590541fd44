//! The linter-style adapter: diagnostics whose help and note lines carry
//! `help: ` / `note: ` markers, whose lint name surfaces as `clippy::<name>`
//! in notes or as the URL fragment of a documentation link in help lines.
use crate::errors::{Error, ErrorV};
use crate::extract::{
    bad_pattern, extract, extract_spec, rules_ok, ExtractRules, ExtractRulesV, IdRule, IdRuleV,
};
use crate::parser::output_file::CheckInfo;
use crate::segment::{segment, segment_spec, BannerStyle, SegmentRules, SegmentRulesV};
use crate::tools::{Command, FilteredOutput, SupportedTool};
use vstd::prelude::*;
use vstd::string::StringExecFns;

verus! {

/// How this adapter segments a raw buffer: blank-line-delimited chunks, the
/// first line of the first chunk dropped as a startup banner, the last chunk
/// dropped as a run summary when more than one remains.
pub open spec fn clippy_segment_rules() -> SegmentRulesV {
    SegmentRulesV {
        banner: BannerStyle::FirstLine,
        severity_tokens: Seq::empty(),
        drop_last: true,
        require_gutter: false,
    }
}

/// How this adapter extracts fields: `help: ` and `note: ` markers, the
/// annotation text taken after the marker, a bare `|` code gutter, and the
/// lint name read from the named group of the documentation-URL pattern on
/// help lines or of the `clippy::<name>` pattern on note lines.
pub open spec fn clippy_extract_rules() -> ExtractRulesV {
    ExtractRulesV {
        help_marker: "help: "@,
        note_marker: "note: "@,
        strip_gutter: false,
        spaced_gutter: false,
        help_id: Some(
            IdRuleV::FirstNamed {
                pattern: "rust-clippy/master/index.html#(?P<name>(\\w+))"@,
                group: "name"@,
            },
        ),
        note_id: Some(IdRuleV::FirstNamed { pattern: "clippy::(?P<name>(\\w+))"@, group: "name"@ }),
        tool: SupportedTool::Clippy,
    }
}

fn make_segment_rules() -> (r: SegmentRules)
    ensures
        r@ == clippy_segment_rules(),
{
    let r = SegmentRules {
        banner: BannerStyle::FirstLine,
        severity_tokens: Vec::new(),
        drop_last: true,
        require_gutter: false,
    };
    assert(r@.severity_tokens =~= Seq::<Seq<char>>::empty());
    r
}

fn make_extract_rules() -> (r: ExtractRules)
    ensures
        r@ == clippy_extract_rules(),
{
    ExtractRules {
        help_marker: String::from_str("help: "),
        note_marker: String::from_str("note: "),
        strip_gutter: false,
        spaced_gutter: false,
        help_id: Some(
            IdRule::FirstNamed {
                pattern: String::from_str("rust-clippy/master/index.html#(?P<name>(\\w+))"),
                group: String::from_str("name"),
            },
        ),
        note_id: Some(
            IdRule::FirstNamed {
                pattern: String::from_str("clippy::(?P<name>(\\w+))"),
                group: String::from_str("name"),
            },
        ),
        tool: SupportedTool::Clippy,
    }
}

/// Options for one linter-style run: the command to execute. Running the
/// command is the caller's business; this adapter reads its captured output.
pub struct ClippyOpt {
    cmd: Command,
}

impl ClippyOpt {
    /// The command this run would execute.
    pub closed spec fn cmd_spec(&self) -> Command {
        self.cmd
    }

    pub fn from_command(cmd: Command) -> (r: Self)
        ensures
            r.cmd_spec() == cmd,
    {
        Self { cmd }
    }

    /// Splits captured output into diagnostic blocks. Diagnostics of this
    /// tool arrive on the error channel, so the informational channel is
    /// left empty.
    pub fn filter_output(stderr: &str) -> (r: FilteredOutput)
        ensures
            r.stdout@.len() == 0,
            r.stderr.deep_view() == segment_spec(stderr@, clippy_segment_rules()),
    {
        let rules = make_segment_rules();
        FilteredOutput { stdout: Vec::new(), stderr: segment(stderr, &rules) }
    }

    /// Generalizes one diagnostic block to a [`CheckInfo`] record. Fails
    /// exactly when an extraction pattern of this adapter is not a valid
    /// regular expression.
    pub fn check_info(raw_result: &str) -> (r: Result<CheckInfo, Error>)
        ensures
            r matches Ok(info) ==> info@ == extract_spec(clippy_extract_rules(), raw_result@),
            r is Ok <==> rules_ok(clippy_extract_rules()),
            r matches Err(e) ==> e@ == ErrorV::InvalidPattern(bad_pattern(clippy_extract_rules())),
    {
        let rules = make_extract_rules();
        extract(&rules, raw_result)
    }
}

} // verus!
