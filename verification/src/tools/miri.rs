//! The dynamic-analysis adapter. Its blocks differ structurally from the
//! lint tools': the summary embeds the classification only as free text, a
//! location can recur inside one block (an "occurred earlier here"
//! secondary), and snippet and annotation extraction run over the whole
//! block with line-anchored patterns rather than the sequential state
//! machine. Only blocks holding a gutter pipe are diagnostics at all.
use crate::errors::{Error, ErrorV};
use crate::parser::output_file::{CheckInfo, CheckInfoV};
use crate::segment::{segment, segment_spec, BannerStyle, SegmentRules, SegmentRulesV};
use crate::text::{is_blank, is_blank_str, join_with, parse_usize, parse_usize_spec, split_spec,
    split_str, trim_spec, trim_str};
use crate::tools::SupportedTool;
use crate::tools::FilteredOutput;
use crate::utils::regex_utils::{re_all_group1, re_caps, re_first_captures, re_is_valid,
    re_iter_g1, re_pattern_ok};
use vstd::prelude::*;
use vstd::string::StringExecFns;

verus! {

/// The pattern that reads the free-text summary off the first line.
pub open spec fn miri_summary_pattern() -> Seq<char> {
    "error: (.*)"@
}

/// The pattern that reads `path:line:column` off a location line.
pub open spec fn miri_location_pattern() -> Seq<char> {
    "--> ([^:]+):(\\d+):(\\d+)"@
}

/// The line-anchored pattern that reads one annotation off each help or
/// note line, however gutter-prefixed.
pub open spec fn miri_note_pattern() -> Seq<char> {
    "(?m)^[\\s=]*(?:help|note): (.*)"@
}

/// The line-anchored pattern that reads the code text off each line with a
/// line-number gutter.
pub open spec fn miri_code_pattern() -> Seq<char> {
    "(?m)^\\s*\\d+\\s*\\|\\s*(.*)"@
}

/// Whether all four extraction patterns are valid regular expressions.
pub open spec fn miri_patterns_ok() -> bool {
    &&& re_pattern_ok(miri_summary_pattern())
    &&& re_pattern_ok(miri_location_pattern())
    &&& re_pattern_ok(miri_note_pattern())
    &&& re_pattern_ok(miri_code_pattern())
}

/// The pattern to blame when one of them is invalid: the first bad one.
pub open spec fn miri_bad_pattern() -> Seq<char> {
    if !re_pattern_ok(miri_summary_pattern()) {
        miri_summary_pattern()
    } else if !re_pattern_ok(miri_location_pattern()) {
        miri_location_pattern()
    } else if !re_pattern_ok(miri_note_pattern()) {
        miri_note_pattern()
    } else {
        miri_code_pattern()
    }
}

/// How this adapter segments the error channel: blank-line-delimited
/// chunks, the first chunk's startup logs dropped up to the first line that
/// begins with the severity token, no summary chunk to drop, and only
/// chunks holding a gutter pipe kept.
pub open spec fn miri_segment_rules() -> SegmentRulesV {
    SegmentRulesV {
        banner: BannerStyle::SeverityScan,
        severity_tokens: seq!["error"@],
        drop_last: false,
        require_gutter: true,
    }
}

/// The informational channel passes through as its trimmed lines.
pub open spec fn miri_stdout_spec(s: Seq<char>) -> Seq<Seq<char>> {
    if is_blank(s) {
        Seq::empty()
    } else {
        split_spec(trim_spec(s), seq!['\n'])
    }
}

/// The group at index `k` of a capture-group sequence, when it is in range
/// and participates in the match.
pub open spec fn group_of(gs: Seq<Option<Seq<char>>>, k: int) -> Option<Seq<char>> {
    if 0 <= k < gs.len() {
        gs[k]
    } else {
        None
    }
}

/// Like [`group_of`], with the empty text for an absent group.
pub open spec fn group_or_empty(gs: Seq<Option<Seq<char>>>, k: int) -> Seq<char> {
    match group_of(gs, k) {
        Some(x) => x,
        None => Seq::empty(),
    }
}

/// The record this adapter extracts from one block: the summary read off
/// the first line, the location off the second, and the code and annotation
/// texts gathered over the whole block by the line-anchored patterns. No
/// stable lint identifier exists for this tool, so the defect name stays
/// empty and results are queried by keyword instead.
pub open spec fn miri_extract_spec(raw: Seq<char>) -> CheckInfoV {
    let ls = split_spec(trim_spec(raw), seq!['\n']);
    let help = match re_caps(miri_summary_pattern(), ls[0]) {
        Some(gs) => group_or_empty(gs, 1),
        None => Seq::empty(),
    };
    let loc: (Option<Seq<char>>, Option<usize>, Option<usize>) = if ls.len() >= 2 {
        match re_caps(miri_location_pattern(), ls[1]) {
            Some(gs) => (
                group_of(gs, 1),
                match group_of(gs, 2) {
                    Some(d) => parse_usize_spec(d),
                    None => None,
                },
                match group_of(gs, 3) {
                    Some(d) => parse_usize_spec(d),
                    None => None,
                },
            ),
            None => (None, None, None),
        }
    } else {
        (None, None, None)
    };
    CheckInfoV {
        file_path: loc.0,
        defect_name: Seq::empty(),
        tool: SupportedTool::Miri,
        begin_line: loc.1,
        end_line: loc.1,
        column: loc.2,
        code_string: join_with(re_iter_g1(miri_code_pattern(), raw), seq!['\n']),
        help_info: help,
        additional_help_info: join_with(re_iter_g1(miri_note_pattern(), raw), seq!['\n']),
        guideline_list: Seq::empty(),
    }
}

/// Options for one dynamic-analysis run: the program, its arguments, extra
/// environment entries, and the directory to run in. Running the program is
/// the caller's business; this adapter reads its captured output.
#[derive(Debug)]
pub struct MiriOpt {
    pub program: String,
    pub args: Vec<String>,
    pub envs: Vec<(String, String)>,
    pub cur_dir: String,
}

impl Default for MiriOpt {
    /// A run with nothing set.
    fn default() -> (r: Self)
        ensures
            r.program@.len() == 0,
            r.args@.len() == 0,
            r.envs@.len() == 0,
            r.cur_dir@.len() == 0,
    {
        MiriOpt { program: String::new(), args: Vec::new(), envs: Vec::new(), cur_dir: String::new() }
    }
}

impl MiriOpt {
    /// Splits captured output: the informational channel passes through as
    /// its lines; the error channel is segmented into diagnostic blocks,
    /// keeping only blocks that hold a gutter pipe.
    pub fn filter_output(&self, stdout: &str, stderr: &str) -> (r: FilteredOutput)
        ensures
            r.stdout.deep_view() == miri_stdout_spec(stdout@),
            r.stderr.deep_view() == segment_spec(stderr@, miri_segment_rules()),
    {
        proof {
            reveal_strlit("\n");
            assert("\n"@ =~= seq!['\n']);
        }
        let out_lines: Vec<String> = if is_blank_str(stdout) {
            Vec::new()
        } else {
            split_str(trim_str(stdout), "\n")
        };
        assert(out_lines.deep_view() =~= miri_stdout_spec(stdout@));
        let tokens = vec![String::from_str("error")];
        assert(tokens.deep_view() =~= seq!["error"@]);
        let rules = SegmentRules {
            banner: BannerStyle::SeverityScan,
            severity_tokens: tokens,
            drop_last: false,
            require_gutter: true,
        };
        FilteredOutput { stdout: out_lines, stderr: segment(stderr, &rules) }
    }

    /// Generalizes one diagnostic block to a [`CheckInfo`] record. Fails
    /// exactly when one of this adapter's patterns is not a valid regular
    /// expression.
    pub fn check_info(&self, raw_result: &str) -> (r: Result<CheckInfo, Error>)
        ensures
            r matches Ok(info) ==> info@ == miri_extract_spec(raw_result@),
            r is Ok <==> miri_patterns_ok(),
            r matches Err(e) ==> e@ == ErrorV::InvalidPattern(miri_bad_pattern()),
    {
        let p_summary = "error: (.*)";
        let p_location = "--> ([^:]+):(\\d+):(\\d+)";
        let p_note = "(?m)^[\\s=]*(?:help|note): (.*)";
        let p_code = "(?m)^\\s*\\d+\\s*\\|\\s*(.*)";
        if !re_is_valid(p_summary) {
            return Err(Error::InvalidPattern(p_summary.to_owned()));
        }
        if !re_is_valid(p_location) {
            return Err(Error::InvalidPattern(p_location.to_owned()));
        }
        if !re_is_valid(p_note) {
            return Err(Error::InvalidPattern(p_note.to_owned()));
        }
        if !re_is_valid(p_code) {
            return Err(Error::InvalidPattern(p_code.to_owned()));
        }
        proof {
            reveal_strlit("\n");
            assert("\n"@ =~= seq!['\n']);
        }
        let t = trim_str(raw_result);
        let lines = split_str(t, "\n");
        assert(lines@.len() > 0) by {
            crate::text::lemma_split_len(t@, seq!['\n'], 0);
        }

        let help_info: String = match re_first_captures(p_summary, lines[0].as_str()) {
            Some(gs) => {
                if gs.len() >= 2 {
                    match &gs[1] {
                        Some(g) => g.clone(),
                        None => String::new(),
                    }
                } else {
                    String::new()
                }
            },
            None => String::new(),
        };

        let mut file_path: Option<String> = None;
        let mut begin_line: Option<usize> = None;
        let mut column: Option<usize> = None;
        if lines.len() >= 2 {
            if let Some(gs) = re_first_captures(p_location, lines[1].as_str()) {
                if gs.len() >= 2 {
                    if let Some(g) = &gs[1] {
                        file_path = Some(g.clone());
                    }
                }
                if gs.len() >= 3 {
                    if let Some(g) = &gs[2] {
                        begin_line = parse_usize(g.as_str());
                    }
                }
                if gs.len() >= 4 {
                    if let Some(g) = &gs[3] {
                        column = parse_usize(g.as_str());
                    }
                }
            }
        }

        let code_lines = match re_all_group1(p_code, raw_result) {
            Some(v) => v,
            None => Vec::new(),
        };
        let note_lines = match re_all_group1(p_note, raw_result) {
            Some(v) => v,
            None => Vec::new(),
        };
        let code_string = crate::text::join_strs(&code_lines, 0, "\n");
        let additional_help_info = crate::text::join_strs(&note_lines, 0, "\n");

        let info = CheckInfo {
            file_path,
            defect_name: String::new(),
            tool: SupportedTool::Miri,
            begin_line,
            end_line: begin_line,
            column,
            code_string,
            help_info,
            additional_help_info,
            guideline_list: Vec::new(),
        };
        assert(info@.guideline_list
            =~= Seq::<crate::parser::guideline::GuidelineSummaryV>::empty());
        assert(code_lines.deep_view().skip(0) =~= code_lines.deep_view());
        assert(note_lines.deep_view().skip(0) =~= note_lines.deep_view());
        Ok(info)
    }
}

} // verus!
