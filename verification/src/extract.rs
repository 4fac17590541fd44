//! The field extractor: a per-tool state machine that classifies each line
//! of one diagnostic block and extracts typed fields from it. All per-tool
//! variability is carried by [`ExtractRules`], which a tool adapter
//! supplies. Extraction never fails on malformed text: a field that cannot
//! be read simply stays absent. Only a malformed extraction pattern — a
//! programming error in an adapter, not bad input — is reported as an error.
use crate::errors::{Error, ErrorV};
use crate::parser::output_file::{CheckInfo, CheckInfoV};
use crate::text::{
    contains_str, contains_sub, find_at, find_at_exec, lemma_find_at_some, opt_str, parse_usize,
    parse_usize_spec, split_spec, split_str, strip_prefix_rep, strip_rep, trim_spec, trim_str,
};
use crate::tools::SupportedTool;
use crate::utils::regex_utils::{
    capture_last, get_named_match, last_filled, re_caps, re_is_valid, re_named, re_pattern_ok,
};
use vstd::prelude::*;
use vstd::string::{StrSliceExecFns, StringExecFns};

verus! {

/// How a lint identifier is read out of a help or note line.
#[derive(Debug)]
pub enum IdRule {
    /// The named group of the first match of the pattern.
    FirstNamed { pattern: String, group: String },
    /// The last participating group of the first match of the pattern — the
    /// most specific alternative of an alternation.
    LastGroup { pattern: String },
}

/// The mathematical value of an [`IdRule`].
pub enum IdRuleV {
    FirstNamed { pattern: Seq<char>, group: Seq<char> },
    LastGroup { pattern: Seq<char> },
}

impl View for IdRule {
    type V = IdRuleV;

    open spec fn view(&self) -> IdRuleV {
        match self {
            IdRule::FirstNamed { pattern, group } => IdRuleV::FirstNamed {
                pattern: pattern@,
                group: group@,
            },
            IdRule::LastGroup { pattern } => IdRuleV::LastGroup { pattern: pattern@ },
        }
    }
}

/// The view of an optional identifier rule.
pub open spec fn opt_rule_view(o: &Option<IdRule>) -> Option<IdRuleV> {
    match o {
        Some(r) => Some(r@),
        None => None,
    }
}

/// The per-tool parameters of field extraction.
#[derive(Debug)]
pub struct ExtractRules {
    /// The marker that makes a line a help line, such as `help: `.
    pub help_marker: String,
    /// The marker that makes a line a note line, such as `note: `.
    pub note_marker: String,
    /// How annotation text is taken from a help or note line: when true, the
    /// whole trimmed line minus its leading `= ` gutters; when false, the
    /// text after the first marker.
    pub strip_gutter: bool,
    /// Whether the code gutter is ` | ` rather than a bare `|`.
    pub spaced_gutter: bool,
    /// How an identifier is read from a help line, if at all.
    pub help_id: Option<IdRule>,
    /// How an identifier is read from a note line, if at all.
    pub note_id: Option<IdRule>,
    /// The tool tag attached to every produced record.
    pub tool: SupportedTool,
}

/// The mathematical value of [`ExtractRules`].
pub struct ExtractRulesV {
    pub help_marker: Seq<char>,
    pub note_marker: Seq<char>,
    pub strip_gutter: bool,
    pub spaced_gutter: bool,
    pub help_id: Option<IdRuleV>,
    pub note_id: Option<IdRuleV>,
    pub tool: SupportedTool,
}

impl View for ExtractRules {
    type V = ExtractRulesV;

    open spec fn view(&self) -> ExtractRulesV {
        ExtractRulesV {
            help_marker: self.help_marker@,
            note_marker: self.note_marker@,
            strip_gutter: self.strip_gutter,
            spaced_gutter: self.spaced_gutter,
            help_id: opt_rule_view(&self.help_id),
            note_id: opt_rule_view(&self.note_id),
            tool: self.tool,
        }
    }
}

/// Whether a rule's pattern is a valid regular expression.
pub open spec fn rule_ok(rule: Option<IdRuleV>) -> bool {
    match rule {
        None => true,
        Some(IdRuleV::FirstNamed { pattern, .. }) => re_pattern_ok(pattern),
        Some(IdRuleV::LastGroup { pattern }) => re_pattern_ok(pattern),
    }
}

/// Whether both identifier rules of the extraction rules are valid.
pub open spec fn rules_ok(rules: ExtractRulesV) -> bool {
    rule_ok(rules.help_id) && rule_ok(rules.note_id)
}

/// The pattern of a rule, or nothing for the absent rule.
pub open spec fn rule_pattern(rule: Option<IdRuleV>) -> Seq<char> {
    match rule {
        None => Seq::empty(),
        Some(IdRuleV::FirstNamed { pattern, .. }) => pattern,
        Some(IdRuleV::LastGroup { pattern }) => pattern,
    }
}

/// The identifier that a rule extracts from one line, if any.
pub open spec fn id_candidate(rule: Option<IdRuleV>, line: Seq<char>) -> Option<Seq<char>> {
    match rule {
        None => None,
        Some(IdRuleV::FirstNamed { pattern, group }) => re_named(pattern, group, line),
        Some(IdRuleV::LastGroup { pattern }) => last_filled(re_caps(pattern, line)),
    }
}

/// The annotation text of a help or note line: the whole trimmed line minus
/// its leading `= ` gutters, or the text after the first marker.
pub open spec fn annotation_of(t: Seq<char>, marker: Seq<char>, strip_gutter: bool) -> Seq<char> {
    if strip_gutter {
        strip_rep(t, seq!['=', ' '])
    } else {
        match find_at(t, marker, 0) {
            Some(j) => t.skip(j + marker.len() as int),
            None => t,
        }
    }
}

/// The code text of a line shaped `<integer> <gutter> <rest>`: everything
/// after the gutter, provided the text before it reads as a line number.
pub open spec fn code_of(t: Seq<char>, spaced_gutter: bool) -> Option<Seq<char>> {
    let delim: Seq<char> = if spaced_gutter {
        seq![' ', '|', ' ']
    } else {
        seq!['|']
    };
    match find_at(t, delim, 0) {
        Some(j) => if parse_usize_spec(trim_spec(t.subrange(0, j))) is Some {
            Some(t.skip(j + delim.len() as int))
        } else {
            None
        },
        None => None,
    }
}

/// Returns the code fragment of a line with a line-number gutter, as the
/// extractor reads it while still looking for code.
pub fn maybe_code_line<'a>(s: &'a str, spaced_gutter: bool) -> (r: Option<&'a str>)
    ensures
        match r {
            Some(c) => code_of(s@, spaced_gutter) == Some(c@),
            None => code_of(s@, spaced_gutter) is None,
        },
{
    let delim: &str = if spaced_gutter {
        " | "
    } else {
        "|"
    };
    proof {
        reveal_strlit(" | ");
        reveal_strlit("|");
        if spaced_gutter {
            assert(delim@ =~= seq![' ', '|', ' ']);
        } else {
            assert(delim@ =~= seq!['|']);
        }
    }
    let n = s.unicode_len();
    match find_at_exec(s, delim, 0) {
        None => None,
        Some(j) => {
            proof {
                lemma_find_at_some(s@, delim@, 0, j as int);
            }
            let num = s.substring_char(0, j);
            if parse_usize(trim_str(num)).is_some() {
                Some(s.substring_char(j + delim.unicode_len(), n))
            } else {
                None
            }
        },
    }
}

/// The state that extraction threads through the body of a block: the mode
/// flag (still looking for the primary code excerpt, or past it), and the
/// fields gathered so far.
pub struct ExtractAcc {
    /// True until the first help or note line is seen; only while true can a
    /// line be taken as a code-snippet line. The transition to false is
    /// irreversible, so a suggested-fix fragment inside a help message can
    /// never be mistaken for the primary excerpt.
    pub looking: bool,
    pub code: Seq<char>,
    pub notes: Seq<char>,
    pub defect: Option<Seq<char>>,
}

/// The state before any body line is read.
pub open spec fn init_acc() -> ExtractAcc {
    ExtractAcc { looking: true, code: Seq::empty(), notes: Seq::empty(), defect: None }
}

/// The later candidate wins; an empty candidate changes nothing.
pub open spec fn or_opt(new: Option<Seq<char>>, old: Option<Seq<char>>) -> Option<Seq<char>> {
    if new is Some {
        new
    } else {
        old
    }
}

/// One step of the extraction state machine on one body line.
pub open spec fn ext_step(rules: ExtractRulesV, st: ExtractAcc, line: Seq<char>) -> ExtractAcc {
    let t = trim_spec(line);
    if contains_sub(t, rules.help_marker) {
        ExtractAcc {
            looking: false,
            code: st.code,
            notes: st.notes + annotation_of(t, rules.help_marker, rules.strip_gutter) + seq!['\n'],
            defect: or_opt(id_candidate(rules.help_id, t), st.defect),
        }
    } else if contains_sub(t, rules.note_marker) {
        ExtractAcc {
            looking: false,
            code: st.code,
            notes: st.notes + annotation_of(t, rules.note_marker, rules.strip_gutter) + seq!['\n'],
            defect: or_opt(id_candidate(rules.note_id, t), st.defect),
        }
    } else if st.looking {
        match code_of(t, rules.spaced_gutter) {
            Some(c) => ExtractAcc { looking: st.looking, code: st.code + c, ..st },
            None => st,
        }
    } else {
        st
    }
}

/// The state after the first `n` body lines.
pub open spec fn ext_fold(rules: ExtractRulesV, lines: Seq<Seq<char>>, n: int) -> ExtractAcc
    decreases n,
{
    if n <= 0 {
        init_acc()
    } else {
        ext_step(rules, ext_fold(rules, lines, n - 1), lines[n - 1])
    }
}

/// Whether a body line is classified as a help or note line.
pub open spec fn is_marker_line(rules: ExtractRulesV, line: Seq<char>) -> bool {
    contains_sub(trim_spec(line), rules.help_marker) || contains_sub(
        trim_spec(line),
        rules.note_marker,
    )
}

/// Whether the state machine takes body line `k` as a code-snippet line.
pub open spec fn snippet_classified(rules: ExtractRulesV, lines: Seq<Seq<char>>, k: int) -> bool {
    &&& !is_marker_line(rules, lines[k])
    &&& ext_fold(rules, lines, k).looking
    &&& code_of(trim_spec(lines[k]), rules.spaced_gutter) is Some
}

/// The transition out of snippet-scanning mode is irreversible.
pub proof fn lemma_mode_irreversible(
    rules: ExtractRulesV,
    lines: Seq<Seq<char>>,
    i: int,
    j: int,
)
    requires
        0 <= i <= j,
        !ext_fold(rules, lines, i).looking,
    ensures
        !ext_fold(rules, lines, j).looking,
    decreases j - i,
{
    if i < j {
        lemma_mode_irreversible(rules, lines, i, j - 1);
    }
}

/// Once a help or note line has been classified in a block, no later line of
/// that block is ever classified as a code-snippet line, whatever its
/// textual shape.
pub proof fn lemma_mode_flag_monotone(
    rules: ExtractRulesV,
    lines: Seq<Seq<char>>,
    i: int,
    k: int,
)
    requires
        0 <= i < k < lines.len(),
        is_marker_line(rules, lines[i]),
    ensures
        !snippet_classified(rules, lines, k),
{
    assert(!ext_fold(rules, lines, i + 1).looking);
    lemma_mode_irreversible(rules, lines, i + 1, k);
}

/// The identifier candidate one body line contributes, if any.
pub open spec fn line_candidate(rules: ExtractRulesV, line: Seq<char>) -> Option<Seq<char>> {
    let t = trim_spec(line);
    if contains_sub(t, rules.help_marker) {
        id_candidate(rules.help_id, t)
    } else if contains_sub(t, rules.note_marker) {
        id_candidate(rules.note_id, t)
    } else {
        None
    }
}

proof fn lemma_defect_after_last_match(
    rules: ExtractRulesV,
    lines: Seq<Seq<char>>,
    j: int,
    n: int,
)
    requires
        0 <= j < n <= lines.len(),
        line_candidate(rules, lines[j]) is Some,
        forall|k: int| j < k < n ==> line_candidate(rules, #[trigger] lines[k]) is None,
    ensures
        ext_fold(rules, lines, n).defect == line_candidate(rules, lines[j]),
    decreases n,
{
    if n == j + 1 {
    } else {
        lemma_defect_after_last_match(rules, lines, j, n - 1);
    }
}

/// The last matching line decides: when body line `j` is the last line whose
/// help or note pattern extracts an identifier, the extracted defect name is
/// exactly that line's match — later, more specific notes override earlier
/// candidates.
pub proof fn lemma_last_match_wins(rules: ExtractRulesV, lines: Seq<Seq<char>>, j: int)
    requires
        0 <= j < lines.len(),
        line_candidate(rules, lines[j]) is Some,
        forall|k: int| j < k < lines.len() ==> line_candidate(rules, #[trigger] lines[k]) is None,
    ensures
        ext_fold(rules, lines, lines.len() as int).defect == line_candidate(rules, lines[j]),
{
    lemma_defect_after_last_match(rules, lines, j, lines.len() as int);
}

/// The summary text of the first line of a block: what follows the first
/// colon, trimmed.
pub open spec fn summary_of(l0: Seq<char>) -> Seq<char> {
    match find_at(l0, seq![':'], 0) {
        Some(j) => trim_spec(l0.skip(j + 1)),
        None => Seq::empty(),
    }
}

/// A parsed location line.
pub struct LocV {
    pub path: Option<Seq<char>>,
    pub line: Option<usize>,
    pub col: Option<usize>,
}

/// The location read from the second line of a block: after the arrow
/// marker, a three-part colon-separated `path:line:column`. Any other shape
/// leaves every location field absent.
pub open spec fn location_of(l1: Seq<char>) -> LocV {
    let u = strip_rep(trim_spec(l1), seq!['-', '-', '>', ' ']);
    let parts = split_spec(u, seq![':']);
    if parts.len() == 3 {
        LocV {
            path: Some(parts[0]),
            line: parse_usize_spec(trim_spec(parts[1])),
            col: parse_usize_spec(trim_spec(parts[2])),
        }
    } else {
        LocV { path: None, line: None, col: None }
    }
}

/// The body lines of a block: everything after the summary and location
/// lines.
pub open spec fn body_lines(block: Seq<char>) -> Seq<Seq<char>> {
    let ls = split_spec(trim_spec(block), seq!['\n']);
    if ls.len() >= 2 {
        ls.skip(2)
    } else {
        Seq::empty()
    }
}

/// The record extracted from one diagnostic block by the sequential state
/// machine, per the given rules.
pub open spec fn extract_spec(rules: ExtractRulesV, block: Seq<char>) -> CheckInfoV {
    let ls = split_spec(trim_spec(block), seq!['\n']);
    let summary = if ls.len() >= 1 {
        summary_of(ls[0])
    } else {
        Seq::empty()
    };
    let loc = if ls.len() >= 2 {
        location_of(ls[1])
    } else {
        LocV { path: None, line: None, col: None }
    };
    let body = body_lines(block);
    let st = ext_fold(rules, body, body.len() as int);
    CheckInfoV {
        file_path: loc.path,
        defect_name: match st.defect {
            Some(d) => d,
            None => Seq::empty(),
        },
        tool: rules.tool,
        begin_line: loc.line,
        end_line: None,
        column: loc.col,
        code_string: st.code,
        help_info: summary,
        additional_help_info: st.notes,
        guideline_list: Seq::empty(),
    }
}

/// The defect name of an extracted record is the identifier of the last body
/// line whose pattern matched.
pub proof fn lemma_extract_defect_is_last_match(rules: ExtractRulesV, block: Seq<char>, j: int)
    requires
        0 <= j < body_lines(block).len(),
        line_candidate(rules, body_lines(block)[j]) is Some,
        forall|k: int|
            j < k < body_lines(block).len() ==> line_candidate(
                rules,
                #[trigger] body_lines(block)[k],
            ) is None,
    ensures
        Some(extract_spec(rules, block).defect_name) == line_candidate(
            rules,
            body_lines(block)[j],
        ),
{
    lemma_last_match_wins(rules, body_lines(block), j);
}

/// The pattern to blame when the rules are not valid: the help rule's if it
/// is bad, else the note rule's.
pub open spec fn bad_pattern(rules: ExtractRulesV) -> Seq<char> {
    if !rule_ok(rules.help_id) {
        rule_pattern(rules.help_id)
    } else {
        rule_pattern(rules.note_id)
    }
}

/// Checks that a rule's pattern compiles.
fn check_rule(rule: &Option<IdRule>) -> (r: Result<(), Error>)
    ensures
        r is Ok <==> rule_ok(opt_rule_view(rule)),
        r matches Err(e) ==> e@ == ErrorV::InvalidPattern(rule_pattern(opt_rule_view(rule))),
{
    match rule {
        None => Ok(()),
        Some(IdRule::FirstNamed { pattern, group: _ }) => {
            if re_is_valid(pattern.as_str()) {
                Ok(())
            } else {
                Err(Error::InvalidPattern(pattern.clone()))
            }
        },
        Some(IdRule::LastGroup { pattern }) => {
            if re_is_valid(pattern.as_str()) {
                Ok(())
            } else {
                Err(Error::InvalidPattern(pattern.clone()))
            }
        },
    }
}

/// The identifier a rule reads from one trimmed line.
fn candidate_exec(rule: &Option<IdRule>, t: &str) -> (r: Option<String>)
    requires
        rule_ok(opt_rule_view(rule)),
    ensures
        opt_str(r) == id_candidate(opt_rule_view(rule), t@),
{
    match rule {
        None => None,
        Some(IdRule::FirstNamed { pattern, group }) => get_named_match(
            group.as_str(),
            pattern.as_str(),
            t,
        ),
        Some(IdRule::LastGroup { pattern }) => capture_last(pattern.as_str(), t),
    }
}

/// The annotation text of one help or note line.
fn annotation_exec<'a>(t: &'a str, marker: &str, strip_gutter: bool) -> (r: &'a str)
    ensures
        r@ == annotation_of(t@, marker@, strip_gutter),
{
    if strip_gutter {
        proof {
            reveal_strlit("= ");
            assert("= "@ =~= seq!['=', ' ']);
        }
        strip_prefix_rep(t, "= ")
    } else {
        let n = t.unicode_len();
        match find_at_exec(t, marker, 0) {
            Some(j) => {
                proof {
                    lemma_find_at_some(t@, marker@, 0, j as int);
                }
                t.substring_char(j + marker.unicode_len(), n)
            },
            None => t,
        }
    }
}

/// Extracts one [`CheckInfo`] record from one diagnostic block. Malformed
/// text never fails: fields that cannot be read stay absent or empty. The
/// call fails exactly when one of the rules' patterns is not a valid
/// regular expression.
pub fn extract(rules: &ExtractRules, block: &str) -> (r: Result<CheckInfo, Error>)
    ensures
        r matches Ok(info) ==> rules_ok(rules@) && info@ == extract_spec(rules@, block@),
        r matches Err(e) ==> e@ == ErrorV::InvalidPattern(bad_pattern(rules@)),
        r is Ok <==> rules_ok(rules@),
{
    if let Err(e) = check_rule(&rules.help_id) {
        return Err(e);
    }
    if let Err(e) = check_rule(&rules.note_id) {
        return Err(e);
    }
    proof {
        reveal_strlit("\n");
        assert("\n"@ =~= seq!['\n']);
        reveal_strlit(":");
        assert(":"@ =~= seq![':']);
        reveal_strlit("--> ");
        assert("--> "@ =~= seq!['-', '-', '>', ' ']);
    }
    let t = trim_str(block);
    let lines = split_str(t, "\n");
    assert(lines@.len() > 0) by {
        crate::text::lemma_split_len(t@, seq!['\n'], 0);
    }
    let ghost ls = lines.deep_view();

    // Summary: what follows the first colon of the first line.
    let line0 = lines[0].as_str();
    let n0 = line0.unicode_len();
    let help_info: String = match find_at_exec(line0, ":", 0) {
        Some(j) => {
            proof {
                lemma_find_at_some(line0@, seq![':'], 0, j as int);
            }
            trim_str(line0.substring_char(j + 1, n0)).to_owned()
        },
        None => String::new(),
    };

    // Location: a three-part `path:line:column` after the arrow marker.
    let mut file_path: Option<String> = None;
    let mut begin_line: Option<usize> = None;
    let mut column: Option<usize> = None;
    if lines.len() >= 2 {
        let u = strip_prefix_rep(trim_str(lines[1].as_str()), "--> ");
        let parts = split_str(u, ":");
        if parts.len() == 3 {
            file_path = Some(parts[0].clone());
            begin_line = parse_usize(trim_str(parts[1].as_str()));
            column = parse_usize(trim_str(parts[2].as_str()));
        }
    }

    // Body: the sequential state machine over the remaining lines.
    let ghost body = body_lines(block@);
    proof {
        if ls.len() >= 2 {
            assert(body == ls.skip(2));
        }
    }
    let mut looking = true;
    let mut code = String::new();
    let mut notes = String::new();
    let mut defect: Option<String> = None;
    let n = lines.len();
    let mut i: usize = 2;
    if n >= 2 {
        while i < n
            invariant
                2 <= i <= n,
                n == lines@.len(),
                n >= 2,
                ls == lines.deep_view(),
                body == ls.skip(2),
                rules_ok(rules@),
                ({
                    let st = ext_fold(rules@, body, i - 2);
                    &&& looking == st.looking
                    &&& code@ == st.code
                    &&& notes@ == st.notes
                    &&& opt_str(defect) == st.defect
                }),
            decreases n - i,
        {
            let ghost st_prev = ext_fold(rules@, body, i - 2);
            let line = lines[i].as_str();
            let tl = trim_str(line);
            assert(body[i - 2] == ls[i as int]);
            if contains_str(tl, rules.help_marker.as_str()) {
                looking = false;
                notes.append(annotation_exec(tl, rules.help_marker.as_str(), rules.strip_gutter));
                notes.append("\n");
                if let Some(c) = candidate_exec(&rules.help_id, tl) {
                    defect = Some(c);
                }
            } else if contains_str(tl, rules.note_marker.as_str()) {
                looking = false;
                notes.append(annotation_exec(tl, rules.note_marker.as_str(), rules.strip_gutter));
                notes.append("\n");
                if let Some(c) = candidate_exec(&rules.note_id, tl) {
                    defect = Some(c);
                }
            } else if looking {
                if let Some(c) = maybe_code_line(tl, rules.spaced_gutter) {
                    code.append(c);
                }
            }
            i += 1;
            assert(ext_fold(rules@, body, i - 2) == ext_step(rules@, st_prev, body[i - 3]));
        }
    }
    proof {
        if ls.len() < 2 {
            assert(body.len() == 0);
        }
        assert(ext_fold(rules@, body, body.len() as int) == ext_fold(rules@, body, i - 2));
    }
    let defect_name = match defect {
        Some(d) => d,
        None => String::new(),
    };
    let info = CheckInfo {
        file_path,
        defect_name,
        tool: rules.tool,
        begin_line,
        end_line: None,
        column,
        code_string: code,
        help_info,
        additional_help_info: notes,
        guideline_list: Vec::new(),
    };
    assert(info@.guideline_list =~= Seq::<crate::parser::guideline::GuidelineSummaryV>::empty());
    Ok(info)
}

} // verus!
