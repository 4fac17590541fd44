//! Data describing the output of running the checks: one record per detected
//! defect, and the report that collects them.
use crate::parser::guideline::{
    lookup_spec, CodingGuidelines, GuidelineSummary, GuidelineSummaryV,
};
use crate::tools::SupportedTool;
use vstd::prelude::*;

verus! {

/// Information about one checking result: which file a warning or error
/// points at, where in that file, which lint fired, the explanation the tool
/// gave, and the guidelines the defect violates.
///
/// `defect_name` is empty only when extraction genuinely found no
/// identifiable lint name; that is not an error, since some diagnostics name
/// themselves only in the summary.
#[derive(Debug)]
pub struct CheckInfo {
    pub file_path: Option<String>,
    pub defect_name: String,
    pub tool: SupportedTool,
    pub begin_line: Option<usize>,
    pub end_line: Option<usize>,
    pub column: Option<usize>,
    pub code_string: String,
    pub help_info: String,
    pub additional_help_info: String,
    pub guideline_list: Vec<GuidelineSummary>,
}

/// The mathematical value of a [`CheckInfo`].
pub struct CheckInfoV {
    pub file_path: Option<Seq<char>>,
    pub defect_name: Seq<char>,
    pub tool: SupportedTool,
    pub begin_line: Option<usize>,
    pub end_line: Option<usize>,
    pub column: Option<usize>,
    pub code_string: Seq<char>,
    pub help_info: Seq<char>,
    pub additional_help_info: Seq<char>,
    pub guideline_list: Seq<GuidelineSummaryV>,
}

impl View for CheckInfo {
    type V = CheckInfoV;

    open spec fn view(&self) -> CheckInfoV {
        CheckInfoV {
            file_path: match self.file_path {
                Some(ref p) => Some(p@),
                None => None,
            },
            defect_name: self.defect_name@,
            tool: self.tool,
            begin_line: self.begin_line,
            end_line: self.end_line,
            column: self.column,
            code_string: self.code_string@,
            help_info: self.help_info@,
            additional_help_info: self.additional_help_info@,
            guideline_list: self.guideline_list.deep_view(),
        }
    }
}

impl Default for CheckInfo {
    /// A record with every field absent or empty, attributed to the default
    /// tool.
    fn default() -> (r: Self)
        ensures
            r@.file_path is None,
            r@.defect_name.len() == 0,
            r@.tool == SupportedTool::Rustc,
            r@.begin_line is None,
            r@.end_line is None,
            r@.column is None,
            r@.code_string.len() == 0,
            r@.help_info.len() == 0,
            r@.additional_help_info.len() == 0,
            r@.guideline_list.len() == 0,
    {
        CheckInfo {
            file_path: None,
            defect_name: String::new(),
            tool: SupportedTool::Rustc,
            begin_line: None,
            end_line: None,
            column: None,
            code_string: String::new(),
            help_info: String::new(),
            additional_help_info: String::new(),
            guideline_list: Vec::new(),
        }
    }
}

impl CheckInfo {
    /// How the defect is identified when querying results: lints from clippy
    /// and rustc carry a lint name; the other tools are queried by keyword.
    pub fn defect_type(&self) -> (r: DefectType<'_>)
        ensures
            match self.tool {
                SupportedTool::Clippy => r matches DefectType::ToolLint { is_rustc_lint, name }
                    && !is_rustc_lint && name@ == self@.defect_name,
                SupportedTool::Rustc => r matches DefectType::ToolLint { is_rustc_lint, name }
                    && is_rustc_lint && name@ == self@.defect_name,
                SupportedTool::Miri | SupportedTool::Sanitizer => r matches DefectType::KeyWord(
                    name,
                ) && name@ == self@.defect_name,
            },
    {
        match self.tool {
            SupportedTool::Clippy => DefectType::ToolLint {
                is_rustc_lint: false,
                name: self.defect_name.as_str(),
            },
            SupportedTool::Rustc => DefectType::ToolLint {
                is_rustc_lint: true,
                name: self.defect_name.as_str(),
            },
            SupportedTool::Miri | SupportedTool::Sanitizer => DefectType::KeyWord(
                self.defect_name.as_str(),
            ),
        }
    }

    /// Fills `guideline_list` with the guidelines of the catalog that this
    /// record's tool and defect name violate; every other field is kept.
    pub fn annotate(&mut self, catalog: &CodingGuidelines)
        ensures
            final(self)@ == (CheckInfoV {
                guideline_list: lookup_spec(catalog@, old(self).tool, old(self)@.defect_name),
                ..old(self)@
            }),
    {
        let found = catalog.lookup(self.tool, self.defect_name.as_str());
        self.guideline_list = found;
    }
}

/// The kind of defect that was detected, with its name borrowed from the
/// [`CheckInfo`] it describes. Lints from clippy or rustc have a clear lint
/// identification; the other tools are queried by a keyword instead.
#[derive(Debug)]
pub enum DefectType<'c> {
    ToolLint { is_rustc_lint: bool, name: &'c str },
    KeyWord(&'c str),
}

/// The report: every produced [`CheckInfo`], in the order the tool passes
/// produced them — never sorted and never deduplicated, since equal records
/// from different tools are genuinely independent opinions.
#[derive(Debug)]
pub struct Output {
    pub check_info: Vec<CheckInfo>,
}

impl Output {
    /// An empty report.
    pub fn new() -> (r: Output)
        ensures
            r.check_info@.len() == 0,
    {
        Output { check_info: Vec::new() }
    }

    /// The report made of the given records, in their given order.
    pub fn from_infos(check_info: Vec<CheckInfo>) -> (r: Output)
        ensures
            r.check_info == check_info,
    {
        Output { check_info }
    }

    /// Appends one tool pass's records after the ones already collected,
    /// preserving both orders.
    pub fn append_infos(&mut self, mut more: Vec<CheckInfo>)
        ensures
            final(self).check_info@ == old(self).check_info@ + more@,
    {
        self.check_info.append(&mut more);
    }
}

} // verus!
