//! The user-defined rules configuration: which file to check, what
//! compilation options to pass, and which guidelines the checks reference.
use crate::parser::guideline::GuidelineID;
use vstd::prelude::*;

verus! {

/// One check pass's configuration, as the configuration collaborator hands
/// it over: a source path and an ordered set of guideline identifiers.
#[derive(Debug)]
pub struct RulesCfg {
    pub file_path: String,
    pub supplement_compilation_options: Option<String>,
    pub coding_guidelines: Vec<GuidelineID>,
}

} // verus!
