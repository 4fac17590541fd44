//! Data models for the inputs and outputs of a check pass: the coding
//! guidelines, the rules configuration, and the final report records.
pub mod guideline;
pub mod output_file;
pub mod rules_config;

pub use guideline::{CheckLevel, CheckTool, CodingGuidelines, Guideline, GuidelineID,
    GuidelineSummary};
pub use output_file::{CheckInfo, DefectType, Output};
pub use rules_config::RulesCfg;
