//! Error values that the checks and parsers of this crate can report.
use vstd::prelude::*;

verus! {

/// Generic error values for the fatal, configuration-level failures of this
/// crate. Extraction of fields from diagnostic text never produces one of
/// these: malformed text degrades to partially populated records instead.
#[derive(Debug, PartialEq)]
#[non_exhaustive]
pub enum Error {
    InvalidGuidelineID(String),
    /// Unlike [`Error::InvalidGuidelineID`], this is reported when the type
    /// token of a guideline identifier is not a single character.
    InvalidGuidelineType(String),
    ParseUnsupportedEnumVariant(&'static str, String, Vec<String>),
    /// The given path does not exist; the first field names what kind of
    /// path was expected, such as "file".
    PathNotExist(&'static str, String),
    OrphanFilePath(String),
    InvalidFilePath(String),
    /// A lint-name extraction pattern is not a valid regular expression.
    /// This is a programming error in an adapter, not malformed input.
    InvalidPattern(String),
}

/// The mathematical value of an [`Error`], with text as character sequences.
pub enum ErrorV {
    InvalidGuidelineID(Seq<char>),
    InvalidGuidelineType(Seq<char>),
    ParseUnsupportedEnumVariant(Seq<char>, Seq<char>, Seq<Seq<char>>),
    PathNotExist(Seq<char>, Seq<char>),
    OrphanFilePath(Seq<char>),
    InvalidFilePath(Seq<char>),
    InvalidPattern(Seq<char>),
}

impl View for Error {
    type V = ErrorV;

    open spec fn view(&self) -> ErrorV {
        match self {
            Error::InvalidGuidelineID(s) => ErrorV::InvalidGuidelineID(s@),
            Error::InvalidGuidelineType(s) => ErrorV::InvalidGuidelineType(s@),
            Error::ParseUnsupportedEnumVariant(n, v, all) => ErrorV::ParseUnsupportedEnumVariant(
                n@,
                v@,
                all.deep_view(),
            ),
            Error::PathNotExist(k, p) => ErrorV::PathNotExist(k@, p@),
            Error::OrphanFilePath(p) => ErrorV::OrphanFilePath(p@),
            Error::InvalidFilePath(p) => ErrorV::InvalidFilePath(p@),
            Error::InvalidPattern(p) => ErrorV::InvalidPattern(p@),
        }
    }
}

} // verus!
