//! Error values surfaced by parsing, validation and translation.
//!
//! Every failure is a recoverable `Result`-style outcome; nothing here is
//! fatal to a hosting process.

use vstd::prelude::*;

verus! {

/// The reason a selector string, a section of one, or a structured selector
/// value was rejected.
#[derive(Copy, Clone, Debug, PartialEq, Eq)]
pub enum ParseError {
    /// Text (or a segment vector) was empty where non-empty is required.
    EmptyInput,
    /// The tokenizer closed a token that contained no characters.
    EmptyToken,
    /// The escape character was the last character of the input, with nothing
    /// following it to escape.
    UnmatchedEscape,
    /// A pattern segment failed validation; each flag records one class of
    /// offending content found anywhere in the segment.
    PatternInvalid {
        /// An unescaped glob sequence (`**`) occurs in the segment.
        illegal_glob: bool,
        /// An unescaped section delimiter (`:`) occurs in the segment.
        unescaped_selector_delimiter: bool,
        /// An unescaped path delimiter (`/`) occurs in the segment.
        unescaped_path_delimiter: bool,
    },
    /// A selector string did not split into exactly three `:`-delimited
    /// sections.
    WrongSectionCount,
    /// A component selector without its moniker segment vector.
    MissingMoniker,
    /// A tree selector without its node path.
    MissingNodePath,
    /// A tree selector without its target property.
    MissingProperty,
    /// The regex engine refused the generated expression text.
    RegexCompileFailure,
}

/// A parse failure tied to the line of input that caused it, for batch
/// parsing of many selector strings at once.
#[derive(Copy, Clone, Debug, PartialEq, Eq)]
pub struct LineError {
    /// Zero-based index of the first line that failed to parse.
    pub line_index: usize,
    /// Why that line failed.
    pub error: ParseError,
}

impl ParseError {
    /// A human-readable description of the error.
    pub fn message(&self) -> (r: String)
        ensures
            r@ == match self {
                ParseError::EmptyInput => "Required text cannot be empty."@,
                ParseError::EmptyToken => "Cannot have empty strings between delimiters."@,
                ParseError::UnmatchedEscape => "Selector fails verification due to unmatched escape character."@,
                ParseError::PatternInvalid { .. } => "A string pattern cannot contain unescaped globs or delimiters."@,
                ParseError::WrongSectionCount => "Selector format requires exactly 3 subselectors delimited by a `:`."@,
                ParseError::MissingMoniker => "Component selectors must have a moniker_segments vector."@,
                ParseError::MissingNodePath => "Tree selectors must have a node_path vector."@,
                ParseError::MissingProperty => "Tree selectors must have target properties."@,
                ParseError::RegexCompileFailure => "Generated regular expression failed to compile."@,
            },
    {
        match self {
            ParseError::EmptyInput => "Required text cannot be empty.".to_owned(),
            ParseError::EmptyToken => "Cannot have empty strings between delimiters.".to_owned(),
            ParseError::UnmatchedEscape => {
                "Selector fails verification due to unmatched escape character.".to_owned()
            },
            ParseError::PatternInvalid {
                illegal_glob: _,
                unescaped_selector_delimiter: _,
                unescaped_path_delimiter: _,
            } => {
                "A string pattern cannot contain unescaped globs or delimiters.".to_owned()
            },
            ParseError::WrongSectionCount => {
                "Selector format requires exactly 3 subselectors delimited by a `:`.".to_owned()
            },
            ParseError::MissingMoniker => {
                "Component selectors must have a moniker_segments vector.".to_owned()
            },
            ParseError::MissingNodePath => {
                "Tree selectors must have a node_path vector.".to_owned()
            },
            ParseError::MissingProperty => {
                "Tree selectors must have target properties.".to_owned()
            },
            ParseError::RegexCompileFailure => {
                "Generated regular expression failed to compile.".to_owned()
            },
        }
    }
}

} // verus!
