//! The shapes of the optional result sinks.  The writing itself is
//! collaborator work; this crate supplies the rows and the format choice.

use vstd::prelude::*;

verus! {

/// One CSV row: the test message and its verdict word.
pub struct CsvTestResult<'a> {
    pub label: &'a str,
    pub result: &'a str,
}

/// Which sink to append to, and where.
pub struct ResultFormat {
    pub format: FormatOutput,
    pub path: String,
}

#[derive(Debug, PartialEq, Eq, Structural, Clone, Copy)]
pub enum FormatOutput {
    Csv,
    TextFile,
    JUnit,
}

impl FormatOutput {
    /// The display name of the format.
    pub fn name(&self) -> (r: String)
        ensures
            *self == FormatOutput::Csv ==> r@ == "Csv"@,
            *self == FormatOutput::TextFile ==> r@ == "TextFile"@,
            *self == FormatOutput::JUnit ==> r@ == "JUnit"@,
    {
        match self {
            FormatOutput::Csv => String::from_str("Csv"),
            FormatOutput::TextFile => String::from_str("TextFile"),
            FormatOutput::JUnit => String::from_str("JUnit"),
        }
    }
}

} // verus!
