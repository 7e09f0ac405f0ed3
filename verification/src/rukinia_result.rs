//! The verdict and error values that flow between every stage of evaluation.

use vstd::prelude::*;

verus! {

/// One check's or one line's verdict.
#[derive(Debug, PartialEq, Eq, Structural, Clone, Copy)]
pub enum RukiniaResultType {
    TestFail,
    TestSuccess,
}

/// Mathematical image of a result entry: its label characters and verdict.
pub ghost struct EntryModel {
    pub label: Seq<char>,
    pub result_type: RukiniaResultType,
}

/// The unit of observable outcome: a display label plus a pass/fail verdict.
#[derive(Debug)]
pub struct RukiniaResultEntry {
    pub label: String,
    pub result_type: RukiniaResultType,
}

impl View for RukiniaResultEntry {
    type V = EntryModel;

    open spec fn view(&self) -> EntryModel {
        EntryModel { label: self.label@, result_type: self.result_type }
    }
}

impl RukiniaResultEntry {
    pub fn new(result_type: RukiniaResultType, label: String) -> (r: Self)
        ensures
            r@ == (EntryModel { label: label@, result_type }),
    {
        RukiniaResultEntry { label, result_type }
    }

    /// A fresh entry holding the same label and verdict.
    pub fn duplicate(&self) -> (r: Self)
        ensures
            r@ == self@,
    {
        RukiniaResultEntry { label: self.label.clone(), result_type: self.result_type }
    }

    /// The fixed verdict word written to every sink.
    pub fn result_word(&self) -> (r: String)
        ensures
            self.result_type == RukiniaResultType::TestSuccess ==> r@ == "SUCCESS"@,
            self.result_type == RukiniaResultType::TestFail ==> r@ == "FAIL"@,
    {
        match self.result_type {
            RukiniaResultType::TestSuccess => String::from_str("SUCCESS"),
            RukiniaResultType::TestFail => String::from_str("FAIL"),
        }
    }

    /// The plain-text sink line: `label, RESULT` with a trailing newline.
    pub fn text_line(&self) -> (r: String)
        ensures
            r@ == self@.label + ", "@ + (if self.result_type == RukiniaResultType::TestSuccess {
                "SUCCESS"@
            } else {
                "FAIL"@
            }) + "\n"@,
    {
        let word = self.result_word();
        self.label.clone().concat(", ").concat(word.as_str()).concat("\n")
    }

    /// The JUnit-style sink line for this entry.
    pub fn junit_line(&self) -> (r: String)
        ensures
            r@ == "<testcase name=\""@ + self@.label + "\" result=\""@ + (
            if self.result_type == RukiniaResultType::TestSuccess {
                "SUCCESS"@
            } else {
                "FAIL"@
            }) + "\" />\n"@,
    {
        let word = self.result_word();
        String::from_str("<testcase name=\"").concat(self.label.as_str()).concat(
            "\" result=\"",
        ).concat(word.as_str()).concat("\" />\n")
    }
}

/// The one label format every engine error carries.
pub open spec fn format_message_spec(
    test_command: Seq<char>,
    detail: Seq<char>,
    message: Seq<char>,
) -> Seq<char> {
    "Command used : "@ + test_command + " | Detailed error : "@ + detail + " | Error message : "@
        + message
}

/// A terminal error for the line being evaluated: the originating command, a
/// short explanation and the underlying error text, folded into one label.
#[derive(Debug)]
pub struct RukiniaError {
    pub label: String,
}

impl View for RukiniaError {
    type V = Seq<char>;

    open spec fn view(&self) -> Seq<char> {
        self.label@
    }
}

impl RukiniaError {
    /// Fold the three error parts into the fixed label format.
    pub fn format_message(
        test_command: String,
        input_system_error: String,
        input_system_error_message: String,
    ) -> (r: String)
        ensures
            r@ == format_message_spec(
                test_command@,
                input_system_error@,
                input_system_error_message@,
            ),
    {
        String::from_str("Command used : ").concat(test_command.as_str()).concat(
            " | Detailed error : ",
        ).concat(input_system_error.as_str()).concat(" | Error message : ").concat(
            input_system_error_message.as_str(),
        )
    }

    pub fn new(
        test_command: String,
        input_system_error: String,
        input_system_error_message: String,
    ) -> (r: Self)
        ensures
            r@ == format_message_spec(
                test_command@,
                input_system_error@,
                input_system_error_message@,
            ),
    {
        RukiniaError {
            label: RukiniaError::format_message(
                test_command,
                input_system_error,
                input_system_error_message,
            ),
        }
    }

    /// A fresh error with the same label.
    pub fn duplicate(&self) -> (r: Self)
        ensures
            r@ == self@,
    {
        RukiniaError { label: self.label.clone() }
    }

    /// The plain-text sink line for an error row.
    pub fn text_line(&self) -> (r: String)
        ensures
            r@ == self@ + ", SYSTEM ERROR\n"@,
    {
        self.label.clone().concat(", SYSTEM ERROR\n")
    }

    /// The JUnit-style sink line for an error row.
    pub fn junit_line(&self) -> (r: String)
        ensures
            r@ == "<testcase name=\""@ + self@ + "\" result=\"SYSTEM ERROR\" />\n"@,
    {
        String::from_str("<testcase name=\"").concat(self.label.as_str()).concat(
            "\" result=\"SYSTEM ERROR\" />\n",
        )
    }
}

/// Mathematical image of a whole evaluation outcome.
pub open spec fn eval_view(r: Result<RukiniaResultEntry, RukiniaError>) -> Result<
    EntryModel,
    Seq<char>,
> {
    match r {
        Ok(e) => Ok(e@),
        Err(e) => Err(e@),
    }
}

} // verus!
