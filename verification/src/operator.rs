//! The logical connectives that chain checks on one line.

use vstd::prelude::*;

verus! {

#[derive(Debug, PartialEq, Eq, Structural, Clone, Copy)]
pub enum LogicalOperator {
    And,
    Or,
}

/// The operator a token names: `"and"`, `"or"`, or none.  Matching is exact
/// and case-sensitive.
pub open spec fn operator_of(t: Seq<char>) -> Option<LogicalOperator> {
    if t == "and"@ {
        Some(LogicalOperator::And)
    } else if t == "or"@ {
        Some(LogicalOperator::Or)
    } else {
        None
    }
}

impl LogicalOperator {
    /// Parse a token as an operator; every other token is refused.
    pub fn from_str(s: &str) -> (r: Result<LogicalOperator, ()>)
        ensures
            match r {
                Ok(op) => operator_of(s@) == Some(op),
                Err(_) => operator_of(s@) is None,
            },
    {
        if crate::strutil::string_eq(s, "and") {
            Ok(LogicalOperator::And)
        } else if crate::strutil::string_eq(s, "or") {
            Ok(LogicalOperator::Or)
        } else {
            Err(())
        }
    }

    /// The textual form of the operator.
    pub fn text(&self) -> (r: String)
        ensures
            *self == LogicalOperator::And ==> r@ == "and"@,
            *self == LogicalOperator::Or ==> r@ == "or"@,
    {
        match self {
            LogicalOperator::And => String::from_str("and"),
            LogicalOperator::Or => String::from_str("or"),
        }
    }
}

} // verus!
