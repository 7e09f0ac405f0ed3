//! Rukinia: a declarative system-state checker.
//!
//! One input line is one boolean test expression: modifiers (`not`, `as`,
//! `id`), a named check with its arguments, optional `and`/`or` chains and
//! parenthesised sub-expressions.  This crate holds the verified expression
//! engine (tokenizer, parenthesis resolution, modifier extraction, dispatch
//! and operator folding) together with the decision logic of every check.
//! System observation runs through the [`probe::SystemProbe`] capability
//! trait, so each check's verdict is a proved function of what was observed.

pub mod configuration;
pub mod laws;
pub mod operator;
pub mod probe;
pub mod rukinia_result;
pub mod run_tasks;
pub mod save_test_result;
pub mod strutil;
pub mod syntax;
pub mod tasks;
