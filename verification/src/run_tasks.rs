//! The expression engine: one line of text in, one verdict or error out.
//!
//! A line is tokenized, the first outermost parenthesis span is resolved by
//! evaluating its interior and substituting a boolean literal, and the flat
//! token stream is read as modifiers, a check, its arguments and an optional
//! `and`/`or` chain.  Every stage is mirrored by a spec function, so the
//! result of a whole line is pinned down as a function of the probe's
//! observation models.

use vstd::prelude::*;
use crate::operator::LogicalOperator;
use crate::operator::operator_of;
use crate::probe::SystemProbe;
use crate::rukinia_result::EntryModel;
use crate::rukinia_result::RukiniaError;
use crate::rukinia_result::RukiniaResultEntry;
use crate::rukinia_result::RukiniaResultType;
use crate::rukinia_result::eval_view;
use crate::rukinia_result::format_message_spec;
use crate::strutil::convert_config_line_to_vector_string;
use crate::strutil::join_spaces;
use crate::strutil::join_spaces_spec;
use crate::strutil::tail_strings;
use crate::strutil::tokenize_spec;
use crate::strutil::views_of;
use crate::syntax::Syntax;
use crate::syntax::SyntaxForTrait;
use crate::syntax::SyntaxModel;
use crate::syntax::extract_spec;
use crate::syntax::find_as_from;
use crate::tasks::rukinia_false::RukiniaFalse;
use crate::tasks::rukinia_true::RukiniaTrue;
use crate::tasks::task::RukiniaAllTasks;
use crate::tasks::task::RukiniaProcess;
use crate::tasks::task::task_of;
use crate::tasks::task::task_result_spec;

verus! {

/// How deep parenthesis resolution may recurse before the line is refused.
pub const MAX_NESTING_DEPTH: u64 = 4096;

/// The scan for the first outermost parenthesis span: from position `i` with
/// the first opening position (if seen) and the running balance.
pub open spec fn paren_scan(s: Seq<char>, i: int, start: Option<int>, balance: int) -> Option<
    (int, int),
>
    decreases s.len() - i when 0 <= i
{
    if i >= s.len() {
        None
    } else if s[i] == '(' {
        paren_scan(
            s,
            i + 1,
            if start is Some {
                start
            } else {
                Some(i)
            },
            balance + 1,
        )
    } else if s[i] == ')' {
        if balance - 1 == 0 && start is Some {
            Some((start->Some_0, i))
        } else {
            paren_scan(s, i + 1, start, balance - 1)
        }
    } else {
        paren_scan(s, i + 1, start, balance)
    }
}

/// The first outermost balanced parenthesis span of a line, if any.
pub open spec fn paren_span(s: Seq<char>) -> Option<(int, int)> {
    paren_scan(s, 0, None, 0)
}

proof fn lemma_paren_scan_bounds(s: Seq<char>, i: int, start: Option<int>, balance: int)
    requires
        0 <= i <= s.len(),
        start matches Some(st) ==> 0 <= st < i,
    ensures
        paren_scan(s, i, start, balance) matches Some((st, en)) ==> 0 <= st < en < s.len(),
    decreases s.len() - i,
{
    if i < s.len() {
        if s[i] == '(' {
            lemma_paren_scan_bounds(
                s,
                i + 1,
                if start is Some {
                    start
                } else {
                    Some(i)
                },
                balance + 1,
            );
        } else if s[i] == ')' {
            if !(balance - 1 == 0 && start is Some) {
                lemma_paren_scan_bounds(s, i + 1, start, balance - 1);
            }
        } else {
            lemma_paren_scan_bounds(s, i + 1, start, balance);
        }
    }
}

/// A resolved span lies strictly inside the line, opening before it closes.
pub proof fn lemma_paren_span_bounds(s: Seq<char>)
    ensures
        paren_span(s) matches Some((st, en)) ==> 0 <= st < en < s.len(),
{
    lemma_paren_scan_bounds(s, 0, None, 0);
}

/// The view of a possible scan state held in machine integers.
pub open spec fn opt_int(o: Option<usize>) -> Option<int> {
    match o {
        Some(v) => Some(v as int),
        None => None,
    }
}

/// Find the first outermost balanced parenthesis pair of a line: record the
/// first `(`, count the balance, and stop where it returns to zero.
pub fn find_outermost_parentheses(expression: &str) -> (r: Option<(usize, usize)>)
    ensures
        match r {
            Some((st, en)) => paren_span(expression@) == Some((st as int, en as int)) && st < en
                < expression@.len(),
            None => paren_span(expression@) is None,
        },
{
    let n = expression.unicode_len();
    let mut start_index: Option<usize> = None;
    let mut balance: i128 = 0;
    let mut i: usize = 0;
    proof {
        lemma_paren_scan_bounds(expression@, 0, None, 0);
    }
    while i < n
        invariant
            i <= n,
            n == expression@.len(),
            -(i as int) <= balance <= i as int,
            start_index matches Some(st) ==> 0 <= st < i,
            paren_span(expression@) == paren_scan(
                expression@,
                i as int,
                opt_int(start_index),
                balance as int,
            ),
            paren_span(expression@) matches Some((st, en)) ==> 0 <= st < en < expression@.len(),
        decreases n - i,
    {
        let ch = expression.get_char(i);
        if ch == '(' {
            if start_index.is_none() {
                start_index = Some(i);
            }
            balance = balance + 1;
        } else if ch == ')' {
            balance = balance - 1;
            if balance == 0 {
                match start_index {
                    Some(start) => {
                        return Some((start, i));
                    },
                    None => {
                    },
                }
            }
        }
        i += 1;
    }
    None
}

/// The position of the first operator token at or after `i`, or the length.
pub open spec fn first_op_index(ts: Seq<Seq<char>>, i: int) -> int
    decreases ts.len() - i when 0 <= i
{
    if i >= ts.len() {
        ts.len() as int
    } else if operator_of(ts[i]) is Some {
        i
    } else {
        first_op_index(ts, i + 1)
    }
}

proof fn lemma_first_op_index(ts: Seq<Seq<char>>, i: int)
    requires
        0 <= i <= ts.len(),
    ensures
        i <= first_op_index(ts, i) <= ts.len(),
        forall|m: int| i <= m < first_op_index(ts, i) ==> operator_of(ts[m]) is None,
        first_op_index(ts, i) < ts.len() ==> operator_of(ts[first_op_index(ts, i)]) is Some,
    decreases ts.len() - i,
{
    if i < ts.len() && operator_of(ts[i]) is None {
        lemma_first_op_index(ts, i + 1);
    }
}

/// The error reported when no check name is found on the line.
pub open spec fn no_task_error(parts: Seq<Seq<char>>) -> Seq<char> {
    format_message_spec(
        "No task found in the test"@,
        "Failed to parse rukinia task"@,
        "No task in test: "@ + join_spaces_spec(parts),
    )
}

/// The error reported when the head token of a split stream is no check.
pub open spec fn invalid_task_name_error(word: Seq<char>) -> Seq<char> {
    format_message_spec(
        "Invalid task name"@,
        "Failed to parse rukinia task"@,
        "Invalid task: "@ + word,
    )
}

/// The error reported for a token where a check name was expected.
pub open spec fn invalid_task_error(word: Seq<char>) -> Seq<char> {
    format_message_spec(
        "Invalid task"@,
        "Failed to parse rukinia task"@,
        "Invalid task: "@ + word,
    )
}

/// The error reported for a token where an operator was expected.
pub open spec fn invalid_operator_error(word: Seq<char>) -> Seq<char> {
    format_message_spec(
        "Invalid operator"@,
        "Failed to parse logical operator"@,
        "Invalid operator: "@ + word,
    )
}

/// Dispatch a stream whose head is a recognized check: the arguments run to
/// the first operator token, the remainder from it.
pub open spec fn dispatch_spec<P: SystemProbe>(
    ts: Seq<Seq<char>>,
    ms: Seq<SyntaxModel>,
    probe: &P,
) -> Result<(EntryModel, Seq<Seq<char>>), Seq<char>> {
    let k = first_op_index(ts, 1);
    match task_result_spec(task_of(ts[0])->Some_0, ts.subrange(1, k), ms, probe) {
        Ok(e) => Ok((e, ts.subrange(k, ts.len() as int))),
        Err(e) => Err(e),
    }
}

/// What reading one operand from the stream returns: the head is a check, or
/// one round of modifier extraction uncovers one; anything else is an error.
pub open spec fn read_task_spec<P: SystemProbe>(ts: Seq<Seq<char>>, probe: &P) -> Result<
    (EntryModel, Seq<Seq<char>>),
    Seq<char>,
> {
    if ts.len() == 0 {
        Err(no_task_error(ts))
    } else if task_of(ts[0]) is Some {
        dispatch_spec(ts, Seq::empty(), probe)
    } else {
        match extract_spec(ts, 0) {
            Err(e) => Err(e),
            Ok((ms, rest)) => {
                if rest.len() == 0 {
                    Err(no_task_error(ts))
                } else if task_of(rest[0]) is Some {
                    dispatch_spec(rest, ms, probe)
                } else {
                    Err(invalid_task_error(rest[0]))
                }
            },
        }
    }
}

proof fn lemma_extract_rest(ts: Seq<Seq<char>>, i: int)
    requires
        0 <= i <= ts.len(),
    ensures
        extract_spec(ts, i) matches Ok((ms, rest)) ==> rest.len() <= ts.len() - i,
    decreases ts.len() - i,
{
    if i < ts.len() {
        if ts[i] == "not"@ {
            lemma_extract_rest(ts, i + 1);
        } else if ts[i] == "as"@ || ts[i] == "id"@ {
            if i + 1 < ts.len() {
                lemma_extract_rest(ts, i + 2);
            }
        }
    }
}

proof fn lemma_read_task_remainder<P: SystemProbe>(ts: Seq<Seq<char>>, probe: &P)
    ensures
        read_task_spec(ts, probe) matches Ok((e, rem)) ==> rem.len() < ts.len(),
{
    if ts.len() > 0 {
        if task_of(ts[0]) is Some {
            lemma_first_op_index(ts, 1);
        } else {
            lemma_extract_rest(ts, 0);
            match extract_spec(ts, 0) {
                Ok((ms, rest)) => {
                    if rest.len() > 0 && task_of(rest[0]) is Some {
                        lemma_first_op_index(rest, 1);
                    }
                },
                Err(_) => {},
            }
        }
    }
}

/// Fold the running result over the remaining `and`/`or` chain; both sides
/// of every operator are evaluated.
pub open spec fn fold_ops_spec<P: SystemProbe>(
    acc: EntryModel,
    rest: Seq<Seq<char>>,
    probe: &P,
) -> Result<EntryModel, Seq<char>>
    decreases rest.len() when true via fold_ops_spec_decreases::<P>
{
    if rest.len() == 0 {
        Ok(acc)
    } else {
        match operator_of(rest[0]) {
            None => Err(invalid_operator_error(rest[0])),
            Some(op) => match read_task_spec(rest.subrange(1, rest.len() as int), probe) {
                Err(e) => Err(e),
                Ok((next, rest2)) => fold_ops_spec(combine_spec(acc, op, next), rest2, probe),
            },
        }
    }
}

#[via_fn]
proof fn fold_ops_spec_decreases<P: SystemProbe>(acc: EntryModel, rest: Seq<Seq<char>>, probe: &P) {
    if rest.len() > 0 {
        lemma_read_task_remainder(rest.subrange(1, rest.len() as int), probe);
    }
}

/// One `and`/`or` step: the kind folds as the operator demands, the labels
/// join around the operator word.
pub open spec fn combine_spec(acc: EntryModel, op: LogicalOperator, next: EntryModel) -> EntryModel {
    match op {
        LogicalOperator::And => EntryModel {
            result_type: if acc.result_type == RukiniaResultType::TestSuccess {
                next.result_type
            } else {
                acc.result_type
            },
            label: acc.label + " and "@ + next.label,
        },
        LogicalOperator::Or => EntryModel {
            result_type: if acc.result_type == RukiniaResultType::TestFail {
                next.result_type
            } else {
                acc.result_type
            },
            label: acc.label + " or "@ + next.label,
        },
    }
}

/// What a whole flat token stream evaluates to.
pub open spec fn eval_tokens_spec<P: SystemProbe>(ts: Seq<Seq<char>>, probe: &P) -> Result<
    EntryModel,
    Seq<char>,
> {
    match read_task_spec(ts, probe) {
        Err(e) => Err(e),
        Ok((first, rem)) => fold_ops_spec(first, rem, probe),
    }
}

/// Split a token stream whose head is a check name into the check, its
/// arguments, and the remainder from the first operator token on.
pub fn create_task(parts: Vec<String>) -> (r: Result<
    (RukiniaAllTasks, Vec<String>, Vec<String>),
    RukiniaError,
>)
    requires
        parts@.len() >= 1,
    ensures
        match r {
            Ok((task, args, remaining)) => task_of(views_of(parts@)[0]) == Some(task) && views_of(
                args@,
            ) == views_of(parts@).subrange(1, first_op_index(views_of(parts@), 1)) && views_of(
                remaining@,
            ) == views_of(parts@).subrange(
                first_op_index(views_of(parts@), 1),
                views_of(parts@).len() as int,
            ),
            Err(e) => task_of(views_of(parts@)[0]) is None && e@ == invalid_task_name_error(
                views_of(parts@)[0],
            ),
        },
{
    let ghost vp = views_of(parts@);
    proof {
        assert(vp[0] == parts@[0]@);
        lemma_first_op_index(vp, 1);
    }
    let task = match RukiniaAllTasks::from_str(parts[0].as_str()) {
        Ok(task) => task,
        Err(_) => {
            return Err(
                RukiniaError::new(
                    String::from_str("Invalid task name"),
                    String::from_str("Failed to parse rukinia task"),
                    String::from_str("Invalid task: ").concat(parts[0].as_str()),
                ),
            );
        },
    };
    let mut arguments: Vec<String> = Vec::new();
    let mut remaining_parts: Vec<String> = Vec::new();
    let mut found_operator = false;
    let mut j: usize = 1;
    while j < parts.len()
        invariant
            1 <= j <= parts@.len(),
            vp == views_of(parts@),
            !found_operator ==> first_op_index(vp, 1) == first_op_index(vp, j as int) && views_of(
                arguments@,
            ) =~= vp.subrange(1, j as int) && remaining_parts@.len() == 0,
            found_operator ==> first_op_index(vp, 1) <= j && views_of(arguments@) =~= vp.subrange(
                1,
                first_op_index(vp, 1),
            ) && views_of(remaining_parts@) =~= vp.subrange(first_op_index(vp, 1), j as int),
        decreases parts@.len() - j,
    {
        proof {
            assert(vp[j as int] == parts@[j as int]@);
            lemma_first_op_index(vp, 1);
        }
        let part = parts[j].clone();
        if LogicalOperator::from_str(part.as_str()).is_ok() {
            found_operator = true;
        }
        proof {
            crate::strutil::lemma_views_push(arguments@, part);
            crate::strutil::lemma_views_push(remaining_parts@, part);
            lemma_first_op_index(vp, j as int);
        }
        if found_operator {
            remaining_parts.push(part);
        } else {
            arguments.push(part);
        }
        j += 1;
    }
    proof {
        if !found_operator {
            assert(first_op_index(vp, parts@.len() as int) == vp.len());
            assert(views_of(remaining_parts@) =~= vp.subrange(vp.len() as int, vp.len() as int));
        }
        assert(views_of(arguments@) == vp.subrange(1, first_op_index(vp, 1)));
        assert(views_of(remaining_parts@) == vp.subrange(first_op_index(vp, 1), vp.len() as int));
    }
    Ok((task, arguments, remaining_parts))
}

/// Read one operand: try the head token as a check name; if it is none,
/// extract one batch of modifiers and try again; then dispatch the check on
/// its arguments with the modifiers applied.
pub fn read_expression_task<P: SystemProbe>(parts: Vec<String>, probe: &P) -> (r: Result<
    (RukiniaResultEntry, Vec<String>),
    RukiniaError,
>)
    ensures
        match r {
            Ok((e, rem)) => read_task_spec(views_of(parts@), probe) == Ok::<_, Seq<char>>(
                (e@, views_of(rem@)),
            ),
            Err(err) => read_task_spec(views_of(parts@), probe) == Err::<
                (EntryModel, Seq<Seq<char>>),
                _,
            >(err@),
        },
{
    let ghost vp = views_of(parts@);
    if parts.len() == 0 {
        return Err(
            RukiniaError::new(
                String::from_str("No task found in the test"),
                String::from_str("Failed to parse rukinia task"),
                String::from_str("No task in test: ").concat(join_spaces(&parts).as_str()),
            ),
        );
    }
    proof {
        assert(vp[0] == parts@[0]@);
    }
    if RukiniaAllTasks::from_str(parts[0].as_str()).is_ok() {
        match create_task(parts) {
            Ok((task, arguments, remaining)) => {
                match task.execute(arguments, SyntaxForTrait::Arguments(Vec::new()), probe) {
                    Ok(entry) => Ok((entry, remaining)),
                    Err(e) => Err(e),
                }
            },
            Err(e) => Err(e),
        }
    } else {
        let dup = tail_strings(&parts, 0);
        proof {
            assert(views_of(dup@) =~= vp);
        }
        match SyntaxForTrait::extract_syntax(dup) {
            Err(e) => Err(e),
            Ok((syntax, rest)) => {
                if rest.len() == 0 {
                    Err(
                        RukiniaError::new(
                            String::from_str("No task found in the test"),
                            String::from_str("Failed to parse rukinia task"),
                            String::from_str("No task in test: ").concat(
                                join_spaces(&parts).as_str(),
                            ),
                        ),
                    )
                } else {
                    proof {
                        assert(views_of(rest@)[0] == rest@[0]@);
                    }
                    if RukiniaAllTasks::from_str(rest[0].as_str()).is_ok() {
                        match create_task(rest) {
                            Ok((task, arguments, remaining)) => {
                                match task.execute(arguments, syntax, probe) {
                                    Ok(entry) => Ok((entry, remaining)),
                                    Err(e) => Err(e),
                                }
                            },
                            Err(e) => Err(e),
                        }
                    } else {
                        Err(
                            RukiniaError::new(
                                String::from_str("Invalid task"),
                                String::from_str("Failed to parse rukinia task"),
                                String::from_str("Invalid task: ").concat(rest[0].as_str()),
                            ),
                        )
                    }
                }
            },
        }
    }
}

/// Evaluate a flat token stream: the first operand, then every operator and
/// operand after it, folded left to right with no short-circuit.
#[verifier::rlimit(60)]
pub fn evaluate_logical_expression<P: SystemProbe>(
    expression_parts: Vec<String>,
    probe: &P,
) -> (r: Result<RukiniaResultEntry, RukiniaError>)
    ensures
        eval_view(r) == eval_tokens_spec(views_of(expression_parts@), probe),
{
    let ghost vp = views_of(expression_parts@);
    let (result, mut remaining_parts) = match read_expression_task(expression_parts, probe) {
        Ok(p) => p,
        Err(e) => {
            return Err(e);
        },
    };
    let mut final_result = result.duplicate();
    while remaining_parts.len() > 0
        invariant
            vp == views_of(expression_parts@),
            eval_tokens_spec(vp, probe) == fold_ops_spec(
                final_result@,
                views_of(remaining_parts@),
                probe,
            ),
        decreases remaining_parts@.len(),
    {
        let ghost vr = views_of(remaining_parts@);
        proof {
            assert(vr[0] == remaining_parts@[0]@);
        }
        let operator = remaining_parts[0].clone();
        let logical_operator = match LogicalOperator::from_str(operator.as_str()) {
            Ok(op) => op,
            Err(_) => {
                return Err(
                    RukiniaError::new(
                        String::from_str("Invalid operator"),
                        String::from_str("Failed to parse logical operator"),
                        String::from_str("Invalid operator: ").concat(operator.as_str()),
                    ),
                );
            },
        };
        let tail = tail_strings(&remaining_parts, 1);
        let (new_task_result, new_remaining) = match read_expression_task(tail, probe) {
            Ok(p) => p,
            Err(e) => {
                return Err(e);
            },
        };
        let ghost old_final = final_result@;
        proof {
            lemma_read_task_remainder(vr.subrange(1, vr.len() as int), probe);
        }
        match logical_operator {
            LogicalOperator::And => {
                if final_result.result_type == RukiniaResultType::TestSuccess {
                    final_result.result_type = new_task_result.result_type;
                }
                final_result.label.append(" and ");
                final_result.label.append(new_task_result.label.as_str());
            },
            LogicalOperator::Or => {
                if final_result.result_type == RukiniaResultType::TestFail {
                    final_result.result_type = new_task_result.result_type;
                }
                final_result.label.append(" or ");
                final_result.label.append(new_task_result.label.as_str());
            },
        }
        proof {
            assert(final_result@ == combine_spec(old_final, logical_operator, new_task_result@));
        }
        remaining_parts = new_remaining;
    }
    Ok(final_result)
}

/// The literal token substituted for a resolved parenthesis span.
pub open spec fn bool_token(t: RukiniaResultType) -> Seq<char> {
    if t == RukiniaResultType::TestSuccess {
        "true"@
    } else {
        "false"@
    }
}

/// The error reported when parenthesis nesting exceeds the depth guard.
pub open spec fn depth_error(s: Seq<char>) -> Seq<char> {
    format_message_spec("Parenthesis resolution"@, "Expression nesting too deep"@, s)
}

/// The label of a line whose parenthesis span was resolved: an `as` argument
/// anywhere in the substituted line wins; otherwise the inner label is put
/// back in parentheses, into the original line when no parens remain, else
/// into the evaluated line's own label where the substituted literal stood
/// (left unchanged when that label is too short to carry the splice).
pub open spec fn relabel_spec(
    s: Seq<char>,
    st: int,
    en: int,
    inner_label: Seq<char>,
    btok: Seq<char>,
    new_s: Seq<char>,
    final_label: Seq<char>,
) -> Seq<char> {
    match find_as_from(tokenize_spec(new_s), 0) {
        Some(arg) => arg,
        None => {
            if paren_span(new_s) is None {
                s.subrange(0, st) + "("@ + inner_label + ")"@ + s.subrange(en + 1, s.len() as int)
            } else {
                if btok.len() <= final_label.len() && st <= final_label.len() - btok.len() {
                    final_label.subrange(0, st) + "("@ + inner_label + ")"@ + final_label.subrange(
                        st + btok.len(),
                        final_label.len() as int,
                    )
                } else {
                    final_label
                }
            }
        },
    }
}

/// What one line evaluates to, with `depth` parenthesis resolutions left.
pub open spec fn eval_line_spec<P: SystemProbe>(s: Seq<char>, probe: &P, depth: nat) -> Result<
    EntryModel,
    Seq<char>,
>
    decreases depth,
{
    match paren_span(s) {
        None => eval_tokens_spec(tokenize_spec(s), probe),
        Some((st, en)) => {
            if depth == 0 {
                Err(depth_error(s))
            } else {
                match eval_line_spec(s.subrange(st + 1, en), probe, (depth - 1) as nat) {
                    Err(e) => Err(e),
                    Ok(inner) => {
                        let btok = bool_token(inner.result_type);
                        let new_s = s.subrange(0, st) + btok + s.subrange(en + 1, s.len() as int);
                        match eval_line_spec(new_s, probe, (depth - 1) as nat) {
                            Err(e) => Err(e),
                            Ok(fr) => Ok(
                                EntryModel {
                                    result_type: fr.result_type,
                                    label: relabel_spec(
                                        s,
                                        st,
                                        en,
                                        inner.label,
                                        btok,
                                        new_s,
                                        fr.label,
                                    ),
                                },
                            ),
                        }
                    },
                }
            }
        },
    }
}

/// Whether a line tokenizes to nothing; such lines are skipped by callers
/// without being evaluated.
pub fn line_is_blank(line: &str) -> (r: bool)
    ensures
        r == (tokenize_spec(line@).len() == 0),
{
    let tokens = convert_config_line_to_vector_string(line);
    tokens.len() == 0
}

/// Evaluate one line with a given recursion budget.
fn evaluate_expression<P: SystemProbe>(expression: &str, probe: &P, depth: u64) -> (r: Result<
    RukiniaResultEntry,
    RukiniaError,
>)
    ensures
        eval_view(r) == eval_line_spec(expression@, probe, depth as nat),
    decreases depth,
{
    let ghost s = expression@;
    match find_outermost_parentheses(expression) {
        None => {
            let formatted_parts = convert_config_line_to_vector_string(expression);
            evaluate_logical_expression(formatted_parts, probe)
        },
        Some((start, end)) => {
            if depth == 0 {
                return Err(
                    RukiniaError::new(
                        String::from_str("Parenthesis resolution"),
                        String::from_str("Expression nesting too deep"),
                        expression.to_owned(),
                    ),
                );
            }
            let n = expression.unicode_len();
            let content = expression.substring_char(start + 1, end).to_owned();
            let result = match evaluate_expression(content.as_str(), probe, depth - 1) {
                Ok(r) => r,
                Err(e) => {
                    return Err(e);
                },
            };
            let result_bool_str = match result.result_type {
                RukiniaResultType::TestSuccess => RukiniaTrue::get_rukinia_command(),
                RukiniaResultType::TestFail => RukiniaFalse::get_rukinia_command(),
            };
            let new_expression = expression.substring_char(0, start).to_owned().concat(
                result_bool_str,
            ).concat(expression.substring_char(end + 1, n));
            let ghost new_s = s.subrange(0, start as int) + bool_token(result@.result_type)
                + s.subrange(end as int + 1, s.len() as int);
            proof {
                assert(new_expression@ == new_s);
            }
            let mut final_result = match evaluate_expression(new_expression.as_str(), probe, depth
                - 1) {
                Ok(r) => r,
                Err(e) => {
                    return Err(e);
                },
            };
            let new_expression_vec = convert_config_line_to_vector_string(new_expression.as_str());
            match Syntax::find_syntax_as(new_expression_vec) {
                Some(syntax) => {
                    match syntax.get_argument() {
                        Some(argument) => {
                            final_result.label = argument;
                        },
                        None => {
                        },
                    }
                },
                None => {
                    match find_outermost_parentheses(new_expression.as_str()) {
                        None => {
                            final_result.label = expression.substring_char(0, start).to_owned()
                                .concat("(").concat(result.label.as_str()).concat(")").concat(
                                expression.substring_char(end + 1, n),
                            );
                        },
                        Some(_) => {
                            let flen = final_result.label.unicode_len();
                            let blen = result_bool_str.unicode_len();
                            if blen <= flen && start <= flen - blen {
                                let prefix = final_result.label.substring_char(0, start).to_owned();
                                let suffix = final_result.label.substring_char(
                                    start + blen,
                                    flen,
                                ).to_owned();
                                final_result.label = prefix.concat("(").concat(
                                    result.label.as_str(),
                                ).concat(")").concat(suffix.as_str());
                            }
                        },
                    }
                },
            }
            Ok(final_result)
        },
    }
}

/// Evaluate one test expression line: resolve the first outermost
/// parenthesis span recursively, then read the flat token stream as
/// modifiers, a check and an `and`/`or` chain.
pub fn rukinia_execute_single_test<P: SystemProbe>(expression: &str, probe: &P) -> (r: Result<
    RukiniaResultEntry,
    RukiniaError,
>)
    ensures
        eval_view(r) == eval_line_spec(expression@, probe, MAX_NESTING_DEPTH as nat),
{
    evaluate_expression(expression, probe, MAX_NESTING_DEPTH)
}

} // verus!
