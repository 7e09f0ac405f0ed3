//! The engine's stated laws: what holds of whole classes of lines, proved
//! once and for all over the evaluation specs.

use vstd::prelude::*;
use crate::operator::operator_of;
use crate::probe::SystemProbe;
use crate::rukinia_result::EntryModel;
use crate::rukinia_result::RukiniaResultType;
use crate::rukinia_result::format_message_spec;
use crate::run_tasks::eval_line_spec;
use crate::run_tasks::eval_tokens_spec;
use crate::run_tasks::paren_span;
use crate::run_tasks::paren_scan;
use crate::run_tasks::read_task_spec;
use crate::strutil::has_prefixed_line;
use crate::strutil::tokenize_spec;
use crate::strutil::trim_quotes_spec;
use crate::strutil::trim_spec;
use crate::syntax::SyntaxModel;
use crate::syntax::extract_spec;
use crate::syntax::first_as_from;
use crate::syntax::mods_contain_not;
use crate::tasks::task::RukiniaAllTasks;
use crate::tasks::task::command_context;
use crate::tasks::task::label_or_as;
use crate::tasks::task::negate_if;
use crate::tasks::task::task_of;
use crate::tasks::task::task_result_spec;

verus! {

/// Each check's default label, phrased for the given negation flag.
pub open spec fn default_label_spec(
    task: RukiniaAllTasks,
    args: Seq<Seq<char>>,
    not: bool,
) -> Seq<char> {
    match task {
        RukiniaAllTasks::NetworkIsUp => crate::tasks::rukinia_network_is_up::netup_label(args, not),
        RukiniaAllTasks::NetifHasIp => crate::tasks::rukinia_netif_has_ip::netif_label(args, not),
        RukiniaAllTasks::HttpReq => crate::tasks::rukinia_http_request::http_label(args, not),
        RukiniaAllTasks::User => crate::tasks::rukinia_user::user_label(args, not),
        RukiniaAllTasks::Group => crate::tasks::rukinia_group::group_label(args, not),
        RukiniaAllTasks::UserMemberOf => crate::tasks::rukinia_user_memberof::memberof_label(
            args,
            not,
        ),
        RukiniaAllTasks::KernelMod => crate::tasks::kernel::rukinia_kmod::kmod_label(args, not),
        RukiniaAllTasks::KernelThread => crate::tasks::rukinia_kthread::kthread_label(args, not),
        RukiniaAllTasks::KernelConf => crate::tasks::kernel::rukinia_kconf::kconf_label(
            args,
            not,
            Seq::empty(),
        ),
        RukiniaAllTasks::Symlink => crate::tasks::rukinia_symlink::symlink_label(args, not),
        RukiniaAllTasks::Cmd => crate::tasks::rukinia_cmd::cmd_label(args, not),
        RukiniaAllTasks::True => crate::tasks::rukinia_true::true_label(not),
        RukiniaAllTasks::False => crate::tasks::rukinia_false::false_label(not),
    }
}

/// Each check's own verdict before modifiers, as a function of the probe's
/// observation models; meaningful on the inputs where the check returns a
/// result rather than an error.
pub open spec fn raw_verdict_spec<P: SystemProbe>(
    task: RukiniaAllTasks,
    args: Seq<Seq<char>>,
    probe: &P,
) -> RukiniaResultType {
    let hit = match task {
        RukiniaAllTasks::NetworkIsUp => match probe.operstate_model(trim_quotes_spec(args[0])) {
            Ok(content) => trim_spec(content) == "up"@,
            Err(_) => false,
        },
        RukiniaAllTasks::NetifHasIp => match probe.ifaddrs_model() {
            Ok(list) => exists|i: int|
                0 <= i < list.len() && crate::tasks::rukinia_netif_has_ip::netif_entry_matches(
                    list[i],
                    trim_quotes_spec(args[0]),
                    crate::tasks::rukinia_netif_has_ip::want6_spec(args),
                    trim_spec(crate::tasks::rukinia_netif_has_ip::extra_flags_spec(args)),
                ),
            Err(_) => false,
        },
        RukiniaAllTasks::HttpReq => match probe.http_model(trim_quotes_spec(args[0])) {
            Ok(success) => success,
            Err(_) => false,
        },
        RukiniaAllTasks::User => match probe.passwd_model() {
            Ok(content) => has_prefixed_line(content, trim_quotes_spec(args[0])),
            Err(_) => false,
        },
        RukiniaAllTasks::Group => match probe.group_file_model() {
            Ok(content) => has_prefixed_line(content, trim_quotes_spec(args[0])),
            Err(_) => false,
        },
        RukiniaAllTasks::UserMemberOf => match probe.primary_group_model(
            trim_quotes_spec(args[0]),
        ) {
            Ok(Some(gid)) => match probe.group_list_model(trim_quotes_spec(args[0]), gid) {
                Ok(gids) => crate::tasks::rukinia_user_memberof::memberof_groups_ok(
                    probe,
                    args,
                    gids,
                    0,
                ),
                Err(_) => false,
            },
            _ => false,
        },
        RukiniaAllTasks::KernelMod => match probe.modules_model() {
            Ok(content) => crate::tasks::kernel::rukinia_kmod::modules_has_module(
                content,
                trim_quotes_spec(args[0]),
            ),
            Err(_) => false,
        },
        RukiniaAllTasks::KernelThread => match probe.process_statuses_model() {
            Ok(files) => crate::tasks::rukinia_kthread::kthread_overall(
                files,
                trim_quotes_spec(args[0]),
            ),
            Err(_) => false,
        },
        RukiniaAllTasks::KernelConf => match probe.kernel_config_model() {
            Ok(content) => trim_spec(content) == args[0],
            Err(_) => false,
        },
        RukiniaAllTasks::Symlink => probe.symlink_model(args[0])
            && match probe.link_target_model(args[0]) {
            Ok(t) => match probe.canonical_model(t) {
                Ok(cl) => match probe.canonical_model(args[1]) {
                    Ok(ct) => cl == ct,
                    Err(_) => false,
                },
                Err(_) => false,
            },
            Err(_) => false,
        },
        RukiniaAllTasks::Cmd => probe.command_model(args),
        RukiniaAllTasks::True => true,
        RukiniaAllTasks::False => false,
    };
    if hit {
        RukiniaResultType::TestSuccess
    } else {
        RukiniaResultType::TestFail
    }
}

/// Whenever a dispatched check returns a result, its kind is the check's own
/// verdict, inverted exactly when the modifier set holds a `not`, and its
/// label is the first `as` argument when one is present, else the check's
/// default label phrased for that same negation flag.
pub proof fn lemma_task_result_shape<P: SystemProbe>(
    task: RukiniaAllTasks,
    args: Seq<Seq<char>>,
    ms: Seq<SyntaxModel>,
    probe: &P,
    e: EntryModel,
)
    requires
        task_result_spec(task, args, ms, probe) == Ok::<EntryModel, Seq<char>>(e),
    ensures
        e.result_type == negate_if(mods_contain_not(ms), raw_verdict_spec(task, args, probe)),
        e.label == label_or_as(ms, default_label_spec(task, args, mods_contain_not(ms))),
{
}

/// A line with no parentheses whose tokens read as one single check with no
/// operator chain evaluates to exactly that check's result entry: the
/// evaluator neither changes the kind nor rewrites the label.
pub proof fn lemma_single_check_line<P: SystemProbe>(
    s: Seq<char>,
    probe: &P,
    depth: nat,
    e: EntryModel,
)
    requires
        paren_span(s) is None,
        read_task_spec(tokenize_spec(s), probe) == Ok::<_, Seq<char>>(
            (e, Seq::<Seq<char>>::empty()),
        ),
    ensures
        eval_line_spec(s, probe, depth) == Ok::<EntryModel, Seq<char>>(e),
{
}

/// `A and B`: the line's kind is success exactly when both operands are
/// successes, and its label is A's label, the word `and`, B's label.
pub proof fn lemma_and_combination<P: SystemProbe>(
    ts: Seq<Seq<char>>,
    probe: &P,
    a: EntryModel,
    rest: Seq<Seq<char>>,
    b: EntryModel,
)
    requires
        read_task_spec(ts, probe) == Ok::<_, Seq<char>>((a, rest)),
        rest.len() > 0 && rest[0] == "and"@,
        read_task_spec(rest.subrange(1, rest.len() as int), probe) == Ok::<_, Seq<char>>(
            (b, Seq::<Seq<char>>::empty()),
        ),
    ensures
        eval_tokens_spec(ts, probe) matches Ok(e) && (e.result_type
            == RukiniaResultType::TestSuccess <==> (a.result_type
            == RukiniaResultType::TestSuccess && b.result_type
            == RukiniaResultType::TestSuccess)) && e.label == a.label + " and "@ + b.label,
{
    assert(operator_of(rest[0]) == Some(crate::operator::LogicalOperator::And));
    let c = crate::run_tasks::combine_spec(a, crate::operator::LogicalOperator::And, b);
    assert(crate::run_tasks::fold_ops_spec(c, Seq::<Seq<char>>::empty(), probe)
        == Ok::<EntryModel, Seq<char>>(c));
    assert(eval_tokens_spec(ts, probe) == Ok::<EntryModel, Seq<char>>(c));
}

/// `A or B`: the line's kind is a failure exactly when both operands are
/// failures, and its label is A's label, the word `or`, B's label.
pub proof fn lemma_or_combination<P: SystemProbe>(
    ts: Seq<Seq<char>>,
    probe: &P,
    a: EntryModel,
    rest: Seq<Seq<char>>,
    b: EntryModel,
)
    requires
        read_task_spec(ts, probe) == Ok::<_, Seq<char>>((a, rest)),
        rest.len() > 0 && rest[0] == "or"@,
        read_task_spec(rest.subrange(1, rest.len() as int), probe) == Ok::<_, Seq<char>>(
            (b, Seq::<Seq<char>>::empty()),
        ),
    ensures
        eval_tokens_spec(ts, probe) matches Ok(e) && (e.result_type
            == RukiniaResultType::TestFail <==> (a.result_type == RukiniaResultType::TestFail
            && b.result_type == RukiniaResultType::TestFail)) && e.label == a.label + " or "@
            + b.label,
{
    reveal_strlit("and");
    reveal_strlit("or");
    assert(("and"@).len() == 3);
    assert(("or"@).len() == 2);
    assert(operator_of(rest[0]) == Some(crate::operator::LogicalOperator::Or));
    let c = crate::run_tasks::combine_spec(a, crate::operator::LogicalOperator::Or, b);
    assert(crate::run_tasks::fold_ops_spec(c, Seq::<Seq<char>>::empty(), probe)
        == Ok::<EntryModel, Seq<char>>(c));
    assert(eval_tokens_spec(ts, probe) == Ok::<EntryModel, Seq<char>>(c));
}

proof fn lemma_paren_scan_first(s: Seq<char>, i: int, start: Option<int>, balance: int)
    requires
        0 <= i <= s.len(),
        match start {
            Some(st0) => 0 <= st0 < i && s[st0] == '(' && forall|k: int|
                0 <= k < st0 ==> s[k] != '(',
            None => forall|k: int| 0 <= k < i ==> s[k] != '(',
        },
    ensures
        paren_scan(s, i, start, balance) matches Some((st, en)) ==> s[st] == '(' && s[en] == ')'
            && (forall|k: int| 0 <= k < st ==> s[k] != '('),
    decreases s.len() - i,
{
    if i < s.len() {
        if s[i] == '(' {
            lemma_paren_scan_first(
                s,
                i + 1,
                if start is Some {
                    start
                } else {
                    Some(i)
                },
                balance + 1,
            );
        } else if s[i] == ')' {
            if !(balance - 1 == 0 && start is Some) {
                lemma_paren_scan_first(s, i + 1, start, balance - 1);
            }
        } else {
            lemma_paren_scan_first(s, i + 1, start, balance);
        }
    }
}

/// Parenthesis resolution picks the first outermost balanced pair: a
/// resolved span opens at the line's first `(` and closes at a matching `)`
/// further right, strictly inside the line.
pub proof fn lemma_paren_span_first_outermost(s: Seq<char>)
    ensures
        paren_span(s) matches Some((st, en)) ==> 0 <= st < en < s.len() && s[st] == '(' && s[en]
            == ')' && (forall|k: int| 0 <= k < st ==> s[k] != '('),
{
    lemma_paren_scan_first(s, 0, None, 0);
    crate::run_tasks::lemma_paren_span_bounds(s);
}

/// A line in which no balanced parenthesis span completes — unbalanced or
/// absent parentheses alike — is evaluated as its flat tokens; the resolver
/// itself never reports an error.
pub proof fn lemma_unbalanced_is_flat<P: SystemProbe>(s: Seq<char>, probe: &P, depth: nat)
    requires
        paren_span(s) is None,
    ensures
        eval_line_spec(s, probe, depth) == eval_tokens_spec(tokenize_spec(s), probe),
{
}

/// An `as` argument overrides the default label whatever the verdict is.
pub proof fn lemma_as_label_override<P: SystemProbe>(
    task: RukiniaAllTasks,
    args: Seq<Seq<char>>,
    ms: Seq<SyntaxModel>,
    probe: &P,
    e: EntryModel,
    a: Seq<char>,
)
    requires
        task_result_spec(task, args, ms, probe) == Ok::<EntryModel, Seq<char>>(e),
        first_as_from(ms, 0) == Some(a),
    ensures
        e.label == a,
{
    lemma_task_result_shape(task, args, ms, probe, e);
}

/// A modifier stream that ends right after `as` is a terminal error naming
/// the missing argument, never a crash or a silent pass.
pub proof fn lemma_dangling_as_is_error(ts: Seq<Seq<char>>, i: int)
    requires
        0 <= i < ts.len(),
        ts[ts.len() - 1] == "as"@,
        forall|k: int| i <= k < ts.len() - 1 ==> ts[k] == "not"@,
    ensures
        extract_spec(ts, i) == Err::<(Seq<SyntaxModel>, Seq<Seq<char>>), _>(
            format_message_spec(
                "AS label error"@,
                "Missing argument for AS"@,
                "No argument found"@,
            ),
        ),
    decreases ts.len() - i,
{
    lemma_modifier_keywords();
    if i < ts.len() - 1 {
        lemma_dangling_as_is_error(ts, i + 1);
    }
}

/// The three modifier keywords are pairwise distinct words, name no check
/// and name no operator.
pub proof fn lemma_modifier_keywords()
    ensures
        task_of("not"@) is None,
        task_of("as"@) is None,
        task_of("id"@) is None,
        operator_of("not"@) is None,
        operator_of("as"@) is None,
        operator_of("id"@) is None,
        "not"@ != "as"@ && "not"@ != "id"@ && "as"@ != "id"@,
{
    broadcast use vstd::string::group_string_axioms;

    reveal_strlit("not");
    reveal_strlit("as");
    reveal_strlit("id");
    reveal_strlit("and");
    reveal_strlit("or");
    reveal_strlit("true");
    reveal_strlit("false");
    reveal_strlit("rukinia_netif_is_up");
    reveal_strlit("rukinia_kconf");
    reveal_strlit("rukinia_netif_has_ip");
    reveal_strlit("rukinia_http_request");
    reveal_strlit("rukinia_user");
    reveal_strlit("rukinia_group");
    reveal_strlit("rukinia_user_memberof");
    reveal_strlit("rukinia_kmod");
    reveal_strlit("rukinia_kthread");
    reveal_strlit("rukinia_symlink");
    reveal_strlit("rukinia_cmd");
    assert(("not"@).len() == 3);
    assert(("as"@).len() == 2);
    assert(("id"@).len() == 2);
    assert(("and"@).len() == 3);
    assert(("or"@).len() == 2);
    assert(("true"@).len() == 4);
    assert(("false"@).len() == 5);
    assert(("rukinia_netif_is_up"@).len() == 19);
    assert(("rukinia_kconf"@).len() == 13);
    assert(("rukinia_netif_has_ip"@).len() == 20);
    assert(("rukinia_http_request"@).len() == 20);
    assert(("rukinia_user"@).len() == 12);
    assert(("rukinia_group"@).len() == 13);
    assert(("rukinia_user_memberof"@).len() == 21);
    assert(("rukinia_kmod"@).len() == 12);
    assert(("rukinia_kthread"@).len() == 15);
    assert(("rukinia_symlink"@).len() == 15);
    assert(("rukinia_cmd"@).len() == 11);
    assert(("not"@)[0] == 'n');
    assert(("and"@)[0] == 'a');
    assert(("as"@)[0] == 'a');
    assert(("id"@)[0] == 'i');
    assert(("or"@)[0] == 'o');
}

proof fn lemma_extract_tail(ts1: Seq<Seq<char>>, i1: int, ts2: Seq<Seq<char>>, i2: int)
    requires
        0 <= i1 <= ts1.len(),
        0 <= i2 <= ts2.len(),
        ts1.subrange(i1, ts1.len() as int) == ts2.subrange(i2, ts2.len() as int),
    ensures
        extract_spec(ts1, i1) == extract_spec(ts2, i2),
    decreases ts1.len() - i1,
{
    assert(ts1.subrange(i1, ts1.len() as int).len() == ts2.subrange(i2, ts2.len() as int).len());
    assert(ts1.subrange(i1, ts1.len() as int).len() == ts1.len() - i1);
    assert(ts2.subrange(i2, ts2.len() as int).len() == ts2.len() - i2);
    assert(ts1.len() - i1 == ts2.len() - i2);
    if i1 < ts1.len() {
        assert(i2 < ts2.len());
        assert(ts1[i1] == ts1.subrange(i1, ts1.len() as int)[0]);
        assert(ts2[i2] == ts2.subrange(i2, ts2.len() as int)[0]);
        if ts1[i1] == "not"@ {
            assert forall|k: int| #![trigger ts1.subrange(i1 + 1, ts1.len() as int)[k]] 0 <= k
                < ts1.len() - (i1 + 1) implies ts1.subrange(
                i1 + 1,
                ts1.len() as int,
            )[k] == ts2.subrange(i2 + 1, ts2.len() as int)[k] by {
                assert(ts1.subrange(i1, ts1.len() as int)[k + 1] == ts1[i1 + 1 + k]);
                assert(ts2.subrange(i2, ts2.len() as int)[k + 1] == ts2[i2 + 1 + k]);
            }
            assert(ts1.subrange(i1 + 1, ts1.len() as int) =~= ts2.subrange(
                i2 + 1,
                ts2.len() as int,
            ));
            lemma_extract_tail(ts1, i1 + 1, ts2, i2 + 1);
        } else if ts1[i1] == "as"@ || ts1[i1] == "id"@ {
            if i1 + 1 < ts1.len() {
                assert(ts1[i1 + 1] == ts1.subrange(i1, ts1.len() as int)[1]);
                assert(ts2[i2 + 1] == ts2.subrange(i2, ts2.len() as int)[1]);
                assert forall|k: int| #![trigger ts1.subrange(i1 + 2, ts1.len() as int)[k]] 0
                    <= k < ts1.len() - (i1 + 2) implies ts1.subrange(
                    i1 + 2,
                    ts1.len() as int,
                )[k] == ts2.subrange(i2 + 2, ts2.len() as int)[k] by {
                    assert(ts1.subrange(i1, ts1.len() as int)[k + 2] == ts1[i1 + 2 + k]);
                    assert(ts2.subrange(i2, ts2.len() as int)[k + 2] == ts2[i2 + 2 + k]);
                }
                assert(ts1.subrange(i1 + 2, ts1.len() as int) =~= ts2.subrange(
                    i2 + 2,
                    ts2.len() as int,
                ));
                lemma_extract_tail(ts1, i1 + 2, ts2, i2 + 2);
            }
        } else {
            assert(extract_spec(ts1, i1) == Ok::<_, Seq<char>>(
                (Seq::<SyntaxModel>::empty(), ts1.subrange(i1, ts1.len() as int)),
            ));
            assert(extract_spec(ts2, i2) == Ok::<_, Seq<char>>(
                (Seq::<SyntaxModel>::empty(), ts2.subrange(i2, ts2.len() as int)),
            ));
        }
    }
}

proof fn lemma_first_as_tail(ms1: Seq<SyntaxModel>, i1: int, ms2: Seq<SyntaxModel>, i2: int)
    requires
        0 <= i1 <= ms1.len(),
        0 <= i2 <= ms2.len(),
        ms1.subrange(i1, ms1.len() as int) == ms2.subrange(i2, ms2.len() as int),
    ensures
        first_as_from(ms1, i1) == first_as_from(ms2, i2),
    decreases ms1.len() - i1,
{
    assert(ms1.subrange(i1, ms1.len() as int).len() == ms2.subrange(i2, ms2.len() as int).len());
    assert(ms1.subrange(i1, ms1.len() as int).len() == ms1.len() - i1);
    assert(ms2.subrange(i2, ms2.len() as int).len() == ms2.len() - i2);
    assert(ms1.len() - i1 == ms2.len() - i2);
    if i1 < ms1.len() {
        assert(i2 < ms2.len());
        assert(ms1[i1] == ms1.subrange(i1, ms1.len() as int)[0]);
        assert(ms2[i2] == ms2.subrange(i2, ms2.len() as int)[0]);
        if !(ms1[i1] is As) {
            assert forall|k: int| #![trigger ms1.subrange(i1 + 1, ms1.len() as int)[k]] 0 <= k
                < ms1.len() - (i1 + 1) implies ms1.subrange(
                i1 + 1,
                ms1.len() as int,
            )[k] == ms2.subrange(i2 + 1, ms2.len() as int)[k] by {
                assert(ms1.subrange(i1, ms1.len() as int)[k + 1] == ms1[i1 + 1 + k]);
                assert(ms2.subrange(i2, ms2.len() as int)[k + 1] == ms2[i2 + 1 + k]);
            }
            assert(ms1.subrange(i1 + 1, ms1.len() as int) =~= ms2.subrange(
                i2 + 1,
                ms2.len() as int,
            ));
            lemma_first_as_tail(ms1, i1 + 1, ms2, i2 + 1);
        }
    }
}

/// A check's result depends on the modifier set only through its two
/// queries: whether it holds a `not`, and the first `as` argument.
pub proof fn lemma_task_result_mods_agnostic<P: SystemProbe>(
    task: RukiniaAllTasks,
    args: Seq<Seq<char>>,
    ms1: Seq<SyntaxModel>,
    ms2: Seq<SyntaxModel>,
    probe: &P,
)
    requires
        mods_contain_not(ms1) == mods_contain_not(ms2),
        first_as_from(ms1, 0) == first_as_from(ms2, 0),
    ensures
        task_result_spec(task, args, ms1, probe) == task_result_spec(task, args, ms2, probe),
{
    assert(label_or_as(ms1, default_label_spec(task, args, mods_contain_not(ms1))) == label_or_as(
        ms2,
        default_label_spec(task, args, mods_contain_not(ms2)),
    ));
    match task {
        RukiniaAllTasks::NetworkIsUp => {
        },
        RukiniaAllTasks::NetifHasIp => {
        },
        RukiniaAllTasks::HttpReq => {
        },
        RukiniaAllTasks::User => {
        },
        RukiniaAllTasks::Group => {
        },
        RukiniaAllTasks::UserMemberOf => {
        },
        RukiniaAllTasks::KernelMod => {
        },
        RukiniaAllTasks::KernelThread => {
        },
        RukiniaAllTasks::KernelConf => {
        },
        RukiniaAllTasks::Symlink => {
        },
        RukiniaAllTasks::Cmd => {
        },
        RukiniaAllTasks::True => {
        },
        RukiniaAllTasks::False => {
        },
    }
}

/// Stacking a second `not` in front of an operand changes nothing: negation
/// through the modifier set is idempotent.  The doubly-negated stream yields
/// a result exactly when the singly-negated one does, and equal results
/// agree in both kind and label.
#[verifier::rlimit(100)]
pub proof fn lemma_double_negation_idempotent<P: SystemProbe>(ts: Seq<Seq<char>>, probe: &P)
    ensures
        ({
            let once = eval_tokens_spec(seq!["not"@] + ts, probe);
            let twice = eval_tokens_spec(seq!["not"@, "not"@] + ts, probe);
            &&& (once is Ok <==> twice is Ok)
            &&& (once matches Ok(a) ==> (twice matches Ok(b) ==> a == b))
        }),
{
    lemma_modifier_keywords();
    let t1 = seq!["not"@] + ts;
    let t2 = seq!["not"@, "not"@] + ts;
    assert(t1[0] == "not"@);
    assert(t2[0] == "not"@);
    assert(t2[1] == "not"@);
    assert(t1.subrange(1, t1.len() as int) =~= t2.subrange(2, t2.len() as int));
    lemma_extract_tail(t1, 1, t2, 2);
    match extract_spec(t1, 1) {
        Err(e) => {
            assert(extract_spec(t1, 0) == Err::<(Seq<SyntaxModel>, Seq<Seq<char>>), _>(e));
            assert(extract_spec(t2, 0) == Err::<(Seq<SyntaxModel>, Seq<Seq<char>>), _>(e));
            assert(read_task_spec(t1, probe) == Err::<(EntryModel, Seq<Seq<char>>), _>(e));
            assert(read_task_spec(t2, probe) == Err::<(EntryModel, Seq<Seq<char>>), _>(e));
            assert(eval_tokens_spec(t1, probe) == eval_tokens_spec(t2, probe));
        },
        Ok((m, rest)) => {
            let m1 = seq![SyntaxModel::Not] + m;
            let m2 = seq![SyntaxModel::Not] + (seq![SyntaxModel::Not] + m);
            assert(extract_spec(t1, 0) == Ok::<_, Seq<char>>((m1, rest)));
            assert(extract_spec(t2, 1) == Ok::<_, Seq<char>>((m1, rest)));
            assert(extract_spec(t2, 0) == Ok::<_, Seq<char>>((m2, rest)));
            assert(m1[0] is Not);
            assert(m2[0] is Not);
            assert(m2[1] is Not);
            assert(mods_contain_not(m1));
            assert(mods_contain_not(m2));
            assert(m.subrange(0, m.len() as int) =~= m);
            assert(m1.subrange(1, m1.len() as int) =~= m.subrange(0, m.len() as int));
            assert(m2.subrange(2, m2.len() as int) =~= m.subrange(0, m.len() as int));
            lemma_first_as_tail(m1, 1, m, 0);
            lemma_first_as_tail(m2, 2, m, 0);
            assert(first_as_from(m1, 0) == first_as_from(m1, 1));
            assert(first_as_from(m2, 0) == first_as_from(m2, 1));
            assert(first_as_from(m2, 1) == first_as_from(m2, 2));
            assert(first_as_from(m1, 0) == first_as_from(m, 0));
            assert(first_as_from(m2, 0) == first_as_from(m, 0));
            if rest.len() == 0 {
                assert(read_task_spec(t1, probe) == Err::<(EntryModel, Seq<Seq<char>>), _>(
                    crate::run_tasks::no_task_error(t1),
                ));
                assert(read_task_spec(t2, probe) == Err::<(EntryModel, Seq<Seq<char>>), _>(
                    crate::run_tasks::no_task_error(t2),
                ));
                assert(eval_tokens_spec(t1, probe) is Err);
                assert(eval_tokens_spec(t2, probe) is Err);
            } else if task_of(rest[0]) is Some {
                let k = crate::run_tasks::first_op_index(rest, 1);
                lemma_task_result_mods_agnostic(
                    task_of(rest[0])->Some_0,
                    rest.subrange(1, k),
                    m1,
                    m2,
                    probe,
                );
                assert(crate::run_tasks::dispatch_spec(rest, m1, probe)
                    == crate::run_tasks::dispatch_spec(rest, m2, probe));
                assert(read_task_spec(t1, probe) == crate::run_tasks::dispatch_spec(
                    rest,
                    m1,
                    probe,
                ));
                assert(read_task_spec(t2, probe) == crate::run_tasks::dispatch_spec(
                    rest,
                    m2,
                    probe,
                ));
                assert(read_task_spec(t1, probe) == read_task_spec(t2, probe));
                assert(eval_tokens_spec(t1, probe) == eval_tokens_spec(t2, probe));
            } else {
                assert(read_task_spec(t1, probe) == Err::<(EntryModel, Seq<Seq<char>>), _>(
                    crate::run_tasks::invalid_task_error(rest[0]),
                ));
                assert(read_task_spec(t2, probe) == Err::<(EntryModel, Seq<Seq<char>>), _>(
                    crate::run_tasks::invalid_task_error(rest[0]),
                ));
                assert(eval_tokens_spec(t1, probe) == eval_tokens_spec(t2, probe));
            }
        },
    }
}

/// A check invocation that lacks its one mandatory argument is a terminal
/// error citing the missing argument; the user check is the canonical case.
pub proof fn lemma_user_missing_argument<P: SystemProbe>(ms: Seq<SyntaxModel>, probe: &P)
    ensures
        crate::tasks::rukinia_user::user_result_spec(
            Seq::empty(),
            ms,
            probe.passwd_model(),
        ) == Err::<EntryModel, _>(
            format_message_spec(
                command_context("rukinia_user"@, Seq::empty()),
                "Missing username argument"@,
                "No username provided"@,
            ),
        ),
{
}

} // verus!
