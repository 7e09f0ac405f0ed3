//! The task trait shared by every check, the modifier-application step, and
//! the dispatch enum naming all available checks.

use vstd::prelude::*;
use crate::rukinia_result::EntryModel;
use crate::rukinia_result::RukiniaError;
use crate::rukinia_result::RukiniaResultEntry;
use crate::rukinia_result::RukiniaResultType;
use crate::rukinia_result::format_message_spec;
use crate::strutil::join_spaces;
use crate::strutil::join_spaces_spec;
use crate::strutil::string_eq;
use crate::strutil::views_of;
use crate::syntax::SyntaxForTrait;
use crate::syntax::SyntaxModel;
use crate::syntax::first_as_from;
use crate::syntax::mods_contain_not;

verus! {

/// The verdict after an optional `not` modifier.
pub open spec fn negate_if(not: bool, t: RukiniaResultType) -> RukiniaResultType {
    if not {
        match t {
            RukiniaResultType::TestSuccess => RukiniaResultType::TestFail,
            RukiniaResultType::TestFail => RukiniaResultType::TestSuccess,
        }
    } else {
        t
    }
}

/// The words a default label inserts under a `not` modifier.
pub open spec fn not_prefix(not: bool) -> Seq<char> {
    if not {
        "not "@
    } else {
        Seq::empty()
    }
}

/// The label after modifiers: the first `as` argument when present, else the
/// check's own default label.
pub open spec fn label_or_as(ms: Seq<SyntaxModel>, default_label: Seq<char>) -> Seq<char> {
    match first_as_from(ms, 0) {
        Some(a) => a,
        None => default_label,
    }
}

/// A raw verdict and default label with the whole modifier set applied.
pub open spec fn applied_entry(
    ms: Seq<SyntaxModel>,
    raw: RukiniaResultType,
    default_label: Seq<char>,
) -> EntryModel {
    EntryModel {
        label: label_or_as(ms, default_label),
        result_type: negate_if(mods_contain_not(ms), raw),
    }
}

/// Combine a verdict with the modifier set.
pub fn apply_syntax_entry(
    raw: RukiniaResultType,
    syntax: &SyntaxForTrait,
    default_label: String,
) -> (r: RukiniaResultEntry)
    ensures
        r@ == applied_entry(syntax@, raw, default_label@),
{
    let result_type = if syntax.contains_not() {
        match raw {
            RukiniaResultType::TestSuccess => RukiniaResultType::TestFail,
            RukiniaResultType::TestFail => RukiniaResultType::TestSuccess,
        }
    } else {
        raw
    };
    let label = match syntax.get_as() {
        Some(a) => a,
        None => default_label,
    };
    RukiniaResultEntry { label, result_type }
}

/// The error-context text every check uses: its command word followed by the
/// space-joined arguments.
pub open spec fn command_context(command: Seq<char>, args: Seq<Seq<char>>) -> Seq<char> {
    command + " "@ + join_spaces_spec(args)
}

/// Build the terminal error a check reports: the command context, a short
/// explanation and the underlying message.
pub fn task_error(command: &str, arguments: &Vec<String>, detail: &str, message: String) -> (e:
    RukiniaError)
    ensures
        e@ == format_message_spec(
            command_context(command@, views_of(arguments@)),
            detail@,
            message@,
        ),
{
    RukiniaError::new(
        String::from_str(command).concat(" ").concat(join_spaces(arguments).as_str()),
        String::from_str(detail),
        message,
    )
}

/// What every synchronous check exposes to the engine and to its callers.
pub trait RukiniaProcess: Sized {
    /// The task holds what its own label format needs.
    spec fn wf(&self) -> bool;

    /// The stored result entry, as the contracts see it.
    spec fn result_model(&self) -> EntryModel;

    /// The stored modifier set, as the contracts see it.
    spec fn syntax_model(&self) -> Seq<SyntaxModel>;

    /// The check's own default label for its current state and modifier set:
    /// what `display_format` returns.
    spec fn default_label_model(&self) -> Seq<char>;

    /// The command word that selects this check on a line.
    fn get_rukinia_command() -> &'static str;

    /// The task's current result entry.
    fn get_result(&self) -> (r: RukiniaResultEntry)
        ensures
            r@ == self.result_model(),
    ;

    /// Replace the task's result entry; everything else stays as it was.
    fn set_result(&mut self, result: RukiniaResultEntry)
        ensures
            final(self).result_model() == result@,
            final(self).syntax_model() == old(self).syntax_model(),
            final(self).wf() == old(self).wf(),
    ;

    /// The check's own default label, phrased for the current modifier set.
    fn display_format(&self) -> (r: String)
        requires
            self.wf(),
        ensures
            r@ == self.default_label_model(),
    ;

    /// The modifier set the task was invoked with.
    fn get_syntax(&self) -> (r: SyntaxForTrait)
        ensures
            r@ == self.syntax_model(),
    ;

    /// Invert the kind on `not` and override the label on `as`, as one shared
    /// step after the check's own inspection: afterwards the stored result is
    /// the old verdict and default label with the whole modifier set applied.
    fn apply_syntax(&mut self)
        requires
            old(self).wf(),
        ensures
            final(self).result_model() == applied_entry(
                old(self).syntax_model(),
                old(self).result_model().result_type,
                old(self).default_label_model(),
            ),
            final(self).syntax_model() == old(self).syntax_model(),
            final(self).wf(),
    {
        let mut new_rukinia_result_type: RukiniaResultType = self.get_result().result_type;
        if self.get_syntax().contains_not() {
            match self.get_result().result_type {
                RukiniaResultType::TestSuccess => {
                    new_rukinia_result_type = RukiniaResultType::TestFail;
                },
                RukiniaResultType::TestFail => {
                    new_rukinia_result_type = RukiniaResultType::TestSuccess;
                },
            }
        }
        let label = match self.get_syntax().get_as() {
            Some(a) => a,
            None => self.display_format(),
        };
        self.set_result(RukiniaResultEntry { result_type: new_rukinia_result_type, label });
    }
}

/// Every check the engine can dispatch to.
#[derive(Debug, PartialEq, Eq, Structural, Clone, Copy)]
pub enum RukiniaAllTasks {
    NetworkIsUp,
    NetifHasIp,
    HttpReq,
    User,
    Group,
    UserMemberOf,
    KernelMod,
    KernelThread,
    KernelConf,
    Symlink,
    Cmd,
    True,
    False,
}

/// The check a command token names, if any.  The order mirrors recognition
/// order; the command words are pairwise distinct.
pub open spec fn task_of(t: Seq<char>) -> Option<RukiniaAllTasks> {
    if t == "rukinia_netif_is_up"@ {
        Some(RukiniaAllTasks::NetworkIsUp)
    } else if t == "rukinia_kconf"@ {
        Some(RukiniaAllTasks::KernelConf)
    } else if t == "rukinia_netif_has_ip"@ {
        Some(RukiniaAllTasks::NetifHasIp)
    } else if t == "rukinia_http_request"@ {
        Some(RukiniaAllTasks::HttpReq)
    } else if t == "rukinia_user"@ {
        Some(RukiniaAllTasks::User)
    } else if t == "rukinia_group"@ {
        Some(RukiniaAllTasks::Group)
    } else if t == "rukinia_user_memberof"@ {
        Some(RukiniaAllTasks::UserMemberOf)
    } else if t == "rukinia_kmod"@ {
        Some(RukiniaAllTasks::KernelMod)
    } else if t == "rukinia_kthread"@ {
        Some(RukiniaAllTasks::KernelThread)
    } else if t == "rukinia_symlink"@ {
        Some(RukiniaAllTasks::Symlink)
    } else if t == "true"@ {
        Some(RukiniaAllTasks::True)
    } else if t == "false"@ {
        Some(RukiniaAllTasks::False)
    } else if t == "rukinia_cmd"@ {
        Some(RukiniaAllTasks::Cmd)
    } else {
        None
    }
}

impl RukiniaAllTasks {
    /// Recognize a command token.
    pub fn from_str(s: &str) -> (r: Result<RukiniaAllTasks, ()>)
        ensures
            match r {
                Ok(t) => task_of(s@) == Some(t),
                Err(_) => task_of(s@) is None,
            },
    {
        if string_eq(s, "rukinia_netif_is_up") {
            Ok(RukiniaAllTasks::NetworkIsUp)
        } else if string_eq(s, "rukinia_kconf") {
            Ok(RukiniaAllTasks::KernelConf)
        } else if string_eq(s, "rukinia_netif_has_ip") {
            Ok(RukiniaAllTasks::NetifHasIp)
        } else if string_eq(s, "rukinia_http_request") {
            Ok(RukiniaAllTasks::HttpReq)
        } else if string_eq(s, "rukinia_user") {
            Ok(RukiniaAllTasks::User)
        } else if string_eq(s, "rukinia_group") {
            Ok(RukiniaAllTasks::Group)
        } else if string_eq(s, "rukinia_user_memberof") {
            Ok(RukiniaAllTasks::UserMemberOf)
        } else if string_eq(s, "rukinia_kmod") {
            Ok(RukiniaAllTasks::KernelMod)
        } else if string_eq(s, "rukinia_kthread") {
            Ok(RukiniaAllTasks::KernelThread)
        } else if string_eq(s, "rukinia_symlink") {
            Ok(RukiniaAllTasks::Symlink)
        } else if string_eq(s, "true") {
            Ok(RukiniaAllTasks::True)
        } else if string_eq(s, "false") {
            Ok(RukiniaAllTasks::False)
        } else if string_eq(s, "rukinia_cmd") {
            Ok(RukiniaAllTasks::Cmd)
        } else {
            Err(())
        }
    }
}

/// What dispatching one check returns: the per-check result specs, selected
/// by task, over the probe's observation models.
pub open spec fn task_result_spec<P: crate::probe::SystemProbe>(
    task: RukiniaAllTasks,
    args: Seq<Seq<char>>,
    ms: Seq<SyntaxModel>,
    probe: &P,
) -> Result<EntryModel, Seq<char>> {
    match task {
        RukiniaAllTasks::NetworkIsUp => crate::tasks::rukinia_network_is_up::netup_result_spec(
            args,
            ms,
            probe.operstate_model(crate::strutil::trim_quotes_spec(args[0])),
        ),
        RukiniaAllTasks::NetifHasIp => crate::tasks::rukinia_netif_has_ip::netif_result_spec(
            args,
            ms,
            probe.ifaddrs_model(),
        ),
        RukiniaAllTasks::HttpReq => crate::tasks::rukinia_http_request::http_result_spec(
            args,
            ms,
            probe.http_model(crate::strutil::trim_quotes_spec(args[0])),
        ),
        RukiniaAllTasks::User => crate::tasks::rukinia_user::user_result_spec(
            args,
            ms,
            probe.passwd_model(),
        ),
        RukiniaAllTasks::Group => crate::tasks::rukinia_group::group_result_spec(
            args,
            ms,
            probe.group_file_model(),
        ),
        RukiniaAllTasks::UserMemberOf => crate::tasks::rukinia_user_memberof::memberof_result_spec(
            args,
            ms,
            probe,
        ),
        RukiniaAllTasks::KernelMod => crate::tasks::kernel::rukinia_kmod::kmod_result_spec(
            args,
            ms,
            probe.modules_model(),
        ),
        RukiniaAllTasks::KernelThread => crate::tasks::rukinia_kthread::kthread_result_spec(
            args,
            ms,
            probe.process_statuses_model(),
        ),
        RukiniaAllTasks::KernelConf => crate::tasks::kernel::rukinia_kconf::kconf_result_spec(
            args,
            ms,
            probe.kernel_config_model(),
        ),
        RukiniaAllTasks::Symlink => crate::tasks::rukinia_symlink::symlink_result_spec(
            args,
            ms,
            probe,
        ),
        RukiniaAllTasks::Cmd => crate::tasks::rukinia_cmd::cmd_result_spec(
            args,
            ms,
            probe.command_model(args),
        ),
        RukiniaAllTasks::True => crate::tasks::rukinia_true::true_result_spec(ms),
        RukiniaAllTasks::False => crate::tasks::rukinia_false::false_result_spec(ms),
    }
}

impl RukiniaAllTasks {
    /// Run the selected check on the given arguments and modifier set,
    /// observing the machine through the probe.
    pub fn execute<P: crate::probe::SystemProbe>(
        self,
        arguments: Vec<String>,
        syntax: SyntaxForTrait,
        probe: &P,
    ) -> (r: Result<RukiniaResultEntry, RukiniaError>)
        ensures
            crate::rukinia_result::eval_view(r) == task_result_spec(
                self,
                views_of(arguments@),
                syntax@,
                probe,
            ),
    {
        match self {
            RukiniaAllTasks::NetworkIsUp => {
                match crate::tasks::rukinia_network_is_up::RukiniaNetworkIsUp::new(
                    arguments,
                    syntax,
                    probe,
                ) {
                    Ok(rukinia_valid) => Ok(rukinia_valid.get_result()),
                    Err(rukinia_error) => Err(rukinia_error),
                }
            },
            RukiniaAllTasks::NetifHasIp => {
                match crate::tasks::rukinia_netif_has_ip::RukiniaNetifHasIp::new(
                    arguments,
                    syntax,
                    probe,
                ) {
                    Ok(rukinia_valid) => Ok(rukinia_valid.get_result()),
                    Err(rukinia_error) => Err(rukinia_error),
                }
            },
            RukiniaAllTasks::HttpReq => {
                match crate::tasks::rukinia_http_request::RukiniaHttpReq::new(
                    arguments,
                    syntax,
                    probe,
                ) {
                    Ok(rukinia_valid) => Ok(rukinia_valid.get_result()),
                    Err(rukinia_error) => Err(rukinia_error),
                }
            },
            RukiniaAllTasks::User => {
                match crate::tasks::rukinia_user::RukiniaUser::new(arguments, syntax, probe) {
                    Ok(rukinia_valid) => Ok(rukinia_valid.get_result()),
                    Err(rukinia_error) => Err(rukinia_error),
                }
            },
            RukiniaAllTasks::Group => {
                match crate::tasks::rukinia_group::RukiniaGroup::new(arguments, syntax, probe) {
                    Ok(rukinia_valid) => Ok(rukinia_valid.get_result()),
                    Err(rukinia_error) => Err(rukinia_error),
                }
            },
            RukiniaAllTasks::UserMemberOf => {
                match crate::tasks::rukinia_user_memberof::RukiniaUserMemberOf::new(
                    arguments,
                    syntax,
                    probe,
                ) {
                    Ok(rukinia_valid) => Ok(rukinia_valid.get_result()),
                    Err(rukinia_error) => Err(rukinia_error),
                }
            },
            RukiniaAllTasks::KernelMod => {
                match crate::tasks::kernel::rukinia_kmod::RukiniaKernelMod::new(
                    arguments,
                    syntax,
                    probe,
                ) {
                    Ok(rukinia_valid) => Ok(rukinia_valid.get_result()),
                    Err(rukinia_error) => Err(rukinia_error),
                }
            },
            RukiniaAllTasks::KernelThread => {
                match crate::tasks::rukinia_kthread::RukiniaKernelThread::new(
                    arguments,
                    syntax,
                    probe,
                ) {
                    Ok(rukinia_valid) => Ok(rukinia_valid.get_result()),
                    Err(rukinia_error) => Err(rukinia_error),
                }
            },
            RukiniaAllTasks::KernelConf => {
                match crate::tasks::kernel::rukinia_kconf::RukiniaKernelConf::new(
                    arguments,
                    syntax,
                    probe,
                ) {
                    Ok(rukinia_valid) => Ok(rukinia_valid.get_result()),
                    Err(rukinia_error) => Err(rukinia_error),
                }
            },
            RukiniaAllTasks::Symlink => {
                match crate::tasks::rukinia_symlink::RukiniaSymlink::new(arguments, syntax, probe) {
                    Ok(rukinia_valid) => Ok(rukinia_valid.get_result()),
                    Err(rukinia_error) => Err(rukinia_error),
                }
            },
            RukiniaAllTasks::Cmd => {
                match crate::tasks::rukinia_cmd::RukiniaCmd::new(arguments, syntax, probe) {
                    Ok(rukinia_valid) => Ok(rukinia_valid.get_result()),
                    Err(rukinia_error) => Err(rukinia_error),
                }
            },
            RukiniaAllTasks::True => {
                match crate::tasks::rukinia_true::RukiniaTrue::new(arguments, syntax) {
                    Ok(rukinia_valid) => Ok(rukinia_valid.get_result()),
                    Err(rukinia_error) => Err(rukinia_error),
                }
            },
            RukiniaAllTasks::False => {
                match crate::tasks::rukinia_false::RukiniaFalse::new(arguments, syntax) {
                    Ok(rukinia_valid) => Ok(rukinia_valid.get_result()),
                    Err(rukinia_error) => Err(rukinia_error),
                }
            },
        }
    }
}

} // verus!
