//! The check that a kernel thread with a given name is running.

use vstd::prelude::*;
use crate::probe::SystemProbe;
use crate::rukinia_result::EntryModel;
use crate::rukinia_result::RukiniaError;
use crate::rukinia_result::RukiniaResultEntry;
use crate::rukinia_result::RukiniaResultType;
use crate::rukinia_result::format_message_spec;
use crate::strutil::lines_of;
use crate::strutil::lines_spec;
use crate::strutil::prefix_of;
use crate::strutil::split_blank;
use crate::strutil::starts_with;
use crate::strutil::string_eq;
use crate::strutil::trim_quotes;
use crate::strutil::trim_quotes_spec;
use crate::strutil::views_of;
use crate::strutil::ws_tokens_spec;
use crate::syntax::SyntaxForTrait;
use crate::syntax::SyntaxModel;
use crate::syntax::mods_contain_not;
use crate::tasks::task::RukiniaProcess;
use crate::tasks::task::applied_entry;
use crate::tasks::task::apply_syntax_entry;
use crate::tasks::task::command_context;
use crate::tasks::task::not_prefix;
use crate::tasks::task::task_error;

verus! {

pub struct RukiniaKernelThread {
    pub arguments: Vec<String>,
    pub syntax: SyntaxForTrait,
    pub result: RukiniaResultEntry,
}

impl View for RukiniaKernelThread {
    type V = EntryModel;

    open spec fn view(&self) -> EntryModel {
        self.result@
    }
}

/// One pass over a status file's lines: a `Name:` line whose second word is
/// the process name marks a hit, and any `VmSize:` line ends the file as a
/// user-space process, whatever came before it.
pub open spec fn kthread_scan(
    lines: Seq<Seq<char>>,
    i: int,
    acc: bool,
    pname: Seq<char>,
) -> bool
    decreases lines.len() - i when 0 <= i
{
    if i >= lines.len() {
        acc
    } else if prefix_of("VmSize:"@, lines[i]) {
        false
    } else if prefix_of("Name:\t"@, lines[i]) && ws_tokens_spec(lines[i]).len() > 1
        && ws_tokens_spec(lines[i])[1] == pname {
        kthread_scan(lines, i + 1, true, pname)
    } else {
        kthread_scan(lines, i + 1, acc, pname)
    }
}

/// Whether one process status file names a running kernel thread `pname`.
pub open spec fn kthread_file_verdict(status: Seq<char>, pname: Seq<char>) -> bool {
    kthread_scan(lines_spec(status), 0, false, pname)
}

/// Whether any observed process is the kernel thread `pname`.
pub open spec fn kthread_overall(statuses: Seq<Seq<char>>, pname: Seq<char>) -> bool {
    exists|i: int| 0 <= i < statuses.len() && kthread_file_verdict(statuses[i], pname)
}

/// The default label: `Checking kernel thread <name> is [not ]running`.
pub open spec fn kthread_label(args: Seq<Seq<char>>, not: bool) -> Seq<char> {
    "Checking kernel thread "@ + args[0] + " is "@ + not_prefix(not) + "running"@
}

/// What the kernel-thread check returns for given arguments, modifiers and
/// the observed status files (or the directory read error).
pub open spec fn kthread_result_spec(
    args: Seq<Seq<char>>,
    ms: Seq<SyntaxModel>,
    statuses: Result<Seq<Seq<char>>, Seq<char>>,
) -> Result<EntryModel, Seq<char>> {
    if args.len() == 0 {
        Err(
            format_message_spec(
                command_context("rukinia_kthread"@, args),
                "Missing process name argument"@,
                "No process name provided"@,
            ),
        )
    } else {
        match statuses {
            Err(e) => Err(
                format_message_spec(
                    command_context("rukinia_kthread"@, args),
                    e,
                    "Failed to read /proc/modules"@,
                ),
            ),
            Ok(files) => Ok(
                applied_entry(
                    ms,
                    if kthread_overall(files, trim_quotes_spec(args[0])) {
                        RukiniaResultType::TestSuccess
                    } else {
                        RukiniaResultType::TestFail
                    },
                    kthread_label(args, mods_contain_not(ms)),
                ),
            ),
        }
    }
}

/// Scan one status file for the named kernel thread.
fn kthread_scan_file(status: &str, pname: &str) -> (r: bool)
    ensures
        r == kthread_file_verdict(status@, pname@),
{
    let lines = lines_of(status);
    let mut acc = false;
    let mut i: usize = 0;
    while i < lines.len()
        invariant
            i <= lines@.len(),
            views_of(lines@) == lines_spec(status@),
            kthread_file_verdict(status@, pname@) == kthread_scan(
                lines_spec(status@),
                i as int,
                acc,
                pname@,
            ),
        decreases lines@.len() - i,
    {
        proof {
            assert(lines_spec(status@)[i as int] == lines@[i as int]@);
        }
        let line = lines[i].as_str();
        if starts_with(line, "VmSize:") {
            return false;
        }
        if starts_with(line, "Name:\t") {
            let words = split_blank(line);
            if words.len() > 1 && string_eq(words[1].as_str(), pname) {
                proof {
                    assert(views_of(words@)[1] == words@[1]@);
                }
                acc = true;
            } else {
                proof {
                    if views_of(words@).len() > 1 {
                        assert(views_of(words@)[1] == words@[1]@);
                    }
                }
            }
        }
        i += 1;
    }
    acc
}

/// Scan every observed status file for the named kernel thread.
fn kthread_lookup(statuses: &Vec<String>, pname: &str) -> (r: bool)
    ensures
        r == kthread_overall(views_of(statuses@), pname@),
{
    let mut i: usize = 0;
    while i < statuses.len()
        invariant
            i <= statuses@.len(),
            forall|k: int|
                0 <= k < i ==> !kthread_file_verdict(views_of(statuses@)[k], pname@),
        decreases statuses@.len() - i,
    {
        proof {
            assert(views_of(statuses@)[i as int] == statuses@[i as int]@);
        }
        if kthread_scan_file(statuses[i].as_str(), pname) {
            return true;
        }
        i += 1;
    }
    false
}

impl RukiniaKernelThread {
    /// Walk the observed process status files for one whose `Name:` matches
    /// the (quote-trimmed) first argument and which lacks a `VmSize:` line.
    pub fn new<P: SystemProbe>(
        arguments: Vec<String>,
        syntax: SyntaxForTrait,
        probe: &P,
    ) -> (r: Result<Self, RukiniaError>)
        ensures
            match r {
                Ok(t) => kthread_result_spec(
                    views_of(arguments@),
                    syntax@,
                    probe.process_statuses_model(),
                ) == Ok::<_, Seq<char>>(t@) && views_of(t.arguments@) == views_of(arguments@)
                    && t.syntax@ == syntax@,
                Err(e) => kthread_result_spec(
                    views_of(arguments@),
                    syntax@,
                    probe.process_statuses_model(),
                ) == Err::<EntryModel, _>(e@),
            },
    {
        if arguments.len() == 0 {
            return Err(
                task_error(
                    "rukinia_kthread",
                    &arguments,
                    "Missing process name argument",
                    String::from_str("No process name provided"),
                ),
            );
        }
        match probe.read_process_statuses() {
            Err(e) => Err(
                RukiniaError::new(
                    String::from_str("rukinia_kthread").concat(" ").concat(
                        crate::strutil::join_spaces(&arguments).as_str(),
                    ),
                    e,
                    String::from_str("Failed to read /proc/modules"),
                ),
            ),
            Ok(files) => {
                let found = kthread_lookup(&files, trim_quotes(arguments[0].as_str()));
                let raw = if found {
                    RukiniaResultType::TestSuccess
                } else {
                    RukiniaResultType::TestFail
                };
                proof {
                    assert(views_of(arguments@)[0] == arguments@[0]@);
                }
                let label = Self::build_label(&arguments, &syntax);
                let result = apply_syntax_entry(raw, &syntax, label);
                Ok(RukiniaKernelThread { arguments, syntax, result })
            },
        }
    }

    fn build_label(arguments: &Vec<String>, syntax: &SyntaxForTrait) -> (r: String)
        requires
            arguments@.len() >= 1,
        ensures
            r@ == kthread_label(views_of(arguments@), mods_contain_not(syntax@)),
    {
        let mut s = String::from_str("Checking kernel thread ");
        s.append(arguments[0].as_str());
        s.append(" is ");
        if syntax.contains_not() {
            s.append("not ");
        }
        s.append("running");
        proof {
            assert(views_of(arguments@)[0] == arguments@[0]@);
            assert(s@ =~= kthread_label(views_of(arguments@), mods_contain_not(syntax@)));
        }
        s
    }
}

impl RukiniaProcess for RukiniaKernelThread {
    open spec fn result_model(&self) -> EntryModel {
        self.result@
    }

    open spec fn syntax_model(&self) -> Seq<SyntaxModel> {
        self.syntax@
    }

    open spec fn default_label_model(&self) -> Seq<char> {
        kthread_label(views_of(self.arguments@), mods_contain_not(self.syntax@))
    }

    open spec fn wf(&self) -> bool {
        self.arguments@.len() >= 1
    }

    fn get_rukinia_command() -> (r: &'static str)
        ensures
            r@ == "rukinia_kthread"@,
    {
        "rukinia_kthread"
    }

    fn get_result(&self) -> (r: RukiniaResultEntry)
        ensures
            r@ == self@,
    {
        self.result.duplicate()
    }

    fn set_result(&mut self, result: RukiniaResultEntry)
        ensures
            final(self)@ == result@,
            final(self).arguments@ == old(self).arguments@,
            final(self).syntax@ == old(self).syntax@,
    {
        self.result = result;
    }

    fn display_format(&self) -> (r: String)
        ensures
            r@ == kthread_label(views_of(self.arguments@), mods_contain_not(self.syntax@)),
    {
        Self::build_label(&self.arguments, &self.syntax)
    }

    fn get_syntax(&self) -> (r: SyntaxForTrait)
        ensures
            r@ == self.syntax@,
    {
        self.syntax.duplicate()
    }
}

} // verus!
