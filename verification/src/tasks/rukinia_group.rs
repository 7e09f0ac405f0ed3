//! The check that a group exists in the group database.

use vstd::prelude::*;
use crate::probe::SystemProbe;
use crate::rukinia_result::EntryModel;
use crate::rukinia_result::RukiniaError;
use crate::rukinia_result::RukiniaResultEntry;
use crate::rukinia_result::RukiniaResultType;
use crate::rukinia_result::format_message_spec;
use crate::strutil::any_line_starts_with;
use crate::strutil::has_prefixed_line;
use crate::strutil::trim_quotes;
use crate::strutil::trim_quotes_spec;
use crate::strutil::views_of;
use crate::syntax::SyntaxForTrait;
use crate::syntax::SyntaxModel;
use crate::syntax::mods_contain_not;
use crate::tasks::task::RukiniaProcess;
use crate::tasks::task::applied_entry;
use crate::tasks::task::apply_syntax_entry;
use crate::tasks::task::command_context;
use crate::tasks::task::not_prefix;
use crate::tasks::task::task_error;

verus! {

pub struct RukiniaGroup {
    pub arguments: Vec<String>,
    pub syntax: SyntaxForTrait,
    pub result: RukiniaResultEntry,
}

impl View for RukiniaGroup {
    type V = EntryModel;

    open spec fn view(&self) -> EntryModel {
        self.result@
    }
}

/// The default label: `Checking group <name> [not ]exists`.
pub open spec fn group_label(args: Seq<Seq<char>>, not: bool) -> Seq<char> {
    "Checking group "@ + args[0] + " "@ + not_prefix(not) + "exists"@
}

/// What the group check returns for given arguments, modifiers and the group
/// database's content (or its read error).
pub open spec fn group_result_spec(
    args: Seq<Seq<char>>,
    ms: Seq<SyntaxModel>,
    group_file: Result<Seq<char>, Seq<char>>,
) -> Result<EntryModel, Seq<char>> {
    if args.len() == 0 {
        Err(
            format_message_spec(
                command_context("rukinia_group"@, args),
                "Missing group name argument"@,
                "No group name provided"@,
            ),
        )
    } else {
        match group_file {
            Err(e) => Err(
                format_message_spec(
                    command_context("rukinia_group"@, args),
                    "Failed to open /etc/group"@,
                    e,
                ),
            ),
            Ok(content) => Ok(
                applied_entry(
                    ms,
                    if has_prefixed_line(content, trim_quotes_spec(args[0])) {
                        RukiniaResultType::TestSuccess
                    } else {
                        RukiniaResultType::TestFail
                    },
                    group_label(args, mods_contain_not(ms)),
                ),
            ),
        }
    }
}

impl RukiniaGroup {
    /// Look the (quote-trimmed) first argument up in the group database read
    /// through the probe; no argument is an error, a read failure is an error.
    pub fn new<P: SystemProbe>(
        arguments: Vec<String>,
        syntax: SyntaxForTrait,
        probe: &P,
    ) -> (r: Result<Self, RukiniaError>)
        ensures
            match r {
                Ok(t) => group_result_spec(views_of(arguments@), syntax@, probe.group_file_model())
                    == Ok::<_, Seq<char>>(t@) && views_of(t.arguments@) == views_of(arguments@)
                    && t.syntax@ == syntax@,
                Err(e) => group_result_spec(views_of(arguments@), syntax@, probe.group_file_model())
                    == Err::<EntryModel, _>(e@),
            },
    {
        if arguments.len() == 0 {
            return Err(
                task_error(
                    "rukinia_group",
                    &arguments,
                    "Missing group name argument",
                    String::from_str("No group name provided"),
                ),
            );
        }
        match probe.read_group_file() {
            Err(e) => Err(task_error("rukinia_group", &arguments, "Failed to open /etc/group", e)),
            Ok(content) => {
                let found = any_line_starts_with(
                    content.as_str(),
                    trim_quotes(arguments[0].as_str()),
                );
                let raw = if found {
                    RukiniaResultType::TestSuccess
                } else {
                    RukiniaResultType::TestFail
                };
                let label = Self::build_label(&arguments, &syntax);
                let result = apply_syntax_entry(raw, &syntax, label);
                Ok(RukiniaGroup { arguments, syntax, result })
            },
        }
    }

    fn build_label(arguments: &Vec<String>, syntax: &SyntaxForTrait) -> (r: String)
        requires
            arguments@.len() >= 1,
        ensures
            r@ == group_label(views_of(arguments@), mods_contain_not(syntax@)),
    {
        let mut s = String::from_str("Checking group ");
        s.append(arguments[0].as_str());
        s.append(" ");
        if syntax.contains_not() {
            s.append("not ");
        }
        s.append("exists");
        proof {
            assert(views_of(arguments@)[0] == arguments@[0]@);
            assert(s@ =~= group_label(views_of(arguments@), mods_contain_not(syntax@)));
        }
        s
    }
}

impl RukiniaProcess for RukiniaGroup {
    open spec fn result_model(&self) -> EntryModel {
        self.result@
    }

    open spec fn syntax_model(&self) -> Seq<SyntaxModel> {
        self.syntax@
    }

    open spec fn default_label_model(&self) -> Seq<char> {
        group_label(views_of(self.arguments@), mods_contain_not(self.syntax@))
    }

    open spec fn wf(&self) -> bool {
        self.arguments@.len() >= 1
    }

    fn get_rukinia_command() -> (r: &'static str)
        ensures
            r@ == "rukinia_group"@,
    {
        "rukinia_group"
    }

    fn get_result(&self) -> (r: RukiniaResultEntry)
        ensures
            r@ == self@,
    {
        self.result.duplicate()
    }

    fn set_result(&mut self, result: RukiniaResultEntry)
        ensures
            final(self)@ == result@,
            final(self).arguments@ == old(self).arguments@,
            final(self).syntax@ == old(self).syntax@,
    {
        self.result = result;
    }

    fn display_format(&self) -> (r: String)
        ensures
            r@ == group_label(views_of(self.arguments@), mods_contain_not(self.syntax@)),
    {
        Self::build_label(&self.arguments, &self.syntax)
    }

    fn get_syntax(&self) -> (r: SyntaxForTrait)
        ensures
            r@ == self.syntax@,
    {
        self.syntax.duplicate()
    }
}

} // verus!
