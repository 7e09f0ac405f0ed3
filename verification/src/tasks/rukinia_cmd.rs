//! The check that a command runs and exits successfully.

use vstd::prelude::*;
use crate::probe::SystemProbe;
use crate::rukinia_result::EntryModel;
use crate::rukinia_result::RukiniaError;
use crate::rukinia_result::RukiniaResultEntry;
use crate::rukinia_result::RukiniaResultType;
use crate::rukinia_result::format_message_spec;
use crate::strutil::join_spaces;
use crate::strutil::join_spaces_spec;
use crate::strutil::views_of;
use crate::syntax::SyntaxForTrait;
use crate::syntax::SyntaxModel;
use crate::syntax::mods_contain_not;
use crate::tasks::task::RukiniaProcess;
use crate::tasks::task::applied_entry;
use crate::tasks::task::apply_syntax_entry;
use crate::tasks::task::not_prefix;

verus! {

pub struct RukiniaCmd {
    pub arguments: Vec<String>,
    pub syntax: SyntaxForTrait,
    pub result: RukiniaResultEntry,
}

impl View for RukiniaCmd {
    type V = EntryModel;

    open spec fn view(&self) -> EntryModel {
        self.result@
    }
}

/// The default label: `Running "<argv>" is [not ]successful`.
pub open spec fn cmd_label(args: Seq<Seq<char>>, not: bool) -> Seq<char> {
    "Running \""@ + join_spaces_spec(args) + "\" is "@ + not_prefix(not) + "successful"@
}

/// What the command check returns for given arguments, modifiers and the
/// observed exit verdict.  A command that cannot run is a plain fail, never
/// an error; only a missing command word is an error.
pub open spec fn cmd_result_spec(
    args: Seq<Seq<char>>,
    ms: Seq<SyntaxModel>,
    exit_success: bool,
) -> Result<EntryModel, Seq<char>> {
    if args.len() == 0 {
        Err(
            format_message_spec(
                "rukinia_cmd"@,
                "Missing command argument"@,
                "No command provided"@,
            ),
        )
    } else {
        Ok(
            applied_entry(
                ms,
                if exit_success {
                    RukiniaResultType::TestSuccess
                } else {
                    RukiniaResultType::TestFail
                },
                cmd_label(args, mods_contain_not(ms)),
            ),
        )
    }
}

impl RukiniaCmd {
    /// Run the argument vector through the probe; the first argument is the
    /// command word, the rest its arguments.
    pub fn new<P: SystemProbe>(
        arguments: Vec<String>,
        syntax: SyntaxForTrait,
        probe: &P,
    ) -> (r: Result<Self, RukiniaError>)
        ensures
            match r {
                Ok(t) => cmd_result_spec(
                    views_of(arguments@),
                    syntax@,
                    probe.command_model(views_of(arguments@)),
                ) == Ok::<_, Seq<char>>(t@) && views_of(t.arguments@) == views_of(arguments@)
                    && t.syntax@ == syntax@,
                Err(e) => cmd_result_spec(
                    views_of(arguments@),
                    syntax@,
                    probe.command_model(views_of(arguments@)),
                ) == Err::<EntryModel, _>(e@),
            },
    {
        if arguments.len() == 0 {
            return Err(
                RukiniaError::new(
                    String::from_str("rukinia_cmd"),
                    String::from_str("Missing command argument"),
                    String::from_str("No command provided"),
                ),
            );
        }
        let success = probe.run_command(&arguments);
        let raw = if success {
            RukiniaResultType::TestSuccess
        } else {
            RukiniaResultType::TestFail
        };
        let label = Self::build_label(&arguments, &syntax);
        let result = apply_syntax_entry(raw, &syntax, label);
        Ok(RukiniaCmd { arguments, syntax, result })
    }

    fn build_label(arguments: &Vec<String>, syntax: &SyntaxForTrait) -> (r: String)
        ensures
            r@ == cmd_label(views_of(arguments@), mods_contain_not(syntax@)),
    {
        let mut s = String::from_str("Running \"");
        s.append(join_spaces(arguments).as_str());
        s.append("\" is ");
        if syntax.contains_not() {
            s.append("not ");
        }
        s.append("successful");
        proof {
            assert(s@ =~= cmd_label(views_of(arguments@), mods_contain_not(syntax@)));
        }
        s
    }
}

impl RukiniaProcess for RukiniaCmd {
    open spec fn result_model(&self) -> EntryModel {
        self.result@
    }

    open spec fn syntax_model(&self) -> Seq<SyntaxModel> {
        self.syntax@
    }

    open spec fn default_label_model(&self) -> Seq<char> {
        cmd_label(views_of(self.arguments@), mods_contain_not(self.syntax@))
    }

    open spec fn wf(&self) -> bool {
        true
    }

    fn get_rukinia_command() -> (r: &'static str)
        ensures
            r@ == "rukinia_cmd"@,
    {
        "rukinia_cmd"
    }

    fn get_result(&self) -> (r: RukiniaResultEntry)
        ensures
            r@ == self@,
    {
        self.result.duplicate()
    }

    fn set_result(&mut self, result: RukiniaResultEntry)
        ensures
            final(self)@ == result@,
            final(self).arguments@ == old(self).arguments@,
            final(self).syntax@ == old(self).syntax@,
    {
        self.result = result;
    }

    fn display_format(&self) -> (r: String)
        ensures
            r@ == cmd_label(views_of(self.arguments@), mods_contain_not(self.syntax@)),
    {
        Self::build_label(&self.arguments, &self.syntax)
    }

    fn get_syntax(&self) -> (r: SyntaxForTrait)
        ensures
            r@ == self.syntax@,
    {
        self.syntax.duplicate()
    }
}

} // verus!
