//! The check that the kernel configuration text equals an expected value.

use vstd::prelude::*;
use crate::probe::SystemProbe;
use crate::rukinia_result::EntryModel;
use crate::rukinia_result::RukiniaError;
use crate::rukinia_result::RukiniaResultEntry;
use crate::rukinia_result::RukiniaResultType;
use crate::rukinia_result::format_message_spec;
use crate::strutil::string_eq;
use crate::strutil::trim_blank;
use crate::strutil::trim_spec;
use crate::strutil::views_of;
use crate::syntax::SyntaxForTrait;
use crate::syntax::SyntaxModel;
use crate::syntax::mods_contain_not;
use crate::tasks::task::RukiniaProcess;
use crate::tasks::task::applied_entry;
use crate::tasks::task::apply_syntax_entry;
use crate::tasks::task::command_context;
use crate::tasks::task::not_prefix;
use crate::tasks::task::task_error;

verus! {

pub struct RukiniaKernelConf {
    pub arguments: Vec<String>,
    pub syntax: SyntaxForTrait,
    pub result: RukiniaResultEntry,
}

impl View for RukiniaKernelConf {
    type V = EntryModel;

    open spec fn view(&self) -> EntryModel {
        self.result@
    }
}

/// The default label: `Checking kernel config <key> [not ]set to <current>`,
/// where `<current>` is the label the result held when formatting ran; at
/// construction time that label is still empty.
pub open spec fn kconf_label(args: Seq<Seq<char>>, not: bool, current: Seq<char>) -> Seq<char> {
    "Checking kernel config "@ + args[0] + " "@ + not_prefix(not) + "set to "@ + current
}

/// What the kernel-configuration check returns for given arguments, modifiers
/// and the configuration text (or its read error).
pub open spec fn kconf_result_spec(
    args: Seq<Seq<char>>,
    ms: Seq<SyntaxModel>,
    config: Result<Seq<char>, Seq<char>>,
) -> Result<EntryModel, Seq<char>> {
    if args.len() == 0 {
        Err(
            format_message_spec(
                command_context("rukinia_kconf"@, args),
                "Missing kernel config argument"@,
                "No kernel config provided"@,
            ),
        )
    } else {
        match config {
            Err(e) => Err(
                format_message_spec(
                    command_context("rukinia_kconf"@, args),
                    e,
                    "Failed to read /proc/config.gz"@,
                ),
            ),
            Ok(content) => Ok(
                applied_entry(
                    ms,
                    if trim_spec(content) == args[0] {
                        RukiniaResultType::TestSuccess
                    } else {
                        RukiniaResultType::TestFail
                    },
                    kconf_label(args, mods_contain_not(ms), Seq::empty()),
                ),
            ),
        }
    }
}

impl RukiniaKernelConf {
    /// Compare the trimmed kernel configuration text with the first argument.
    pub fn new<P: SystemProbe>(
        arguments: Vec<String>,
        syntax: SyntaxForTrait,
        probe: &P,
    ) -> (r: Result<Self, RukiniaError>)
        ensures
            match r {
                Ok(t) => kconf_result_spec(
                    views_of(arguments@),
                    syntax@,
                    probe.kernel_config_model(),
                ) == Ok::<_, Seq<char>>(t@) && views_of(t.arguments@) == views_of(arguments@)
                    && t.syntax@ == syntax@,
                Err(e) => kconf_result_spec(
                    views_of(arguments@),
                    syntax@,
                    probe.kernel_config_model(),
                ) == Err::<EntryModel, _>(e@),
            },
    {
        if arguments.len() == 0 {
            return Err(
                task_error(
                    "rukinia_kconf",
                    &arguments,
                    "Missing kernel config argument",
                    String::from_str("No kernel config provided"),
                ),
            );
        }
        match probe.read_kernel_config() {
            Err(e) => Err(
                RukiniaError::new(
                    String::from_str("rukinia_kconf").concat(" ").concat(
                        crate::strutil::join_spaces(&arguments).as_str(),
                    ),
                    e,
                    String::from_str("Failed to read /proc/config.gz"),
                ),
            ),
            Ok(content) => {
                let raw = if string_eq(trim_blank(content.as_str()), arguments[0].as_str()) {
                    RukiniaResultType::TestSuccess
                } else {
                    RukiniaResultType::TestFail
                };
                proof {
                    assert(views_of(arguments@)[0] == arguments@[0]@);
                    reveal_strlit("");
                    assert(""@ =~= Seq::<char>::empty());
                }
                let label = Self::build_label(&arguments, &syntax, "");
                let result = apply_syntax_entry(raw, &syntax, label);
                Ok(RukiniaKernelConf { arguments, syntax, result })
            },
        }
    }

    fn build_label(arguments: &Vec<String>, syntax: &SyntaxForTrait, current: &str) -> (r: String)
        requires
            arguments@.len() >= 1,
        ensures
            r@ == kconf_label(views_of(arguments@), mods_contain_not(syntax@), current@),
    {
        let mut s = String::from_str("Checking kernel config ");
        s.append(arguments[0].as_str());
        s.append(" ");
        if syntax.contains_not() {
            s.append("not ");
        }
        s.append("set to ");
        s.append(current);
        proof {
            assert(views_of(arguments@)[0] == arguments@[0]@);
            assert(s@ =~= kconf_label(views_of(arguments@), mods_contain_not(syntax@), current@));
        }
        s
    }
}

impl RukiniaProcess for RukiniaKernelConf {
    open spec fn result_model(&self) -> EntryModel {
        self.result@
    }

    open spec fn syntax_model(&self) -> Seq<SyntaxModel> {
        self.syntax@
    }

    open spec fn default_label_model(&self) -> Seq<char> {
        kconf_label(views_of(self.arguments@), mods_contain_not(self.syntax@), self.result@.label)
    }

    open spec fn wf(&self) -> bool {
        self.arguments@.len() >= 1
    }

    fn get_rukinia_command() -> (r: &'static str)
        ensures
            r@ == "rukinia_kconf"@,
    {
        "rukinia_kconf"
    }

    fn get_result(&self) -> (r: RukiniaResultEntry)
        ensures
            r@ == self@,
    {
        self.result.duplicate()
    }

    fn set_result(&mut self, result: RukiniaResultEntry)
        ensures
            final(self)@ == result@,
            final(self).arguments@ == old(self).arguments@,
            final(self).syntax@ == old(self).syntax@,
    {
        self.result = result;
    }

    fn display_format(&self) -> (r: String)
        ensures
            r@ == kconf_label(
                views_of(self.arguments@),
                mods_contain_not(self.syntax@),
                self@.label,
            ),
    {
        Self::build_label(&self.arguments, &self.syntax, self.result.label.as_str())
    }

    fn get_syntax(&self) -> (r: SyntaxForTrait)
        ensures
            r@ == self.syntax@,
    {
        self.syntax.duplicate()
    }
}

} // verus!
