//! The check that a network interface's operational state is `up`.

use vstd::prelude::*;
use crate::probe::SystemProbe;
use crate::rukinia_result::EntryModel;
use crate::rukinia_result::RukiniaError;
use crate::rukinia_result::RukiniaResultEntry;
use crate::rukinia_result::RukiniaResultType;
use crate::rukinia_result::format_message_spec;
use crate::strutil::string_eq;
use crate::strutil::trim_blank;
use crate::strutil::trim_quotes;
use crate::strutil::trim_quotes_spec;
use crate::strutil::trim_spec;
use crate::strutil::views_of;
use crate::syntax::SyntaxForTrait;
use crate::syntax::SyntaxModel;
use crate::syntax::mods_contain_not;
use crate::tasks::task::RukiniaProcess;
use crate::tasks::task::applied_entry;
use crate::tasks::task::apply_syntax_entry;
use crate::tasks::task::command_context;
use crate::tasks::task::not_prefix;
use crate::tasks::task::task_error;

verus! {

pub struct RukiniaNetworkIsUp {
    pub arguments: Vec<String>,
    pub syntax: SyntaxForTrait,
    pub result: RukiniaResultEntry,
}

impl View for RukiniaNetworkIsUp {
    type V = EntryModel;

    open spec fn view(&self) -> EntryModel {
        self.result@
    }
}

/// The default label: `Checking if interface <name> is [not ]up`.
pub open spec fn netup_label(args: Seq<Seq<char>>, not: bool) -> Seq<char> {
    "Checking if interface "@ + args[0] + " is "@ + not_prefix(not) + "up"@
}

/// What the interface-state check returns for given arguments, modifiers and
/// the observed state text (or its read error).
pub open spec fn netup_result_spec(
    args: Seq<Seq<char>>,
    ms: Seq<SyntaxModel>,
    state: Result<Seq<char>, Seq<char>>,
) -> Result<EntryModel, Seq<char>> {
    if args.len() == 0 {
        Err(
            format_message_spec(
                command_context("rukinia_netif_is_up"@, args),
                "Missing pid argument"@,
                "No pid provided"@,
            ),
        )
    } else {
        match state {
            Err(e) => Err(
                format_message_spec(
                    command_context("rukinia_netif_is_up"@, args),
                    "Failed to read network interface operstate"@,
                    e,
                ),
            ),
            Ok(content) => Ok(
                applied_entry(
                    ms,
                    if trim_spec(content) == "up"@ {
                        RukiniaResultType::TestSuccess
                    } else {
                        RukiniaResultType::TestFail
                    },
                    netup_label(args, mods_contain_not(ms)),
                ),
            ),
        }
    }
}

impl RukiniaNetworkIsUp {
    /// Read the (quote-trimmed) named interface's state through the probe and
    /// compare its trimmed text with `up`.
    pub fn new<P: SystemProbe>(
        arguments: Vec<String>,
        syntax: SyntaxForTrait,
        probe: &P,
    ) -> (r: Result<Self, RukiniaError>)
        ensures
            match r {
                Ok(t) => netup_result_spec(
                    views_of(arguments@),
                    syntax@,
                    probe.operstate_model(trim_quotes_spec(arguments@[0]@)),
                ) == Ok::<_, Seq<char>>(t@) && views_of(t.arguments@) == views_of(arguments@)
                    && t.syntax@ == syntax@,
                Err(e) => netup_result_spec(
                    views_of(arguments@),
                    syntax@,
                    probe.operstate_model(trim_quotes_spec(arguments@[0]@)),
                ) == Err::<EntryModel, _>(e@),
            },
    {
        if arguments.len() == 0 {
            return Err(
                task_error(
                    "rukinia_netif_is_up",
                    &arguments,
                    "Missing pid argument",
                    String::from_str("No pid provided"),
                ),
            );
        }
        let iface = String::from_str(trim_quotes(arguments[0].as_str()));
        match probe.read_interface_state(&iface) {
            Err(e) => Err(
                task_error(
                    "rukinia_netif_is_up",
                    &arguments,
                    "Failed to read network interface operstate",
                    e,
                ),
            ),
            Ok(content) => {
                let raw = if string_eq(trim_blank(content.as_str()), "up") {
                    RukiniaResultType::TestSuccess
                } else {
                    RukiniaResultType::TestFail
                };
                proof {
                    assert(views_of(arguments@)[0] == arguments@[0]@);
                }
                let label = Self::build_label(&arguments, &syntax);
                let result = apply_syntax_entry(raw, &syntax, label);
                Ok(RukiniaNetworkIsUp { arguments, syntax, result })
            },
        }
    }

    fn build_label(arguments: &Vec<String>, syntax: &SyntaxForTrait) -> (r: String)
        requires
            arguments@.len() >= 1,
        ensures
            r@ == netup_label(views_of(arguments@), mods_contain_not(syntax@)),
    {
        let mut s = String::from_str("Checking if interface ");
        s.append(arguments[0].as_str());
        s.append(" is ");
        if syntax.contains_not() {
            s.append("not ");
        }
        s.append("up");
        proof {
            assert(views_of(arguments@)[0] == arguments@[0]@);
            assert(s@ =~= netup_label(views_of(arguments@), mods_contain_not(syntax@)));
        }
        s
    }
}

impl RukiniaProcess for RukiniaNetworkIsUp {
    open spec fn result_model(&self) -> EntryModel {
        self.result@
    }

    open spec fn syntax_model(&self) -> Seq<SyntaxModel> {
        self.syntax@
    }

    open spec fn default_label_model(&self) -> Seq<char> {
        netup_label(views_of(self.arguments@), mods_contain_not(self.syntax@))
    }

    open spec fn wf(&self) -> bool {
        self.arguments@.len() >= 1
    }

    fn get_rukinia_command() -> (r: &'static str)
        ensures
            r@ == "rukinia_netif_is_up"@,
    {
        "rukinia_netif_is_up"
    }

    fn get_result(&self) -> (r: RukiniaResultEntry)
        ensures
            r@ == self@,
    {
        self.result.duplicate()
    }

    fn set_result(&mut self, result: RukiniaResultEntry)
        ensures
            final(self)@ == result@,
            final(self).arguments@ == old(self).arguments@,
            final(self).syntax@ == old(self).syntax@,
    {
        self.result = result;
    }

    fn display_format(&self) -> (r: String)
        ensures
            r@ == netup_label(views_of(self.arguments@), mods_contain_not(self.syntax@)),
    {
        Self::build_label(&self.arguments, &self.syntax)
    }

    fn get_syntax(&self) -> (r: SyntaxForTrait)
        ensures
            r@ == self.syntax@,
    {
        self.syntax.duplicate()
    }
}

} // verus!
