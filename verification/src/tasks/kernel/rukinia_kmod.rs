//! The check that a kernel module is loaded.

use vstd::prelude::*;
use crate::probe::SystemProbe;
use crate::rukinia_result::EntryModel;
use crate::rukinia_result::RukiniaError;
use crate::rukinia_result::RukiniaResultEntry;
use crate::rukinia_result::RukiniaResultType;
use crate::rukinia_result::format_message_spec;
use crate::strutil::lines_of;
use crate::strutil::lines_spec;
use crate::strutil::split_blank;
use crate::strutil::string_eq;
use crate::strutil::trim_quotes;
use crate::strutil::trim_quotes_spec;
use crate::strutil::views_of;
use crate::strutil::ws_tokens_spec;
use crate::syntax::SyntaxForTrait;
use crate::syntax::SyntaxModel;
use crate::syntax::mods_contain_not;
use crate::tasks::task::RukiniaProcess;
use crate::tasks::task::applied_entry;
use crate::tasks::task::apply_syntax_entry;
use crate::tasks::task::command_context;
use crate::tasks::task::not_prefix;
use crate::tasks::task::task_error;

verus! {

pub struct RukiniaKernelMod {
    pub arguments: Vec<String>,
    pub syntax: SyntaxForTrait,
    pub result: RukiniaResultEntry,
}

impl View for RukiniaKernelMod {
    type V = EntryModel;

    open spec fn view(&self) -> EntryModel {
        self.result@
    }
}

/// A line whose first blank-separated word is `word`.
pub open spec fn line_first_word_is(line: Seq<char>, word: Seq<char>) -> bool {
    ws_tokens_spec(line).len() > 0 && ws_tokens_spec(line)[0] == word
}

/// Some line of the module table opens with the module's name.
pub open spec fn modules_has_module(content: Seq<char>, module: Seq<char>) -> bool {
    exists|i: int|
        0 <= i < lines_spec(content).len() && line_first_word_is(lines_spec(content)[i], module)
}

/// The default label: `Checking kernel module <name> [not ]loaded`.
pub open spec fn kmod_label(args: Seq<Seq<char>>, not: bool) -> Seq<char> {
    "Checking kernel module "@ + args[0] + " "@ + not_prefix(not) + "loaded"@
}

/// What the module check returns for given arguments, modifiers and the
/// module table's content (or its read error).
pub open spec fn kmod_result_spec(
    args: Seq<Seq<char>>,
    ms: Seq<SyntaxModel>,
    modules: Result<Seq<char>, Seq<char>>,
) -> Result<EntryModel, Seq<char>> {
    if args.len() == 0 {
        Err(
            format_message_spec(
                command_context("rukinia_kmod"@, args),
                "Missing module name argument"@,
                "No module name provided"@,
            ),
        )
    } else {
        match modules {
            Err(e) => Err(
                format_message_spec(
                    command_context("rukinia_kmod"@, args),
                    e,
                    "Failed to read /proc/modules"@,
                ),
            ),
            Ok(content) => Ok(
                applied_entry(
                    ms,
                    if modules_has_module(content, trim_quotes_spec(args[0])) {
                        RukiniaResultType::TestSuccess
                    } else {
                        RukiniaResultType::TestFail
                    },
                    kmod_label(args, mods_contain_not(ms)),
                ),
            ),
        }
    }
}

/// Scan the module table for a line whose first word is `module`.
fn modules_lookup(content: &str, module: &str) -> (r: bool)
    ensures
        r == modules_has_module(content@, module@),
{
    let lines = lines_of(content);
    let mut i: usize = 0;
    while i < lines.len()
        invariant
            i <= lines@.len(),
            views_of(lines@) == lines_spec(content@),
            forall|k: int|
                0 <= k < i ==> !line_first_word_is(lines_spec(content@)[k], module@),
        decreases lines@.len() - i,
    {
        let words = split_blank(lines[i].as_str());
        proof {
            assert(lines_spec(content@)[i as int] == lines@[i as int]@);
        }
        if words.len() > 0 && string_eq(words[0].as_str(), module) {
            proof {
                assert(views_of(words@)[0] == words@[0]@);
            }
            return true;
        }
        proof {
            if views_of(words@).len() > 0 {
                assert(views_of(words@)[0] == words@[0]@);
            }
        }
        i += 1;
    }
    false
}

impl RukiniaKernelMod {
    /// Look the (quote-trimmed) module name up in the module table read
    /// through the probe.
    pub fn new<P: SystemProbe>(
        arguments: Vec<String>,
        syntax: SyntaxForTrait,
        probe: &P,
    ) -> (r: Result<Self, RukiniaError>)
        ensures
            match r {
                Ok(t) => kmod_result_spec(views_of(arguments@), syntax@, probe.modules_model())
                    == Ok::<_, Seq<char>>(t@) && views_of(t.arguments@) == views_of(arguments@)
                    && t.syntax@ == syntax@,
                Err(e) => kmod_result_spec(views_of(arguments@), syntax@, probe.modules_model())
                    == Err::<EntryModel, _>(e@),
            },
    {
        if arguments.len() == 0 {
            return Err(
                task_error(
                    "rukinia_kmod",
                    &arguments,
                    "Missing module name argument",
                    String::from_str("No module name provided"),
                ),
            );
        }
        match probe.read_modules_file() {
            Err(e) => Err(
                RukiniaError::new(
                    String::from_str("rukinia_kmod").concat(" ").concat(
                        crate::strutil::join_spaces(&arguments).as_str(),
                    ),
                    e,
                    String::from_str("Failed to read /proc/modules"),
                ),
            ),
            Ok(content) => {
                let found = modules_lookup(content.as_str(), trim_quotes(arguments[0].as_str()));
                let raw = if found {
                    RukiniaResultType::TestSuccess
                } else {
                    RukiniaResultType::TestFail
                };
                proof {
                    assert(views_of(arguments@)[0] == arguments@[0]@);
                }
                let label = Self::build_label(&arguments, &syntax);
                let result = apply_syntax_entry(raw, &syntax, label);
                Ok(RukiniaKernelMod { arguments, syntax, result })
            },
        }
    }

    fn build_label(arguments: &Vec<String>, syntax: &SyntaxForTrait) -> (r: String)
        requires
            arguments@.len() >= 1,
        ensures
            r@ == kmod_label(views_of(arguments@), mods_contain_not(syntax@)),
    {
        let mut s = String::from_str("Checking kernel module ");
        s.append(arguments[0].as_str());
        s.append(" ");
        if syntax.contains_not() {
            s.append("not ");
        }
        s.append("loaded");
        proof {
            assert(views_of(arguments@)[0] == arguments@[0]@);
            assert(s@ =~= kmod_label(views_of(arguments@), mods_contain_not(syntax@)));
        }
        s
    }
}

impl RukiniaProcess for RukiniaKernelMod {
    open spec fn result_model(&self) -> EntryModel {
        self.result@
    }

    open spec fn syntax_model(&self) -> Seq<SyntaxModel> {
        self.syntax@
    }

    open spec fn default_label_model(&self) -> Seq<char> {
        kmod_label(views_of(self.arguments@), mods_contain_not(self.syntax@))
    }

    open spec fn wf(&self) -> bool {
        self.arguments@.len() >= 1
    }

    fn get_rukinia_command() -> (r: &'static str)
        ensures
            r@ == "rukinia_kmod"@,
    {
        "rukinia_kmod"
    }

    fn get_result(&self) -> (r: RukiniaResultEntry)
        ensures
            r@ == self@,
    {
        self.result.duplicate()
    }

    fn set_result(&mut self, result: RukiniaResultEntry)
        ensures
            final(self)@ == result@,
            final(self).arguments@ == old(self).arguments@,
            final(self).syntax@ == old(self).syntax@,
    {
        self.result = result;
    }

    fn display_format(&self) -> (r: String)
        ensures
            r@ == kmod_label(views_of(self.arguments@), mods_contain_not(self.syntax@)),
    {
        Self::build_label(&self.arguments, &self.syntax)
    }

    fn get_syntax(&self) -> (r: SyntaxForTrait)
        ensures
            r@ == self.syntax@,
    {
        self.syntax.duplicate()
    }
}

} // verus!
