//! The check that an HTTP GET on a URL reports success.

use vstd::prelude::*;
use crate::probe::SystemProbe;
use crate::rukinia_result::EntryModel;
use crate::rukinia_result::RukiniaError;
use crate::rukinia_result::RukiniaResultEntry;
use crate::rukinia_result::RukiniaResultType;
use crate::rukinia_result::format_message_spec;
use crate::strutil::trim_quotes;
use crate::strutil::trim_quotes_spec;
use crate::strutil::views_of;
use crate::syntax::SyntaxForTrait;
use crate::syntax::SyntaxModel;
use crate::syntax::mods_contain_not;
use crate::tasks::task::RukiniaProcess;
use crate::tasks::task::applied_entry;
use crate::tasks::task::apply_syntax_entry;
use crate::tasks::task::command_context;
use crate::tasks::task::not_prefix;
use crate::tasks::task::task_error;

verus! {

pub struct RukiniaHttpReq {
    pub arguments: Vec<String>,
    pub syntax: SyntaxForTrait,
    pub result: RukiniaResultEntry,
}

impl View for RukiniaHttpReq {
    type V = EntryModel;

    open spec fn view(&self) -> EntryModel {
        self.result@
    }
}

/// The default label: `Checking http url <url> does [not ]return 200`.
pub open spec fn http_label(args: Seq<Seq<char>>, not: bool) -> Seq<char> {
    "Checking http url "@ + args[0] + " does "@ + not_prefix(not) + "return 200"@
}

/// What the HTTP check returns for given arguments, modifiers and the
/// observed request outcome (success flag or transport error).
pub open spec fn http_result_spec(
    args: Seq<Seq<char>>,
    ms: Seq<SyntaxModel>,
    outcome: Result<bool, Seq<char>>,
) -> Result<EntryModel, Seq<char>> {
    if args.len() == 0 {
        Err(
            format_message_spec(
                command_context("rukinia_http_request"@, args),
                "Missing url name argument"@,
                "No url name provided"@,
            ),
        )
    } else {
        match outcome {
            Err(e) => Err(
                format_message_spec(
                    command_context("rukinia_http_request"@, args),
                    "HTTP REQWEST failed"@,
                    e,
                ),
            ),
            Ok(success) => Ok(
                applied_entry(
                    ms,
                    if success {
                        RukiniaResultType::TestSuccess
                    } else {
                        RukiniaResultType::TestFail
                    },
                    http_label(args, mods_contain_not(ms)),
                ),
            ),
        }
    }
}

impl RukiniaHttpReq {
    /// Request the (quote-trimmed) URL through the probe; a transport failure
    /// is an error, a non-success status a plain fail.
    pub fn new<P: SystemProbe>(
        arguments: Vec<String>,
        syntax: SyntaxForTrait,
        probe: &P,
    ) -> (r: Result<Self, RukiniaError>)
        ensures
            match r {
                Ok(t) => http_result_spec(
                    views_of(arguments@),
                    syntax@,
                    probe.http_model(trim_quotes_spec(arguments@[0]@)),
                ) == Ok::<_, Seq<char>>(t@) && views_of(t.arguments@) == views_of(arguments@)
                    && t.syntax@ == syntax@,
                Err(e) => http_result_spec(
                    views_of(arguments@),
                    syntax@,
                    probe.http_model(trim_quotes_spec(arguments@[0]@)),
                ) == Err::<EntryModel, _>(e@),
            },
    {
        if arguments.len() == 0 {
            return Err(
                task_error(
                    "rukinia_http_request",
                    &arguments,
                    "Missing url name argument",
                    String::from_str("No url name provided"),
                ),
            );
        }
        let url = String::from_str(trim_quotes(arguments[0].as_str()));
        match probe.http_get_success(&url) {
            Err(e) => Err(task_error("rukinia_http_request", &arguments, "HTTP REQWEST failed", e)),
            Ok(success) => {
                let raw = if success {
                    RukiniaResultType::TestSuccess
                } else {
                    RukiniaResultType::TestFail
                };
                proof {
                    assert(views_of(arguments@)[0] == arguments@[0]@);
                }
                let label = Self::build_label(&arguments, &syntax);
                let result = apply_syntax_entry(raw, &syntax, label);
                Ok(RukiniaHttpReq { arguments, syntax, result })
            },
        }
    }

    fn build_label(arguments: &Vec<String>, syntax: &SyntaxForTrait) -> (r: String)
        requires
            arguments@.len() >= 1,
        ensures
            r@ == http_label(views_of(arguments@), mods_contain_not(syntax@)),
    {
        let mut s = String::from_str("Checking http url ");
        s.append(arguments[0].as_str());
        s.append(" does ");
        if syntax.contains_not() {
            s.append("not ");
        }
        s.append("return 200");
        proof {
            assert(views_of(arguments@)[0] == arguments@[0]@);
            assert(s@ =~= http_label(views_of(arguments@), mods_contain_not(syntax@)));
        }
        s
    }
}

impl RukiniaProcess for RukiniaHttpReq {
    open spec fn result_model(&self) -> EntryModel {
        self.result@
    }

    open spec fn syntax_model(&self) -> Seq<SyntaxModel> {
        self.syntax@
    }

    open spec fn default_label_model(&self) -> Seq<char> {
        http_label(views_of(self.arguments@), mods_contain_not(self.syntax@))
    }

    open spec fn wf(&self) -> bool {
        self.arguments@.len() >= 1
    }

    fn get_rukinia_command() -> (r: &'static str)
        ensures
            r@ == "rukinia_http_request"@,
    {
        "rukinia_http_request"
    }

    fn get_result(&self) -> (r: RukiniaResultEntry)
        ensures
            r@ == self@,
    {
        self.result.duplicate()
    }

    fn set_result(&mut self, result: RukiniaResultEntry)
        ensures
            final(self)@ == result@,
            final(self).arguments@ == old(self).arguments@,
            final(self).syntax@ == old(self).syntax@,
    {
        self.result = result;
    }

    fn display_format(&self) -> (r: String)
        ensures
            r@ == http_label(views_of(self.arguments@), mods_contain_not(self.syntax@)),
    {
        Self::build_label(&self.arguments, &self.syntax)
    }

    fn get_syntax(&self) -> (r: SyntaxForTrait)
        ensures
            r@ == self.syntax@,
    {
        self.syntax.duplicate()
    }
}

} // verus!
