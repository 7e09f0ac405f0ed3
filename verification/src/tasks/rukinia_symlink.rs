//! The check that a symbolic link resolves to a given target.

use vstd::prelude::*;
use crate::probe::SystemProbe;
use crate::rukinia_result::EntryModel;
use crate::rukinia_result::RukiniaError;
use crate::rukinia_result::RukiniaResultEntry;
use crate::rukinia_result::RukiniaResultType;
use crate::rukinia_result::format_message_spec;
use crate::strutil::string_eq;
use crate::strutil::views_of;
use crate::syntax::SyntaxForTrait;
use crate::syntax::SyntaxModel;
use crate::syntax::mods_contain_not;
use crate::tasks::task::RukiniaProcess;
use crate::tasks::task::applied_entry;
use crate::tasks::task::apply_syntax_entry;
use crate::tasks::task::command_context;
use crate::tasks::task::not_prefix;
use crate::tasks::task::task_error;

verus! {

pub struct RukiniaSymlink {
    pub arguments: Vec<String>,
    pub syntax: SyntaxForTrait,
    pub result: RukiniaResultEntry,
}

impl View for RukiniaSymlink {
    type V = EntryModel;

    open spec fn view(&self) -> EntryModel {
        self.result@
    }
}

/// The default label: `Checking link <link> does [not ]point to <target>`.
pub open spec fn symlink_label(args: Seq<Seq<char>>, not: bool) -> Seq<char> {
    "Checking link "@ + args[0] + " does "@ + not_prefix(not) + "point to "@ + args[1]
}

/// What the symlink check returns for given arguments, modifiers and probe:
/// a path that is no symlink is a plain fail; otherwise the link is read,
/// both sides are canonicalised, and the canonical paths are compared.
pub open spec fn symlink_result_spec<P: SystemProbe>(
    args: Seq<Seq<char>>,
    ms: Seq<SyntaxModel>,
    probe: &P,
) -> Result<EntryModel, Seq<char>> {
    if args.len() == 0 {
        Err(
            format_message_spec(
                command_context("rukinia_symlink"@, args),
                "Missing link path argument"@,
                "No link path provided"@,
            ),
        )
    } else if args.len() == 1 {
        Err(
            format_message_spec(
                command_context("rukinia_symlink"@, args),
                "Missing target path argument"@,
                "No target path provided"@,
            ),
        )
    } else if !probe.symlink_model(args[0]) {
        Ok(
            applied_entry(ms, RukiniaResultType::TestFail, symlink_label(args, mods_contain_not(ms))),
        )
    } else {
        match probe.link_target_model(args[0]) {
            Err(e) => Err(
                format_message_spec(
                    command_context("rukinia_symlink"@, args),
                    "Failed to read symbolic link"@,
                    e,
                ),
            ),
            Ok(link_target) => match probe.canonical_model(link_target) {
                Err(e) => Err(
                    format_message_spec(
                        command_context("rukinia_symlink"@, args),
                        "Failed to canonicalize link target"@,
                        e,
                    ),
                ),
                Ok(canonical_link) => match probe.canonical_model(args[1]) {
                    Err(e) => Err(
                        format_message_spec(
                            command_context("rukinia_symlink"@, args),
                            "Failed to canonicalize target target"@,
                            e,
                        ),
                    ),
                    Ok(canonical_target) => Ok(
                        applied_entry(
                            ms,
                            if canonical_link == canonical_target {
                                RukiniaResultType::TestSuccess
                            } else {
                                RukiniaResultType::TestFail
                            },
                            symlink_label(args, mods_contain_not(ms)),
                        ),
                    ),
                },
            },
        }
    }
}

impl RukiniaSymlink {
    /// Resolve the link named by the first argument and compare it with the
    /// second, both in canonical form.
    pub fn new<P: SystemProbe>(
        arguments: Vec<String>,
        syntax: SyntaxForTrait,
        probe: &P,
    ) -> (r: Result<Self, RukiniaError>)
        ensures
            match r {
                Ok(t) => symlink_result_spec(views_of(arguments@), syntax@, probe) == Ok::<
                    _,
                    Seq<char>,
                >(t@) && views_of(t.arguments@) == views_of(arguments@) && t.syntax@ == syntax@,
                Err(e) => symlink_result_spec(views_of(arguments@), syntax@, probe) == Err::<
                    EntryModel,
                    _,
                >(e@),
            },
    {
        if arguments.len() == 0 {
            return Err(
                task_error(
                    "rukinia_symlink",
                    &arguments,
                    "Missing link path argument",
                    String::from_str("No link path provided"),
                ),
            );
        }
        if arguments.len() == 1 {
            return Err(
                task_error(
                    "rukinia_symlink",
                    &arguments,
                    "Missing target path argument",
                    String::from_str("No target path provided"),
                ),
            );
        }
        proof {
            assert(views_of(arguments@)[0] == arguments@[0]@);
            assert(views_of(arguments@)[1] == arguments@[1]@);
        }
        if !probe.is_symlink(&arguments[0]) {
            let label = Self::build_label(&arguments, &syntax);
            let result = apply_syntax_entry(RukiniaResultType::TestFail, &syntax, label);
            return Ok(RukiniaSymlink { arguments, syntax, result });
        }
        match probe.read_link_target(&arguments[0]) {
            Err(e) => Err(
                task_error("rukinia_symlink", &arguments, "Failed to read symbolic link", e),
            ),
            Ok(link_target) => match probe.canonical_path(&link_target) {
                Err(e) => Err(
                    task_error(
                        "rukinia_symlink",
                        &arguments,
                        "Failed to canonicalize link target",
                        e,
                    ),
                ),
                Ok(canonical_link) => match probe.canonical_path(&arguments[1]) {
                    Err(e) => Err(
                        task_error(
                            "rukinia_symlink",
                            &arguments,
                            "Failed to canonicalize target target",
                            e,
                        ),
                    ),
                    Ok(canonical_target) => {
                        let raw = if string_eq(canonical_link.as_str(), canonical_target.as_str()) {
                            RukiniaResultType::TestSuccess
                        } else {
                            RukiniaResultType::TestFail
                        };
                        let label = Self::build_label(&arguments, &syntax);
                        let result = apply_syntax_entry(raw, &syntax, label);
                        Ok(RukiniaSymlink { arguments, syntax, result })
                    },
                },
            },
        }
    }

    fn build_label(arguments: &Vec<String>, syntax: &SyntaxForTrait) -> (r: String)
        requires
            arguments@.len() >= 2,
        ensures
            r@ == symlink_label(views_of(arguments@), mods_contain_not(syntax@)),
    {
        let mut s = String::from_str("Checking link ");
        s.append(arguments[0].as_str());
        s.append(" does ");
        if syntax.contains_not() {
            s.append("not ");
        }
        s.append("point to ");
        s.append(arguments[1].as_str());
        proof {
            assert(views_of(arguments@)[0] == arguments@[0]@);
            assert(views_of(arguments@)[1] == arguments@[1]@);
            assert(s@ =~= symlink_label(views_of(arguments@), mods_contain_not(syntax@)));
        }
        s
    }
}

impl RukiniaProcess for RukiniaSymlink {
    open spec fn result_model(&self) -> EntryModel {
        self.result@
    }

    open spec fn syntax_model(&self) -> Seq<SyntaxModel> {
        self.syntax@
    }

    open spec fn default_label_model(&self) -> Seq<char> {
        symlink_label(views_of(self.arguments@), mods_contain_not(self.syntax@))
    }

    open spec fn wf(&self) -> bool {
        self.arguments@.len() >= 2
    }

    fn get_rukinia_command() -> (r: &'static str)
        ensures
            r@ == "rukinia_symlink"@,
    {
        "rukinia_symlink"
    }

    fn get_result(&self) -> (r: RukiniaResultEntry)
        ensures
            r@ == self@,
    {
        self.result.duplicate()
    }

    fn set_result(&mut self, result: RukiniaResultEntry)
        ensures
            final(self)@ == result@,
            final(self).arguments@ == old(self).arguments@,
            final(self).syntax@ == old(self).syntax@,
    {
        self.result = result;
    }

    fn display_format(&self) -> (r: String)
        ensures
            r@ == symlink_label(views_of(self.arguments@), mods_contain_not(self.syntax@)),
    {
        Self::build_label(&self.arguments, &self.syntax)
    }

    fn get_syntax(&self) -> (r: SyntaxForTrait)
        ensures
            r@ == self.syntax@,
    {
        self.syntax.duplicate()
    }
}

} // verus!
