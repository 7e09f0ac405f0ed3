//! The check that a user belongs to every named group.

use vstd::prelude::*;
use crate::probe::SystemProbe;
use crate::rukinia_result::EntryModel;
use crate::rukinia_result::RukiniaError;
use crate::rukinia_result::RukiniaResultEntry;
use crate::rukinia_result::RukiniaResultType;
use crate::rukinia_result::format_message_spec;
use crate::strutil::contains_u32;
use crate::strutil::find_char;
use crate::strutil::find_char_from;
use crate::strutil::join_spaces;
use crate::strutil::join_spaces_spec;
use crate::strutil::lemma_find_char_from;
use crate::strutil::tail_strings;
use crate::strutil::trim_quotes;
use crate::strutil::trim_quotes_spec;
use crate::strutil::views_of;
use crate::syntax::SyntaxForTrait;
use crate::syntax::SyntaxModel;
use crate::syntax::mods_contain_not;
use crate::tasks::task::RukiniaProcess;
use crate::tasks::task::applied_entry;
use crate::tasks::task::apply_syntax_entry;
use crate::tasks::task::command_context;
use crate::tasks::task::not_prefix;
use crate::tasks::task::task_error;

verus! {

pub struct RukiniaUserMemberOf {
    pub arguments: Vec<String>,
    pub syntax: SyntaxForTrait,
    pub result: RukiniaResultEntry,
}

impl View for RukiniaUserMemberOf {
    type V = EntryModel;

    open spec fn view(&self) -> EntryModel {
        self.result@
    }
}

/// The default label:
/// `Checking user <name> is [not ]member of <groups>`.
pub open spec fn memberof_label(args: Seq<Seq<char>>, not: bool) -> Seq<char> {
    "Checking user "@ + args[0] + " is "@ + not_prefix(not) + "member of "@ + join_spaces_spec(
        args.subrange(1, args.len() as int),
    )
}

/// From position `j` on, every argument names a resolvable group whose id is
/// in the user's group list.  Every argument is tested, the username itself
/// included.
pub open spec fn memberof_groups_ok<P: SystemProbe>(
    probe: &P,
    args: Seq<Seq<char>>,
    gids: Seq<u32>,
    j: int,
) -> bool
    decreases args.len() - j when 0 <= j
{
    if j >= args.len() {
        true
    } else {
        match probe.group_id_model(args[j]) {
            Some(g) => gids.contains(g) && memberof_groups_ok(probe, args, gids, j + 1),
            None => false,
        }
    }
}

/// What the membership check returns for given arguments, modifiers and
/// probe: the (quote-trimmed) first argument names the user; a username with
/// an embedded nul, an unknown user or a failed lookup is an error; otherwise
/// the verdict says whether every named group holds the user.
pub open spec fn memberof_result_spec<P: SystemProbe>(
    args: Seq<Seq<char>>,
    ms: Seq<SyntaxModel>,
    probe: &P,
) -> Result<EntryModel, Seq<char>> {
    if args.len() == 0 {
        Err(
            format_message_spec(
                command_context("rukinia_user_memberof"@, args),
                "Missing username argument"@,
                "No username provided"@,
            ),
        )
    } else {
        let username = trim_quotes_spec(args[0]);
        if username.contains('\0') {
            Err(
                format_message_spec(
                    command_context("rukinia_user_memberof"@, args),
                    "Failed to convert username to CString"@,
                    "nul byte in username"@,
                ),
            )
        } else {
            match probe.primary_group_model(username) {
                Err(e) => Err(
                    format_message_spec(
                        command_context("rukinia_user_memberof"@, args),
                        "Failed to retrieve user information"@,
                        e,
                    ),
                ),
                Ok(None) => Err(
                    format_message_spec(
                        command_context("rukinia_user_memberof"@, args),
                        "User not found"@,
                        "Failed to give user "@ + username,
                    ),
                ),
                Ok(Some(gid)) => match probe.group_list_model(username, gid) {
                    Err(e) => Err(
                        format_message_spec(
                            command_context("rukinia_user_memberof"@, args),
                            "Failed to retrieve group list for user "@ + username,
                            e,
                        ),
                    ),
                    Ok(gids) => Ok(
                        applied_entry(
                            ms,
                            if memberof_groups_ok(probe, args, gids, 0) {
                                RukiniaResultType::TestSuccess
                            } else {
                                RukiniaResultType::TestFail
                            },
                            memberof_label(args, mods_contain_not(ms)),
                        ),
                    ),
                },
            }
        }
    }
}

impl RukiniaUserMemberOf {
    /// Resolve the user's whole group list through the probe, then test every
    /// argument as a group name against it.
    pub fn new<P: SystemProbe>(
        arguments: Vec<String>,
        syntax: SyntaxForTrait,
        probe: &P,
    ) -> (r: Result<Self, RukiniaError>)
        ensures
            match r {
                Ok(t) => memberof_result_spec(views_of(arguments@), syntax@, probe) == Ok::<
                    _,
                    Seq<char>,
                >(t@) && views_of(t.arguments@) == views_of(arguments@) && t.syntax@ == syntax@,
                Err(e) => memberof_result_spec(views_of(arguments@), syntax@, probe) == Err::<
                    EntryModel,
                    _,
                >(e@),
            },
    {
        let ghost va = views_of(arguments@);
        if arguments.len() == 0 {
            return Err(
                task_error(
                    "rukinia_user_memberof",
                    &arguments,
                    "Missing username argument",
                    String::from_str("No username provided"),
                ),
            );
        }
        proof {
            assert(va[0] == arguments@[0]@);
        }
        let username = String::from_str(trim_quotes(arguments[0].as_str()));
        match find_char(username.as_str(), 0, '\0') {
            Some(_) => {
                proof {
                    lemma_find_char_from(username@, 0, '\0');
                }
                return Err(
                    task_error(
                        "rukinia_user_memberof",
                        &arguments,
                        "Failed to convert username to CString",
                        String::from_str("nul byte in username"),
                    ),
                );
            },
            None => {
                proof {
                    lemma_find_char_from(username@, 0, '\0');
                }
            },
        }
        let primary = match probe.user_primary_group(&username) {
            Err(e) => {
                return Err(
                    task_error(
                        "rukinia_user_memberof",
                        &arguments,
                        "Failed to retrieve user information",
                        e,
                    ),
                );
            },
            Ok(None) => {
                return Err(
                    task_error(
                        "rukinia_user_memberof",
                        &arguments,
                        "User not found",
                        String::from_str("Failed to give user ").concat(username.as_str()),
                    ),
                );
            },
            Ok(Some(gid)) => gid,
        };
        match probe.user_group_list(&username, primary) {
            Err(e) => Err(
                RukiniaError::new(
                    String::from_str("rukinia_user_memberof").concat(" ").concat(
                        join_spaces(&arguments).as_str(),
                    ),
                    String::from_str("Failed to retrieve group list for user ").concat(
                        username.as_str(),
                    ),
                    e,
                ),
            ),
            Ok(gids) => {
                let mut ok = true;
                let mut j: usize = 0;
                while j < arguments.len()
                    invariant
                        j <= arguments@.len(),
                        arguments@.len() >= 1,
                        va == views_of(arguments@),
                        username@ == trim_quotes_spec(va[0]),
                        !username@.contains('\0'),
                        probe.primary_group_model(username@) == Ok::<_, Seq<char>>(
                            Some(primary),
                        ),
                        probe.group_list_model(username@, primary) == Ok::<_, Seq<char>>(gids@),
                        memberof_groups_ok(probe, va, gids@, 0) == (ok && memberof_groups_ok(
                            probe,
                            va,
                            gids@,
                            j as int,
                        )),
                    decreases arguments@.len() - j,
                {
                    proof {
                        assert(va[j as int] == arguments@[j as int]@);
                    }
                    match probe.find_group(&arguments[j]) {
                        Some(g) => {
                            if !contains_u32(&gids, g) {
                                ok = false;
                            }
                        },
                        None => {
                            ok = false;
                        },
                    }
                    j += 1;
                }
                let raw = if ok {
                    RukiniaResultType::TestSuccess
                } else {
                    RukiniaResultType::TestFail
                };
                let label = Self::build_label(&arguments, &syntax);
                let result = apply_syntax_entry(raw, &syntax, label);
                Ok(RukiniaUserMemberOf { arguments, syntax, result })
            },
        }
    }

    fn build_label(arguments: &Vec<String>, syntax: &SyntaxForTrait) -> (r: String)
        requires
            arguments@.len() >= 1,
        ensures
            r@ == memberof_label(views_of(arguments@), mods_contain_not(syntax@)),
    {
        let rest = tail_strings(arguments, 1);
        let mut s = String::from_str("Checking user ");
        s.append(arguments[0].as_str());
        s.append(" is ");
        if syntax.contains_not() {
            s.append("not ");
        }
        s.append("member of ");
        s.append(join_spaces(&rest).as_str());
        proof {
            assert(views_of(arguments@)[0] == arguments@[0]@);
            assert(s@ =~= memberof_label(views_of(arguments@), mods_contain_not(syntax@)));
        }
        s
    }
}

impl RukiniaProcess for RukiniaUserMemberOf {
    open spec fn result_model(&self) -> EntryModel {
        self.result@
    }

    open spec fn syntax_model(&self) -> Seq<SyntaxModel> {
        self.syntax@
    }

    open spec fn default_label_model(&self) -> Seq<char> {
        memberof_label(views_of(self.arguments@), mods_contain_not(self.syntax@))
    }

    open spec fn wf(&self) -> bool {
        self.arguments@.len() >= 1
    }

    fn get_rukinia_command() -> (r: &'static str)
        ensures
            r@ == "rukinia_user_memberof"@,
    {
        "rukinia_user_memberof"
    }

    fn get_result(&self) -> (r: RukiniaResultEntry)
        ensures
            r@ == self@,
    {
        self.result.duplicate()
    }

    fn set_result(&mut self, result: RukiniaResultEntry)
        ensures
            final(self)@ == result@,
            final(self).arguments@ == old(self).arguments@,
            final(self).syntax@ == old(self).syntax@,
    {
        self.result = result;
    }

    fn display_format(&self) -> (r: String)
        ensures
            r@ == memberof_label(views_of(self.arguments@), mods_contain_not(self.syntax@)),
    {
        Self::build_label(&self.arguments, &self.syntax)
    }

    fn get_syntax(&self) -> (r: SyntaxForTrait)
        ensures
            r@ == self.syntax@,
    {
        self.syntax.duplicate()
    }
}

} // verus!
