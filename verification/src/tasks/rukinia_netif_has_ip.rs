//! The check that a network interface carries an address of the wanted
//! family, optionally filtered by interface flags.

use vstd::prelude::*;
use crate::probe::InterfaceAddressModel;
use crate::probe::SystemProbe;
use crate::probe::iface_views;
use crate::rukinia_result::EntryModel;
use crate::rukinia_result::RukiniaError;
use crate::rukinia_result::RukiniaResultEntry;
use crate::rukinia_result::RukiniaResultType;
use crate::rukinia_result::format_message_spec;
use crate::strutil::contains_lower;
use crate::strutil::contains_lower_spec;
use crate::strutil::string_eq;
use crate::strutil::trim_blank;
use crate::strutil::trim_quotes;
use crate::strutil::trim_quotes_spec;
use crate::strutil::trim_spec;
use crate::strutil::views_of;
use crate::syntax::SyntaxForTrait;
use crate::syntax::SyntaxModel;
use crate::syntax::mods_contain_not;
use crate::tasks::task::RukiniaProcess;
use crate::tasks::task::applied_entry;
use crate::tasks::task::apply_syntax_entry;
use crate::tasks::task::command_context;
use crate::tasks::task::not_prefix;
use crate::tasks::task::task_error;

verus! {

pub struct RukiniaNetifHasIp {
    pub arguments: Vec<String>,
    pub syntax: SyntaxForTrait,
    pub result: RukiniaResultEntry,
    pub ip_version: String,
    pub extra_flags: String,
}

impl View for RukiniaNetifHasIp {
    type V = EntryModel;

    open spec fn view(&self) -> EntryModel {
        self.result@
    }
}

/// Whether any argument after the first selects the IPv6 family.
pub open spec fn want6_spec(args: Seq<Seq<char>>) -> bool {
    exists|j: int| 1 <= j < args.len() && args[j] == "-6"@
}

/// The textual form of the selected family.
pub open spec fn ip_version_text(want6: bool) -> Seq<char> {
    if want6 {
        "-6"@
    } else {
        "-4"@
    }
}

/// The extra flag words collected from the arguments before position `j`,
/// each followed by one space; the family selector itself is skipped.
pub open spec fn extra_flags_upto(args: Seq<Seq<char>>, j: int) -> Seq<char>
    decreases j when 0 <= j
{
    if j <= 1 {
        Seq::empty()
    } else if args[j - 1] == "-6"@ {
        extra_flags_upto(args, j - 1)
    } else {
        extra_flags_upto(args, j - 1) + args[j - 1] + " "@
    }
}

/// All extra flag words of the argument list.
pub open spec fn extra_flags_spec(args: Seq<Seq<char>>) -> Seq<char> {
    extra_flags_upto(args, args.len() as int)
}

/// Whether one address entry satisfies the check: right interface, flags
/// matching the (case-insensitively compared) extra words, and an address of
/// the wanted family.
pub open spec fn netif_entry_matches(
    e: InterfaceAddressModel,
    iface: Seq<char>,
    want6: bool,
    extra_trim: Seq<char>,
) -> bool {
    e.name == iface && (extra_trim.len() == 0 || contains_lower_spec(e.flags, extra_trim)) && (
    if want6 {
        e.has_ipv6
    } else {
        e.has_ipv4
    })
}

/// The default label:
/// `Checking interface <name> has [not ]ipv<version> assigned <extra>`.
pub open spec fn netif_label(args: Seq<Seq<char>>, not: bool) -> Seq<char> {
    "Checking interface "@ + args[0] + " has "@ + not_prefix(not) + "ipv"@ + ip_version_text(
        want6_spec(args),
    ) + " assigned "@ + extra_flags_spec(args)
}

/// What the interface-address check returns for given arguments, modifiers
/// and the observed address entries (or their retrieval error).
pub open spec fn netif_result_spec(
    args: Seq<Seq<char>>,
    ms: Seq<SyntaxModel>,
    addrs: Result<Seq<InterfaceAddressModel>, Seq<char>>,
) -> Result<EntryModel, Seq<char>> {
    if args.len() == 0 {
        Err(
            format_message_spec(
                command_context("rukinia_netif_has_ip"@, args),
                "Missing interface name argument"@,
                "No interface name provided"@,
            ),
        )
    } else {
        match addrs {
            Err(e) => Err(
                format_message_spec(
                    command_context("rukinia_netif_has_ip"@, args),
                    "Failed to retrieve network interfaces"@,
                    e,
                ),
            ),
            Ok(list) => Ok(
                applied_entry(
                    ms,
                    if exists|i: int|
                        0 <= i < list.len() && netif_entry_matches(
                            list[i],
                            trim_quotes_spec(args[0]),
                            want6_spec(args),
                            trim_spec(extra_flags_spec(args)),
                        ) {
                        RukiniaResultType::TestSuccess
                    } else {
                        RukiniaResultType::TestFail
                    },
                    netif_label(args, mods_contain_not(ms)),
                ),
            ),
        }
    }
}

impl RukiniaNetifHasIp {
    /// Parse the family selector and extra flag words, then scan the observed
    /// address entries for a match on the (quote-trimmed) interface name.
    pub fn new<P: SystemProbe>(
        arguments: Vec<String>,
        syntax: SyntaxForTrait,
        probe: &P,
    ) -> (r: Result<Self, RukiniaError>)
        ensures
            match r {
                Ok(t) => netif_result_spec(views_of(arguments@), syntax@, probe.ifaddrs_model())
                    == Ok::<_, Seq<char>>(t@) && views_of(t.arguments@) == views_of(arguments@)
                    && t.syntax@ == syntax@ && t.ip_version@ == ip_version_text(
                    want6_spec(views_of(arguments@)),
                ) && t.extra_flags@ == extra_flags_spec(views_of(arguments@)),
                Err(e) => netif_result_spec(views_of(arguments@), syntax@, probe.ifaddrs_model())
                    == Err::<EntryModel, _>(e@),
            },
    {
        let ghost va = views_of(arguments@);
        let mut ip_version = String::from_str("-4");
        let mut extra_flags = String::new();
        let mut want6 = false;
        let mut j: usize = 1;
        while j < arguments.len()
            invariant
                1 <= j || arguments@.len() == 0,
                j <= arguments@.len() || j == 1,
                va == views_of(arguments@),
                want6 == exists|k: int| 1 <= k < j && va[k] == "-6"@,
                extra_flags@ == extra_flags_upto(va, j as int),
                ip_version@ == ip_version_text(want6),
            decreases arguments@.len() - j,
        {
            proof {
                assert(va[j as int] == arguments@[j as int]@);
            }
            if string_eq(arguments[j].as_str(), "-6") {
                ip_version = String::from_str("-6");
                want6 = true;
            } else {
                extra_flags.append(arguments[j].as_str());
                extra_flags.append(" ");
            }
            j += 1;
        }
        proof {
            if arguments@.len() == 0 {
                assert(extra_flags_upto(va, 1) == extra_flags_upto(va, 0));
            }
            assert(extra_flags@ == extra_flags_spec(va));
            assert(want6 == want6_spec(va));
        }
        if arguments.len() == 0 {
            return Err(
                task_error(
                    "rukinia_netif_has_ip",
                    &arguments,
                    "Missing interface name argument",
                    String::from_str("No interface name provided"),
                ),
            );
        }
        proof {
            assert(va[0] == arguments@[0]@);
        }
        match probe.interface_addresses() {
            Err(e) => Err(
                task_error(
                    "rukinia_netif_has_ip",
                    &arguments,
                    "Failed to retrieve network interfaces",
                    e,
                ),
            ),
            Ok(list) => {
                let iface = String::from_str(trim_quotes(arguments[0].as_str()));
                let extra_trim = String::from_str(trim_blank(extra_flags.as_str()));
                let mut i: usize = 0;
                while i < list.len()
                    invariant
                        i <= list@.len(),
                        iface@ == trim_quotes_spec(va[0]),
                        extra_trim@ == trim_spec(extra_flags_spec(va)),
                        va == views_of(arguments@),
                        arguments@.len() >= 1,
                        ip_version@ == ip_version_text(want6_spec(va)),
                        extra_flags@ == extra_flags_spec(va),
                        forall|k: int|
                            0 <= k < i ==> !netif_entry_matches(
                                iface_views(list@)[k],
                                trim_quotes_spec(va[0]),
                                want6_spec(va),
                                trim_spec(extra_flags_spec(va)),
                            ),
                        want6 == want6_spec(va),
                        probe.ifaddrs_model() == Ok::<_, Seq<char>>(iface_views(list@)),
                    decreases list@.len() - i,
                {
                    proof {
                        assert(iface_views(list@)[i as int] == list@[i as int]@);
                    }
                    let e = &list[i];
                    let name_ok = string_eq(e.name.as_str(), iface.as_str());
                    let flags_ok = extra_trim.as_str().unicode_len() == 0 || contains_lower(
                        e.flags.as_str(),
                        extra_trim.as_str(),
                    );
                    let fam_ok = if want6 {
                        e.has_ipv6
                    } else {
                        e.has_ipv4
                    };
                    if name_ok && flags_ok && fam_ok {
                        proof {
                            assert(netif_entry_matches(
                                iface_views(list@)[i as int],
                                trim_quotes_spec(va[0]),
                                want6_spec(va),
                                trim_spec(extra_flags_spec(va)),
                            ));
                        }
                        let label = Self::build_label(&arguments, &syntax, &ip_version, &extra_flags);
                        let result = apply_syntax_entry(
                            RukiniaResultType::TestSuccess,
                            &syntax,
                            label,
                        );
                        proof {
                            let ml = probe.ifaddrs_model()->Ok_0;
                            assert(ml == iface_views(list@));
                            assert((i as int) < ml.len());
                            assert(exists|k: int|
                                0 <= k < ml.len() && netif_entry_matches(
                                    ml[k],
                                    trim_quotes_spec(views_of(arguments@)[0]),
                                    want6_spec(views_of(arguments@)),
                                    trim_spec(extra_flags_spec(views_of(arguments@))),
                                ));
                        }
                        return Ok(
                            RukiniaNetifHasIp { arguments, syntax, result, ip_version, extra_flags },
                        );
                    }
                    i += 1;
                }
                let label = Self::build_label(&arguments, &syntax, &ip_version, &extra_flags);
                let result = apply_syntax_entry(RukiniaResultType::TestFail, &syntax, label);
                Ok(RukiniaNetifHasIp { arguments, syntax, result, ip_version, extra_flags })
            },
        }
    }

    fn build_label(
        arguments: &Vec<String>,
        syntax: &SyntaxForTrait,
        ip_version: &String,
        extra_flags: &String,
    ) -> (r: String)
        requires
            arguments@.len() >= 1,
            ip_version@ == ip_version_text(want6_spec(views_of(arguments@))),
            extra_flags@ == extra_flags_spec(views_of(arguments@)),
        ensures
            r@ == netif_label(views_of(arguments@), mods_contain_not(syntax@)),
    {
        let mut s = String::from_str("Checking interface ");
        s.append(arguments[0].as_str());
        s.append(" has ");
        if syntax.contains_not() {
            s.append("not ");
        }
        s.append("ipv");
        s.append(ip_version.as_str());
        s.append(" assigned ");
        s.append(extra_flags.as_str());
        proof {
            assert(views_of(arguments@)[0] == arguments@[0]@);
            assert(s@ =~= netif_label(views_of(arguments@), mods_contain_not(syntax@)));
        }
        s
    }
}

impl RukiniaProcess for RukiniaNetifHasIp {
    open spec fn result_model(&self) -> EntryModel {
        self.result@
    }

    open spec fn syntax_model(&self) -> Seq<SyntaxModel> {
        self.syntax@
    }

    open spec fn default_label_model(&self) -> Seq<char> {
        netif_label(views_of(self.arguments@), mods_contain_not(self.syntax@))
    }

    open spec fn wf(&self) -> bool {
        self.arguments@.len() >= 1 && self.ip_version@ == ip_version_text(
            want6_spec(views_of(self.arguments@)),
        ) && self.extra_flags@ == extra_flags_spec(views_of(self.arguments@))
    }

    fn get_rukinia_command() -> (r: &'static str)
        ensures
            r@ == "rukinia_netif_has_ip"@,
    {
        "rukinia_netif_has_ip"
    }

    fn get_result(&self) -> (r: RukiniaResultEntry)
        ensures
            r@ == self@,
    {
        self.result.duplicate()
    }

    fn set_result(&mut self, result: RukiniaResultEntry)
        ensures
            final(self)@ == result@,
            final(self).arguments@ == old(self).arguments@,
            final(self).syntax@ == old(self).syntax@,
            final(self).ip_version@ == old(self).ip_version@,
            final(self).extra_flags@ == old(self).extra_flags@,
    {
        self.result = result;
    }

    fn display_format(&self) -> (r: String)
        ensures
            r@ == netif_label(views_of(self.arguments@), mods_contain_not(self.syntax@)),
    {
        Self::build_label(&self.arguments, &self.syntax, &self.ip_version, &self.extra_flags)
    }

    fn get_syntax(&self) -> (r: SyntaxForTrait)
        ensures
            r@ == self.syntax@,
    {
        self.syntax.duplicate()
    }
}

} // verus!
