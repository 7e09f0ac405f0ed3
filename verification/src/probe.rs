//! The capability surface between the checks and the machine.
//!
//! Every check reads the system through exactly one of these methods.  Each
//! method carries a spec-level model, so a check's verdict is a proved
//! function of the observation; what the observation *is* on a live system is
//! the business of whatever implements the trait outside this crate.

use vstd::prelude::*;
use crate::strutil::views_of;

verus! {

/// One network interface address entry as the checks read it: the interface
/// name, the textual flag set, and which address family the entry carries.
pub struct InterfaceAddress {
    pub name: String,
    pub flags: String,
    pub has_ipv4: bool,
    pub has_ipv6: bool,
}

/// Mathematical image of an interface address entry.
pub ghost struct InterfaceAddressModel {
    pub name: Seq<char>,
    pub flags: Seq<char>,
    pub has_ipv4: bool,
    pub has_ipv6: bool,
}

impl View for InterfaceAddress {
    type V = InterfaceAddressModel;

    open spec fn view(&self) -> InterfaceAddressModel {
        InterfaceAddressModel {
            name: self.name@,
            flags: self.flags@,
            has_ipv4: self.has_ipv4,
            has_ipv6: self.has_ipv6,
        }
    }
}

/// The views of a sequence of interface address entries.
pub open spec fn iface_views(v: Seq<InterfaceAddress>) -> Seq<InterfaceAddressModel> {
    v.map_values(|a: InterfaceAddress| a@)
}

/// The view of a text observation: the payload or the system error text.
pub open spec fn text_view(r: Result<String, String>) -> Result<Seq<char>, Seq<char>> {
    match r {
        Ok(s) => Ok(s@),
        Err(e) => Err(e@),
    }
}

/// How a check observes the machine.  One method per kind of inspection; the
/// paired spec function names what the method returned, so that contracts up
/// the stack can speak about it exactly.
pub trait SystemProbe {
    /// The verdict of running `argv[0]` with the following arguments: did it
    /// exit successfully.
    open spec fn command_model(&self, argv: Seq<Seq<char>>) -> bool {
        vstd::pervasive::arbitrary()
    }

    fn run_command(&self, argv: &Vec<String>) -> (r: bool)
        ensures
            r == self.command_model(views_of(argv@)),
    ;

    /// The content of the user database, `/etc/passwd` on a live system.
    open spec fn passwd_model(&self) -> Result<Seq<char>, Seq<char>> {
        vstd::pervasive::arbitrary()
    }

    fn read_passwd_file(&self) -> (r: Result<String, String>)
        ensures
            text_view(r) == self.passwd_model(),
    ;

    /// The content of the group database, `/etc/group` on a live system.
    open spec fn group_file_model(&self) -> Result<Seq<char>, Seq<char>> {
        vstd::pervasive::arbitrary()
    }

    fn read_group_file(&self) -> (r: Result<String, String>)
        ensures
            text_view(r) == self.group_file_model(),
    ;

    /// The content of the kernel configuration, `/proc/config.gz`.
    open spec fn kernel_config_model(&self) -> Result<Seq<char>, Seq<char>> {
        vstd::pervasive::arbitrary()
    }

    fn read_kernel_config(&self) -> (r: Result<String, String>)
        ensures
            text_view(r) == self.kernel_config_model(),
    ;

    /// The content of the loaded-module table, `/proc/modules`.
    open spec fn modules_model(&self) -> Result<Seq<char>, Seq<char>> {
        vstd::pervasive::arbitrary()
    }

    fn read_modules_file(&self) -> (r: Result<String, String>)
        ensures
            text_view(r) == self.modules_model(),
    ;

    /// The status file of every numbered process directory under `/proc`.
    open spec fn process_statuses_model(&self) -> Result<Seq<Seq<char>>, Seq<char>> {
        vstd::pervasive::arbitrary()
    }

    fn read_process_statuses(&self) -> (r: Result<Vec<String>, String>)
        ensures
            match r {
                Ok(v) => self.process_statuses_model() == Ok::<_, Seq<char>>(views_of(v@)),
                Err(e) => self.process_statuses_model() == Err::<Seq<Seq<char>>, _>(e@),
            },
    ;

    /// The operational state of one interface,
    /// `/sys/class/net/<iface>/operstate`.
    open spec fn operstate_model(&self, iface: Seq<char>) -> Result<Seq<char>, Seq<char>> {
        vstd::pervasive::arbitrary()
    }

    fn read_interface_state(&self, iface: &String) -> (r: Result<String, String>)
        ensures
            text_view(r) == self.operstate_model(iface@),
    ;

    /// The address entries of every network interface.
    open spec fn ifaddrs_model(&self) -> Result<Seq<InterfaceAddressModel>, Seq<char>> {
        vstd::pervasive::arbitrary()
    }

    fn interface_addresses(&self) -> (r: Result<Vec<InterfaceAddress>, String>)
        ensures
            match r {
                Ok(v) => self.ifaddrs_model() == Ok::<_, Seq<char>>(iface_views(v@)),
                Err(e) => self.ifaddrs_model() == Err::<Seq<InterfaceAddressModel>, _>(e@),
            },
    ;

    /// The outcome of one HTTP GET: whether the status was a success.
    open spec fn http_model(&self, url: Seq<char>) -> Result<bool, Seq<char>> {
        vstd::pervasive::arbitrary()
    }

    fn http_get_success(&self, url: &String) -> (r: Result<bool, String>)
        ensures
            match r {
                Ok(b) => self.http_model(url@) == Ok::<_, Seq<char>>(b),
                Err(e) => self.http_model(url@) == Err::<bool, _>(e@),
            },
    ;

    /// Whether the path names a symbolic link.
    open spec fn symlink_model(&self, path: Seq<char>) -> bool {
        vstd::pervasive::arbitrary()
    }

    fn is_symlink(&self, path: &String) -> (r: bool)
        ensures
            r == self.symlink_model(path@),
    ;

    /// What the symbolic link points at.
    open spec fn link_target_model(&self, path: Seq<char>) -> Result<Seq<char>, Seq<char>> {
        vstd::pervasive::arbitrary()
    }

    fn read_link_target(&self, path: &String) -> (r: Result<String, String>)
        ensures
            text_view(r) == self.link_target_model(path@),
    ;

    /// The canonical form of a path.
    open spec fn canonical_model(&self, path: Seq<char>) -> Result<Seq<char>, Seq<char>> {
        vstd::pervasive::arbitrary()
    }

    fn canonical_path(&self, path: &String) -> (r: Result<String, String>)
        ensures
            text_view(r) == self.canonical_model(path@),
    ;

    /// A user's primary group id, or nothing for an unknown user.
    open spec fn primary_group_model(&self, user: Seq<char>) -> Result<Option<u32>, Seq<char>> {
        vstd::pervasive::arbitrary()
    }

    fn user_primary_group(&self, user: &String) -> (r: Result<Option<u32>, String>)
        ensures
            match r {
                Ok(g) => self.primary_group_model(user@) == Ok::<_, Seq<char>>(g),
                Err(e) => self.primary_group_model(user@) == Err::<Option<u32>, _>(e@),
            },
    ;

    /// Every group id the user belongs to, primary group included.
    open spec fn group_list_model(&self, user: Seq<char>, primary: u32) -> Result<Seq<u32>, Seq<char>> {
        vstd::pervasive::arbitrary()
    }

    fn user_group_list(&self, user: &String, primary: u32) -> (r: Result<Vec<u32>, String>)
        ensures
            match r {
                Ok(v) => self.group_list_model(user@, primary) == Ok::<_, Seq<char>>(v@),
                Err(e) => self.group_list_model(user@, primary) == Err::<Seq<u32>, _>(e@),
            },
    ;

    /// The id of a named group, or nothing when it cannot be resolved.
    open spec fn group_id_model(&self, group: Seq<char>) -> Option<u32> {
        vstd::pervasive::arbitrary()
    }

    fn find_group(&self, group: &String) -> (r: Option<u32>)
        ensures
            r == self.group_id_model(group@),
    ;
}

/// A probe whose answers are plain stored values: the deterministic stand-in
/// used to exercise the engine on known observations.  Path canonicalisation
/// is the identity here, so link comparisons work on the stored texts.
pub struct FixedProbe {
    pub command_succeeds: bool,
    pub passwd_file: Result<String, String>,
    pub group_file: Result<String, String>,
    pub kernel_config: Result<String, String>,
    pub modules_file: Result<String, String>,
    pub process_statuses: Result<Vec<String>, String>,
    pub interface_state: Result<String, String>,
    pub addresses: Result<Vec<InterfaceAddress>, String>,
    pub http_success: Result<bool, String>,
    pub symlink_present: bool,
    pub link_target: Result<String, String>,
    pub primary_group: Result<Option<u32>, String>,
    pub group_list: Result<Vec<u32>, String>,
    pub group_gid: Option<u32>,
}

/// Copy a text observation.
fn dup_text(r: &Result<String, String>) -> (d: Result<String, String>)
    ensures
        text_view(d) == text_view(*r),
{
    match r {
        Ok(s) => Ok(s.clone()),
        Err(e) => Err(e.clone()),
    }
}

impl Default for FixedProbe {
    /// A probe on which nothing is observable: commands fail, every file and
    /// lookup reports `unavailable`.
    fn default() -> (r: Self)
        ensures
            !r.command_succeeds,
            text_view(r.passwd_file) == Err::<Seq<char>, _>("unavailable"@),
            text_view(r.group_file) == Err::<Seq<char>, _>("unavailable"@),
            text_view(r.kernel_config) == Err::<Seq<char>, _>("unavailable"@),
            text_view(r.modules_file) == Err::<Seq<char>, _>("unavailable"@),
            r.process_statuses matches Err(e) && e@ == "unavailable"@,
            text_view(r.interface_state) == Err::<Seq<char>, _>("unavailable"@),
            r.addresses matches Err(e) && e@ == "unavailable"@,
            r.http_success matches Err(e) && e@ == "unavailable"@,
            !r.symlink_present,
            text_view(r.link_target) == Err::<Seq<char>, _>("unavailable"@),
            r.primary_group matches Err(e) && e@ == "unavailable"@,
            r.group_list matches Err(e) && e@ == "unavailable"@,
            r.group_gid is None,
    {
        FixedProbe {
            command_succeeds: false,
            passwd_file: Err(String::from_str("unavailable")),
            group_file: Err(String::from_str("unavailable")),
            kernel_config: Err(String::from_str("unavailable")),
            modules_file: Err(String::from_str("unavailable")),
            process_statuses: Err(String::from_str("unavailable")),
            interface_state: Err(String::from_str("unavailable")),
            addresses: Err(String::from_str("unavailable")),
            http_success: Err(String::from_str("unavailable")),
            symlink_present: false,
            link_target: Err(String::from_str("unavailable")),
            primary_group: Err(String::from_str("unavailable")),
            group_list: Err(String::from_str("unavailable")),
            group_gid: None,
        }
    }
}

impl SystemProbe for FixedProbe {
    open spec fn command_model(&self, argv: Seq<Seq<char>>) -> bool {
        self.command_succeeds
    }

    fn run_command(&self, argv: &Vec<String>) -> (r: bool) {
        self.command_succeeds
    }

    open spec fn passwd_model(&self) -> Result<Seq<char>, Seq<char>> {
        text_view(self.passwd_file)
    }

    fn read_passwd_file(&self) -> (r: Result<String, String>) {
        dup_text(&self.passwd_file)
    }

    open spec fn group_file_model(&self) -> Result<Seq<char>, Seq<char>> {
        text_view(self.group_file)
    }

    fn read_group_file(&self) -> (r: Result<String, String>) {
        dup_text(&self.group_file)
    }

    open spec fn kernel_config_model(&self) -> Result<Seq<char>, Seq<char>> {
        text_view(self.kernel_config)
    }

    fn read_kernel_config(&self) -> (r: Result<String, String>) {
        dup_text(&self.kernel_config)
    }

    open spec fn modules_model(&self) -> Result<Seq<char>, Seq<char>> {
        text_view(self.modules_file)
    }

    fn read_modules_file(&self) -> (r: Result<String, String>) {
        dup_text(&self.modules_file)
    }

    open spec fn process_statuses_model(&self) -> Result<Seq<Seq<char>>, Seq<char>> {
        match self.process_statuses {
            Ok(v) => Ok(views_of(v@)),
            Err(e) => Err(e@),
        }
    }

    fn read_process_statuses(&self) -> (r: Result<Vec<String>, String>) {
        match &self.process_statuses {
            Ok(v) => {
                let out = crate::strutil::tail_strings(v, 0);
                proof {
                    assert(views_of(out@) =~= views_of(v@));
                }
                Ok(out)
            },
            Err(e) => Err(e.clone()),
        }
    }

    open spec fn operstate_model(&self, iface: Seq<char>) -> Result<Seq<char>, Seq<char>> {
        text_view(self.interface_state)
    }

    fn read_interface_state(&self, iface: &String) -> (r: Result<String, String>) {
        dup_text(&self.interface_state)
    }

    open spec fn ifaddrs_model(&self) -> Result<Seq<InterfaceAddressModel>, Seq<char>> {
        match self.addresses {
            Ok(v) => Ok(iface_views(v@)),
            Err(e) => Err(e@),
        }
    }

    fn interface_addresses(&self) -> (r: Result<Vec<InterfaceAddress>, String>) {
        match &self.addresses {
            Ok(v) => {
                let mut out: Vec<InterfaceAddress> = Vec::new();
                let mut i: usize = 0;
                while i < v.len()
                    invariant
                        i <= v@.len(),
                        iface_views(out@) =~= iface_views(v@).take(i as int),
                    decreases v@.len() - i,
                {
                    let a = &v[i];
                    let copy = InterfaceAddress {
                        name: a.name.clone(),
                        flags: a.flags.clone(),
                        has_ipv4: a.has_ipv4,
                        has_ipv6: a.has_ipv6,
                    };
                    proof {
                        assert(iface_views(out@.push(copy)) =~= iface_views(out@).push(copy@));
                        assert(iface_views(v@).take(i as int + 1) =~= iface_views(v@).take(
                            i as int,
                        ).push(v@[i as int]@));
                    }
                    out.push(copy);
                    i += 1;
                }
                proof {
                    assert(iface_views(out@) =~= iface_views(v@));
                }
                Ok(out)
            },
            Err(e) => Err(e.clone()),
        }
    }

    open spec fn http_model(&self, url: Seq<char>) -> Result<bool, Seq<char>> {
        match self.http_success {
            Ok(b) => Ok(b),
            Err(e) => Err(e@),
        }
    }

    fn http_get_success(&self, url: &String) -> (r: Result<bool, String>) {
        match &self.http_success {
            Ok(b) => Ok(*b),
            Err(e) => Err(e.clone()),
        }
    }

    open spec fn symlink_model(&self, path: Seq<char>) -> bool {
        self.symlink_present
    }

    fn is_symlink(&self, path: &String) -> (r: bool) {
        self.symlink_present
    }

    open spec fn link_target_model(&self, path: Seq<char>) -> Result<Seq<char>, Seq<char>> {
        text_view(self.link_target)
    }

    fn read_link_target(&self, path: &String) -> (r: Result<String, String>) {
        dup_text(&self.link_target)
    }

    open spec fn canonical_model(&self, path: Seq<char>) -> Result<Seq<char>, Seq<char>> {
        Ok(path)
    }

    fn canonical_path(&self, path: &String) -> (r: Result<String, String>) {
        Ok(path.clone())
    }

    open spec fn primary_group_model(&self, user: Seq<char>) -> Result<Option<u32>, Seq<char>> {
        match self.primary_group {
            Ok(g) => Ok(g),
            Err(e) => Err(e@),
        }
    }

    fn user_primary_group(&self, user: &String) -> (r: Result<Option<u32>, String>) {
        match &self.primary_group {
            Ok(g) => Ok(*g),
            Err(e) => Err(e.clone()),
        }
    }

    open spec fn group_list_model(&self, user: Seq<char>, primary: u32) -> Result<
        Seq<u32>,
        Seq<char>,
    > {
        match self.group_list {
            Ok(v) => Ok(v@),
            Err(e) => Err(e@),
        }
    }

    fn user_group_list(&self, user: &String, primary: u32) -> (r: Result<Vec<u32>, String>) {
        match &self.group_list {
            Ok(v) => {
                let mut out: Vec<u32> = Vec::new();
                let mut i: usize = 0;
                while i < v.len()
                    invariant
                        i <= v@.len(),
                        out@ =~= v@.take(i as int),
                    decreases v@.len() - i,
                {
                    out.push(v[i]);
                    i += 1;
                }
                proof {
                    assert(out@ =~= v@);
                }
                Ok(out)
            },
            Err(e) => Err(e.clone()),
        }
    }

    open spec fn group_id_model(&self, group: Seq<char>) -> Option<u32> {
        self.group_gid
    }

    fn find_group(&self, group: &String) -> (r: Option<u32>) {
        self.group_gid
    }
}

} // verus!
