//! Server discovery: what a Syphon server directory reports, and lookups
//! over it.

use vstd::prelude::*;

verus! {

/// Information about a discovered Syphon server.
///
/// `name` is not unique: several servers can share a display name. `uuid`
/// identifies a server instance unambiguously.
#[derive(Debug, Clone)]
pub struct ServerInfo {
    /// Display name set by the server. May be empty. Not guaranteed unique.
    pub name: String,
    /// Unique identifier for this server instance.
    pub uuid: String,
    /// Name of the application that owns the server.
    pub app_name: String,
    /// Application bundle identifier.
    pub bundle_id: String,
}

/// The name under which a server is shown: its own name, or the name of its
/// application when the server's name is empty.
pub open spec fn display_text(s: ServerInfo) -> Seq<char> {
    if s.name@.len() == 0 {
        s.app_name@
    } else {
        s.name@
    }
}

/// A server answers to `name` when its own name or its application's name
/// is `name`.
pub open spec fn names_server(s: ServerInfo, name: Seq<char>) -> bool {
    s.name@ == name || s.app_name@ == name
}

impl ServerInfo {
    /// Returns `name` if non-empty, otherwise `app_name`.
    pub fn display_name(&self) -> (r: &str)
        ensures
            r@ == display_text(*self),
    {
        if self.name.as_str().is_empty() {
            self.app_name.as_str()
        } else {
            self.name.as_str()
        }
    }

    /// Whether this server answers to `name` (see [`names_server`]).
    pub fn answers_to(&self, name: &String) -> (r: bool)
        ensures
            r == names_server(*self, name@),
    {
        self.name == *name || self.app_name == *name
    }
}

/// What to do before reading the directory's server list.
#[derive(Debug, Clone, Copy, PartialEq, Eq)]
pub enum DiscoveryPlan {
    /// The directory already knows servers: read them now.
    UseKnown,
    /// Ask running servers to announce themselves, spin the run loop for
    /// `wait_ms` milliseconds, then read the list.
    AnnounceAndWait { wait_ms: u32 },
}

/// How long the run loop spins for announcements when no server is known.
pub const ANNOUNCE_WAIT_MS: u32 = 200;

/// Lookups over the servers that a Syphon server directory reports.
pub struct SyphonServerDirectory;

impl SyphonServerDirectory {
    /// Decides how to refresh the directory given how many servers it knows
    /// already: announcements are requested only when it knows none.
    pub fn discovery_plan(known_servers: usize) -> (plan: DiscoveryPlan)
        ensures
            known_servers == 0 ==> plan == (DiscoveryPlan::AnnounceAndWait { wait_ms: ANNOUNCE_WAIT_MS }),
            known_servers != 0 ==> plan == DiscoveryPlan::UseKnown,
    {
        if known_servers == 0 {
            DiscoveryPlan::AnnounceAndWait { wait_ms: ANNOUNCE_WAIT_MS }
        } else {
            DiscoveryPlan::UseKnown
        }
    }

    /// Find a server by its unique UUID: the first of `servers` whose
    /// `uuid` is `uuid`.
    #[verifier::loop_isolation(false)]
    pub fn find_by_uuid(servers: Vec<ServerInfo>, uuid: &str) -> (r: Option<ServerInfo>)
        ensures
            r is None <==> forall|i: int| 0 <= i < servers@.len() ==> servers@[i].uuid@ != uuid@,
            r matches Some(s) ==> exists|i: int|
                0 <= i < servers@.len() && servers@[i] == s && s.uuid@ == uuid@
                    && forall|j: int| 0 <= j < i ==> servers@[j].uuid@ != uuid@,
    {
        let target = uuid.to_owned();
        let ghost all = servers@;
        let mut servers = servers;
        let mut i: usize = 0;
        while i < servers.len()
            invariant
                servers@ == all,
                target@ == uuid@,
                i <= all.len(),
                forall|j: int| 0 <= j < i ==> all[j].uuid@ != uuid@,
            decreases all.len() - i,
        {
            if servers[i].uuid == target {
                let s = servers.remove(i);
                assert(all[i as int] == s && s.uuid@ == uuid@);
                return Some(s);
            }
            i = i + 1;
        }
        None
    }

    /// Find a server by display name or app name: the first of `servers`
    /// that answers to `name`.
    #[verifier::loop_isolation(false)]
    pub fn find_server(servers: Vec<ServerInfo>, name: &str) -> (r: Option<ServerInfo>)
        ensures
            r is None <==> forall|i: int| 0 <= i < servers@.len() ==> !names_server(servers@[i], name@),
            r matches Some(s) ==> exists|i: int|
                0 <= i < servers@.len() && servers@[i] == s && names_server(s, name@)
                    && forall|j: int| 0 <= j < i ==> !names_server(servers@[j], name@),
    {
        let target = name.to_owned();
        let ghost all = servers@;
        let mut servers = servers;
        let mut i: usize = 0;
        while i < servers.len()
            invariant
                servers@ == all,
                target@ == name@,
                i <= all.len(),
                forall|j: int| 0 <= j < i ==> !names_server(all[j], name@),
            decreases all.len() - i,
        {
            if servers[i].answers_to(&target) {
                let s = servers.remove(i);
                assert(all[i as int] == s && names_server(s, name@));
                return Some(s);
            }
            i = i + 1;
        }
        None
    }

    /// Returns `true` if at least one of `servers` answers to `name`.
    pub fn server_exists(servers: Vec<ServerInfo>, name: &str) -> (r: bool)
        ensures
            r <==> exists|i: int| 0 <= i < servers@.len() && names_server(servers@[i], name@),
    {
        Self::find_server(servers, name).is_some()
    }
}

} // verus!

verus! {

/// A server answers to the name it is displayed under, so looking a server
/// up by its display name finds it (or an earlier server of the same name).
pub proof fn lemma_answers_to_display_name(s: ServerInfo)
    ensures
        names_server(s, display_text(s)),
{
}

} // verus!
