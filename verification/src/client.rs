//! The client side: the protocol that connects to a server, and the
//! decisions made when a frame is received and read.

use vstd::prelude::*;
use crate::directory::{ServerInfo, names_server};
use crate::error::SyphonError;

verus! {

/// How often the server list is polled before the connection gives up.
pub const MAX_CONNECT_ATTEMPTS: u32 = 30;

/// How long the run loop is spun before each poll, in milliseconds.
pub const POLL_RUN_LOOP_MS: u32 = 50;

/// How long the thread sleeps after spinning the run loop, in milliseconds.
pub const POLL_SLEEP_MS: u32 = 50;

/// Which server a client wants to connect to.
#[derive(Debug)]
pub enum ServerQuery {
    /// A server that answers to this name (its own name or its app's name).
    /// Several servers answering to it make the connection fail.
    ByName(String),
    /// The server with this UUID.
    ByUuid(String),
}

/// Whether server `s` is one that query `q` asks for.
pub open spec fn query_matches(q: ServerQuery, s: ServerInfo) -> bool {
    match q {
        ServerQuery::ByName(name) => names_server(s, name@),
        ServerQuery::ByUuid(uuid) => s.uuid@ == uuid@,
    }
}

/// The text by which a query names its server.
pub open spec fn query_text(q: ServerQuery) -> Seq<char> {
    match q {
        ServerQuery::ByName(name) => name@,
        ServerQuery::ByUuid(uuid) => uuid@,
    }
}

/// Where the server a query asks for stands in a server list.
#[derive(Debug, Clone, Copy, PartialEq, Eq)]
pub enum ServerLocation {
    /// No server in the list matches.
    Missing,
    /// The server at this index is the one to connect to.
    Found(usize),
    /// Several servers answer to the name that was asked for.
    Ambiguous,
}

/// No server of the list matches the query.
pub open spec fn none_match(q: ServerQuery, servers: Seq<ServerInfo>) -> bool {
    forall|i: int| 0 <= i < servers.len() ==> !query_matches(q, #[trigger] servers[i])
}

/// Two different servers of the list match the query.
pub open spec fn two_match(q: ServerQuery, servers: Seq<ServerInfo>) -> bool {
    exists|i: int, j: int|
        0 <= i < j < servers.len() && query_matches(q, #[trigger] servers[i]) && query_matches(q, #[trigger] servers[j])
}

/// Server `i` is the first of the list that matches the query.
pub open spec fn first_match_at(q: ServerQuery, servers: Seq<ServerInfo>, i: int) -> bool {
    &&& 0 <= i < servers.len()
    &&& query_matches(q, servers[i])
    &&& forall|j: int| 0 <= j < i ==> !query_matches(q, #[trigger] servers[j])
}

impl ServerQuery {
    /// Whether `server` is one that this query asks for.
    pub fn matches(&self, server: &ServerInfo) -> (r: bool)
        ensures
            r == query_matches(*self, *server),
    {
        match self {
            ServerQuery::ByName(name) => server.answers_to(name),
            ServerQuery::ByUuid(uuid) => server.uuid == *uuid,
        }
    }

    /// The text by which this query names its server.
    pub fn text(&self) -> (t: String)
        ensures
            t@ == query_text(*self),
    {
        match self {
            ServerQuery::ByName(name) => name.clone(),
            ServerQuery::ByUuid(uuid) => uuid.clone(),
        }
    }

    /// Locates the server this query asks for in `servers`. A name query
    /// that several servers answer to is ambiguous; a UUID query takes the
    /// first server with that UUID.
    pub fn locate(&self, servers: &Vec<ServerInfo>) -> (r: ServerLocation)
        ensures
            r is Missing <==> none_match(*self, servers@),
            r matches ServerLocation::Found(i) ==> first_match_at(*self, servers@, i as int),
            r matches ServerLocation::Found(i) ==> (*self is ByName ==> !two_match(*self, servers@)),
            r is Ambiguous ==> *self is ByName && two_match(*self, servers@),
    {
        let mut i: usize = 0;
        while i < servers.len()
            invariant
                i <= servers@.len(),
                forall|j: int| 0 <= j < i ==> !query_matches(*self, #[trigger] servers@[j]),
            ensures
                i <= servers@.len(),
                forall|j: int| 0 <= j < i ==> !query_matches(*self, #[trigger] servers@[j]),
                i < servers@.len() ==> query_matches(*self, servers@[i as int]),
            decreases servers@.len() - i,
        {
            if self.matches(&servers[i]) {
                break;
            }
            i = i + 1;
        }
        if i == servers.len() {
            return ServerLocation::Missing;
        }
        assert(query_matches(*self, servers@[i as int]));
        let first = i;
        if let ServerQuery::ByUuid(_) = self {
            return ServerLocation::Found(first);
        }
        let mut k: usize = first + 1;
        while k < servers.len()
            invariant
                first < k <= servers@.len(),
                query_matches(*self, servers@[first as int]),
                *self is ByName,
                forall|j: int| first < j < k ==> !query_matches(*self, #[trigger] servers@[j]),
            decreases servers@.len() - k,
        {
            if self.matches(&servers[k]) {
                assert(query_matches(*self, servers@[first as int]) && query_matches(*self, servers@[k as int]));
                return ServerLocation::Ambiguous;
            }
            k = k + 1;
        }
        ServerLocation::Found(first)
    }
}

} // verus!

verus! {

/// How far a connection has got.
#[derive(Debug, Clone, Copy, PartialEq, Eq)]
pub enum ConnectStage {
    /// Looking up the server directory class.
    LookingUpDirectory,
    /// Polling the server list; `attempt` polls have come back empty so far.
    Polling { attempt: u32 },
    /// The server was found; getting the default Metal device.
    AcquiringDevice,
    /// Looking up the Metal client class.
    LookingUpClientClass,
    /// Initialising the client on the found server.
    CreatingClient,
    /// Asking the new client whether it is valid.
    CheckingValidity,
    /// The connection has succeeded or failed; nothing is left to do.
    Finished,
}

/// What initialising the client object gave.
#[derive(Debug, Clone, Copy, PartialEq, Eq)]
pub enum ClientInit {
    /// A client object was created.
    Created,
    /// The initialiser returned nil.
    Null,
    /// The initialiser raised (an Objective-C exception or a panic).
    Raised,
}

/// The answer to the last action of a connection.
#[derive(Debug)]
pub enum ConnectEvent {
    /// Whether the server directory class exists.
    DirectoryLookedUp { found: bool },
    /// The servers that the directory lists now.
    ServersListed { servers: Vec<ServerInfo> },
    /// Whether a default Metal device was obtained.
    DeviceAcquired { found: bool },
    /// Whether the Metal client class exists.
    ClientClassLookedUp { found: bool },
    /// What initialising the client gave.
    ClientInitialized { outcome: ClientInit },
    /// Whether the created client reports itself valid.
    ValidityChecked { valid: bool },
}

/// The server a successful connection is attached to.
#[derive(Debug)]
pub struct ConnectedServer {
    pub name: String,
    pub app_name: String,
}

/// What the caller must do next for a connection.
#[derive(Debug)]
pub enum ConnectAction {
    /// Look up the server directory class.
    LookUpDirectory,
    /// Optionally request server announcements, spin the run loop for
    /// `run_loop_ms`, sleep for `sleep_ms`, then list the servers.
    ListServers { announce: bool, run_loop_ms: u32, sleep_ms: u32 },
    /// Keep (retain) the description of the listed server at
    /// `server_index` and get the default Metal device.
    AcquireDevice { server_index: usize },
    /// Look up the Metal client class.
    LookUpClientClass,
    /// Initialise a client on the kept server description, then release it.
    CreateClient,
    /// Ask the client whether it is valid.
    CheckValidity,
    /// The connection is over, with this outcome.
    Finish(Result<ConnectedServer, SyphonError>),
    /// Nothing is left to do.
    Done,
}

/// The connection protocol of a client: a state machine that the caller
/// drives by performing each action and handing back its answer.
#[derive(Debug)]
pub struct ConnectMachine {
    query: ServerQuery,
    stage: ConnectStage,
    server_index: usize,
    server_name: String,
    server_app: String,
}

/// Whether `event` answers the action that `stage` is waiting on.
pub open spec fn answers(stage: ConnectStage, event: ConnectEvent) -> bool {
    match stage {
        ConnectStage::LookingUpDirectory => event is DirectoryLookedUp,
        ConnectStage::Polling { .. } => event is ServersListed,
        ConnectStage::AcquiringDevice => event is DeviceAcquired,
        ConnectStage::LookingUpClientClass => event is ClientClassLookedUp,
        ConnectStage::CreatingClient => event is ClientInitialized,
        ConnectStage::CheckingValidity => event is ValidityChecked,
        ConnectStage::Finished => false,
    }
}

/// The action a stage waits on.
pub open spec fn stage_action(stage: ConnectStage, server_index: usize) -> ConnectAction {
    match stage {
        ConnectStage::LookingUpDirectory => ConnectAction::LookUpDirectory,
        ConnectStage::Polling { attempt } => ConnectAction::ListServers {
            announce: attempt == 0,
            run_loop_ms: POLL_RUN_LOOP_MS,
            sleep_ms: POLL_SLEEP_MS,
        },
        ConnectStage::AcquiringDevice => ConnectAction::AcquireDevice { server_index },
        ConnectStage::LookingUpClientClass => ConnectAction::LookUpClientClass,
        ConnectStage::CreatingClient => ConnectAction::CreateClient,
        ConnectStage::CheckingValidity => ConnectAction::CheckValidity,
        ConnectStage::Finished => ConnectAction::Done,
    }
}

/// How many answered events a connection can still take, at most.
pub open spec fn remaining_steps(stage: ConnectStage) -> nat {
    match stage {
        ConnectStage::LookingUpDirectory => (MAX_CONNECT_ATTEMPTS + 5) as nat,
        ConnectStage::Polling { attempt } => if attempt < MAX_CONNECT_ATTEMPTS {
            (MAX_CONNECT_ATTEMPTS - attempt + 4) as nat
        } else {
            5
        },
        ConnectStage::AcquiringDevice => 4,
        ConnectStage::LookingUpClientClass => 3,
        ConnectStage::CreatingClient => 2,
        ConnectStage::CheckingValidity => 1,
        ConnectStage::Finished => 0,
    }
}

impl ConnectMachine {
    pub closed spec fn spec_query(&self) -> ServerQuery {
        self.query
    }

    pub closed spec fn spec_stage(&self) -> ConnectStage {
        self.stage
    }

    pub closed spec fn spec_server_index(&self) -> usize {
        self.server_index
    }

    pub closed spec fn spec_server_name(&self) -> Seq<char> {
        self.server_name@
    }

    pub closed spec fn spec_server_app(&self) -> Seq<char> {
        self.server_app@
    }

    /// The poll counter never reaches the limit.
    pub open spec fn wf(&self) -> bool {
        self.spec_stage() matches ConnectStage::Polling { attempt } ==> attempt < MAX_CONNECT_ATTEMPTS
    }

    /// The action this connection waits on.
    pub open spec fn pending(&self) -> ConnectAction {
        stage_action(self.spec_stage(), self.spec_server_index())
    }

    /// A connection to the server that `query` asks for, not yet started.
    pub fn new(query: ServerQuery) -> (m: Self)
        ensures
            m.spec_query() == query,
            m.spec_stage() == ConnectStage::LookingUpDirectory,
            m.wf(),
    {
        ConnectMachine {
            query,
            stage: ConnectStage::LookingUpDirectory,
            server_index: 0,
            server_name: String::new(),
            server_app: String::new(),
        }
    }

    /// How far the connection has got.
    pub fn stage(&self) -> (s: ConnectStage)
        ensures
            s == self.spec_stage(),
    {
        self.stage
    }

    /// The action this connection waits on.
    pub fn next_action(&self) -> (a: ConnectAction)
        ensures
            a == self.pending(),
    {
        match self.stage {
            ConnectStage::LookingUpDirectory => ConnectAction::LookUpDirectory,
            ConnectStage::Polling { attempt } => ConnectAction::ListServers {
                announce: attempt == 0,
                run_loop_ms: POLL_RUN_LOOP_MS,
                sleep_ms: POLL_SLEEP_MS,
            },
            ConnectStage::AcquiringDevice => ConnectAction::AcquireDevice { server_index: self.server_index },
            ConnectStage::LookingUpClientClass => ConnectAction::LookUpClientClass,
            ConnectStage::CreatingClient => ConnectAction::CreateClient,
            ConnectStage::CheckingValidity => ConnectAction::CheckValidity,
            ConnectStage::Finished => ConnectAction::Done,
        }
    }

    /// Takes the answer to the pending action and returns the next action.
    ///
    /// An event that does not answer the pending action changes nothing, and
    /// the pending action is returned again.
    pub fn step(&mut self, event: ConnectEvent) -> (a: ConnectAction)
        ensures
            final(self).spec_query() == old(self).spec_query(),
            old(self).wf() ==> final(self).wf(),
            // An answered event brings the connection strictly closer to its end.
            answers(old(self).spec_stage(), event) ==> remaining_steps(final(self).spec_stage())
                < remaining_steps(old(self).spec_stage()),
            !answers(old(self).spec_stage(), event) ==> *final(self) == *old(self) && a == old(self).pending(),
            // The directory class.
            event matches ConnectEvent::DirectoryLookedUp { found } ==> old(self).spec_stage() is LookingUpDirectory ==> {
                if found {
                    &&& final(self).spec_stage() == (ConnectStage::Polling { attempt: 0 })
                    &&& a == final(self).pending()
                } else {
                    &&& final(self).spec_stage() is Finished
                    &&& a matches ConnectAction::Finish(Err(SyphonError::FrameworkNotFound(m)))
                    &&& m@ == "SyphonServerDirectory not found"@
                }
            },
            // A poll of the server list.
            old(self).spec_stage() matches ConnectStage::Polling { attempt }
                ==> event matches ConnectEvent::ServersListed { servers } ==> {
                let q = old(self).spec_query();
                if none_match(q, servers@) {
                    if attempt + 1 < MAX_CONNECT_ATTEMPTS {
                        &&& final(self).spec_stage() == (ConnectStage::Polling { attempt: (attempt + 1) as u32 })
                        &&& a == final(self).pending()
                    } else {
                        &&& final(self).spec_stage() is Finished
                        &&& a matches ConnectAction::Finish(Err(SyphonError::ServerNotFound(m)))
                        &&& m@ == query_text(q)
                    }
                } else if q is ByName && two_match(q, servers@) {
                    &&& final(self).spec_stage() is Finished
                    &&& a matches ConnectAction::Finish(Err(SyphonError::AmbiguousServerName(m)))
                    &&& m@ == query_text(q)
                } else {
                    &&& final(self).spec_stage() is AcquiringDevice
                    &&& first_match_at(q, servers@, final(self).spec_server_index() as int)
                    &&& final(self).spec_server_name() == servers@[final(self).spec_server_index() as int].name@
                    &&& final(self).spec_server_app() == servers@[final(self).spec_server_index() as int].app_name@
                    &&& a == (ConnectAction::AcquireDevice { server_index: final(self).spec_server_index() })
                }
            },
            // The Metal device.
            event matches ConnectEvent::DeviceAcquired { found } ==> old(self).spec_stage() is AcquiringDevice ==> {
                if found {
                    &&& final(self).spec_stage() is LookingUpClientClass
                    &&& a is LookUpClientClass
                } else {
                    &&& final(self).spec_stage() is Finished
                    &&& a matches ConnectAction::Finish(Err(SyphonError::FrameworkNotFound(m)))
                    &&& m@ == "Metal not available - cannot create Syphon client"@
                }
            },
            // The client class.
            event matches ConnectEvent::ClientClassLookedUp { found } ==> old(self).spec_stage() is LookingUpClientClass ==> {
                if found {
                    &&& final(self).spec_stage() is CreatingClient
                    &&& a is CreateClient
                } else {
                    &&& final(self).spec_stage() is Finished
                    &&& a matches ConnectAction::Finish(Err(SyphonError::FrameworkNotFound(m)))
                    &&& m@ == "SyphonMetalClient class not found"@
                }
            },
            // The client object.
            event matches ConnectEvent::ClientInitialized { outcome } ==> old(self).spec_stage() is CreatingClient ==> {
                match outcome {
                    ClientInit::Created => {
                        &&& final(self).spec_stage() is CheckingValidity
                        &&& a is CheckValidity
                    },
                    ClientInit::Null => {
                        &&& final(self).spec_stage() is Finished
                        &&& a matches ConnectAction::Finish(Err(SyphonError::CreateFailed(m)))
                        &&& m@ == "Failed to create SyphonClient"@
                    },
                    ClientInit::Raised => {
                        &&& final(self).spec_stage() is Finished
                        &&& a matches ConnectAction::Finish(Err(SyphonError::CreateFailed(m)))
                        &&& m@ == "SyphonMetalClient initialization failed - server may be invalid"@
                    },
                }
            },
            // The client's validity.
            event matches ConnectEvent::ValidityChecked { valid } ==> old(self).spec_stage() is CheckingValidity ==> {
                &&& final(self).spec_stage() is Finished
                &&& if valid {
                    &&& a matches ConnectAction::Finish(Ok(server))
                    &&& server.name@ == old(self).spec_server_name()
                    &&& server.app_name@ == old(self).spec_server_app()
                } else {
                    &&& a matches ConnectAction::Finish(Err(SyphonError::CreateFailed(m)))
                    &&& m@ == "Client is not valid - server may have stopped"@
                }
            },
            // The chosen server changes only when a poll chooses one.
            !(old(self).spec_stage() is Polling && final(self).spec_stage() is AcquiringDevice) ==> {
                &&& final(self).spec_server_index() == old(self).spec_server_index()
                &&& final(self).spec_server_name() == old(self).spec_server_name()
                &&& final(self).spec_server_app() == old(self).spec_server_app()
            },
    {
        match (self.stage, event) {
            (ConnectStage::LookingUpDirectory, ConnectEvent::DirectoryLookedUp { found }) => {
                if found {
                    self.stage = ConnectStage::Polling { attempt: 0 };
                    self.next_action()
                } else {
                    self.finish_with_error(SyphonError::FrameworkNotFound("SyphonServerDirectory not found".to_owned()))
                }
            },
            (ConnectStage::Polling { attempt }, ConnectEvent::ServersListed { servers }) => {
                match self.query.locate(&servers) {
                    ServerLocation::Missing => {
                        if attempt < MAX_CONNECT_ATTEMPTS - 1 {
                            self.stage = ConnectStage::Polling { attempt: attempt + 1 };
                            self.next_action()
                        } else {
                            let text = self.query.text();
                            self.finish_with_error(SyphonError::ServerNotFound(text))
                        }
                    },
                    ServerLocation::Ambiguous => {
                        let text = self.query.text();
                        self.finish_with_error(SyphonError::AmbiguousServerName(text))
                    },
                    ServerLocation::Found(index) => {
                        let ghost listed = servers@;
                        let mut servers = servers;
                        let chosen = servers.remove(index);
                        self.server_index = index;
                        self.server_name = chosen.name;
                        self.server_app = chosen.app_name;
                        self.stage = ConnectStage::AcquiringDevice;
                        ConnectAction::AcquireDevice { server_index: index }
                    },
                }
            },
            (ConnectStage::AcquiringDevice, ConnectEvent::DeviceAcquired { found }) => {
                if found {
                    self.stage = ConnectStage::LookingUpClientClass;
                    ConnectAction::LookUpClientClass
                } else {
                    self.finish_with_error(SyphonError::FrameworkNotFound(
                        "Metal not available - cannot create Syphon client".to_owned(),
                    ))
                }
            },
            (ConnectStage::LookingUpClientClass, ConnectEvent::ClientClassLookedUp { found }) => {
                if found {
                    self.stage = ConnectStage::CreatingClient;
                    ConnectAction::CreateClient
                } else {
                    self.finish_with_error(SyphonError::FrameworkNotFound("SyphonMetalClient class not found".to_owned()))
                }
            },
            (ConnectStage::CreatingClient, ConnectEvent::ClientInitialized { outcome }) => {
                match outcome {
                    ClientInit::Created => {
                        self.stage = ConnectStage::CheckingValidity;
                        ConnectAction::CheckValidity
                    },
                    ClientInit::Null => self.finish_with_error(
                        SyphonError::CreateFailed("Failed to create SyphonClient".to_owned()),
                    ),
                    ClientInit::Raised => self.finish_with_error(SyphonError::CreateFailed(
                        "SyphonMetalClient initialization failed - server may be invalid".to_owned(),
                    )),
                }
            },
            (ConnectStage::CheckingValidity, ConnectEvent::ValidityChecked { valid }) => {
                self.stage = ConnectStage::Finished;
                if valid {
                    ConnectAction::Finish(Ok(ConnectedServer {
                        name: self.server_name.clone(),
                        app_name: self.server_app.clone(),
                    }))
                } else {
                    ConnectAction::Finish(Err(SyphonError::CreateFailed(
                        "Client is not valid - server may have stopped".to_owned(),
                    )))
                }
            },
            _ => self.next_action(),
        }
    }

    fn finish_with_error(&mut self, e: SyphonError) -> (a: ConnectAction)
        ensures
            final(self).spec_stage() == ConnectStage::Finished,
            final(self).spec_query() == old(self).spec_query(),
            final(self).spec_server_index() == old(self).spec_server_index(),
            final(self).spec_server_name() == old(self).spec_server_name(),
            final(self).spec_server_app() == old(self).spec_server_app(),
            a == ConnectAction::Finish(Err(e)),
    {
        self.stage = ConnectStage::Finished;
        ConnectAction::Finish(Err(e))
    }
}

} // verus!

verus! {

/// The width and height of a received frame, from its surface's reported
/// width, height and row stride. A surface whose reported width is less than
/// a quarter of its stride (four bytes per BGRA pixel) is taken to be as wide
/// as its stride allows. Both are truncated to 32 bits.
pub fn frame_dimensions(surface_width: usize, surface_height: usize, bytes_per_row: usize) -> (dims: (u32, u32))
    ensures
        dims.0 == (if surface_width >= bytes_per_row / 4 { surface_width } else { bytes_per_row / 4 }) as u32,
        dims.1 == surface_height as u32,
{
    let quarter = bytes_per_row / 4;
    let width = if surface_width >= quarter { surface_width } else { quarter };
    (width as u32, surface_height as u32)
}

/// The number of bytes a frame occupies: one stride per row.
pub fn frame_byte_len(height: u32, bytes_per_row: usize) -> (n: usize)
    requires
        height * bytes_per_row <= usize::MAX,
    ensures
        n == height * bytes_per_row,
{
    height as usize * bytes_per_row
}

/// Lock a surface for reading only.
pub const LOCK_READ_ONLY: u32 = 1;

/// Lock a surface without waiting for pending GPU work.
pub const LOCK_AVOID_SYNC: u32 = 2;

/// What to do after a lock attempt on a frame's surface returned.
#[derive(Debug, PartialEq, Eq)]
pub enum LockStep {
    /// The surface is locked: read its base address.
    ReadBaseAddress,
    /// Try once more with these lock options.
    Retry { options: u32 },
    /// Give up with this error.
    Fail(SyphonError),
}

/// The options of the first attempt to lock a frame's surface.
pub fn first_lock_options() -> (options: u32)
    ensures
        options == LOCK_READ_ONLY,
{
    LOCK_READ_ONLY
}

/// Decides what follows a lock attempt that returned `status` (0 is
/// success), given whether it was already the retry. A failed first attempt
/// is retried once, read-only without synchronisation; a failed retry gives
/// up.
pub fn after_lock_attempt(was_retry: bool, status: i32) -> (step: LockStep)
    ensures
        status == 0 ==> step == LockStep::ReadBaseAddress,
        status != 0 && !was_retry ==> step == (LockStep::Retry { options: LOCK_READ_ONLY | LOCK_AVOID_SYNC }),
        status != 0 && was_retry ==> step == LockStep::Fail(SyphonError::LockFailed),
{
    if status == 0 {
        LockStep::ReadBaseAddress
    } else if !was_retry {
        LockStep::Retry { options: LOCK_READ_ONLY | LOCK_AVOID_SYNC }
    } else {
        LockStep::Fail(SyphonError::LockFailed)
    }
}

/// Decides what follows reading the base address of a locked surface: a
/// null address means the surface must be unlocked again and the lock
/// fails.
pub fn after_base_address(is_null: bool) -> (r: Result<(), SyphonError>)
    ensures
        is_null <==> r == Err::<(), SyphonError>(SyphonError::LockFailed),
        !is_null <==> r is Ok,
{
    if is_null {
        Err(SyphonError::LockFailed)
    } else {
        Ok(())
    }
}

/// The result of unlocking a surface, from the status the unlock returned
/// (0 is success).
pub fn unlock_result(status: i32) -> (r: Result<(), SyphonError>)
    ensures
        status == 0 <==> r is Ok,
        status != 0 <==> r == Err::<(), SyphonError>(SyphonError::LockFailed),
{
    if status == 0 {
        Ok(())
    } else {
        Err(SyphonError::LockFailed)
    }
}

} // verus!

verus! {

/// Every poll of the server list waits in the same way, whatever the
/// attempt: it spins the run loop for 50 ms, so that server announcements
/// are delivered, then sleeps for 50 ms before listing the servers. Only the
/// first poll asks the servers to announce themselves.
pub proof fn lemma_every_poll_spins_the_run_loop(m: ConnectMachine)
    requires
        m.spec_stage() is Polling,
    ensures
        m.pending() matches ConnectAction::ListServers { announce, run_loop_ms, sleep_ms }
            && run_loop_ms == 50 && sleep_ms == 50 && announce == (m.spec_stage()->attempt == 0),
{
}

/// Two connections that are both polling wait alike: their pending actions
/// differ at most in whether servers are asked to announce themselves.
pub proof fn lemma_polls_wait_alike(m1: ConnectMachine, m2: ConnectMachine)
    requires
        m1.spec_stage() is Polling,
        m2.spec_stage() is Polling,
    ensures
        m1.pending() matches ConnectAction::ListServers { run_loop_ms: r1, sleep_ms: s1, .. }
            && m2.pending() matches ConnectAction::ListServers { run_loop_ms: r2, sleep_ms: s2, .. }
            && r1 == r2 && s1 == s2,
{
}

} // verus!
