//! The server above the connections: its configuration, and the supervisor
//! that admits connections while it runs and stops all of them with itself.

use crate::text::{append_decimal, decimal_text};
use vstd::prelude::*;
use vstd::string::*;

verus! {

/// Why the server cannot start.
#[derive(Debug, Clone, Copy, PartialEq, Eq, Structural)]
pub enum StartupFault {
    /// The configuration is unusable: the configured port leaves no port
    /// above it for the control transport.
    NoControlPort,
    /// A listening socket could not be bound.
    BindFailed,
}

/// Where the daemon listens.
#[derive(Debug, Clone, PartialEq, Eq)]
pub struct Config {
    pub ip: String,
    /// The port of the static site; the control transport takes the next
    /// one.
    pub port: u16,
}

/// The text of an endpoint: the host, a colon, the port in decimal.
pub open spec fn endpoint_text(ip: Seq<char>, port: nat) -> Seq<char> {
    ip + ":"@ + decimal_text(port)
}

/// Builds the text of an endpoint.
fn endpoint(ip: &str, port: u16) -> (r: String)
    ensures
        r@ == endpoint_text(ip@, port as nat),
{
    let mut out = String::from_str(ip);
    out.append(":");
    append_decimal(&mut out, port as u128);
    out
}

impl Config {
    /// The port of the control transport: the one after the site's port.
    pub fn control_port(&self) -> (r: Result<u16, StartupFault>)
        ensures
            match r {
                Ok(port) => port == self.port + 1,
                Err(fault) => self.port == u16::MAX && fault == StartupFault::NoControlPort,
            },
    {
        if self.port < u16::MAX {
            Ok(self.port + 1)
        } else {
            Err(StartupFault::NoControlPort)
        }
    }

    /// The endpoint on which the static site is served.
    pub fn site_endpoint(&self) -> (r: String)
        ensures
            r@ == endpoint_text(self.ip@, self.port as nat),
    {
        endpoint(self.ip.as_str(), self.port)
    }

    /// The endpoint on which the control transport listens.
    pub fn control_endpoint(&self) -> (r: Result<String, StartupFault>)
        ensures
            match r {
                Ok(text) => self.port < u16::MAX && text@ == endpoint_text(
                    self.ip@,
                    (self.port + 1) as nat,
                ),
                Err(fault) => self.port == u16::MAX && fault == StartupFault::NoControlPort,
            },
    {
        match self.control_port() {
            Ok(port) => Ok(endpoint(self.ip.as_str(), port)),
            Err(fault) => Err(fault),
        }
    }
}

/// The two long-lived tasks of a running server.
#[derive(Debug, Clone, Copy, PartialEq, Eq, Structural)]
pub enum ServerTask {
    AcceptLoop,
    SiteServer,
}

impl ServerTask {
    /// The task that runs beside this one.
    pub open spec fn spec_other(self) -> ServerTask {
        match self {
            ServerTask::AcceptLoop => ServerTask::SiteServer,
            ServerTask::SiteServer => ServerTask::AcceptLoop,
        }
    }

    /// The task that runs beside this one.
    #[verifier::when_used_as_spec(spec_other)]
    pub fn other(self) -> (r: ServerTask)
        ensures
            r == self.spec_other(),
    {
        match self {
            ServerTask::AcceptLoop => ServerTask::SiteServer,
            ServerTask::SiteServer => ServerTask::AcceptLoop,
        }
    }
}

/// What has to be stopped after one of the server's tasks ended.
#[derive(Debug, Clone, PartialEq, Eq)]
pub struct Shutdown {
    /// The task that still runs, if the server was running.
    pub task: Option<ServerTask>,
    /// The connections whose scopes have to be cancelled.
    pub connections: Vec<u64>,
}

/// The test that every identifier but `id` passes.
pub open spec fn other_than(id: u64) -> spec_fn(u64) -> bool {
    |c: u64| c != id
}

/// The mathematical value of a [`Server`].
pub ghost struct ServerView {
    /// Whether the server's scope exists.
    pub running: bool,
    /// The connections whose scopes hang under the server's, in the order
    /// in which they were admitted.
    pub connections: Seq<u64>,
    /// The identifier that the next connection gets.
    pub next_id: nat,
}

impl ServerView {
    /// What every reachable server satisfies: a stopped server has no
    /// connection, no identifier is in use twice, and none will be handed
    /// out again.
    pub open spec fn well_formed(self) -> bool {
        &&& !self.running ==> self.connections.len() == 0
        &&& self.connections.no_duplicates()
        &&& forall|i: int|
            0 <= i < self.connections.len() ==> (#[trigger] self.connections[i]) < self.next_id
    }

    /// The server after it started.
    pub open spec fn after_start(self) -> ServerView {
        ServerView { running: true, ..self }
    }

    /// The server after its scope was cancelled, by a stop request or by
    /// the end of one of its tasks.
    pub open spec fn after_stop(self) -> ServerView {
        ServerView { running: false, connections: Seq::empty(), ..self }
    }

    /// Whether a new connection can be admitted.
    pub open spec fn admits(self) -> bool {
        self.running && self.next_id < u64::MAX
    }

    /// The server after a transport connection was accepted.
    pub open spec fn after_accept(self) -> ServerView {
        if self.admits() {
            ServerView {
                connections: self.connections.push(self.next_id as u64),
                next_id: self.next_id + 1,
                ..self
            }
        } else {
            self
        }
    }

    /// The server after the connection `id` closed.
    pub open spec fn after_close(self, id: u64) -> ServerView {
        ServerView { connections: self.connections.filter(other_than(id)), ..self }
    }
}

/// The supervisor of the accept loop and of every live connection.
pub struct Server {
    running: bool,
    connections: Vec<u64>,
    next_id: u64,
}

impl View for Server {
    type V = ServerView;

    closed spec fn view(&self) -> ServerView {
        ServerView {
            running: self.running,
            connections: self.connections@,
            next_id: self.next_id as nat,
        }
    }
}

impl Server {
    /// A stopped server.
    pub fn new() -> (r: Server)
        ensures
            r@ == (ServerView { running: false, connections: Seq::empty(), next_id: 0 }),
            r@.well_formed(),
    {
        Server { running: false, connections: Vec::new(), next_id: 0 }
    }

    /// Whether the server's scope exists.
    pub fn is_running(&self) -> (r: bool)
        ensures
            r == self@.running,
    {
        self.running
    }

    /// The number of live connections.
    pub fn live_connections(&self) -> (r: usize)
        ensures
            r == self@.connections.len(),
    {
        self.connections.len()
    }

    /// Whether the connection `id` is live.
    pub fn is_live(&self, id: u64) -> (r: bool)
        ensures
            r == self@.connections.contains(id),
    {
        let mut i: usize = 0;
        while i < self.connections.len()
            invariant
                i <= self.connections.len(),
                forall|j: int| 0 <= j < i ==> self.connections@[j] != id,
            decreases self.connections.len() - i,
        {
            if self.connections[i] == id {
                return true;
            }
            i += 1;
        }
        false
    }

    /// Starts the server once its sockets are bound: with `Ok` the
    /// server's scope is created and connections are admitted from now on.
    /// With a fault the server stays as it was, so that it never runs half
    /// initialised, and the fault is handed on.
    pub fn start(&mut self, bound: Result<(), StartupFault>) -> (r: Result<(), StartupFault>)
        ensures
            final(self)@ == match bound {
                Ok(_) => old(self)@.after_start(),
                Err(_) => old(self)@,
            },
            r == bound,
            old(self)@.well_formed() ==> final(self)@.well_formed(),
    {
        if bound.is_ok() {
            self.running = true;
        }
        bound
    }

    /// Cancels the server's scope and with it the scope of every live
    /// connection. Returns the connections that have to be cancelled; none
    /// stays registered.
    pub fn stop(&mut self) -> (r: Vec<u64>)
        ensures
            final(self)@ == old(self)@.after_stop(),
            r@ == old(self)@.connections,
            final(self)@.well_formed(),
    {
        self.running = false;
        let mut cancelled: Vec<u64> = Vec::new();
        std::mem::swap(&mut self.connections, &mut cancelled);
        cancelled
    }

    /// Records that one of the server's tasks ended, for whatever reason:
    /// the server stops as if it had been asked to, so that the other task
    /// and every connection stop too.
    pub fn task_exited(&mut self, task: ServerTask) -> (r: Shutdown)
        ensures
            final(self)@ == old(self)@.after_stop(),
            r.task == if old(self)@.running {
                Some(task.spec_other())
            } else {
                None
            },
            r.connections@ == old(self)@.connections,
            final(self)@.well_formed(),
    {
        let task = if self.running {
            Some(task.other())
        } else {
            None
        };
        Shutdown { task, connections: self.stop() }
    }

    /// Admits a connection that the accept loop has accepted and gives it
    /// an identifier that no other connection has had. A stopped server
    /// admits none.
    pub fn accept(&mut self) -> (r: Option<u64>)
        ensures
            final(self)@ == old(self)@.after_accept(),
            match r {
                Some(id) => old(self)@.admits() && id == old(self)@.next_id,
                None => !old(self)@.admits(),
            },
            old(self)@.well_formed() ==> final(self)@.well_formed(),
    {
        if self.running && self.next_id < u64::MAX {
            let id = self.next_id;
            self.connections.push(id);
            self.next_id = id + 1;
            Some(id)
        } else {
            None
        }
    }

    /// Records that the connection `id` has closed. Returns whether it was
    /// live.
    pub fn connection_closed(&mut self, id: u64) -> (r: bool)
        ensures
            final(self)@ == old(self)@.after_close(id),
            r == old(self)@.connections.contains(id),
            old(self)@.well_formed() ==> final(self)@.well_formed(),
    {
        let ghost keep = other_than(id);
        let mut kept: Vec<u64> = Vec::new();
        let mut found = false;
        let mut i: usize = 0;
        while i < self.connections.len()
            invariant
                i <= self.connections.len(),
                *self == *old(self),
                keep == other_than(id),
                kept@ == self.connections@.take(i as int).filter(keep),
                found == self.connections@.take(i as int).contains(id),
            decreases self.connections.len() - i,
        {
            let c = self.connections[i];
            proof {
                let front = self.connections@.take(i as int);
                assert(self.connections@.take(i + 1) =~= front.push(c));
                Seq::lemma_filter_push(front, c, keep);
                if c == id {
                    assert(front.push(c)[front.len() as int] == id);
                }
            }
            if c == id {
                found = true;
            } else {
                kept.push(c);
            }
            i += 1;
        }
        proof {
            assert(self.connections@.take(i as int) =~= self.connections@);
            lemma_filter_keeps_well_formed(old(self)@, id);
        }
        self.connections = kept;
        found
    }
}

/// Closing a connection leaves a well-formed server well formed.
proof fn lemma_filter_keeps_well_formed(s: ServerView, id: u64)
    ensures
        s.well_formed() ==> s.after_close(id).well_formed(),
{
    if s.well_formed() {
        let keep = other_than(id);
        let rest = s.connections.filter(keep);
        Seq::lemma_filter_len(s.connections, keep);
        assert forall|i: int| 0 <= i < rest.len() implies (#[trigger] rest[i]) < s.next_id by {
            Seq::lemma_filter_contains_rev(s.connections, keep, rest[i]);
        }
        lemma_filter_no_duplicates(s.connections, keep);
    }
}

/// Filtering a sequence without duplicates leaves none.
proof fn lemma_filter_no_duplicates(s: Seq<u64>, keep: spec_fn(u64) -> bool)
    requires
        s.no_duplicates(),
    ensures
        s.filter(keep).no_duplicates(),
    decreases s.len(),
{
    reveal(Seq::filter);
    if s.len() > 0 {
        let front = s.drop_last();
        lemma_filter_no_duplicates(front, keep);
        if keep(s.last()) {
            let rest = front.filter(keep);
            assert forall|i: int| 0 <= i < rest.len() implies rest[i] != s.last() by {
                Seq::lemma_filter_contains_rev(front, keep, rest[i]);
            }
        }
    }
}

} // verus!
