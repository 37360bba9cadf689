use crate::text::{decimal, decimal_text, is_http};
use tokio::sync::oneshot::Sender;
use vstd::prelude::*;
use vstd::string::*;

verus! {

/// tokio's `oneshot::Sender`, carried as an opaque kill channel.
#[verifier::external_type_specification]
#[verifier::external_body]
#[verifier::reject_recursive_types(T)]
pub struct ExSender<T>(Sender<T>);

/// Relies on tokio's `oneshot::Sender::send`: it consumes the sender and
/// delivers the value unless the receiver is gone. Nothing is promised of the
/// outcome.
pub assume_specification<T>[ Sender::<T>::send ](s: Sender<T>, t: T) -> Result<(), T>;

/// The view of an optional string.
pub open spec fn opt_view(o: Option<String>) -> Option<Seq<char>> {
    match o {
        Some(s) => Some(s@),
        None => None,
    }
}

/// The command line of the tunnel process: the connection type first, the
/// port last, and `--domain <value>` between them only for an http tunnel
/// with a domain.
pub open spec fn ngrok_args(connection_type: Seq<char>, port: u32, domain: Option<Seq<char>>) -> Seq<Seq<char>> {
    if connection_type == "http"@ && domain is Some {
        seq![connection_type, "--domain"@, domain->Some_0, decimal(port as nat)]
    } else {
        seq![connection_type, decimal(port as nat)]
    }
}

pub open spec fn started_msg(connection_type: Seq<char>, port: u32) -> Seq<char> {
    "Start "@ + connection_type + " connection on "@ + decimal(port as nat) + " port"@
}

pub open spec fn failed_msg(connection_type: Seq<char>, port: u32) -> Seq<char> {
    "Failed to start "@ + connection_type + " connection on "@ + decimal(port as nat) + " port"@
}

pub open spec fn already_running_msg() -> Seq<char> {
    "Ngrok is already running"@
}

pub open spec fn awaiting_exit_msg() -> Seq<char> {
    "Ngrok is still stopping"@
}

/// A start may go on to spawn a process only once no child is alive.
pub open spec fn start_allowed(child: bool) -> bool {
    !child
}

/// Whether a handle is held after `prepare_start`.
pub open spec fn running_after_prepare(running: bool, kill_on_start: bool) -> bool {
    running && !kill_on_start
}

/// One event for the supervisor: a start (with whether the spawn itself
/// succeeded), a kill, or the report that the child has exited.
pub enum SupervisorOp {
    Start { kill_on_start: bool, spawned: bool },
    Kill,
    ChildExited,
}

/// The supervisor as plain values: whether a kill handle is held, and
/// whether a child may still be alive.
pub struct SupervisorModel {
    pub running: bool,
    pub child: bool,
}

/// One event applied as `prepare_start`, `start`, `kill` and `child_exited`
/// apply it: the state after it, and whether a process was spawned while
/// another child was still alive.
pub open spec fn step(m: SupervisorModel, op: SupervisorOp) -> (SupervisorModel, bool) {
    match op {
        SupervisorOp::Kill => (SupervisorModel { running: false, child: m.child }, false),
        SupervisorOp::ChildExited => (SupervisorModel { running: false, child: false }, false),
        SupervisorOp::Start { kill_on_start, spawned } => {
            if start_allowed(m.child) {
                (SupervisorModel { running: spawned, child: spawned }, spawned && m.child)
            } else {
                (SupervisorModel { running: running_after_prepare(m.running, kill_on_start), child: m.child }, false)
            }
        },
    }
}

/// How many spawns of a sequence of events happen while a child is alive.
pub open spec fn overlapping_spawns(m: SupervisorModel, ops: Seq<SupervisorOp>) -> nat
    decreases ops.len(),
{
    if ops.len() == 0 {
        0
    } else {
        let (next, overlap) = step(m, ops[0]);
        overlapping_spawns(next, ops.subrange(1, ops.len() as int)) + if overlap { 1nat } else { 0nat }
    }
}

/// Whatever sequence of starts, kills and exits arrives, from any state, no
/// process is ever spawned while another child is alive: a start kills first
/// and waits for the exit, or is refused.
pub proof fn lemma_single_instance(m: SupervisorModel, ops: Seq<SupervisorOp>)
    ensures
        overlapping_spawns(m, ops) == 0,
    decreases ops.len(),
{
    if ops.len() > 0 {
        let (next, overlap) = step(m, ops[0]);
        lemma_single_instance(next, ops.subrange(1, ops.len() as int));
    }
}

/// Builds the tunnel process's arguments.
pub fn collect_args(connection_type: &str, port: u32, domain: &Option<String>) -> (r: Vec<String>)
    ensures
        r.deep_view() == ngrok_args(connection_type@, port, opt_view(*domain)),
{
    let mut args: Vec<String> = Vec::new();
    args.push(connection_type.to_owned());
    if is_http(connection_type) {
        if let Some(d) = domain {
            args.push("--domain".to_owned());
            args.push(d.clone());
        }
    }
    args.push(decimal_text(port));
    assert(args.deep_view() =~= ngrok_args(connection_type@, port, opt_view(*domain)));
    args
}

/// Why `prepare_start` did not hand out arguments.
#[derive(Clone, Copy, Debug, PartialEq, Eq)]
pub enum StartBlocked {
    /// A process runs and the caller did not ask to kill it.
    AlreadyRunning,
    /// A kill was signalled and the child has not been reported gone yet:
    /// wait for `child_exited`, then ask again.
    AwaitingExit,
}

impl StartBlocked {
    pub open spec fn spec_message(self) -> Seq<char> {
        match self {
            StartBlocked::AlreadyRunning => already_running_msg(),
            StartBlocked::AwaitingExit => awaiting_exit_msg(),
        }
    }

    /// What the user is told.
    pub fn message(&self) -> (r: String)
        ensures
            r@ == self.spec_message(),
    {
        match self {
            StartBlocked::AlreadyRunning => "Ngrok is already running".to_owned(),
            StartBlocked::AwaitingExit => "Ngrok is still stopping".to_owned(),
        }
    }
}

/// The tunnel process supervisor. It holds the kill channel of the process
/// it started, and knows whether a child it started may still be alive:
/// idle, running, or stopping (killed, exit not yet reported).
pub struct Ngrok {
    kill_channel: Option<Sender<()>>,
    stopping: bool,
}

impl Ngrok {
    /// A kill handle is held: a process was started and neither killed nor
    /// reported gone since.
    pub closed spec fn is_running(&self) -> bool {
        self.kill_channel is Some
    }

    /// A child may be alive: it runs, or it was killed and its exit has not
    /// been reported yet.
    pub closed spec fn has_child(&self) -> bool {
        self.kill_channel is Some || self.stopping
    }

    pub fn new() -> (r: Ngrok)
        ensures
            !r.is_running(),
            !r.has_child(),
    {
        Ngrok { kill_channel: None, stopping: false }
    }

    pub fn is_run(&self) -> (r: bool)
        ensures
            r == self.is_running(),
    {
        self.kill_channel.is_some()
    }

    /// Whether a child may still be alive.
    pub fn has_child_alive(&self) -> (r: bool)
        ensures
            r == self.has_child(),
    {
        self.kill_channel.is_some() || self.stopping
    }

    /// Signals the running process to stop and drops the handle; the child
    /// counts as alive until its exit is reported. A no-op when nothing runs.
    pub fn kill(&mut self)
        ensures
            !final(self).is_running(),
            final(self).has_child() == old(self).has_child(),
    {
        let taken = self.kill_channel.take();
        if let Some(channel) = taken {
            self.stopping = true;
            let _ = channel.send(());
        }
    }

    /// The child has exited, on its own or after a kill: back to idle.
    pub fn child_exited(&mut self)
        ensures
            !final(self).is_running(),
            !final(self).has_child(),
    {
        self.kill_channel = None;
        self.stopping = false;
    }

    /// The decisions that come before spawning: refuse when a process runs
    /// and the caller did not ask to kill it; kill it when asked to; hand out
    /// the arguments only once no child is alive.
    pub fn prepare_start(
        &mut self,
        connection_type: &str,
        port: u32,
        domain: &Option<String>,
        kill_on_start: bool,
    ) -> (r: Result<Vec<String>, StartBlocked>)
        ensures
            final(self).is_running() == running_after_prepare(old(self).is_running(), kill_on_start),
            final(self).has_child() == old(self).has_child(),
            r is Ok == start_allowed(old(self).has_child()),
            r is Ok ==> r->Ok_0.deep_view() == ngrok_args(connection_type@, port, opt_view(*domain)),
            r == Err::<Vec<String>, StartBlocked>(StartBlocked::AlreadyRunning)
                <==> (old(self).is_running() && !kill_on_start),
    {
        if self.is_run() {
            if kill_on_start {
                self.kill();
            } else {
                return Err(StartBlocked::AlreadyRunning);
            }
        }
        if self.has_child_alive() {
            return Err(StartBlocked::AwaitingExit);
        }
        Ok(collect_args(connection_type, port, domain))
    }

    /// Records the outcome of a spawn: the kill channel of the new process,
    /// or `None` where it could not be spawned, which leaves the state as it
    /// was.
    pub fn start(&mut self, connection_type: &str, port: u32, spawned: Option<Sender<()>>) -> (r: Result<String, String>)
        requires
            !old(self).has_child(),
        ensures
            final(self).is_running() == spawned is Some,
            final(self).has_child() == spawned is Some,
            r is Ok == spawned is Some,
            r is Ok ==> r->Ok_0@ == started_msg(connection_type@, port),
            r is Err ==> r->Err_0@ == failed_msg(connection_type@, port),
    {
        let p = decimal_text(port);
        match spawned {
            Some(send) => {
                self.kill_channel = Some(send);
                self.stopping = false;
                let mut m = "Start ".to_owned();
                m.append(connection_type);
                m.append(" connection on ");
                m.append(p.as_str());
                m.append(" port");
                Ok(m)
            },
            None => {
                let mut m = "Failed to start ".to_owned();
                m.append(connection_type);
                m.append(" connection on ");
                m.append(p.as_str());
                m.append(" port");
                Err(m)
            },
        }
    }
}

} // verus!
