//! The supervisor engine: the process table and the decisions of the event
//! loop. The loop itself (poll, reading the pipe, waitpid, the socket) runs
//! outside, hands each event to [`Engine::step`] and performs the action.
use vstd::prelude::*;

use crate::ipc::IPCMessage;
use crate::service::{Service, ServiceStatus, ServiceView};

verus! {

/// What `waitpid` reported for a child.
#[derive(Debug, Clone, Copy, PartialEq, Eq, Structural)]
pub enum WaitOutcome {
    /// The child exited normally with this status.
    Exited(u8),
    /// The child was killed by this signal.
    Signaled(i32),
    /// The child was stopped by this signal.
    Suspended(i32),
    /// The child was resumed.
    Continued,
    /// The child has not changed state.
    StillAlive,
}

/// Which side of a fork the caller is on.
#[derive(Debug, Clone, Copy, PartialEq, Eq, Structural)]
pub enum ForkOutcome {
    /// The supervisor, with the pid of the new child.
    Parent { child: i32 },
    /// The new child, which goes on to exec the service.
    Child,
}

/// A descriptor that the event loop waits on.
#[derive(Debug, Clone, Copy, PartialEq, Eq, Structural)]
pub enum Source {
    /// The read end of the self-pipe.
    Pipe,
    /// The listening control endpoint.
    Control,
}

/// An event handed to the engine by the event loop.
#[derive(Debug)]
pub enum Event {
    /// `waitpid` returned this outcome for a pid drained from the self-pipe.
    ChildStatus { pid: i32, outcome: WaitOutcome },
    /// A control request was read from an accepted connection.
    Request(IPCMessage),
}

/// What the event loop does after the engine handled an event.
#[derive(Debug)]
pub enum Action {
    /// Write this message back on the connection.
    Reply(IPCMessage),
    /// Send SIGTERM to this pid.
    Terminate(i32),
    /// Nothing to do.
    Nothing,
}

/// The process table: every record has a pid and a status, and no two records share a pid.
pub open spec fn table_wf(s: Seq<ServiceView>) -> bool {
    &&& forall|i: int| 0 <= i < s.len() ==> (#[trigger] s[i]).pid is Some && s[i].status is Some
    &&& forall|i: int, j: int|
        0 <= i < s.len() && 0 <= j < s.len() && i != j ==> (#[trigger] s[i]).pid != (#[trigger] s[j]).pid
}

/// Whether the table holds a record for this pid.
pub open spec fn tracks(s: Seq<ServiceView>, pid: i32) -> bool {
    exists|i: int| 0 <= i < s.len() && (#[trigger] s[i]).pid == Some(pid)
}

/// The record of a service right after it was forked as `pid`.
pub open spec fn launched(d: ServiceView, pid: i32) -> ServiceView {
    ServiceView {
        name: d.name,
        executable: d.executable,
        args: d.args,
        pid: Some(pid),
        status: Some(ServiceStatus::Running),
        exit_code: None,
    }
}

/// The table after the service `d` was forked as `pid`: a record under a
/// reused pid is replaced, else the record is added at the end.
pub open spec fn after_launch(s: Seq<ServiceView>, d: ServiceView, pid: i32) -> Seq<ServiceView> {
    if tracks(s, pid) {
        s.map_values(|r: ServiceView| if r.pid == Some(pid) { launched(d, pid) } else { r })
    } else {
        s.push(launched(d, pid))
    }
}

/// Whether a wait outcome says that the child is gone.
pub open spec fn is_terminal(o: WaitOutcome) -> bool {
    o is Exited || o is Signaled
}

/// A record after `waitpid` reported `o` for its pid.
pub open spec fn reaped(r: ServiceView, o: WaitOutcome) -> ServiceView {
    match o {
        WaitOutcome::Exited(code) => ServiceView {
            name: r.name,
            executable: r.executable,
            args: r.args,
            pid: r.pid,
            status: Some(ServiceStatus::Stopped),
            exit_code: Some(code),
        },
        WaitOutcome::Signaled(_) => ServiceView {
            name: r.name,
            executable: r.executable,
            args: r.args,
            pid: r.pid,
            status: Some(ServiceStatus::Stopped),
            exit_code: None,
        },
        _ => r,
    }
}

/// The table after `waitpid` reported `o` for `pid`; a pid that is not tracked changes nothing.
pub open spec fn after_wait(s: Seq<ServiceView>, pid: i32, o: WaitOutcome) -> Seq<ServiceView> {
    s.map_values(|r: ServiceView| if r.pid == Some(pid) { reaped(r, o) } else { r })
}

/// Record `i` is the first one named `name`.
pub open spec fn is_first_named(s: Seq<ServiceView>, name: Seq<char>, i: int) -> bool {
    &&& 0 <= i < s.len()
    &&& s[i].name == name
    &&& forall|j: int| 0 <= j < i ==> (#[trigger] s[j]).name != name
}

/// Whether some record is named `name`.
pub open spec fn has_named(s: Seq<ServiceView>, name: Seq<char>) -> bool {
    exists|i: int| 0 <= i < s.len() && (#[trigger] s[i]).name == name
}

/// The pid and status of the first record named `name`, if any.
pub open spec fn status_of(s: Seq<ServiceView>, name: Seq<char>) -> Option<(i32, ServiceStatus)> {
    if exists|i: int| is_first_named(s, name, i) {
        let i = choose|i: int| is_first_named(s, name, i);
        Some((s[i].pid.unwrap(), s[i].status.unwrap()))
    } else {
        None
    }
}

/// The pid of the first record named `name`, if any.
pub open spec fn pid_named(s: Seq<ServiceView>, name: Seq<char>) -> Option<i32> {
    match status_of(s, name) {
        Some((pid, _)) => Some(pid),
        None => None,
    }
}

/// What the engine does for a control request.
pub open spec fn action_for(s: Seq<ServiceView>, msg: IPCMessage) -> Action {
    match msg {
        IPCMessage::Start { .. } => Action::Nothing,
        IPCMessage::Stop { name } => match pid_named(s, name@) {
            Some(pid) => Action::Terminate(pid),
            None => Action::Nothing,
        },
        IPCMessage::Status { name } => Action::Reply(IPCMessage::StatusResponse(status_of(s, name@))),
        IPCMessage::StatusResponse(_) => Action::Nothing,
    }
}

/// The sources that a wait cycle handles, in the order it handles them.
pub open spec fn sources_of(pipe_ready: bool, control_ready: bool) -> Seq<Source> {
    (if pipe_ready { seq![Source::Pipe] } else { Seq::empty() }) + (if control_ready {
        seq![Source::Control]
    } else {
        Seq::empty()
    })
}

/// The sources of one wait cycle that reported readiness, in the order the
/// cycle handles them: every ready source is handled before the next wait.
pub fn ready_sources(pipe_ready: bool, control_ready: bool) -> (r: Vec<Source>)
    ensures
        r@ == sources_of(pipe_ready, control_ready),
        pipe_ready ==> r@.contains(Source::Pipe),
        control_ready ==> r@.contains(Source::Control),
{
    let mut r: Vec<Source> = Vec::new();
    if pipe_ready {
        r.push(Source::Pipe);
    }
    if control_ready {
        r.push(Source::Control);
    }
    assert(r@ =~= sources_of(pipe_ready, control_ready));
    assert(pipe_ready ==> r@[0] == Source::Pipe);
    assert(control_ready ==> r@[r@.len() - 1] == Source::Control);
    r
}

/// If some record is named `name`, a first such record exists.
proof fn lemma_first_named_exists(s: Seq<ServiceView>, name: Seq<char>, k: int)
    requires
        0 <= k < s.len(),
        s[k].name == name,
    ensures
        exists|i: int| is_first_named(s, name, i),
    decreases k,
{
    if exists|j: int| 0 <= j < k && (#[trigger] s[j]).name == name {
        let j = choose|j: int| 0 <= j < k && (#[trigger] s[j]).name == name;
        lemma_first_named_exists(s, name, j);
    } else {
        assert(is_first_named(s, name, k));
    }
}

/// Launching a service as `pid` leaves exactly one record under `pid`: the
/// launched service, marked Running.
pub proof fn lemma_launch_recorded_once(s: Seq<ServiceView>, d: ServiceView, pid: i32)
    requires
        table_wf(s),
    ensures
        table_wf(after_launch(s, d, pid)),
        exists|i: int|
            0 <= i < after_launch(s, d, pid).len() && #[trigger] after_launch(s, d, pid)[i]
                == launched(d, pid),
        forall|i: int, j: int|
            0 <= i < after_launch(s, d, pid).len() && 0 <= j < after_launch(s, d, pid).len()
                && (#[trigger] after_launch(s, d, pid)[i]).pid == Some(pid) && (
            #[trigger] after_launch(s, d, pid)[j]).pid == Some(pid) ==> i == j,
{
    let t = after_launch(s, d, pid);
    if tracks(s, pid) {
        let k = choose|k: int| 0 <= k < s.len() && (#[trigger] s[k]).pid == Some(pid);
        assert(t[k] == launched(d, pid));
        assert forall|i: int| 0 <= i < t.len() implies (#[trigger] t[i]).pid is Some
            && t[i].status is Some by {}
        assert forall|i: int, j: int|
            0 <= i < t.len() && 0 <= j < t.len() && i != j implies (#[trigger] t[i]).pid != (
            #[trigger] t[j]).pid by {
            assert(s[i].pid != s[j].pid);
        }
    } else {
        assert(t[s.len() as int] == launched(d, pid));
    }
}

/// A terminal outcome reported for a tracked pid marks its record Stopped.
pub proof fn lemma_terminal_outcome_stops(s: Seq<ServiceView>, pid: i32, o: WaitOutcome)
    requires
        table_wf(s),
        is_terminal(o),
    ensures
        forall|i: int|
            0 <= i < s.len() && s[i].pid == Some(pid) ==> (#[trigger] after_wait(s, pid, o)[i]).status
                == Some(ServiceStatus::Stopped),
{
}

/// A Stopped record stays Stopped until its pid is forked again: whatever
/// `waitpid` reports, for any pid, and whatever other pid is launched.
pub proof fn lemma_stopped_stays_stopped(
    s: Seq<ServiceView>,
    i: int,
    pid: i32,
    o: WaitOutcome,
    d: ServiceView,
    child: i32,
)
    requires
        table_wf(s),
        0 <= i < s.len(),
        s[i].status == Some(ServiceStatus::Stopped),
        s[i].pid != Some(child),
    ensures
        after_wait(s, pid, o)[i].status == Some(ServiceStatus::Stopped),
        after_launch(s, d, child)[i] == s[i],
{
}

/// A Status request for a name that no record has is answered with the empty response.
pub proof fn lemma_unknown_status_is_empty(s: Seq<ServiceView>, name: String)
    requires
        !has_named(s, name@),
    ensures
        action_for(s, IPCMessage::Status { name }) == Action::Reply(IPCMessage::StatusResponse(None)),
{
}

/// A Stop request for a known name sends SIGTERM to the pid of the first
/// record of that name; once that process is reaped as killed, its record is Stopped.
pub proof fn lemma_stop_known_terminates(s: Seq<ServiceView>, name: String, signal: i32)
    requires
        table_wf(s),
        has_named(s, name@),
    ensures
        exists|i: int|
            #[trigger] is_first_named(s, name@, i) && action_for(s, IPCMessage::Stop { name })
                == Action::Terminate(s[i].pid.unwrap()) && after_wait(
                s,
                s[i].pid.unwrap(),
                WaitOutcome::Signaled(signal),
            )[i].status == Some(ServiceStatus::Stopped),
{
    let k = choose|k: int| 0 <= k < s.len() && (#[trigger] s[k]).name == name@;
    lemma_first_named_exists(s, name@, k);
    let i = choose|i: int| is_first_named(s, name@, i);
    assert(is_first_named(s, name@, i));
}

/// The supervisor engine: owns the process table, keyed by pid.
pub struct Engine {
    services: Vec<Service>,
}

impl View for Engine {
    type V = Seq<ServiceView>;

    closed spec fn view(&self) -> Seq<ServiceView> {
        self.services@.map_values(|s: Service| s@)
    }
}

impl Engine {
    /// The engine's table is well formed.
    pub open spec fn wf(&self) -> bool {
        table_wf(self@)
    }

    /// A new engine with an empty process table.
    pub fn new() -> (r: Engine)
        ensures
            r@ == Seq::<ServiceView>::empty(),
            r.wf(),
    {
        let r = Engine { services: Vec::new() };
        assert(r@ =~= Seq::<ServiceView>::empty());
        r
    }

    /// Number of records in the process table.
    pub fn len(&self) -> (r: usize)
        ensures
            r == self@.len(),
    {
        self.services.len()
    }

    /// The record of `pid`, if the table tracks it.
    pub fn get(&self, pid: i32) -> (r: Option<&Service>)
        requires
            self.wf(),
        ensures
            match r {
                Some(rec) => exists|i: int|
                    0 <= i < self@.len() && (#[trigger] self@[i]).pid == Some(pid) && rec@
                        == self@[i],
                None => !tracks(self@, pid),
            },
    {
        match self.find_pid(pid) {
            Some(i) => Some(&self.services[i]),
            None => None,
        }
    }

    /// Index of the record of `pid`, if the table tracks it.
    fn find_pid(&self, pid: i32) -> (r: Option<usize>)
        ensures
            match r {
                Some(i) => i < self@.len() && self@[i as int].pid == Some(pid),
                None => !tracks(self@, pid),
            },
    {
        let mut i: usize = 0;
        while i < self.services.len()
            invariant
                i <= self.services.len(),
                self@.len() == self.services.len(),
                forall|j: int| 0 <= j < i ==> (#[trigger] self@[j]).pid != Some(pid),
            decreases self.services.len() - i,
        {
            if self.services[i].pid == Some(pid) {
                return Some(i);
            }
            i = i + 1;
        }
        None
    }

    /// Index of the first record named `name`, if any.
    fn find_named(&self, name: &String) -> (r: Option<usize>)
        ensures
            match r {
                Some(i) => is_first_named(self@, name@, i as int),
                None => !has_named(self@, name@),
            },
    {
        let mut i: usize = 0;
        while i < self.services.len()
            invariant
                i <= self.services.len(),
                self@.len() == self.services.len(),
                forall|j: int| 0 <= j < i ==> (#[trigger] self@[j]).name != name@,
            decreases self.services.len() - i,
        {
            if self.services[i].name == *name {
                return Some(i);
            }
            i = i + 1;
        }
        None
    }

    /// Records that `service` was forked as `child`: its record is marked
    /// Running under that pid, replacing a record of a reused pid.
    pub fn record_launch(&mut self, service: Service, child: i32)
        requires
            old(self).wf(),
        ensures
            final(self).wf(),
            final(self)@ == after_launch(old(self)@, service@, child),
    {
        let ghost d = service@;
        let mut rec = service;
        rec.pid = Some(child);
        rec.status = Some(ServiceStatus::Running);
        rec.exit_code = None;
        assert(rec@ == launched(d, child));
        match self.find_pid(child) {
            Some(i) => {
                let ghost before = self@;
                self.services.set(i, rec);
                proof {
                    assert(self@ =~= after_launch(before, d, child));
                }
            },
            None => {
                self.services.push(rec);
                assert(self@ =~= after_launch(old(self)@, d, child));
            },
        }
    }

    /// Records what `waitpid` reported for `pid`. On a terminal outcome the
    /// record of `pid` becomes Stopped, with the exit code of a normal exit;
    /// other outcomes, and pids the table does not track, change nothing.
    /// Returns whether the table tracks `pid`.
    pub fn on_child_status(&mut self, pid: i32, outcome: WaitOutcome) -> (r: bool)
        requires
            old(self).wf(),
        ensures
            final(self).wf(),
            final(self)@ == after_wait(old(self)@, pid, outcome),
            r == tracks(old(self)@, pid),
    {
        match self.find_pid(pid) {
            Some(i) => {
                let ghost before = self@;
                match outcome {
                    WaitOutcome::Exited(code) => {
                        self.services[i].status = Some(ServiceStatus::Stopped);
                        self.services[i].exit_code = Some(code);
                    },
                    WaitOutcome::Signaled(_) => {
                        self.services[i].status = Some(ServiceStatus::Stopped);
                        self.services[i].exit_code = None;
                    },
                    _ => {},
                }
                assert(self@ =~= after_wait(before, pid, outcome));
                true
            },
            None => {
                assert(self@ =~= after_wait(old(self)@, pid, outcome));
                false
            },
        }
    }

    /// The pid and status of the first service named `name`, if any.
    pub fn status(&self, name: &String) -> (r: Option<(i32, ServiceStatus)>)
        requires
            self.wf(),
        ensures
            r == status_of(self@, name@),
    {
        match self.find_named(name) {
            Some(i) => {
                let pid = self.services[i].pid.unwrap();
                let status = self.services[i].status.unwrap();
                proof {
                    let k = choose|k: int| is_first_named(self@, name@, k);
                    assert(is_first_named(self@, name@, k));
                    if k < i {
                        assert(self@[k].name != name@);
                    } else if k > i {
                        assert(self@[i as int].name != name@);
                    }
                }
                Some((pid, status))
            },
            None => {
                assert(!exists|k: int| is_first_named(self@, name@, k));
                None
            },
        }
    }

    /// Handles a control request: Status is answered with the pid and status
    /// of the first service of that name, or with none; Stop asks for SIGTERM
    /// to the pid of the first service of that name; Start and responses are ignored.
    pub fn handle_request(&self, msg: &IPCMessage) -> (r: Action)
        requires
            self.wf(),
        ensures
            r == action_for(self@, *msg),
    {
        match msg {
            IPCMessage::Start { .. } => Action::Nothing,
            IPCMessage::Stop { name } => match self.status(name) {
                Some((pid, _)) => Action::Terminate(pid),
                None => Action::Nothing,
            },
            IPCMessage::Status { name } => Action::Reply(IPCMessage::StatusResponse(self.status(name))),
            IPCMessage::StatusResponse(_) => Action::Nothing,
        }
    }

    /// Handles one event of the loop and says what the loop does next.
    pub fn step(&mut self, event: Event) -> (r: Action)
        requires
            old(self).wf(),
        ensures
            final(self).wf(),
            match event {
                Event::ChildStatus { pid, outcome } => {
                    &&& final(self)@ == after_wait(old(self)@, pid, outcome)
                    &&& r is Nothing
                },
                Event::Request(msg) => {
                    &&& final(self)@ == old(self)@
                    &&& r == action_for(old(self)@, msg)
                },
            },
    {
        match event {
            Event::ChildStatus { pid, outcome } => {
                self.on_child_status(pid, outcome);
                Action::Nothing
            },
            Event::Request(msg) => self.handle_request(&msg),
        }
    }

    /// Continues after a fork: the parent records the child and gets `None`;
    /// the child gets its service back, to exec it, and the table is unchanged.
    pub fn after_fork(&mut self, service: Service, outcome: ForkOutcome) -> (r: Option<Service>)
        requires
            old(self).wf(),
        ensures
            final(self).wf(),
            match outcome {
                ForkOutcome::Parent { child } => {
                    &&& final(self)@ == after_launch(old(self)@, service@, child)
                    &&& r is None
                },
                ForkOutcome::Child => {
                    &&& final(self)@ == old(self)@
                    &&& r == Some(service)
                },
            },
    {
        match outcome {
            ForkOutcome::Parent { child } => {
                self.record_launch(service, child);
                None
            },
            ForkOutcome::Child => Some(service),
        }
    }
}

} // verus!
