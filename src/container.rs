//! The supervisor side of a container.
//!
//! The supervisor's decisions live here; the system calls do not. `start`
//! and `step` drive the start protocol: each call returns the next
//! [`Action`] to perform, and the caller hands its outcome back as an
//! [`Event`]. `wait`, `terminate`, `delete`, `freeze` and `thaw` return the
//! actions they consist of.
use crate::config::{is_default_config, workspace_path, Config};
use crate::report::{
    decode_length, failure_frame, lemma_le_round_trip, lemma_pow_256_8, le_value, LENGTH_BYTES,
};
use vstd::prelude::*;

verus! {

/// Size of the stack the child is cloned onto.
pub const STACK_SIZE: usize = 2 * 1024 * 1024;

/// Why an operation on a container failed; a cause is an OS error number.
#[derive(Debug, Clone, PartialEq, Eq)]
pub enum ContainerError {
    AlreadyStarted,
    ForkFailed(i32),
    PipeFailed(i32),
    IdMapFailed(i32),
    CGroupFailed(i32),
    /// The child reported a failed bring-up step (`code`) with context.
    EntryError { code: u8, payload: Vec<u8> },
    Io(i32),
    /// The report pipe ended before a whole frame was read.
    UnexpectedEof,
    /// An outcome that does not answer the action asked for.
    Protocol,
}

/// The model of an error.
pub enum ErrorView {
    AlreadyStarted,
    ForkFailed(i32),
    PipeFailed(i32),
    IdMapFailed(i32),
    CGroupFailed(i32),
    EntryError { code: u8, payload: Seq<u8> },
    Io(i32),
    UnexpectedEof,
    Protocol,
}

impl ContainerError {
    pub open spec fn view(&self) -> ErrorView {
        match self {
            ContainerError::AlreadyStarted => ErrorView::AlreadyStarted,
            ContainerError::ForkFailed(e) => ErrorView::ForkFailed(*e),
            ContainerError::PipeFailed(e) => ErrorView::PipeFailed(*e),
            ContainerError::IdMapFailed(e) => ErrorView::IdMapFailed(*e),
            ContainerError::CGroupFailed(e) => ErrorView::CGroupFailed(*e),
            ContainerError::EntryError { code, payload } => ErrorView::EntryError {
                code: *code,
                payload: payload@,
            },
            ContainerError::Io(e) => ErrorView::Io(*e),
            ContainerError::UnexpectedEof => ErrorView::UnexpectedEof,
            ContainerError::Protocol => ErrorView::Protocol,
        }
    }
}

/// The namespaces the child is cloned into.
#[derive(Debug, Clone, Copy, PartialEq, Eq, Structural)]
pub struct Namespaces {
    pub uts: bool,
    pub ipc: bool,
    pub pid: bool,
    pub mount: bool,
    pub user: bool,
}

/// One thing for the caller to do on the container's behalf.
#[derive(Debug, PartialEq, Eq)]
pub enum Action {
    /// Create the ready pipe and the report pipe.
    CreatePipes,
    /// Clone the child onto a stack of `stack_size` bytes, into new
    /// `namespaces`, with `SIGCHLD` as its exit signal.
    Clone { namespaces: Namespaces, stack_size: usize },
    /// Close the read end of the ready pipe and the write end of the
    /// report pipe.
    CloseChildEnds,
    /// Write `setgroups`, `uid_map` and `gid_map` of `pid`.
    MapIds { pid: i32 },
    /// Create the cgroup named by `uid`, write its limits, move `pid` in.
    ApplyCGroup { uid: u64, pid: i32 },
    /// Close the write end of the ready pipe, which releases the child.
    ReleaseGate,
    /// Read exactly one byte from the report pipe.
    ReadStatus,
    /// Read the payload length, `LENGTH_BYTES` bytes.
    ReadLength,
    /// Read exactly `len` bytes of payload.
    ReadPayload { len: u64 },
    /// Send `SIGKILL` to `pid`.
    Kill { pid: i32 },
    /// Block until `pid` has exited, and reap it.
    Reap { pid: i32 },
    /// Start a watcher that, after `time_limit_ms`, kills `pid` if it still runs.
    StartWatcher { pid: i32, time_limit_ms: u64 },
    /// Remove the cgroup named by `uid`; a missing one is no error.
    DeleteCGroup { uid: u64 },
    /// Remove the directory `path` and all it holds; a missing one is no error.
    RemoveWorkspace { path: String },
    /// Freeze the cgroup named by `uid`.
    Freeze { uid: u64 },
    /// Thaw the cgroup named by `uid`.
    Thaw { uid: u64 },
    /// `start` is over, with this result.
    Finish(Result<(), ContainerError>),
}

/// The model of an action.
pub enum ActionView {
    CreatePipes,
    Clone { namespaces: Namespaces, stack_size: usize },
    CloseChildEnds,
    MapIds { pid: i32 },
    ApplyCGroup { uid: u64, pid: i32 },
    ReleaseGate,
    ReadStatus,
    ReadLength,
    ReadPayload { len: u64 },
    Kill { pid: i32 },
    Reap { pid: i32 },
    StartWatcher { pid: i32, time_limit_ms: u64 },
    DeleteCGroup { uid: u64 },
    RemoveWorkspace { path: Seq<char> },
    Freeze { uid: u64 },
    Thaw { uid: u64 },
    Finish(Result<(), ErrorView>),
}

impl Action {
    pub open spec fn view(&self) -> ActionView {
        match self {
            Action::CreatePipes => ActionView::CreatePipes,
            Action::Clone { namespaces, stack_size } => ActionView::Clone {
                namespaces: *namespaces,
                stack_size: *stack_size,
            },
            Action::CloseChildEnds => ActionView::CloseChildEnds,
            Action::MapIds { pid } => ActionView::MapIds { pid: *pid },
            Action::ApplyCGroup { uid, pid } => ActionView::ApplyCGroup { uid: *uid, pid: *pid },
            Action::ReleaseGate => ActionView::ReleaseGate,
            Action::ReadStatus => ActionView::ReadStatus,
            Action::ReadLength => ActionView::ReadLength,
            Action::ReadPayload { len } => ActionView::ReadPayload { len: *len },
            Action::Kill { pid } => ActionView::Kill { pid: *pid },
            Action::Reap { pid } => ActionView::Reap { pid: *pid },
            Action::StartWatcher { pid, time_limit_ms } => ActionView::StartWatcher {
                pid: *pid,
                time_limit_ms: *time_limit_ms,
            },
            Action::DeleteCGroup { uid } => ActionView::DeleteCGroup { uid: *uid },
            Action::RemoveWorkspace { path } => ActionView::RemoveWorkspace { path: path@ },
            Action::Freeze { uid } => ActionView::Freeze { uid: *uid },
            Action::Thaw { uid } => ActionView::Thaw { uid: *uid },
            Action::Finish(r) => ActionView::Finish(
                match r {
                    Ok(()) => Ok(()),
                    Err(e) => Err(e@),
                },
            ),
        }
    }
}

pub open spec fn actions_view(v: Seq<Action>) -> Seq<ActionView> {
    v.map_values(|a: Action| a@)
}

/// The outcome of an action, handed back to `step`.
#[derive(Debug, Clone, PartialEq, Eq)]
pub enum Event {
    /// The action succeeded and gave nothing back.
    Done,
    /// The clone succeeded; the child's PID as the supervisor sees it.
    Cloned { pid: i32 },
    /// The action failed with an OS error number.
    Failed { errno: i32 },
    /// A read returned these bytes; fewer than asked means the pipe ended.
    Bytes { data: Vec<u8> },
}

/// The model of an event.
pub enum EventView {
    Done,
    Cloned { pid: i32 },
    Failed { errno: i32 },
    Bytes { data: Seq<u8> },
}

impl Event {
    pub open spec fn view(&self) -> EventView {
        match self {
            Event::Done => EventView::Done,
            Event::Cloned { pid } => EventView::Cloned { pid: *pid },
            Event::Failed { errno } => EventView::Failed { errno: *errno },
            Event::Bytes { data } => EventView::Bytes { data: data@ },
        }
    }
}

/// Where the start protocol stands.
#[derive(Debug, Clone, Copy, PartialEq, Eq, Structural)]
pub enum Phase {
    Idle,
    CreatingPipes,
    Cloning,
    ClosingChildEnds,
    MappingIds,
    ApplyingCGroup,
    ReleasingGate,
    ReadingStatus,
    ReadingLength { code: u8 },
    ReadingPayload { code: u8, len: u64 },
    /// The child reported a failure; waiting for it to be reaped.
    Reaping { code: u8 },
    /// A step failed after the clone; waiting for the kill.
    Killing,
    StartingWatcher,
    Running,
    /// `start` failed.
    Failed,
}

/// A container: its configuration and where its lifecycle stands.
pub struct Container {
    config: Config,
    container_pid: Option<i32>,
    already_ended: bool,
    phase: Phase,
    /// The error that `Killing` returns once the kill is done.
    pending: Option<ContainerError>,
    /// The payload read from the child, while `Reaping`.
    entry_payload: Vec<u8>,
    /// How many status bytes have been read from the report pipe.
    status_bytes_read: Ghost<nat>,
}

/// The model of a container.
pub struct ContainerView {
    pub uid: u64,
    pub time_limit_ms: u64,
    pub workspace: Seq<char>,
    pub pid: Option<i32>,
    pub ended: bool,
    pub phase: Phase,
    pub pending: Option<ErrorView>,
    pub entry_payload: Seq<u8>,
    pub status_bytes_read: nat,
}

pub open spec fn opt_err_view(e: Option<ContainerError>) -> Option<ErrorView> {
    match e {
        Some(x) => Some(x@),
        None => None,
    }
}

pub open spec fn all_namespaces() -> Namespaces {
    Namespaces { uts: true, ipc: true, pid: true, mount: true, user: true }
}

/// The phases in which `start` is under way.
pub open spec fn in_progress(p: Phase) -> bool {
    !(p == Phase::Idle || p == Phase::Running || p == Phase::Failed)
}

/// The phases reached only after the status byte was read.
pub open spec fn past_status(p: Phase) -> bool {
    match p {
        Phase::ReadingLength { .. } | Phase::ReadingPayload { .. } | Phase::Reaping { .. }
        | Phase::StartingWatcher | Phase::Running => true,
        _ => false,
    }
}

/// Where `start` may begin.
pub open spec fn can_start(c: ContainerView) -> bool {
    c.pid.is_none() && !c.ended && !in_progress(c.phase)
}

/// A failure after the clone: kill the child first, then report `e`.
pub open spec fn fail_after_clone(c: ContainerView, e: ErrorView) -> (ContainerView, ActionView) {
    (
        ContainerView { phase: Phase::Killing, pending: Some(e), ..c },
        ActionView::Kill { pid: c.pid.unwrap() },
    )
}

/// A failure before the clone: nothing to clean up.
pub open spec fn fail_before_clone(c: ContainerView, e: ErrorView) -> (ContainerView, ActionView) {
    (ContainerView { phase: Phase::Failed, ..c }, ActionView::Finish(Err(e)))
}

pub open spec fn goto(c: ContainerView, p: Phase, a: ActionView) -> (ContainerView, ActionView) {
    (ContainerView { phase: p, ..c }, a)
}

/// The start protocol: the next state and action for event `e`.
pub open spec fn step_spec(c: ContainerView, e: EventView) -> (ContainerView, ActionView) {
    match c.phase {
        Phase::CreatingPipes => match e {
            EventView::Done => goto(
                c,
                Phase::Cloning,
                ActionView::Clone { namespaces: all_namespaces(), stack_size: STACK_SIZE },
            ),
            EventView::Failed { errno } => fail_before_clone(c, ErrorView::PipeFailed(errno)),
            _ => fail_before_clone(c, ErrorView::Protocol),
        },
        Phase::Cloning => match e {
            EventView::Cloned { pid } => (
                ContainerView { phase: Phase::ClosingChildEnds, pid: Some(pid), ..c },
                ActionView::CloseChildEnds,
            ),
            EventView::Failed { errno } => fail_before_clone(c, ErrorView::ForkFailed(errno)),
            _ => fail_before_clone(c, ErrorView::Protocol),
        },
        Phase::ClosingChildEnds => match e {
            EventView::Done => goto(c, Phase::MappingIds, ActionView::MapIds { pid: c.pid.unwrap() }),
            EventView::Failed { errno } => fail_after_clone(c, ErrorView::PipeFailed(errno)),
            _ => fail_after_clone(c, ErrorView::Protocol),
        },
        Phase::MappingIds => match e {
            EventView::Done => goto(
                c,
                Phase::ApplyingCGroup,
                ActionView::ApplyCGroup { uid: c.uid, pid: c.pid.unwrap() },
            ),
            EventView::Failed { errno } => fail_after_clone(c, ErrorView::IdMapFailed(errno)),
            _ => fail_after_clone(c, ErrorView::Protocol),
        },
        Phase::ApplyingCGroup => match e {
            EventView::Done => goto(c, Phase::ReleasingGate, ActionView::ReleaseGate),
            EventView::Failed { errno } => fail_after_clone(c, ErrorView::CGroupFailed(errno)),
            _ => fail_after_clone(c, ErrorView::Protocol),
        },
        Phase::ReleasingGate => match e {
            EventView::Done => goto(c, Phase::ReadingStatus, ActionView::ReadStatus),
            EventView::Failed { errno } => fail_after_clone(c, ErrorView::PipeFailed(errno)),
            _ => fail_after_clone(c, ErrorView::Protocol),
        },
        Phase::ReadingStatus => match e {
            EventView::Bytes { data } => if data.len() == 1 {
                let c1 = ContainerView { status_bytes_read: c.status_bytes_read + 1, ..c };
                if data[0] == 0 {
                    goto(
                        c1,
                        Phase::StartingWatcher,
                        ActionView::StartWatcher { pid: c.pid.unwrap(), time_limit_ms: c.time_limit_ms },
                    )
                } else {
                    goto(c1, Phase::ReadingLength { code: data[0] }, ActionView::ReadLength)
                }
            } else if data.len() == 0 {
                fail_after_clone(c, ErrorView::UnexpectedEof)
            } else {
                fail_after_clone(c, ErrorView::Protocol)
            },
            EventView::Failed { errno } => fail_after_clone(c, ErrorView::PipeFailed(errno)),
            _ => fail_after_clone(c, ErrorView::Protocol),
        },
        Phase::ReadingLength { code } => match e {
            EventView::Bytes { data } => if data.len() == LENGTH_BYTES {
                goto(
                    c,
                    Phase::ReadingPayload { code, len: le_value(data) as u64 },
                    ActionView::ReadPayload { len: le_value(data) as u64 },
                )
            } else if data.len() < LENGTH_BYTES {
                fail_after_clone(c, ErrorView::UnexpectedEof)
            } else {
                fail_after_clone(c, ErrorView::Protocol)
            },
            EventView::Failed { errno } => fail_after_clone(c, ErrorView::PipeFailed(errno)),
            _ => fail_after_clone(c, ErrorView::Protocol),
        },
        Phase::ReadingPayload { code, len } => match e {
            EventView::Bytes { data } => if data.len() == len {
                (
                    ContainerView { phase: Phase::Reaping { code }, entry_payload: data, ..c },
                    ActionView::Reap { pid: c.pid.unwrap() },
                )
            } else if data.len() < len {
                fail_after_clone(c, ErrorView::UnexpectedEof)
            } else {
                fail_after_clone(c, ErrorView::Protocol)
            },
            EventView::Failed { errno } => fail_after_clone(c, ErrorView::PipeFailed(errno)),
            _ => fail_after_clone(c, ErrorView::Protocol),
        },
        Phase::Reaping { code } => (
            ContainerView { phase: Phase::Failed, ended: true, entry_payload: seq![], ..c },
            ActionView::Finish(Err(ErrorView::EntryError { code, payload: c.entry_payload })),
        ),
        Phase::Killing => (
            ContainerView { phase: Phase::Failed, pending: None, ..c },
            ActionView::Finish(Err(c.pending.unwrap())),
        ),
        Phase::StartingWatcher => match e {
            EventView::Done => goto(c, Phase::Running, ActionView::Finish(Ok(()))),
            EventView::Failed { errno } => fail_after_clone(c, ErrorView::Io(errno)),
            _ => fail_after_clone(c, ErrorView::Protocol),
        },
        _ => (c, ActionView::Finish(Err(ErrorView::Protocol))),
    }
}

impl Container {
    pub closed spec fn view(&self) -> ContainerView {
        ContainerView {
            uid: self.config.uid,
            time_limit_ms: self.config.time_limit_ms,
            workspace: workspace_path(self.config.working_path@, self.config.uid),
            pid: self.container_pid,
            ended: self.already_ended,
            phase: self.phase,
            pending: opt_err_view(self.pending),
            entry_payload: self.entry_payload@,
            status_bytes_read: self.status_bytes_read@,
        }
    }

    /// The container's internal invariant.
    pub open spec fn wf(&self) -> bool {
        wf_view(self@)
    }
}

/// What holds of a container at every step: the child PID is known from
/// the clone on; a kill is pending exactly while `Killing`; at most one
/// status byte has been read, and one exactly once past it.
pub open spec fn wf_view(c: ContainerView) -> bool {
    &&& (c.phase == Phase::Idle ==> c.pid.is_none() && c.status_bytes_read == 0)
    &&& (c.phase == Phase::CreatingPipes || c.phase == Phase::Cloning) ==> c.pid.is_none()
    &&& (in_progress(c.phase) && !(c.phase == Phase::CreatingPipes || c.phase == Phase::Cloning))
        ==> c.pid.is_some()
    &&& (c.phase == Phase::Running ==> c.pid.is_some())
    &&& (c.phase == Phase::Killing <==> c.pending.is_some())
    &&& c.status_bytes_read <= 1
    &&& (c.pid.is_none() ==> c.status_bytes_read == 0)
    &&& (c.pending matches Some(e) ==> !(e is EntryError))
    &&& (past_status(c.phase) ==> c.status_bytes_read == 1)
    &&& (in_progress(c.phase) && !past_status(c.phase) && c.phase != Phase::Killing)
        ==> c.status_bytes_read == 0
}

impl Container {
    /// A container with the default configuration; nothing is started.
    pub fn new() -> (r: Self)
        ensures
            r.wf(),
            is_default_config(r.config_spec()),
            r@.uid == r.config_spec().uid,
            r@.time_limit_ms == 1000,
            r@.workspace == workspace_path("/tmp/ssandbox-rs.workspace/"@, r@.uid),
            r@.phase == Phase::Idle,
            r@.pid.is_none(),
            !r@.ended,
            r@.pending.is_none(),
    {
        Container::from(Config::default())
    }

    /// A container for `config`; nothing is started.
    pub fn from(config: Config) -> (r: Self)
        ensures
            r.wf(),
            r.config_spec() == config,
            r@.uid == config.uid,
            r@.time_limit_ms == config.time_limit_ms,
            r@.workspace == workspace_path(config.working_path@, config.uid),
            r@.phase == Phase::Idle,
            r@.pid.is_none(),
            !r@.ended,
            r@.pending.is_none(),
    {
        Container {
            config,
            container_pid: None,
            already_ended: false,
            phase: Phase::Idle,
            pending: None,
            entry_payload: Vec::new(),
            status_bytes_read: Ghost(0),
        }
    }

    pub closed spec fn config_spec(&self) -> Config {
        self.config
    }

    /// The configuration the container was built with.
    pub fn config(&self) -> (r: &Config)
        ensures
            *r == self.config_spec(),
            r.uid == self@.uid,
            r.time_limit_ms == self@.time_limit_ms,
    {
        &self.config
    }

    /// The child's PID as the supervisor sees it, once cloned.
    pub fn pid(&self) -> (r: Option<i32>)
        ensures
            r == self@.pid,
    {
        self.container_pid
    }

    /// Whether a child was ever cloned.
    pub fn has_started(&self) -> (r: bool)
        ensures
            r == self@.pid.is_some(),
    {
        self.container_pid.is_some()
    }

    /// Whether the child has been waited for.
    pub fn has_ened(&self) -> (r: bool)
        ensures
            r == self@.ended,
    {
        self.already_ended
    }

    /// Begins the start protocol. On a container that was started, has
    /// ended, or is being started, fails with `AlreadyStarted` and changes
    /// nothing; otherwise asks for the two pipes.
    pub fn start(&mut self) -> (r: Action)
        requires
            old(self).wf(),
        ensures
            final(self).wf(),
            final(self).config_spec() == old(self).config_spec(),
            can_start(old(self)@) ==> r@ == ActionView::CreatePipes && final(self)@ == (
            ContainerView { phase: Phase::CreatingPipes, ..old(self)@ }),
            !can_start(old(self)@) ==> r@ == ActionView::Finish(Err(ErrorView::AlreadyStarted))
                && final(self)@ == old(self)@,
    {
        if self.container_pid.is_some() || self.already_ended || !(self.phase == Phase::Idle
            || self.phase == Phase::Running || self.phase == Phase::Failed) {
            return Action::Finish(Err(ContainerError::AlreadyStarted));
        }
        self.phase = Phase::CreatingPipes;
        Action::CreatePipes
    }

    fn goto(&mut self, p: Phase, a: Action) -> (r: Action)
        ensures
            final(self).config_spec() == old(self).config_spec(),
            final(self)@ == (ContainerView { phase: p, ..old(self)@ }),
            r == a,
    {
        self.phase = p;
        a
    }

    fn fail_before_clone(&mut self, e: ContainerError) -> (r: Action)
        ensures
            final(self).config_spec() == old(self).config_spec(),
            (final(self)@, r@) == fail_before_clone(old(self)@, e@),
    {
        self.phase = Phase::Failed;
        Action::Finish(Err(e))
    }

    fn fail_after_clone(&mut self, e: ContainerError) -> (r: Action)
        requires
            old(self)@.pid.is_some(),
        ensures
            final(self).config_spec() == old(self).config_spec(),
            (final(self)@, r@) == fail_after_clone(old(self)@, e@),
    {
        self.phase = Phase::Killing;
        self.pending = Some(e);
        Action::Kill { pid: self.container_pid.unwrap() }
    }

    /// Advances the start protocol with the outcome `e` of the last action.
    ///
    /// Any failure after the clone kills the child before `start` reports
    /// it; a failure the child reports is returned only once the child has
    /// been reaped; success is returned only after exactly one status byte,
    /// a zero, was read.
    pub fn step(&mut self, e: Event) -> (r: Action)
        requires
            old(self).wf(),
        ensures
            final(self).wf(),
            final(self).config_spec() == old(self).config_spec(),
            (final(self)@, r@) == step_spec(old(self)@, e@),
            r@ == ActionView::Finish(Ok(())) ==> final(self)@.status_bytes_read == 1,
            (r@ matches ActionView::Finish(Err(ErrorView::EntryError { .. }))) ==> final(self)@.ended,
    {
        let ghost c = self@;
        match self.phase {
            Phase::CreatingPipes => match e {
                Event::Done => self.goto(
                    Phase::Cloning,
                    Action::Clone {
                        namespaces: Namespaces {
                            uts: true,
                            ipc: true,
                            pid: true,
                            mount: true,
                            user: true,
                        },
                        stack_size: STACK_SIZE,
                    },
                ),
                Event::Failed { errno } => self.fail_before_clone(ContainerError::PipeFailed(errno)),
                _ => self.fail_before_clone(ContainerError::Protocol),
            },
            Phase::Cloning => match e {
                Event::Cloned { pid } => {
                    self.container_pid = Some(pid);
                    self.goto(Phase::ClosingChildEnds, Action::CloseChildEnds)
                },
                Event::Failed { errno } => self.fail_before_clone(ContainerError::ForkFailed(errno)),
                _ => self.fail_before_clone(ContainerError::Protocol),
            },
            Phase::ClosingChildEnds => match e {
                Event::Done => {
                    let pid = self.container_pid.unwrap();
                    self.goto(Phase::MappingIds, Action::MapIds { pid })
                },
                Event::Failed { errno } => self.fail_after_clone(ContainerError::PipeFailed(errno)),
                _ => self.fail_after_clone(ContainerError::Protocol),
            },
            Phase::MappingIds => match e {
                Event::Done => {
                    let pid = self.container_pid.unwrap();
                    let uid = self.config.uid;
                    self.goto(Phase::ApplyingCGroup, Action::ApplyCGroup { uid, pid })
                },
                Event::Failed { errno } => self.fail_after_clone(ContainerError::IdMapFailed(errno)),
                _ => self.fail_after_clone(ContainerError::Protocol),
            },
            Phase::ApplyingCGroup => match e {
                Event::Done => self.goto(Phase::ReleasingGate, Action::ReleaseGate),
                Event::Failed { errno } => self.fail_after_clone(ContainerError::CGroupFailed(errno)),
                _ => self.fail_after_clone(ContainerError::Protocol),
            },
            Phase::ReleasingGate => match e {
                Event::Done => self.goto(Phase::ReadingStatus, Action::ReadStatus),
                Event::Failed { errno } => self.fail_after_clone(ContainerError::PipeFailed(errno)),
                _ => self.fail_after_clone(ContainerError::Protocol),
            },
            Phase::ReadingStatus => match e {
                Event::Bytes { data } => {
                    if data.len() == 1 {
                        self.status_bytes_read = Ghost(self.status_bytes_read@ + 1);
                        let pid = self.container_pid.unwrap();
                        if data[0] == 0 {
                            let time_limit_ms = self.config.time_limit_ms;
                            self.goto(Phase::StartingWatcher, Action::StartWatcher { pid, time_limit_ms })
                        } else {
                            self.goto(Phase::ReadingLength { code: data[0] }, Action::ReadLength)
                        }
                    } else if data.len() == 0 {
                        self.fail_after_clone(ContainerError::UnexpectedEof)
                    } else {
                        self.fail_after_clone(ContainerError::Protocol)
                    }
                },
                Event::Failed { errno } => self.fail_after_clone(ContainerError::PipeFailed(errno)),
                _ => self.fail_after_clone(ContainerError::Protocol),
            },
            Phase::ReadingLength { code } => match e {
                Event::Bytes { data } => {
                    if data.len() == LENGTH_BYTES {
                        let len = decode_length(data.as_slice());
                        self.goto(Phase::ReadingPayload { code, len }, Action::ReadPayload { len })
                    } else if data.len() < LENGTH_BYTES {
                        self.fail_after_clone(ContainerError::UnexpectedEof)
                    } else {
                        self.fail_after_clone(ContainerError::Protocol)
                    }
                },
                Event::Failed { errno } => self.fail_after_clone(ContainerError::PipeFailed(errno)),
                _ => self.fail_after_clone(ContainerError::Protocol),
            },
            Phase::ReadingPayload { code, len } => match e {
                Event::Bytes { data } => {
                    if (data.len() as u64) == len {
                        let pid = self.container_pid.unwrap();
                        self.entry_payload = data;
                        self.goto(Phase::Reaping { code }, Action::Reap { pid })
                    } else if (data.len() as u64) < len {
                        self.fail_after_clone(ContainerError::UnexpectedEof)
                    } else {
                        self.fail_after_clone(ContainerError::Protocol)
                    }
                },
                Event::Failed { errno } => self.fail_after_clone(ContainerError::PipeFailed(errno)),
                _ => self.fail_after_clone(ContainerError::Protocol),
            },
            Phase::Reaping { code } => {
                let mut payload: Vec<u8> = Vec::new();
                core::mem::swap(&mut payload, &mut self.entry_payload);
                self.already_ended = true;
                self.phase = Phase::Failed;
                Action::Finish(Err(ContainerError::EntryError { code, payload }))
            },
            Phase::Killing => {
                let mut pending: Option<ContainerError> = None;
                core::mem::swap(&mut pending, &mut self.pending);
                self.phase = Phase::Failed;
                Action::Finish(Err(pending.unwrap()))
            },
            Phase::StartingWatcher => match e {
                Event::Done => self.goto(Phase::Running, Action::Finish(Ok(()))),
                Event::Failed { errno } => self.fail_after_clone(ContainerError::Io(errno)),
                _ => self.fail_after_clone(ContainerError::Protocol),
            },
            _ => Action::Finish(Err(ContainerError::Protocol)),
        }
    }
}


/// The actions of `wait`: reap the child unless it has ended or never ran.
pub open spec fn wait_spec(c: ContainerView) -> Seq<ActionView> {
    if c.ended {
        seq![]
    } else {
        match c.pid {
            Some(p) => seq![ActionView::Reap { pid: p }],
            None => seq![],
        }
    }
}

pub open spec fn kill_and_reap(p: i32) -> Seq<ActionView> {
    seq![ActionView::Kill { pid: p }, ActionView::Reap { pid: p }]
}

/// The actions of `terminate`: kill, then reap, unless the child has ended.
pub open spec fn terminate_spec(c: ContainerView) -> Seq<ActionView> {
    if c.ended {
        seq![]
    } else {
        match c.pid {
            Some(p) => kill_and_reap(p),
            None => seq![],
        }
    }
}

/// Removing the cgroup and the workspace, each tolerant of being gone.
pub open spec fn cleanup_spec(c: ContainerView) -> Seq<ActionView> {
    seq![ActionView::DeleteCGroup { uid: c.uid }, ActionView::RemoveWorkspace { path: c.workspace }]
}

/// The actions of `delete`: terminate, then clean up.
pub open spec fn delete_spec(c: ContainerView) -> Seq<ActionView> {
    terminate_spec(c) + cleanup_spec(c)
}

/// What dropping a container does: delete it if it was ever started.
pub open spec fn drop_spec(c: ContainerView) -> Seq<ActionView> {
    if c.pid.is_some() {
        delete_spec(c)
    } else {
        seq![]
    }
}

/// The state once the child has been waited for.
pub open spec fn ended_spec(c: ContainerView) -> ContainerView {
    ContainerView { ended: true, ..c }
}

impl Container {
    /// The actions that wait for the child. Once they succeed, the caller
    /// records the end with `mark_ended`.
    pub fn wait(&self) -> (r: Vec<Action>)
        ensures
            actions_view(r@) == wait_spec(self@),
    {
        let mut r: Vec<Action> = Vec::new();
        if !self.already_ended {
            if let Some(pid) = self.container_pid {
                r.push(Action::Reap { pid });
            }
        }
        proof {
            assert(actions_view(r@) =~= wait_spec(self@));
        }
        r
    }

    /// The actions that kill the child and wait for it. Once they succeed,
    /// the caller records the end with `mark_ended`.
    pub fn terminate(&self) -> (r: Vec<Action>)
        ensures
            actions_view(r@) == terminate_spec(self@),
    {
        let mut r: Vec<Action> = Vec::new();
        if !self.already_ended {
            if let Some(pid) = self.container_pid {
                r.push(Action::Kill { pid });
                r.push(Action::Reap { pid });
            }
        }
        proof {
            assert(actions_view(r@) =~= terminate_spec(self@));
        }
        r
    }

    /// The actions that terminate the child, then remove its cgroup and
    /// workspace directory.
    pub fn delete(&self) -> (r: Vec<Action>)
        ensures
            actions_view(r@) == delete_spec(self@),
    {
        let mut r = self.terminate();
        r.push(Action::DeleteCGroup { uid: self.config.uid });
        r.push(Action::RemoveWorkspace { path: self.config.workspace_dir() });
        proof {
            assert(actions_view(r@) =~= delete_spec(self@));
        }
        r
    }

    /// The actions to run when the container is dropped: a delete, if it was
    /// ever started. Failures there are discarded.
    pub fn drop_actions(&self) -> (r: Vec<Action>)
        ensures
            actions_view(r@) == drop_spec(self@),
    {
        if self.container_pid.is_some() {
            self.delete()
        } else {
            let r: Vec<Action> = Vec::new();
            proof {
                assert(actions_view(r@) =~= drop_spec(self@));
            }
            r
        }
    }

    /// Freezes the container's cgroup.
    pub fn freeze(&self) -> (r: Action)
        ensures
            r@ == (ActionView::Freeze { uid: self@.uid }),
    {
        Action::Freeze { uid: self.config.uid }
    }

    /// Thaws the container's cgroup.
    pub fn thaw(&self) -> (r: Action)
        ensures
            r@ == (ActionView::Thaw { uid: self@.uid }),
    {
        Action::Thaw { uid: self.config.uid }
    }

    /// Records that the child has been waited for.
    pub fn mark_ended(&mut self)
        requires
            old(self).wf(),
        ensures
            final(self).wf(),
            final(self).config_spec() == old(self).config_spec(),
            final(self)@ == ended_spec(old(self)@),
    {
        self.already_ended = true;
    }
}

/// `terminate` and `delete` are idempotent: once the first has been carried
/// out, a second `terminate` asks for nothing and recording the end again
/// changes nothing; a second `delete` asks only for the two removals, both
/// of which tolerate what is already gone.
pub proof fn lemma_terminate_delete_idempotent(c: ContainerView)
    ensures
        terminate_spec(ended_spec(c)) == Seq::<ActionView>::empty(),
        ended_spec(ended_spec(c)) == ended_spec(c),
        delete_spec(ended_spec(c)) == cleanup_spec(c),
        delete_spec(ended_spec(ended_spec(c))) == delete_spec(ended_spec(c)),
{
    assert(delete_spec(ended_spec(c)) =~= cleanup_spec(c));
}

/// Dropping a container that was ever started removes the cgroup named by
/// its `uid` and its workspace directory, after the child is gone.
pub proof fn lemma_drop_cleans_up(c: ContainerView)
    requires
        c.pid.is_some(),
    ensures
        drop_spec(c).len() >= 2,
        drop_spec(c)[drop_spec(c).len() - 2] == (ActionView::DeleteCGroup { uid: c.uid }),
        drop_spec(c)[drop_spec(c).len() - 1] == (ActionView::RemoveWorkspace { path: c.workspace }),
        !c.ended ==> drop_spec(c).subrange(0, 2) == kill_and_reap(c.pid.unwrap()),
{
    if !c.ended {
        assert(drop_spec(c).subrange(0, 2) =~= kill_and_reap(c.pid.unwrap()));
    }
}

/// A second `start` is refused: while the first is under way, once it has
/// succeeded, and whenever a child was cloned, `start` may not begin, so it
/// answers `AlreadyStarted` and clones nothing.
pub proof fn lemma_second_start_refused(c: ContainerView)
    requires
        wf_view(c),
        in_progress(c.phase) || c.phase == Phase::Running || c.pid.is_some(),
    ensures
        !can_start(c),
{
}

/// Status-channel framing as the supervisor reads it: when the child
/// writes the frame for `code` and `payload`, the supervisor's three reads
/// (the status byte, the length, the payload) and the reap that follows
/// end `start` with exactly that code and payload.
pub proof fn lemma_supervisor_reads_child_frame(c: ContainerView, code: u8, payload: Seq<u8>)
    requires
        wf_view(c),
        c.phase == Phase::ReadingStatus,
        code != 0,
        payload.len() < 0x1_0000_0000_0000_0000,
    ensures
        ({
            let f = failure_frame(code, payload);
            let (c1, a1) = step_spec(c, EventView::Bytes { data: f.subrange(0, 1) });
            let (c2, a2) = step_spec(c1, EventView::Bytes { data: f.subrange(1, 9) });
            let (c3, a3) = step_spec(c2, EventView::Bytes { data: f.subrange(9, f.len() as int) });
            let (c4, a4) = step_spec(c3, EventView::Done);
            &&& a1 == ActionView::ReadLength
            &&& a2 == ActionView::ReadPayload { len: payload.len() as u64 }
            &&& a3 == ActionView::Reap { pid: c.pid.unwrap() }
            &&& a4 == ActionView::Finish(Err(ErrorView::EntryError { code, payload }))
            &&& c4.ended
        }),
{
    let f = failure_frame(code, payload);
    lemma_pow_256_8();
    lemma_le_round_trip(payload.len(), 8);
    assert(f.subrange(0, 1) =~= seq![code]);
    assert(f.subrange(1, 9) =~= crate::report::le_bytes(payload.len(), 8));
    assert(f.subrange(9, f.len() as int) =~= payload);
}

/// The success frame, a single zero byte, is the one status byte `start`
/// reads before it starts the deadline watcher.
pub proof fn lemma_supervisor_reads_ready(c: ContainerView)
    requires
        wf_view(c),
        c.phase == Phase::ReadingStatus,
    ensures
        ({
            let (c1, a1) = step_spec(c, EventView::Bytes { data: seq![0u8] });
            &&& a1 == ActionView::StartWatcher { pid: c.pid.unwrap(), time_limit_ms: c.time_limit_ms }
            &&& c1.status_bytes_read == 1
            &&& c1.phase == Phase::StartingWatcher
        }),
{
}

} // verus!
