//! The restart protocol of the process supervisor, as a state machine.
//!
//! A restart reclaims the target port from whatever process holds it, stops
//! every process of the running generation (kill, then poll for its exit a
//! bounded number of times), forgets them, checks that the port is free
//! (reclaiming again a bounded number of times if not), and launches one
//! process per configured command, in order. The machine decides; its
//! caller carries out each `Action` and hands back what came of it as a
//! `Reply`. A second restart asked for while one runs is refused and changes
//! nothing. The machine leaves the running state only through `Finished`.
//! The first launch runs the same machine from its launching phase, so it
//! neither reclaims the port nor stops anything.

use vstd::prelude::*;
use crate::text::{split_words, words};

verus! {

/// How long a process asked to terminate gets before it is forced.
pub const GRACE_MS: u64 = 500;

/// Pause between two checks of whether a stopped process has exited.
pub const POLL_PAUSE_MS: u64 = 100;

/// How many exit checks a stopped process gets (about five seconds).
pub const POLL_LIMIT: u64 = 50;

/// How many further reclaim passes a restart makes while the port stays taken.
pub const PORT_RETRIES: u64 = 3;

/// Pause after a further reclaim pass before the port is checked again.
pub const RETRY_PAUSE_MS: u64 = 1000;

/// Pause after the owners of the port were terminated, before the pass
/// checks the port.
pub const SETTLE_MS: u64 = 1000;

/// How port owners are terminated.
#[derive(Clone, Copy, PartialEq, Eq, Structural, Debug)]
pub enum Aggressiveness {
    /// Ask first, wait the grace period, force only those still holding the port.
    Graceful,
    /// Force at once.
    Immediate,
}

/// A command split into its program and arguments.
#[derive(Debug)]
pub struct CommandLine {
    pub program: String,
    pub args: Vec<String>,
}

/// Whether `o` is what parsing the command text `text` gives: `None` for a
/// text without words, else its first word as the program and the others as
/// the arguments.
pub open spec fn parsed_as(o: Option<CommandLine>, text: Seq<char>) -> bool {
    let w = words(text);
    if w.len() == 0 {
        o is None
    } else {
        o matches Some(cl) && cl.program@ == w[0] && cl.args@.map_values(|a: String| a@) == w.drop_first()
    }
}

/// Splits a command into program and arguments at white space; a command
/// with no words is invalid.
pub fn parse_command(command: &str) -> (r: Option<CommandLine>)
    ensures
        parsed_as(r, command@),
{
    let mut parts = split_words(command);
    if parts.len() == 0 {
        return None;
    }
    let ghost all = parts@.map_values(|w: String| w@);
    let program = parts.remove(0);
    proof {
        assert(parts@.map_values(|w: String| w@) =~= all.drop_first());
    }
    Some(CommandLine { program, args: parts })
}

/// Something for the caller to do.
#[derive(Clone, Copy, PartialEq, Eq, Structural, Debug)]
pub enum Action {
    /// List the processes that hold the port; reply `Owners`.
    ListPortOwners { port: u16 },
    /// Ask a process to terminate, or force it; reply `Done`.
    Terminate { pid: u32, force: bool },
    /// Sleep; reply `Done`.
    Pause { millis: u64 },
    /// Try to bind the port locally; reply `Flag(free)`.
    ProbePort { port: u16 },
    /// Send a kill request to the live process in this slot; reply `Done`.
    KillHandle { slot: usize },
    /// Check whether the process in this slot has exited; reply `Flag(exited)`.
    PollHandle { slot: usize },
    /// Forget every live process; reply `Done`.
    ClearGroup,
    /// Launch the command with this index and keep its process last in the
    /// group if it started; reply `Flag(started)`.
    Spawn { index: usize },
    /// Nothing to do but log the notice; reply `Done`.
    Proceed,
    /// The restart is over (or was refused).
    Finished,
}

/// Something for the caller to log.
#[derive(Clone, Copy, PartialEq, Eq, Structural, Debug)]
pub enum Notice {
    /// A restart was asked for while one runs; it was dropped.
    AlreadyRestarting,
    /// A first launch was asked for while processes are live; it was dropped.
    AlreadyLaunched,
    /// No process holds the port.
    NoPortOwners,
    /// The port is free after a reclaim pass.
    PortFreed,
    /// The port is still taken after a reclaim pass.
    PortStillInUse,
    /// A stopped process did not exit in time and is left behind.
    HandleOrphaned { slot: usize },
    /// The port is still taken; another reclaim pass follows.
    PortRetry { attempts_left: u64 },
    /// The port could not be freed; the new processes start anyway.
    CouldNotFreePort,
    /// The command with this index has no words and is not launched.
    InvalidCommand { index: usize },
}

/// One decision: an action, and perhaps a notice to log before it.
#[derive(Clone, Copy, PartialEq, Eq, Structural, Debug)]
pub struct Step {
    pub action: Action,
    pub notice: Option<Notice>,
}

/// What came of the last action.
pub enum Reply {
    Done,
    Owners(Vec<u32>),
    Flag(bool),
}

/// Where a reclaim pass leads when it ends.
#[derive(Clone, Copy, PartialEq, Eq, Structural, Debug)]
pub enum Resume {
    /// The first pass of a restart: go on to stop the live processes.
    StopHandles,
    /// A further pass: pause, then check the port again.
    RetryPause { attempts_left: u64 },
}

/// The action the machine waits on.
#[derive(Clone, Copy, PartialEq, Eq, Structural, Debug)]
pub enum Phase {
    Idle,
    AwaitOwners { then: Resume },
    AwaitTerminate { i: usize, then: Resume },
    AwaitGrace { i: usize, then: Resume },
    AwaitRecheck { i: usize, then: Resume },
    AwaitForce { i: usize, then: Resume },
    AwaitSettle { then: Resume },
    AwaitPassProbe { then: Resume },
    AwaitKill { slot: usize },
    AwaitPoll { slot: usize, polls: u64 },
    AwaitPollPause { slot: usize, polls: u64 },
    AwaitClear,
    AwaitVerify { attempts_left: u64 },
    AwaitRetryPause { attempts_left: u64 },
    AwaitSpawn { index: usize },
    AwaitSkip { index: usize },
}

/// The supervisor as the contracts see it.
pub struct SupervisorView {
    pub port: u16,
    pub policy: Aggressiveness,
    /// The parsed commands, in configured order.
    pub lines: Seq<Option<CommandLine>>,
    /// For each live process, in order, the index of the command that launched it.
    pub group: Seq<usize>,
    /// The port owners found by the current reclaim pass.
    pub owners: Seq<u32>,
    pub phase: Phase,
    /// Whether a restart (or the first launch) runs.
    pub in_flight: bool,
    /// Whether the run in progress reclaims the port: true for a restart,
    /// false for the first launch.
    pub reclaiming: bool,
    /// Whether the last port check of this restart found the port free.
    pub port_free: bool,
    /// Whether this restart gave up on freeing the port and said so.
    pub port_warned: bool,
}

/// The supervisor: the configured commands, the live generation and the
/// state of the restart in progress, if any.
pub struct Supervisor {
    port: u16,
    policy: Aggressiveness,
    plans: Vec<Option<CommandLine>>,
    group: Vec<usize>,
    owners: Vec<u32>,
    phase: Phase,
    in_flight: bool,
    reclaiming: bool,
    port_free: bool,
    port_warned: bool,
}

impl View for Supervisor {
    type V = SupervisorView;

    closed spec fn view(&self) -> SupervisorView {
        SupervisorView {
            port: self.port,
            policy: self.policy,
            lines: self.plans@,
            group: self.group@,
            owners: self.owners@,
            phase: self.phase,
            in_flight: self.in_flight,
            reclaiming: self.reclaiming,
            port_free: self.port_free,
            port_warned: self.port_warned,
        }
    }
}

/// Whether a reclaim pass that leads to `then` belongs to a consistent restart.
/// A further pass comes after the live processes were forgotten.
pub open spec fn resume_ok(then: Resume, group: Seq<usize>) -> bool {
    match then {
        Resume::StopHandles => true,
        Resume::RetryPause { attempts_left } => 0 < attempts_left <= PORT_RETRIES && group.len() == 0,
    }
}

/// Whether the live processes stand in the order of their commands, each
/// launched by a different command with an index below `bound`.
pub open spec fn in_command_order(group: Seq<usize>, bound: int) -> bool {
    &&& forall|k: int| 0 <= k < group.len() ==> #[trigger] group[k] < bound
    &&& forall|a: int, b: int| 0 <= a < b < group.len() ==> group[a] < group[b]
}

impl SupervisorView {
    /// The invariant of the supervisor: never more live processes than
    /// commands, the running flag set exactly while a restart runs, and
    /// each phase within the bounds of what it refers to.
    pub open spec fn wf(self) -> bool {
        &&& self.lines.len() <= usize::MAX
        &&& self.owners.len() <= usize::MAX
        &&& self.group.len() <= self.lines.len()
        &&& in_command_order(self.group, self.lines.len() as int)
        &&& self.in_flight <==> !(self.phase is Idle)
        &&& match self.phase {
            Phase::Idle => true,
            Phase::AwaitOwners { then } => resume_ok(then, self.group),
            Phase::AwaitTerminate { i, then } => i < self.owners.len() && resume_ok(then, self.group),
            Phase::AwaitGrace { i, then } => i < self.owners.len() && resume_ok(then, self.group),
            Phase::AwaitRecheck { i, then } => i < self.owners.len() && resume_ok(then, self.group),
            Phase::AwaitForce { i, then } => i < self.owners.len() && resume_ok(then, self.group),
            Phase::AwaitSettle { then } => resume_ok(then, self.group),
            Phase::AwaitPassProbe { then } => resume_ok(then, self.group),
            Phase::AwaitKill { slot } => slot < self.group.len(),
            Phase::AwaitPoll { slot, polls } => slot < self.group.len() && polls < POLL_LIMIT,
            Phase::AwaitPollPause { slot, polls } => slot < self.group.len() && polls < POLL_LIMIT,
            Phase::AwaitClear => true,
            Phase::AwaitVerify { attempts_left } => attempts_left <= PORT_RETRIES && self.group.len() == 0,
            Phase::AwaitRetryPause { attempts_left } => 0 < attempts_left <= PORT_RETRIES && self.group.len() == 0,
            Phase::AwaitSpawn { index } => {
                &&& index < self.lines.len()
                &&& self.lines[index as int] is Some
                &&& self.group.len() <= index
                &&& in_command_order(self.group, index as int)
                &&& self.port_free || self.port_warned || !self.reclaiming
            },
            Phase::AwaitSkip { index } => {
                &&& index < self.lines.len()
                &&& self.group.len() <= index
                &&& in_command_order(self.group, index as int)
                &&& self.port_free || self.port_warned || !self.reclaiming
            },
        }
    }
}

/// The process list of an `Owners` reply; any other reply counts as none.
pub open spec fn owners_of(reply: Reply) -> Seq<u32> {
    match reply {
        Reply::Owners(v) => v@,
        _ => seq![],
    }
}

/// The answer of a `Flag` reply; any other reply counts as `false`.
pub open spec fn flag_of(reply: Reply) -> bool {
    match reply {
        Reply::Flag(b) => b,
        _ => false,
    }
}

/// Wait on `phase` after asking for `action`.
pub open spec fn emit(s: SupervisorView, phase: Phase, action: Action, notice: Option<Notice>) -> (SupervisorView, Step) {
    (SupervisorView { phase, ..s }, Step { action, notice })
}

/// Terminate the owner at position `i` of the pass, or, after the last one,
/// pause before the port check that ends the pass.
pub open spec fn next_owner(s: SupervisorView, i: int, then: Resume, notice: Option<Notice>) -> (SupervisorView, Step) {
    if i < s.owners.len() {
        emit(
            s,
            Phase::AwaitTerminate { i: i as usize, then },
            Action::Terminate { pid: s.owners[i], force: s.policy == Aggressiveness::Immediate },
            notice,
        )
    } else {
        emit(s, Phase::AwaitSettle { then }, Action::Pause { millis: SETTLE_MS }, notice)
    }
}

/// Stop the live process in `slot`, or forget them all once each was stopped.
pub open spec fn stop_from(s: SupervisorView, slot: int, notice: Option<Notice>) -> (SupervisorView, Step) {
    if slot < s.group.len() {
        emit(s, Phase::AwaitKill { slot: slot as usize }, Action::KillHandle { slot: slot as usize }, notice)
    } else {
        emit(s, Phase::AwaitClear, Action::ClearGroup, notice)
    }
}

/// Launch the command with `index`, pass over it if it is invalid, or
/// finish the restart after the last one.
pub open spec fn spawn_from(s: SupervisorView, index: int, notice: Option<Notice>) -> (SupervisorView, Step) {
    if index < s.lines.len() {
        if s.lines[index] is Some {
            emit(s, Phase::AwaitSpawn { index: index as usize }, Action::Spawn { index: index as usize }, notice)
        } else {
            emit(s, Phase::AwaitSkip { index: index as usize }, Action::Proceed, notice)
        }
    } else {
        (SupervisorView { phase: Phase::Idle, in_flight: false, ..s }, Step { action: Action::Finished, notice })
    }
}

/// The next state and step of the machine on the reply to its last action.
pub open spec fn advance(s: SupervisorView, reply: Reply) -> (SupervisorView, Step) {
    match s.phase {
        Phase::Idle => (s, Step { action: Action::Finished, notice: None }),
        Phase::AwaitOwners { then } => {
            let s1 = SupervisorView { owners: owners_of(reply), ..s };
            if s1.owners.len() == 0 {
                emit(s1, Phase::AwaitPassProbe { then }, Action::ProbePort { port: s.port }, Some(Notice::NoPortOwners))
            } else {
                next_owner(s1, 0, then, None)
            }
        },
        Phase::AwaitTerminate { i, then } => {
            if s.policy == Aggressiveness::Immediate {
                next_owner(s, i + 1, then, None)
            } else {
                emit(s, Phase::AwaitGrace { i, then }, Action::Pause { millis: GRACE_MS }, None)
            }
        },
        Phase::AwaitGrace { i, then } => emit(s, Phase::AwaitRecheck { i, then }, Action::ListPortOwners { port: s.port }, None),
        Phase::AwaitRecheck { i, then } => {
            if i < s.owners.len() && owners_of(reply).contains(s.owners[i as int]) {
                emit(s, Phase::AwaitForce { i, then }, Action::Terminate { pid: s.owners[i as int], force: true }, None)
            } else {
                next_owner(s, i + 1, then, None)
            }
        },
        Phase::AwaitForce { i, then } => next_owner(s, i + 1, then, None),
        Phase::AwaitSettle { then } => emit(s, Phase::AwaitPassProbe { then }, Action::ProbePort { port: s.port }, None),
        Phase::AwaitPassProbe { then } => {
            let note = if flag_of(reply) { Notice::PortFreed } else { Notice::PortStillInUse };
            match then {
                Resume::StopHandles => stop_from(s, 0, Some(note)),
                Resume::RetryPause { attempts_left } => emit(
                    s,
                    Phase::AwaitRetryPause { attempts_left },
                    Action::Pause { millis: RETRY_PAUSE_MS },
                    Some(note),
                ),
            }
        },
        Phase::AwaitKill { slot } => emit(s, Phase::AwaitPoll { slot, polls: 0 }, Action::PollHandle { slot }, None),
        Phase::AwaitPoll { slot, polls } => {
            if flag_of(reply) {
                stop_from(s, slot + 1, None)
            } else if polls >= POLL_LIMIT - 1 {
                stop_from(s, slot + 1, Some(Notice::HandleOrphaned { slot }))
            } else {
                emit(s, Phase::AwaitPollPause { slot, polls: (polls + 1) as u64 }, Action::Pause { millis: POLL_PAUSE_MS }, None)
            }
        },
        Phase::AwaitPollPause { slot, polls } => emit(s, Phase::AwaitPoll { slot, polls }, Action::PollHandle { slot }, None),
        Phase::AwaitClear => emit(
            SupervisorView { group: seq![], ..s },
            Phase::AwaitVerify { attempts_left: PORT_RETRIES },
            Action::ProbePort { port: s.port },
            None,
        ),
        Phase::AwaitVerify { attempts_left } => {
            if flag_of(reply) {
                spawn_from(SupervisorView { port_free: true, ..s }, 0, None)
            } else if attempts_left > 0 {
                emit(
                    SupervisorView { port_free: false, ..s },
                    Phase::AwaitOwners { then: Resume::RetryPause { attempts_left } },
                    Action::ListPortOwners { port: s.port },
                    Some(Notice::PortRetry { attempts_left }),
                )
            } else {
                spawn_from(SupervisorView { port_free: false, port_warned: true, ..s }, 0, Some(Notice::CouldNotFreePort))
            }
        },
        Phase::AwaitRetryPause { attempts_left } => {
            let left: u64 = if attempts_left > 0 { (attempts_left - 1) as u64 } else { 0 };
            emit(s, Phase::AwaitVerify { attempts_left: left }, Action::ProbePort { port: s.port }, None)
        },
        Phase::AwaitSpawn { index } => {
            let s1 = if flag_of(reply) { SupervisorView { group: s.group.push(index), ..s } } else { s };
            spawn_from(s1, index + 1, None)
        },
        Phase::AwaitSkip { index } => spawn_from(s, index + 1, Some(Notice::InvalidCommand { index })),
    }
}

/// What asking for a restart does: refused, with nothing changed, while one
/// runs; else the restart begins with a reclaim pass on the port.
pub open spec fn began(old: SupervisorView, new: SupervisorView, r: Step) -> bool {
    if old.in_flight {
        new == old && r == Step { action: Action::Finished, notice: Some(Notice::AlreadyRestarting) }
    } else {
        &&& new == SupervisorView {
            phase: Phase::AwaitOwners { then: Resume::StopHandles },
            in_flight: true,
            reclaiming: true,
            port_free: false,
            port_warned: false,
            ..old
        }
        &&& r == Step { action: Action::ListPortOwners { port: old.port }, notice: None }
    }
}


/// What asking for the first launch does: refused, with nothing changed,
/// while a run is in progress or processes are live; else every command is
/// launched in order, with no port reclaimed and no process stopped.
pub open spec fn launched(old: SupervisorView, new: SupervisorView, r: Step) -> bool {
    if old.in_flight {
        new == old && r == Step { action: Action::Finished, notice: Some(Notice::AlreadyRestarting) }
    } else if old.group.len() > 0 {
        new == old && r == Step { action: Action::Finished, notice: Some(Notice::AlreadyLaunched) }
    } else {
        (new, r) == spawn_from(
            SupervisorView { in_flight: true, reclaiming: false, port_free: false, port_warned: false, ..old },
            0,
            None,
        )
    }
}

/// Every step keeps the invariant, so a restart never leaves more live
/// processes than there are commands, and they stand in the order of the
/// commands that launched them; the commands, the port and the policy never
/// change.
pub proof fn lemma_step_keeps_invariant(s: SupervisorView, reply: Reply)
    requires
        s.wf(),
        owners_of(reply).len() <= usize::MAX,
    ensures
        advance(s, reply).0.wf(),
        advance(s, reply).0.group.len() <= s.lines.len(),
        in_command_order(advance(s, reply).0.group, s.lines.len() as int),
        advance(s, reply).0.lines == s.lines,
        advance(s, reply).0.port == s.port,
        advance(s, reply).0.policy == s.policy,
        advance(s, reply).0.reclaiming == s.reclaiming,
{
}

/// A restart finishes only after a port check found the port free, or
/// after it said that the port could not be freed; and it says so exactly
/// on the step where it gives up.
pub proof fn lemma_finish_reports_port(s: SupervisorView, reply: Reply)
    requires
        s.wf(),
        s.in_flight,
        s.reclaiming,
    ensures
        advance(s, reply).1.action is Finished ==> advance(s, reply).0.port_free || advance(s, reply).0.port_warned,
        !s.port_warned && advance(s, reply).0.port_warned ==> advance(s, reply).1.notice == Some(Notice::CouldNotFreePort),
{
}

/// A restart asked for while another runs is refused and changes nothing;
/// so two requests in a row without the first finishing start one restart.
pub proof fn lemma_single_flight(s0: SupervisorView, s1: SupervisorView, s2: SupervisorView, r1: Step, r2: Step)
    requires
        !s0.in_flight,
        began(s0, s1, r1),
        began(s1, s2, r2),
    ensures
        r1.action is ListPortOwners,
        s1.in_flight,
        r2 == (Step { action: Action::Finished, notice: Some(Notice::AlreadyRestarting) }),
        s2 == s1,
{
}

/// What follows the owner at position `i` of a pass: the termination of
/// the next owner, or after the last one the settle pause.
pub open spec fn moves_past_owner(s: SupervisorView, next: (SupervisorView, Step), i: int) -> bool {
    if i + 1 < s.owners.len() {
        &&& next.0.phase is AwaitTerminate
        &&& next.1.action == Action::Terminate { pid: s.owners[i + 1], force: s.policy == Aggressiveness::Immediate }
    } else {
        &&& next.0.phase is AwaitSettle
        &&& next.1.action == Action::Pause { millis: SETTLE_MS }
    }
}

/// A reclaim pass terminates every owner it listed, in order and none
/// twice over: the listing leads to the first owner; each owner is asked to
/// terminate (or forced at once), and with the graceful policy it is forced
/// after the grace period exactly when a second listing still shows it;
/// after the last owner comes the settle pause, then one port check, whose
/// notice says the port was freed exactly when the check found it free.
pub proof fn lemma_pass_terminates_every_owner(s: SupervisorView, reply: Reply)
    requires
        s.wf(),
    ensures
        s.phase is AwaitOwners && owners_of(reply).len() > 0 ==> {
            &&& advance(s, reply).0.owners == owners_of(reply)
            &&& advance(s, reply).0.phase is AwaitTerminate
            &&& advance(s, reply).1.action == (Action::Terminate {
                pid: owners_of(reply)[0],
                force: s.policy == Aggressiveness::Immediate,
            })
        },
        s.phase matches Phase::AwaitTerminate { i, .. } ==> if s.policy == Aggressiveness::Immediate {
            moves_past_owner(s, advance(s, reply), i as int)
        } else {
            advance(s, reply).1.action == (Action::Pause { millis: GRACE_MS })
        },
        s.phase is AwaitGrace ==> advance(s, reply).1.action == (Action::ListPortOwners { port: s.port }),
        s.phase matches Phase::AwaitRecheck { i, .. } ==> if owners_of(reply).contains(s.owners[i as int]) {
            advance(s, reply).1.action == (Action::Terminate { pid: s.owners[i as int], force: true })
        } else {
            moves_past_owner(s, advance(s, reply), i as int)
        },
        s.phase matches Phase::AwaitForce { i, .. } ==> moves_past_owner(s, advance(s, reply), i as int),
        s.phase is AwaitSettle ==> advance(s, reply).1.action == (Action::ProbePort { port: s.port }),
        s.phase is AwaitPassProbe ==> advance(s, reply).1.notice == Some(
            if flag_of(reply) { Notice::PortFreed } else { Notice::PortStillInUse },
        ),
        advance(s, reply).0.phase is AwaitTerminate ==> advance(s, reply).0.owners == (if s.phase is AwaitOwners {
            owners_of(reply)
        } else {
            s.owners
        }),
{
}

/// Position of a phase of a reclaim pass within the pass, counting down.
pub open spec fn pass_rank(s: SupervisorView) -> int {
    let n = s.owners.len() as int;
    match s.phase {
        Phase::AwaitTerminate { i, .. } => 4 * (n - i) + 1,
        Phase::AwaitGrace { i, .. } => 4 * (n - i),
        Phase::AwaitRecheck { i, .. } => 4 * (n - i) - 1,
        Phase::AwaitForce { i, .. } => 4 * (n - i) - 2,
        Phase::AwaitSettle { .. } => 1,
        _ => 0,
    }
}

/// The coarse position of a running restart, counting down: the first
/// pass, stopping, forgetting, then for each further attempt a check, a
/// listing, the rest of the pass and a pause, and last the launching.
pub open spec fn major_rank(s: SupervisorView) -> int {
    let r = PORT_RETRIES as int;
    match s.phase {
        Phase::AwaitOwners { then } => match then {
            Resume::StopHandles => 4 * r + 7,
            Resume::RetryPause { attempts_left } => 4 * attempts_left + 2,
        },
        Phase::AwaitTerminate { then, .. } | Phase::AwaitGrace { then, .. } | Phase::AwaitRecheck { then, .. }
        | Phase::AwaitForce { then, .. } | Phase::AwaitSettle { then } | Phase::AwaitPassProbe { then } => match then {
            Resume::StopHandles => 4 * r + 6,
            Resume::RetryPause { attempts_left } => 4 * attempts_left + 1,
        },
        Phase::AwaitKill { .. } | Phase::AwaitPoll { .. } | Phase::AwaitPollPause { .. } => 4 * r + 5,
        Phase::AwaitClear => 4 * r + 4,
        Phase::AwaitVerify { attempts_left } => 4 * attempts_left + 3,
        Phase::AwaitRetryPause { attempts_left } => 4 * attempts_left,
        _ => 0,
    }
}

/// The fine position of a running restart within its coarse position.
pub open spec fn minor_rank(s: SupervisorView) -> int {
    let per_slot = 2 * POLL_LIMIT + 1;
    let g = s.group.len() as int;
    match s.phase {
        Phase::AwaitKill { slot } => (g - slot) * per_slot,
        Phase::AwaitPoll { slot, polls } => (g - slot) * per_slot - (1 + 2 * polls),
        Phase::AwaitPollPause { slot, polls } => (g - slot) * per_slot - 2 * polls,
        Phase::AwaitSpawn { index } | Phase::AwaitSkip { index } => s.lines.len() - index,
        _ => pass_rank(s),
    }
}

/// Whether `a` comes strictly later in a restart than `b`.
pub open spec fn ranks_below(a: SupervisorView, b: SupervisorView) -> bool {
    ||| major_rank(a) < major_rank(b)
    ||| (major_rank(a) == major_rank(b) && 0 <= minor_rank(a) < minor_rank(b))
}

/// Every step of a running restart either finishes it, releasing the
/// running flag, or moves it strictly forward in a well-founded order; so
/// whatever the replies, every restart reaches `Finished`.
pub proof fn lemma_restart_always_finishes(s: SupervisorView, reply: Reply)
    requires
        s.wf(),
        s.in_flight,
    ensures
        advance(s, reply).1.action is Finished <==> !advance(s, reply).0.in_flight,
        advance(s, reply).0.in_flight ==> ranks_below(advance(s, reply).0, s),
        0 <= major_rank(s),
        0 <= minor_rank(s),
{
    match s.phase {
        Phase::AwaitPoll { slot, polls } => {
            assert((s.group.len() - slot) * (2 * POLL_LIMIT + 1) >= 2 * POLL_LIMIT + 1) by (nonlinear_arith)
                requires s.group.len() - slot >= 1;
            assert((s.group.len() - slot - 1) * (2 * POLL_LIMIT + 1) == (s.group.len() - slot) * (2 * POLL_LIMIT + 1) - (2 * POLL_LIMIT + 1)) by (nonlinear_arith);
            assert((s.group.len() - slot - 1) * (2 * POLL_LIMIT + 1) >= 0) by (nonlinear_arith)
                requires s.group.len() - slot - 1 >= 0;
        },
        Phase::AwaitPollPause { slot, polls } => {
            assert((s.group.len() - slot) * (2 * POLL_LIMIT + 1) >= 2 * POLL_LIMIT + 1) by (nonlinear_arith)
                requires s.group.len() - slot >= 1;
        },
        Phase::AwaitKill { slot } => {
            assert((s.group.len() - slot) * (2 * POLL_LIMIT + 1) >= 2 * POLL_LIMIT + 1) by (nonlinear_arith)
                requires s.group.len() - slot >= 1;
        },
        _ => {},
    }
}

/// Whether `pid` occurs in `list`.
fn lists_pid(list: &Vec<u32>, pid: u32) -> (r: bool)
    ensures
        r == list@.contains(pid),
{
    let mut i: usize = 0;
    while i < list.len()
        invariant
            i <= list.len(),
            forall|j: int| 0 <= j < i ==> list@[j] != pid,
        decreases list.len() - i,
    {
        if list[i] == pid {
            return true;
        }
        i = i + 1;
    }
    false
}

impl Supervisor {
    /// An idle supervisor for `commands` and the target `port`, with no
    /// live processes; each command is parsed once, here.
    pub fn new(commands: &Vec<String>, port: u16, policy: Aggressiveness) -> (r: Supervisor)
        ensures
            r@.wf(),
            r@.port == port,
            r@.policy == policy,
            r@.lines.len() == commands@.len(),
            forall|i: int| 0 <= i < commands@.len() ==> parsed_as(#[trigger] r@.lines[i], commands@[i]@),
            r@.group.len() == 0,
            r@.phase is Idle,
            !r@.in_flight,
    {
        let mut plans: Vec<Option<CommandLine>> = Vec::new();
        let mut i: usize = 0;
        while i < commands.len()
            invariant
                i <= commands.len(),
                plans@.len() == i,
                forall|j: int| 0 <= j < i ==> parsed_as(#[trigger] plans@[j], commands@[j]@),
            decreases commands.len() - i,
        {
            plans.push(parse_command(commands[i].as_str()));
            i = i + 1;
        }
        Supervisor {
            port,
            policy,
            plans,
            group: Vec::new(),
            owners: Vec::new(),
            phase: Phase::Idle,
            in_flight: false,
            reclaiming: false,
            port_free: false,
            port_warned: false,
        }
    }

    /// The target port.
    pub fn port(&self) -> (r: u16)
        ensures
            r == self@.port,
    {
        self.port
    }

    /// Whether a restart runs.
    pub fn is_restarting(&self) -> (r: bool)
        ensures
            r == self@.in_flight,
    {
        self.in_flight
    }

    /// How many processes are live.
    pub fn live_handles(&self) -> (r: usize)
        ensures
            r == self@.group.len(),
    {
        self.group.len()
    }

    /// The parsed command with this index, `None` where it has no words.
    pub fn command_line(&self, index: usize) -> (r: &Option<CommandLine>)
        requires
            index < self@.lines.len(),
        ensures
            *r == self@.lines[index as int],
    {
        &self.plans[index]
    }

    /// Asks for a restart: refused while one runs, with nothing changed;
    /// else the restart begins by listing the owners of the port.
    pub fn begin_restart(&mut self) -> (r: Step)
        requires
            old(self)@.wf(),
        ensures
            final(self)@.wf(),
            began(old(self)@, final(self)@, r),
    {
        if self.in_flight {
            return Step { action: Action::Finished, notice: Some(Notice::AlreadyRestarting) };
        }
        self.in_flight = true;
        self.reclaiming = true;
        self.port_free = false;
        self.port_warned = false;
        self.phase = Phase::AwaitOwners { then: Resume::StopHandles };
        Step { action: Action::ListPortOwners { port: self.port }, notice: None }
    }

    /// Asks for the first launch: refused while a run is in progress or
    /// processes are live, with nothing changed; else the commands are
    /// launched in order, without reclaiming the port.
    pub fn begin_launch(&mut self) -> (r: Step)
        requires
            old(self)@.wf(),
        ensures
            final(self)@.wf(),
            launched(old(self)@, final(self)@, r),
    {
        if self.in_flight {
            return Step { action: Action::Finished, notice: Some(Notice::AlreadyRestarting) };
        }
        if self.group.len() > 0 {
            return Step { action: Action::Finished, notice: Some(Notice::AlreadyLaunched) };
        }
        self.in_flight = true;
        self.reclaiming = false;
        self.port_free = false;
        self.port_warned = false;
        self.spawn_from(0, None)
    }

    fn emit(&mut self, phase: Phase, action: Action, notice: Option<Notice>) -> (r: Step)
        ensures
            (final(self)@, r) == emit(old(self)@, phase, action, notice),
    {
        self.phase = phase;
        Step { action, notice }
    }

    fn next_owner(&mut self, i: usize, then: Resume, notice: Option<Notice>) -> (r: Step)
        ensures
            (final(self)@, r) == next_owner(old(self)@, i as int, then, notice),
    {
        if i < self.owners.len() {
            let force = match self.policy {
                Aggressiveness::Immediate => true,
                Aggressiveness::Graceful => false,
            };
            let pid = self.owners[i];
            self.emit(Phase::AwaitTerminate { i, then }, Action::Terminate { pid, force }, notice)
        } else {
            self.emit(Phase::AwaitSettle { then }, Action::Pause { millis: SETTLE_MS }, notice)
        }
    }

    fn stop_from(&mut self, slot: usize, notice: Option<Notice>) -> (r: Step)
        ensures
            (final(self)@, r) == stop_from(old(self)@, slot as int, notice),
    {
        if slot < self.group.len() {
            self.emit(Phase::AwaitKill { slot }, Action::KillHandle { slot }, notice)
        } else {
            self.emit(Phase::AwaitClear, Action::ClearGroup, notice)
        }
    }

    fn spawn_from(&mut self, index: usize, notice: Option<Notice>) -> (r: Step)
        ensures
            (final(self)@, r) == spawn_from(old(self)@, index as int, notice),
    {
        if index < self.plans.len() {
            if self.plans[index].is_some() {
                self.emit(Phase::AwaitSpawn { index }, Action::Spawn { index }, notice)
            } else {
                self.emit(Phase::AwaitSkip { index }, Action::Proceed, notice)
            }
        } else {
            self.phase = Phase::Idle;
            self.in_flight = false;
            Step { action: Action::Finished, notice }
        }
    }

    /// Hands the machine the reply to its last action and returns the next
    /// step; while no restart runs the step is `Finished` and nothing changes.
    pub fn step(&mut self, reply: Reply) -> (r: Step)
        requires
            old(self)@.wf(),
        ensures
            final(self)@.wf(),
            (final(self)@, r) == advance(old(self)@, reply),
    {
        match &reply {
            Reply::Owners(v) => {
                let _ = v.len();
            },
            _ => {},
        }
        proof {
            lemma_step_keeps_invariant(self@, reply);
        }
        let ghost g = reply;
        let owner_count = self.owners.len();
        match self.phase {
            Phase::Idle => Step { action: Action::Finished, notice: None },
            Phase::AwaitOwners { then } => {
                let found = match reply {
                    Reply::Owners(v) => v,
                    _ => Vec::new(),
                };
                assert(found@ == owners_of(g));
                self.owners = found;
                if self.owners.len() == 0 {
                    let port = self.port;
                    self.emit(Phase::AwaitPassProbe { then }, Action::ProbePort { port }, Some(Notice::NoPortOwners))
                } else {
                    self.next_owner(0, then, None)
                }
            },
            Phase::AwaitTerminate { i, then } => {
                match self.policy {
                    Aggressiveness::Immediate => self.next_owner(i + 1, then, None),
                    Aggressiveness::Graceful => self.emit(Phase::AwaitGrace { i, then }, Action::Pause { millis: GRACE_MS }, None),
                }
            },
            Phase::AwaitGrace { i, then } => {
                let port = self.port;
                self.emit(Phase::AwaitRecheck { i, then }, Action::ListPortOwners { port }, None)
            },
            Phase::AwaitRecheck { i, then } => {
                let pid = self.owners[i];
                let still = match &reply {
                    Reply::Owners(v) => lists_pid(v, pid),
                    _ => false,
                };
                if still {
                    self.emit(Phase::AwaitForce { i, then }, Action::Terminate { pid, force: true }, None)
                } else {
                    self.next_owner(i + 1, then, None)
                }
            },
            Phase::AwaitForce { i, then } => self.next_owner(i + 1, then, None),
            Phase::AwaitSettle { then } => {
                let port = self.port;
                self.emit(Phase::AwaitPassProbe { then }, Action::ProbePort { port }, None)
            },
            Phase::AwaitPassProbe { then } => {
                let free = match reply {
                    Reply::Flag(b) => b,
                    _ => false,
                };
                let note = if free { Notice::PortFreed } else { Notice::PortStillInUse };
                match then {
                    Resume::StopHandles => self.stop_from(0, Some(note)),
                    Resume::RetryPause { attempts_left } => self.emit(
                        Phase::AwaitRetryPause { attempts_left },
                        Action::Pause { millis: RETRY_PAUSE_MS },
                        Some(note),
                    ),
                }
            },
            Phase::AwaitKill { slot } => self.emit(Phase::AwaitPoll { slot, polls: 0 }, Action::PollHandle { slot }, None),
            Phase::AwaitPoll { slot, polls } => {
                let exited = match reply {
                    Reply::Flag(b) => b,
                    _ => false,
                };
                if exited {
                    self.stop_from(slot + 1, None)
                } else if polls >= POLL_LIMIT - 1 {
                    self.stop_from(slot + 1, Some(Notice::HandleOrphaned { slot }))
                } else {
                    self.emit(Phase::AwaitPollPause { slot, polls: polls + 1 }, Action::Pause { millis: POLL_PAUSE_MS }, None)
                }
            },
            Phase::AwaitPollPause { slot, polls } => self.emit(Phase::AwaitPoll { slot, polls }, Action::PollHandle { slot }, None),
            Phase::AwaitClear => {
                self.group.clear();
                let port = self.port;
                self.emit(Phase::AwaitVerify { attempts_left: PORT_RETRIES }, Action::ProbePort { port }, None)
            },
            Phase::AwaitVerify { attempts_left } => {
                let free = match reply {
                    Reply::Flag(b) => b,
                    _ => false,
                };
                if free {
                    self.port_free = true;
                    self.spawn_from(0, None)
                } else if attempts_left > 0 {
                    self.port_free = false;
                    let port = self.port;
                    self.emit(
                        Phase::AwaitOwners { then: Resume::RetryPause { attempts_left } },
                        Action::ListPortOwners { port },
                        Some(Notice::PortRetry { attempts_left }),
                    )
                } else {
                    self.port_free = false;
                    self.port_warned = true;
                    self.spawn_from(0, Some(Notice::CouldNotFreePort))
                }
            },
            Phase::AwaitRetryPause { attempts_left } => {
                let left: u64 = if attempts_left > 0 { attempts_left - 1 } else { 0 };
                let port = self.port;
                self.emit(Phase::AwaitVerify { attempts_left: left }, Action::ProbePort { port }, None)
            },
            Phase::AwaitSpawn { index } => {
                let started = match reply {
                    Reply::Flag(b) => b,
                    _ => false,
                };
                if started {
                    self.group.push(index);
                }
                self.spawn_from(index + 1, None)
            },
            Phase::AwaitSkip { index } => self.spawn_from(index + 1, Some(Notice::InvalidCommand { index })),
        }
    }
}

} // verus!
