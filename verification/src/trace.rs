//! Process control and the trace-loop state machine.
//!
//! A traced process yields a sequence of stops. Each logical syscall
//! appears as two trace-signal stops, entry and exit; the session tracks
//! that parity explicitly and builds one decoded record per completed
//! pair, from the registers of the second stop. Stops caused by other
//! signals pass through without touching the pairing, and records whose
//! name a configured filter rejects are still produced, then discarded,
//! so filtering never desynchronizes the parity.

use vstd::prelude::*;

use nix::sys::wait::WaitStatus;

use crate::arch::spec_table_name;
use crate::registers::{decode_stop, decoded_from, RegisterSnapshot, RegistersData};

verus! {

/// The stop number delivered for a trace-signal stop (`SIGTRAP`).
pub const TRACE_SIGNAL: i32 = 5;

/// The error number for a process that no longer exists (`ESRCH`).
pub const NO_SUCH_PROCESS: i32 = 3;

/// Where the session stands between stops.
#[derive(Clone, Copy, Debug, PartialEq, Eq, Structural)]
pub enum TraceState {
    /// After a launch, before the first stop (the one delivered before
    /// the program's entry point runs) has been consumed.
    AwaitingInitialStop,
    /// The next trace-signal stop is a syscall entry.
    AwaitingEntryStop,
    /// The next trace-signal stop is a syscall exit and completes a pair.
    AwaitingExitStop,
    /// The target is gone; no further stops are possible.
    Exited,
}

/// One observed stop of the target, as the state machine sees it.
#[derive(Clone, Copy, Debug, PartialEq, Eq, Structural)]
pub enum StopEvent {
    /// The process exited or was killed.
    ProcessExited,
    /// A trace-signal stop, with the registers captured at it.
    TraceStop(RegisterSnapshot),
    /// A stop for any other signal: observed, never decoded.
    OtherStop,
}

/// The transition function: the state after one event, and the register
/// snapshot to decode when the event completed an entry/exit pair.
pub open spec fn spec_step(st: TraceState, ev: StopEvent) -> (TraceState, Option<
    RegisterSnapshot,
>) {
    match ev {
        StopEvent::ProcessExited => (TraceState::Exited, None),
        StopEvent::OtherStop => (st, None),
        StopEvent::TraceStop(snap) => match st {
            TraceState::AwaitingInitialStop => (TraceState::AwaitingEntryStop, None),
            TraceState::AwaitingEntryStop => (TraceState::AwaitingExitStop, None),
            TraceState::AwaitingExitStop => (TraceState::AwaitingEntryStop, Some(snap)),
            TraceState::Exited => (TraceState::Exited, None),
        },
    }
}

/// Whether a filter accepts a syscall name: an empty filter accepts
/// everything, a non-empty one exactly its members.
pub open spec fn filter_accepts(filters: Seq<String>, name: Seq<char>) -> bool {
    filters.len() == 0 || exists|i: int| 0 <= i < filters.len() && filters[i]@ == name
}

/// Errors fatal to a session: an operating-system trace request failed
/// mid-session. Each carries the error number the system reported.
#[derive(Clone, Copy, Debug, PartialEq, Eq, Structural)]
pub enum TraceError {
    /// Requesting continuation to the next stop failed.
    ContinueFailed(i32),
    /// Waiting for the next stop failed.
    WaitFailed(i32),
    /// Reading the stopped target's registers failed.
    RegsFailed(i32),
    /// Attaching to a running process failed.
    AttachFailed(i32),
}

/// What one observed stop of a session amounted to.
#[derive(Debug)]
pub enum StepOutcome {
    /// The target exited; the session is over.
    Exited,
    /// A stop was consumed without completing a pair.
    NoRecord,
    /// A pair completed, but the filter rejected the record.
    Filtered,
    /// A pair completed and its record passed the filter.
    Emitted(RegistersData),
}

/// The state machine instance for one traced process: its identifier,
/// the pairing state, and the set of accepted syscall names (empty for
/// no filtering).
pub struct TraceSession {
    pub pid: i32,
    pub state: TraceState,
    pub filters: Vec<String>,
}

impl TraceSession {
    /// A session for a freshly launched target: the stop delivered
    /// before the program's entry point is still pending, and pairing
    /// begins only after it.
    pub fn launch_session(pid: i32, filters: Vec<String>) -> (s: TraceSession)
        ensures
            s.pid == pid,
            s.state == TraceState::AwaitingInitialStop,
            s.filters == filters,
    {
        TraceSession { pid, state: TraceState::AwaitingInitialStop, filters }
    }

    /// A session for a target attached to while running: there is no
    /// launch stop to wait for, and entry/exit pairing begins with the
    /// first trace-signal stop observed.
    pub fn attach_session(pid: i32, filters: Vec<String>) -> (s: TraceSession)
        ensures
            s.pid == pid,
            s.state == TraceState::AwaitingEntryStop,
            s.filters == filters,
    {
        TraceSession { pid, state: TraceState::AwaitingEntryStop, filters }
    }

    /// Whether further stops can still arrive.
    pub fn is_active(&self) -> (b: bool)
        ensures
            b == (self.state is AwaitingEntryStop || self.state is AwaitingExitStop),
    {
        match self.state {
            TraceState::AwaitingEntryStop => true,
            TraceState::AwaitingExitStop => true,
            _ => false,
        }
    }

    /// Feeds one observed stop through the transition function.
    pub fn advance(&mut self, ev: StopEvent) -> (r: Option<RegisterSnapshot>)
        ensures
            (final(self).state, r) == spec_step(old(self).state, ev),
            final(self).pid == old(self).pid,
            final(self).filters == old(self).filters,
    {
        let (next, emit) = match ev {
            StopEvent::ProcessExited => (TraceState::Exited, None),
            StopEvent::OtherStop => (self.state, None),
            StopEvent::TraceStop(snap) => match self.state {
                TraceState::AwaitingInitialStop => (TraceState::AwaitingEntryStop, None),
                TraceState::AwaitingEntryStop => (TraceState::AwaitingExitStop, None),
                TraceState::AwaitingExitStop => (TraceState::AwaitingEntryStop, Some(snap)),
                TraceState::Exited => (TraceState::Exited, None),
            },
        };
        self.state = next;
        emit
    }

    /// Whether the configured filter lets a record with this name
    /// through.
    pub fn accepts(&self, name: &String) -> (b: bool)
        ensures
            b == filter_accepts(self.filters@, name@),
    {
        if self.filters.len() == 0 {
            return true;
        }
        let mut i: usize = 0;
        while i < self.filters.len()
            invariant
                i <= self.filters@.len(),
                forall|j: int| 0 <= j < i ==> self.filters@[j]@ != name@,
            decreases self.filters@.len() - i,
        {
            if self.filters[i].eq(name) {
                return true;
            }
            i = i + 1;
        }
        false
    }

    /// Consumes the one stop that is already pending when tracing
    /// begins, without requesting continuation first: the launch stop of
    /// a fresh target, or the attach stop of a running one. Neither can
    /// complete a pair, so no record is lost here.
    pub fn sync_initial(&mut self) -> (r: Result<(), TraceError>)
        requires
            old(self).state is AwaitingInitialStop || old(self).state is AwaitingEntryStop,
        ensures
            final(self).pid == old(self).pid,
            final(self).filters == old(self).filters,
            match r {
                Ok(()) => exists|ev: StopEvent|
                    final(self).state == spec_step(old(self).state, ev).0,
                Err(e) => (e is WaitFailed || e is RegsFailed) && final(self).state == old(
                    self,
                ).state,
            },
    {
        match wait_next(self.pid) {
            Err(e) => Err(TraceError::WaitFailed(e)),
            Ok(w) => {
                let ev = match w {
                    WaitEvent::Exited => StopEvent::ProcessExited,
                    WaitEvent::Signaled => StopEvent::ProcessExited,
                    WaitEvent::Stopped(sig) => {
                        if sig == TRACE_SIGNAL {
                            match ptrace_getregs(self.pid) {
                                Err(e) => {
                                    return Err(TraceError::RegsFailed(e));
                                },
                                Ok(snap) => StopEvent::TraceStop(snap),
                            }
                        } else {
                            StopEvent::OtherStop
                        }
                    },
                    WaitEvent::Other => StopEvent::OtherStop,
                };
                let _ = self.advance(ev);
                Ok(())
            },
        }
    }
}

/// What one call of `trace_step` claims: some stop event `ev` was
/// observed, the session's state moved as the transition function says,
/// and the outcome describes that event: `Exited` for the target's end,
/// `NoRecord` for a stop that completed no pair, and for a completed
/// pair a record of the exit stop's registers, emitted or filtered
/// exactly as the filter says of its table name.
pub open spec fn step_matches(
    before: TraceState,
    after: TraceState,
    filters: Seq<String>,
    out: StepOutcome,
    ev: StopEvent,
) -> bool {
    let st2 = spec_step(before, ev).0;
    let em = spec_step(before, ev).1;
    after == st2 && match out {
        StepOutcome::Exited => ev is ProcessExited,
        StepOutcome::NoRecord => em is None && !(ev is ProcessExited),
        StepOutcome::Filtered => em is Some && !filter_accepts(
            filters,
            spec_table_name(em->0.orig_rax),
        ),
        StepOutcome::Emitted(rec) => em is Some && filter_accepts(
            filters,
            spec_table_name(em->0.orig_rax),
        ) && decoded_from(rec, em->0),
    }
}

/// Requests that the target continue to its next syscall-related stop,
/// waits for that stop, and feeds it through the session: at an exit
/// stop the registers are decoded into a record, the filter is applied,
/// and an accepted record is handed back.
pub fn trace_step(session: &mut TraceSession) -> (r: Result<StepOutcome, TraceError>)
    requires
        old(session).state is AwaitingEntryStop || old(session).state is AwaitingExitStop,
    ensures
        final(session).pid == old(session).pid,
        final(session).filters == old(session).filters,
        match r {
            Err(_) => final(session).state == old(session).state,
            Ok(out) => exists|ev: StopEvent|
                step_matches(
                    old(session).state,
                    final(session).state,
                    old(session).filters@,
                    out,
                    ev,
                ),
        },
{
    let ghost st0 = session.state;
    let ghost fs0 = session.filters@;
    let pid = session.pid;
    match ptrace_syscall_cont(pid) {
        Err(e) => {
            if e == NO_SUCH_PROCESS {
                // The target vanished between stops: a normal exit, not
                // an error.
                let _ = session.advance(StopEvent::ProcessExited);
                assert(step_matches(st0, session.state, fs0, StepOutcome::Exited, StopEvent::ProcessExited));
                Ok(StepOutcome::Exited)
            } else {
                Err(TraceError::ContinueFailed(e))
            }
        },
        Ok(()) => {
            match wait_next(pid) {
                Err(e) => Err(TraceError::WaitFailed(e)),
                Ok(WaitEvent::Exited) => {
                    let _ = session.advance(StopEvent::ProcessExited);
                    assert(step_matches(st0, session.state, fs0, StepOutcome::Exited, StopEvent::ProcessExited));
                    Ok(StepOutcome::Exited)
                },
                Ok(WaitEvent::Signaled) => {
                    let _ = session.advance(StopEvent::ProcessExited);
                    assert(step_matches(st0, session.state, fs0, StepOutcome::Exited, StopEvent::ProcessExited));
                    Ok(StepOutcome::Exited)
                },
                Ok(WaitEvent::Stopped(sig)) => {
                    if sig == TRACE_SIGNAL {
                        match ptrace_getregs(pid) {
                            Err(e) => Err(TraceError::RegsFailed(e)),
                            Ok(snap) => {
                                let emit = session.advance(StopEvent::TraceStop(snap));
                                match emit {
                                    None => {
                                        assert(step_matches(st0, session.state, fs0, StepOutcome::NoRecord, StopEvent::TraceStop(snap)));
                                        Ok(StepOutcome::NoRecord)
                                    },
                                    Some(exit_snap) => {
                                        let timestamp = now_iso8601();
                                        let rec = decode_stop(pid, exit_snap, timestamp);
                                        if session.accepts(&rec.name) {
                                            assert(step_matches(st0, session.state, fs0, StepOutcome::Emitted(rec), StopEvent::TraceStop(snap)));
                                            Ok(StepOutcome::Emitted(rec))
                                        } else {
                                            assert(step_matches(st0, session.state, fs0, StepOutcome::Filtered, StopEvent::TraceStop(snap)));
                                            Ok(StepOutcome::Filtered)
                                        }
                                    },
                                }
                            },
                        }
                    } else {
                        let _ = session.advance(StopEvent::OtherStop);
                        assert(step_matches(st0, session.state, fs0, StepOutcome::NoRecord, StopEvent::OtherStop));
                        Ok(StepOutcome::NoRecord)
                    }
                },
                Ok(WaitEvent::Other) => {
                    let _ = session.advance(StopEvent::OtherStop);
                    assert(step_matches(st0, session.state, fs0, StepOutcome::NoRecord, StopEvent::OtherStop));
                    Ok(StepOutcome::NoRecord)
                },
            }
        },
    }
}

/// The state after a whole sequence of stop events, and the snapshots of
/// the exit stops that completed pairs along the way, in order, before
/// any filtering.
pub open spec fn run_events(st: TraceState, evs: Seq<StopEvent>) -> (TraceState, Seq<
    RegisterSnapshot,
>)
    decreases evs.len(),
{
    if evs.len() == 0 {
        (st, Seq::empty())
    } else {
        let prev = run_events(st, evs.drop_last());
        let step = spec_step(prev.0, evs.last());
        (step.0, if step.1 is Some {
            prev.1.push(step.1->0)
        } else {
            prev.1
        })
    }
}

/// As `run_events`, but keeping only the snapshots whose table name the
/// filter accepts, as the session emits them.
pub open spec fn run_filtered(st: TraceState, evs: Seq<StopEvent>, filters: Seq<String>) -> (
    TraceState,
    Seq<RegisterSnapshot>,
)
    decreases evs.len(),
{
    if evs.len() == 0 {
        (st, Seq::empty())
    } else {
        let prev = run_filtered(st, evs.drop_last(), filters);
        let step = spec_step(prev.0, evs.last());
        (step.0, if step.1 is Some && filter_accepts(filters, spec_table_name(step.1->0.orig_rax)) {
            prev.1.push(step.1->0)
        } else {
            prev.1
        })
    }
}

/// Pairing invariant: a sequence of N trace-signal stops with no other
/// stops in between, consumed while awaiting an entry, completes exactly
/// N / 2 records, each carrying the registers of the second stop of its
/// pair; the parity simply alternates.
pub proof fn lemma_pairing(evs: Seq<StopEvent>)
    requires
        forall|i: int| 0 <= i < evs.len() ==> evs[i] is TraceStop,
    ensures
        run_events(TraceState::AwaitingEntryStop, evs).0 == (if evs.len() % 2 == 0 {
            TraceState::AwaitingEntryStop
        } else {
            TraceState::AwaitingExitStop
        }),
        run_events(TraceState::AwaitingEntryStop, evs).1.len() == evs.len() / 2,
        forall|k: int|
            0 <= k < evs.len() / 2 ==> run_events(TraceState::AwaitingEntryStop, evs).1[k] == evs[2
                * k + 1]->TraceStop_0,
    decreases evs.len(),
{
    if evs.len() > 0 {
        let head = evs.drop_last();
        assert(forall|i: int| 0 <= i < head.len() ==> head[i] is TraceStop);
        lemma_pairing(head);
        let n = evs.len() as int;
        assert((n - 1) % 2 == 0 ==> n % 2 == 1);
        assert((n - 1) % 2 == 1 ==> n % 2 == 0);
        if (n - 1) % 2 == 0 {
            assert(n / 2 == (n - 1) / 2);
        } else {
            assert(n / 2 == (n - 1) / 2 + 1);
            assert(2 * ((n - 1) / 2) + 1 == n - 1);
        }
        assert(forall|k: int| 0 <= k < (n - 1) / 2 ==> #[trigger] evs[2 * k + 1] == head[2 * k + 1]);
    }
}

/// Filter non-interference: running the same stops with a filter leaves
/// the parity evolution unchanged, and emits exactly the subset of the
/// unfiltered records whose table name the filter accepts.
pub proof fn lemma_filter_non_interference(
    st: TraceState,
    evs: Seq<StopEvent>,
    filters: Seq<String>,
)
    ensures
        run_filtered(st, evs, filters).0 == run_events(st, evs).0,
        run_filtered(st, evs, filters).1 == run_events(st, evs).1.filter(
            |s: RegisterSnapshot| filter_accepts(filters, spec_table_name(s.orig_rax)),
        ),
    decreases evs.len(),
{
    broadcast use vstd::seq_lib::group_filter_ensures;

    let pred = |s: RegisterSnapshot| filter_accepts(filters, spec_table_name(s.orig_rax));
    if evs.len() == 0 {
        assert(Seq::<RegisterSnapshot>::empty().filter(pred) =~= Seq::empty()) by {
            reveal(Seq::filter);
        }
    } else {
        lemma_filter_non_interference(st, evs.drop_last(), filters);
        let prev = run_events(st, evs.drop_last());
        let step = spec_step(prev.0, evs.last());
        if step.1 is Some {
            let snap = step.1->0;
            assert(prev.1.push(snap).filter(pred) == if pred(snap) {
                prev.1.filter(pred).push(snap)
            } else {
                prev.1.filter(pred)
            }) by {
                prev.1.lemma_filter_push(snap, pred);
            }
        }
    }
}

/// Attach scenario: a session attached to a running process waits for no
/// launch stop; the first two trace-signal stops it observes already form
/// one complete pair, recorded from the second of them. A launched
/// session consumes its launch stop first: the same two stops complete
/// nothing yet, and a pair needs the stop after them.
pub proof fn lemma_attach_starts_pairing(
    s0: RegisterSnapshot,
    s1: RegisterSnapshot,
    s2: RegisterSnapshot,
)
    ensures
        run_events(
            TraceState::AwaitingEntryStop,
            seq![StopEvent::TraceStop(s1), StopEvent::TraceStop(s2)],
        ).1 == seq![s2],
        run_events(
            TraceState::AwaitingInitialStop,
            seq![StopEvent::TraceStop(s1), StopEvent::TraceStop(s2)],
        ).1 == Seq::<RegisterSnapshot>::empty(),
        run_events(
            TraceState::AwaitingInitialStop,
            seq![StopEvent::TraceStop(s0), StopEvent::TraceStop(s1), StopEvent::TraceStop(s2)],
        ).1 == seq![s2],
{
    reveal_with_fuel(run_events, 5);
    let t0 = StopEvent::TraceStop(s0);
    let t1 = StopEvent::TraceStop(s1);
    let t2 = StopEvent::TraceStop(s2);
    let e1 = seq![t1, t2];
    assert(e1.drop_last() =~= seq![t1]);
    assert(seq![t1].drop_last() =~= Seq::<StopEvent>::empty());
    assert(run_events(TraceState::AwaitingEntryStop, e1).1 =~= seq![s2]);
    assert(run_events(TraceState::AwaitingInitialStop, e1).1 =~= Seq::<RegisterSnapshot>::empty());
    let e2 = seq![t0, t1, t2];
    assert(e2.drop_last() =~= seq![t0, t1]);
    assert(seq![t0, t1].drop_last() =~= seq![t0]);
    assert(seq![t0].drop_last() =~= Seq::<StopEvent>::empty());
    assert(run_events(TraceState::AwaitingInitialStop, e2).1 =~= seq![s2]);
}

/// Requests that tracing be attached to an already-running process.
pub fn attach(pid: i32) -> (r: Result<(), TraceError>)
    ensures
        r is Err ==> r->Err_0 is AttachFailed,
{
    match ptrace_attach_raw(pid) {
        Ok(()) => Ok(()),
        Err(e) => Err(TraceError::AttachFailed(e)),
    }
}

/// What one wait for the target reported.
#[derive(Clone, Copy, Debug, PartialEq, Eq, Structural)]
pub enum WaitEvent {
    /// The process exited normally.
    Exited,
    /// The process was killed by a signal.
    Signaled,
    /// The process stopped; the field is the stop signal's number.
    Stopped(i32),
    /// Any other status a wait can report.
    Other,
}

/// Relies on `nix::sys::ptrace::syscall` (`PTRACE_SYSCALL`, continuing
/// with no signal injected): it arranges for the target to run until its
/// next syscall entry or exit and reports only success or an error
/// number. Whether the target then stops depends on the target, so
/// nothing more is promised.
#[verifier::external_body]
fn ptrace_syscall_cont(pid: i32) -> (r: Result<(), i32>) {
    match nix::sys::ptrace::syscall(nix::unistd::Pid::from_raw(pid), None) {
        Ok(()) => Ok(()),
        Err(e) => Err(e as i32),
    }
}

/// Relies on `nix::sys::wait::waitpid` with no options: it blocks until
/// the target changes state and reports which kind of change it was,
/// with the stop signal's number for a stop. What arrives depends on the
/// target process, so nothing is promised of the result.
#[verifier::external_body]
fn wait_next(pid: i32) -> (r: Result<WaitEvent, i32>) {
    match nix::sys::wait::waitpid(nix::unistd::Pid::from_raw(pid), None) {
        Ok(WaitStatus::Exited(_, _)) => Ok(WaitEvent::Exited),
        Ok(WaitStatus::Signaled(_, _, _)) => Ok(WaitEvent::Signaled),
        Ok(WaitStatus::Stopped(_, sig)) => Ok(WaitEvent::Stopped(sig as i32)),
        Ok(WaitStatus::PtraceEvent(_, _, _)) => Ok(WaitEvent::Other),
        Ok(WaitStatus::PtraceSyscall(_)) => Ok(WaitEvent::Other),
        Ok(WaitStatus::Continued(_)) => Ok(WaitEvent::Other),
        Ok(WaitStatus::StillAlive) => Ok(WaitEvent::Other),
        Err(e) => Err(e as i32),
    }
}

/// Relies on `nix::sys::ptrace::getregs` (`PTRACE_GETREGS`): on success
/// the result holds the stopped target's registers, copied field for
/// field. Their values depend on the target, so nothing is promised of
/// them.
#[verifier::external_body]
fn ptrace_getregs(pid: i32) -> (r: Result<RegisterSnapshot, i32>) {
    match nix::sys::ptrace::getregs(nix::unistd::Pid::from_raw(pid)) {
        Ok(regs) => Ok(RegisterSnapshot {
            orig_rax: regs.orig_rax,
            rdi: regs.rdi,
            rsi: regs.rsi,
            rdx: regs.rdx,
            r10: regs.r10,
            r8: regs.r8,
            r9: regs.r9,
            rax: regs.rax,
        }),
        Err(e) => Err(e as i32),
    }
}

/// Relies on `nix::sys::ptrace::attach` (`PTRACE_ATTACH`): it requests
/// tracing of the given process and reports success or an error number
/// (no such process, no permission, already traced).
#[verifier::external_body]
fn ptrace_attach_raw(pid: i32) -> (r: Result<(), i32>) {
    match nix::sys::ptrace::attach(nix::unistd::Pid::from_raw(pid)) {
        Ok(()) => Ok(()),
        Err(e) => Err(e as i32),
    }
}

/// Best-effort request that the traced process be killed. Failure is
/// not reported: the process may already have exited.
/// Relies on `nix::sys::ptrace::kill` (`PTRACE_KILL`).
#[verifier::external_body]
pub fn trace_kill(pid: i32) {
    let _ = nix::sys::ptrace::kill(nix::unistd::Pid::from_raw(pid));
}

/// Relies on `chrono::Local::now` and its `%+` format: the current local
/// time as an ISO 8601 / RFC 3339 date-and-time string. The result
/// depends on the clock, so nothing is promised of it.
#[verifier::external_body]
fn now_iso8601() -> (s: String) {
    chrono::Local::now().format("%+").to_string()
}

} // verus!
