use vstd::prelude::*;
use crate::config::{is_channel_allowed, RoutingConfig};

verus! {

/// Forward attempts made for one target before it is given up.
pub const MAX_RETRIES: u32 = 3;

/// An update delivered by the connection, reduced to what routing reads.
#[derive(Clone, Copy, Debug, PartialEq, Eq, Structural)]
pub enum InboundEvent {
    /// A new message in conversation `origin`; `outgoing` when this account sent it.
    NewMessage { origin: i64, outgoing: bool },
    /// Any other update: ignored.
    Other,
}

/// Where a worker stands on its current target.
#[derive(Clone, Copy, Debug, PartialEq, Eq, Structural)]
pub enum Phase {
    /// Walking the visible conversations in search of the target.
    Scanning,
    /// The target was found; `failures` forward attempts have failed so far.
    Forwarding { failures: u32 },
    /// Nothing is left to do.
    Done,
}

/// The state of one forwarding worker: the index of its current target in
/// the configured targets, and its phase on that target.
#[derive(Clone, Copy, Debug, PartialEq, Eq, Structural)]
pub struct WorkerState {
    pub target: usize,
    pub phase: Phase,
}

/// What the outside world reports back to a worker.
#[derive(Clone, Copy, Debug, PartialEq, Eq, Structural)]
pub enum WorkerEvent {
    /// The conversation listing yielded a conversation with this id.
    Dialog { id: i64 },
    /// The conversation listing ended.
    DialogsEnd,
    /// The conversation listing failed.
    DialogsFailed,
    /// The forward succeeded.
    ForwardOk,
    /// The forward failed.
    ForwardFailed,
}

/// What a worker asks the outside world to do next.
#[derive(Clone, Copy, Debug, PartialEq, Eq, Structural)]
pub enum Command {
    /// Start a fresh listing of the visible conversations, looking for `target`,
    /// and report its first entry.
    Scan { target: i64 },
    /// Report the next entry of the current listing.
    NextDialog,
    /// Forward the message to the conversation last reported, whose id is `target`.
    Forward { target: i64 },
    /// The worker is finished.
    Finish,
}

/// A record for the log.
#[derive(Clone, Copy, Debug, PartialEq, Eq, Structural)]
pub enum Diagnostic {
    /// The message from `origin` reached `target`.
    Forwarded { origin: i64, target: i64 },
    /// Forward attempt number `attempt` (from 1) to `target` failed.
    ForwardFailed { target: i64, attempt: u32 },
    /// Listing the conversations failed; the remaining targets are dropped.
    Aborted,
}

/// One transition of a worker: its new state, what to log, what to do next.
#[derive(Clone, Copy, Debug, PartialEq, Eq, Structural)]
pub struct Step {
    pub state: WorkerState,
    pub diag: Option<Diagnostic>,
    pub cmd: Command,
}

/// How a worker begins on an inbound event.
#[derive(Clone, Copy, Debug, PartialEq, Eq, Structural)]
pub struct Start {
    /// Whether the message is logged in full (origin, sender and text).
    pub log_message: bool,
    pub step: Step,
}

/// A state that a worker on `targets` can be in: a target index in range
/// while work remains, and fewer failures than the retry bound.
pub open spec fn well_formed(targets: Seq<i64>, s: WorkerState) -> bool {
    match s.phase {
        Phase::Done => true,
        Phase::Scanning => s.target < targets.len(),
        Phase::Forwarding { failures } => s.target < targets.len() && failures < MAX_RETRIES,
    }
}

pub open spec fn done_state() -> WorkerState {
    WorkerState { target: 0, phase: Phase::Done }
}

/// The step that ends a worker, logging `diag`.
pub open spec fn finish(diag: Option<Diagnostic>) -> Step {
    Step { state: done_state(), diag, cmd: Command::Finish }
}

/// Moving on to target number `next`, logging `diag`: scan for it afresh,
/// or finish when no target is left.
pub open spec fn advance(targets: Seq<i64>, next: int, diag: Option<Diagnostic>) -> Step {
    if 0 <= next < targets.len() {
        Step {
            state: WorkerState { target: next as usize, phase: Phase::Scanning },
            diag,
            cmd: Command::Scan { target: targets[next] },
        }
    } else {
        finish(diag)
    }
}

/// The transition of a worker relaying a message from `origin` to `targets`,
/// in state `s`, on event `ev`. An event that the state does not wait for
/// ends the worker.
pub open spec fn next(targets: Seq<i64>, origin: i64, s: WorkerState, ev: WorkerEvent) -> Step {
    let t = s.target as int;
    if t >= targets.len() {
        finish(None)
    } else {
        match s.phase {
            Phase::Done => finish(None),
            Phase::Scanning => match ev {
                WorkerEvent::Dialog { id } => if id == targets[t] {
                    Step {
                        state: WorkerState { target: s.target, phase: Phase::Forwarding { failures: 0 } },
                        diag: None,
                        cmd: Command::Forward { target: targets[t] },
                    }
                } else {
                    Step { state: s, diag: None, cmd: Command::NextDialog }
                },
                WorkerEvent::DialogsEnd => advance(targets, t + 1, None),
                WorkerEvent::DialogsFailed => finish(Some(Diagnostic::Aborted)),
                _ => finish(None),
            },
            Phase::Forwarding { failures } => if failures >= MAX_RETRIES {
                finish(None)
            } else {
                match ev {
                    WorkerEvent::ForwardOk => advance(
                        targets,
                        t + 1,
                        Some(Diagnostic::Forwarded { origin, target: targets[t] }),
                    ),
                    WorkerEvent::ForwardFailed => {
                        let diag = Some(
                            Diagnostic::ForwardFailed { target: targets[t], attempt: (failures + 1) as u32 },
                        );
                        if failures + 1 < MAX_RETRIES {
                            Step {
                                state: WorkerState {
                                    target: s.target,
                                    phase: Phase::Forwarding { failures: (failures + 1) as u32 },
                                },
                                diag,
                                cmd: Command::Forward { target: targets[t] },
                            }
                        } else {
                            advance(targets, t + 1, diag)
                        }
                    },
                    _ => finish(None),
                }
            },
        }
    }
}

/// How a worker begins on event `ev`: only a new message that this account did
/// not send, from one of `sources`, leads to any forwarding, starting with a
/// scan for the first target.
pub open spec fn start_of(sources: Seq<i64>, targets: Seq<i64>, verbose: bool, ev: InboundEvent) -> Start {
    match ev {
        InboundEvent::NewMessage { origin, outgoing } => if outgoing {
            Start { log_message: false, step: finish(None) }
        } else if sources.contains(origin) {
            Start { log_message: verbose, step: advance(targets, 0, None) }
        } else {
            Start { log_message: verbose, step: finish(None) }
        },
        InboundEvent::Other => Start { log_message: false, step: finish(None) },
    }
}

/// The steps a worker takes on the events `evs`, one step per event.
pub open spec fn run(targets: Seq<i64>, origin: i64, s: WorkerState, evs: Seq<WorkerEvent>) -> Seq<Step>
    decreases evs.len(),
{
    if evs.len() == 0 {
        Seq::empty()
    } else {
        let st = next(targets, origin, s, evs[0]);
        seq![st] + run(targets, origin, st.state, evs.drop_first())
    }
}

fn finish_step(diag: Option<Diagnostic>) -> (r: Step)
    ensures
        r == finish(diag),
{
    Step { state: WorkerState { target: 0, phase: Phase::Done }, diag, cmd: Command::Finish }
}

fn advance_step(targets: &Vec<i64>, next: usize, diag: Option<Diagnostic>) -> (r: Step)
    ensures
        r == advance(targets@, next as int, diag),
{
    if next < targets.len() {
        Step {
            state: WorkerState { target: next, phase: Phase::Scanning },
            diag,
            cmd: Command::Scan { target: targets[next] },
        }
    } else {
        finish_step(diag)
    }
}

/// Begins a worker on an inbound event, for the routing in `config`.
pub fn start(config: &RoutingConfig, ev: InboundEvent) -> (r: Start)
    ensures
        r == start_of(config.sources@, config.targets@, config.verbose, ev),
        well_formed(config.targets@, r.step.state),
        r.step.cmd is Finish <==> r.step.state.phase is Done,
        ev matches InboundEvent::NewMessage { outgoing, .. } && outgoing ==> r.step == finish(None),
        ev matches InboundEvent::NewMessage { origin, .. } && !config.sources@.contains(origin)
            ==> r.step == finish(None),
{
    match ev {
        InboundEvent::NewMessage { origin, outgoing } => {
            if outgoing {
                Start { log_message: false, step: finish_step(None) }
            } else if is_channel_allowed(config.sources.as_slice(), origin) {
                Start { log_message: config.verbose, step: advance_step(&config.targets, 0, None) }
            } else {
                Start { log_message: config.verbose, step: finish_step(None) }
            }
        },
        InboundEvent::Other => Start { log_message: false, step: finish_step(None) },
    }
}

/// One transition of a worker relaying a message from `origin` with the
/// routing in `config`: from state `s`, on what the outside world reported.
pub fn step(config: &RoutingConfig, origin: i64, s: WorkerState, ev: WorkerEvent) -> (r: Step)
    ensures
        r == next(config.targets@, origin, s, ev),
        well_formed(config.targets@, r.state),
        r.cmd is Finish <==> r.state.phase is Done,
{
    let targets = &config.targets;
    let t = s.target;
    if t >= targets.len() {
        return finish_step(None);
    }
    let target = targets[t];
    match s.phase {
        Phase::Done => finish_step(None),
        Phase::Scanning => match ev {
            WorkerEvent::Dialog { id } => if id == target {
                Step {
                    state: WorkerState { target: t, phase: Phase::Forwarding { failures: 0 } },
                    diag: None,
                    cmd: Command::Forward { target },
                }
            } else {
                Step { state: s, diag: None, cmd: Command::NextDialog }
            },
            WorkerEvent::DialogsEnd => advance_step(targets, t + 1, None),
            WorkerEvent::DialogsFailed => finish_step(Some(Diagnostic::Aborted)),
            _ => finish_step(None),
        },
        Phase::Forwarding { failures } => if failures >= MAX_RETRIES {
            finish_step(None)
        } else {
            match ev {
                WorkerEvent::ForwardOk => advance_step(
                    targets,
                    t + 1,
                    Some(Diagnostic::Forwarded { origin, target }),
                ),
                WorkerEvent::ForwardFailed => {
                    let attempt = failures + 1;
                    let diag = Some(Diagnostic::ForwardFailed { target, attempt });
                    if attempt < MAX_RETRIES {
                        Step {
                            state: WorkerState { target: t, phase: Phase::Forwarding { failures: attempt } },
                            diag,
                            cmd: Command::Forward { target },
                        }
                    } else {
                        advance_step(targets, t + 1, diag)
                    }
                },
                _ => finish_step(None),
            }
        },
    }
}

/// The events of a conversation listing that yields `ids` in order.
pub open spec fn listing(ids: Seq<i64>) -> Seq<WorkerEvent> {
    ids.map_values(|id: i64| WorkerEvent::Dialog { id })
}

/// A finished worker stays finished: whatever it is told afterwards, it asks
/// for nothing more and logs nothing.
pub proof fn law_finished_stays_finished(targets: Seq<i64>, origin: i64, evs: Seq<WorkerEvent>)
    ensures
        run(targets, origin, done_state(), evs).len() == evs.len(),
        forall|i: int|
            0 <= i < evs.len() ==> #[trigger] run(targets, origin, done_state(), evs)[i] == finish(None),
    decreases evs.len(),
{
    if evs.len() > 0 {
        law_finished_stays_finished(targets, origin, evs.drop_first());
        let rest = run(targets, origin, done_state(), evs.drop_first());
        assert forall|i: int| 0 <= i < evs.len() implies #[trigger] run(targets, origin, done_state(), evs)[i]
            == finish(None) by {
            if i > 0 {
                assert(rest[i - 1] == finish(None));
            }
        }
    }
}

/// A message that this account sent itself is never forwarded: the worker
/// finishes at once and, whatever follows, attempts no forward and logs nothing.
pub proof fn law_own_message_not_forwarded(
    sources: Seq<i64>,
    targets: Seq<i64>,
    verbose: bool,
    origin: i64,
    evs: Seq<WorkerEvent>,
)
    ensures
        ({
            let st = start_of(sources, targets, verbose, InboundEvent::NewMessage { origin, outgoing: true });
            &&& st.step == finish(None)
            &&& !st.log_message
            &&& forall|i: int|
                0 <= i < evs.len() ==> #[trigger] run(targets, origin, st.step.state, evs)[i] == finish(None)
        }),
{
    law_finished_stays_finished(targets, origin, evs);
}

/// A message from a conversation outside `sources` is not forwarded: the
/// worker finishes at once and, whatever follows, attempts no forward and logs
/// no forward.
pub proof fn law_foreign_message_not_forwarded(
    sources: Seq<i64>,
    targets: Seq<i64>,
    verbose: bool,
    origin: i64,
    outgoing: bool,
    evs: Seq<WorkerEvent>,
)
    requires
        !sources.contains(origin),
    ensures
        ({
            let st = start_of(sources, targets, verbose, InboundEvent::NewMessage { origin, outgoing });
            &&& st.step == finish(None)
            &&& forall|i: int|
                0 <= i < evs.len() ==> #[trigger] run(targets, origin, st.step.state, evs)[i] == finish(None)
        }),
{
    law_finished_stays_finished(targets, origin, evs);
}

/// A target that the listing does not hold is skipped in silence: each entry
/// asks for the next one, nothing is logged, and at the end of the listing the
/// worker moves on to the next target.
pub proof fn law_missing_target_is_silent(targets: Seq<i64>, origin: i64, t: usize, ids: Seq<i64>)
    requires
        t < targets.len(),
        !ids.contains(targets[t as int]),
    ensures
        ({
            let s = WorkerState { target: t, phase: Phase::Scanning };
            let r = run(targets, origin, s, listing(ids).push(WorkerEvent::DialogsEnd));
            &&& r.len() == ids.len() + 1
            &&& forall|i: int|
                0 <= i < ids.len() ==> #[trigger] r[i] == (Step { state: s, diag: None, cmd: Command::NextDialog })
            &&& r[ids.len() as int] == advance(targets, t + 1, None)
        }),
    decreases ids.len(),
{
    let s = WorkerState { target: t, phase: Phase::Scanning };
    let evs = listing(ids).push(WorkerEvent::DialogsEnd);
    if ids.len() == 0 {
        assert(evs[0] == WorkerEvent::DialogsEnd);
        assert(evs.drop_first() =~= Seq::<WorkerEvent>::empty());
        assert(run(targets, origin, advance(targets, t + 1, None).state, evs.drop_first()) =~= Seq::<Step>::empty());
    } else {
        assert(evs[0] == WorkerEvent::Dialog { id: ids[0] });
        let tail = ids.drop_first();
        assert(!tail.contains(targets[t as int])) by {
            if tail.contains(targets[t as int]) {
                let k = choose|k: int| 0 <= k < tail.len() && tail[k] == targets[t as int];
                assert(ids[k + 1] == targets[t as int]);
            }
        }
        assert(ids[0] != targets[t as int]) by {
            assert(ids.contains(ids[0]));
        }
        law_missing_target_is_silent(targets, origin, t, tail);
        assert(evs.drop_first() =~= listing(tail).push(WorkerEvent::DialogsEnd));
        let rest = run(targets, origin, s, listing(tail).push(WorkerEvent::DialogsEnd));
        let r = run(targets, origin, s, evs);
        assert forall|i: int| 0 <= i < ids.len() implies #[trigger] r[i]
            == (Step { state: s, diag: None, cmd: Command::NextDialog }) by {
            if i > 0 {
                assert(r[i] == rest[i - 1]);
            }
        }
        assert(r[ids.len() as int] == rest[tail.len() as int]);
    }
}

/// A target whose forward fails every time gets exactly three attempts, each
/// failure logged with its number, and then the worker moves on.
pub proof fn law_three_failures_give_up(targets: Seq<i64>, origin: i64, t: usize)
    requires
        t < targets.len(),
    ensures
        ({
            let target = targets[t as int];
            let s = WorkerState { target: t, phase: Phase::Scanning };
            let evs = seq![
                WorkerEvent::Dialog { id: target },
                WorkerEvent::ForwardFailed,
                WorkerEvent::ForwardFailed,
                WorkerEvent::ForwardFailed,
            ];
            let r = run(targets, origin, s, evs);
            &&& r.len() == 4
            &&& r[0].cmd == Command::Forward { target } && r[0].diag is None
            &&& r[1].cmd == Command::Forward { target }
            &&& r[1].diag == Some(Diagnostic::ForwardFailed { target, attempt: 1 })
            &&& r[2].cmd == Command::Forward { target }
            &&& r[2].diag == Some(Diagnostic::ForwardFailed { target, attempt: 2 })
            &&& r[3] == advance(targets, t + 1, Some(Diagnostic::ForwardFailed { target, attempt: 3 }))
            &&& r[3].cmd !is Forward
        }),
{
    let target = targets[t as int];
    let s = WorkerState { target: t, phase: Phase::Scanning };
    let evs = seq![
        WorkerEvent::Dialog { id: target },
        WorkerEvent::ForwardFailed,
        WorkerEvent::ForwardFailed,
        WorkerEvent::ForwardFailed,
    ];
    reveal_with_fuel(run, 5);
    assert(evs.drop_first().drop_first().drop_first().drop_first() =~= Seq::<WorkerEvent>::empty());
}

/// A target whose forward fails once and then succeeds gets exactly two
/// attempts: one failure and one success are logged, and the worker moves on.
pub proof fn law_failure_then_success(targets: Seq<i64>, origin: i64, t: usize)
    requires
        t < targets.len(),
    ensures
        ({
            let target = targets[t as int];
            let s = WorkerState { target: t, phase: Phase::Scanning };
            let evs = seq![
                WorkerEvent::Dialog { id: target },
                WorkerEvent::ForwardFailed,
                WorkerEvent::ForwardOk,
            ];
            let r = run(targets, origin, s, evs);
            &&& r.len() == 3
            &&& r[0].cmd == Command::Forward { target } && r[0].diag is None
            &&& r[1].cmd == Command::Forward { target }
            &&& r[1].diag == Some(Diagnostic::ForwardFailed { target, attempt: 1 })
            &&& r[2] == advance(targets, t + 1, Some(Diagnostic::Forwarded { origin, target }))
            &&& r[2].cmd !is Forward
        }),
{
    let evs = seq![
        WorkerEvent::Dialog { id: targets[t as int] },
        WorkerEvent::ForwardFailed,
        WorkerEvent::ForwardOk,
    ];
    reveal_with_fuel(run, 4);
    assert(evs.drop_first().drop_first().drop_first() =~= Seq::<WorkerEvent>::empty());
}

} // verus!
