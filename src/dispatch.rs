use vstd::prelude::*;

verus! {

/// Seconds to wait after the next update could not be received.
pub const RECEIVE_COOLDOWN_SECS: u64 = 5;

/// Seconds between two liveness probes of the connection.
pub const HEALTH_CHECK_INTERVAL_SECS: u64 = 300;

/// The dispatcher's state.
#[derive(Clone, Copy, Debug, PartialEq, Eq, Structural)]
pub enum DispatchState {
    /// Waiting for the next update or the shutdown signal, whichever comes first.
    Running,
    /// Shut down: nothing more is done.
    Stopping,
}

/// What ended the dispatcher's wait.
#[derive(Clone, Copy, Debug, PartialEq, Eq, Structural)]
pub enum DispatchEvent {
    /// The shutdown signal arrived.
    Shutdown,
    /// An update arrived.
    Received,
    /// Receiving the next update failed.
    ReceiveFailed,
}

/// What the dispatcher asks the program to do.
#[derive(Clone, Copy, Debug, PartialEq, Eq, Structural)]
pub enum DispatchAction {
    /// Hand the update to a new forwarding worker, without waiting for it, and wait again.
    SpawnWorker,
    /// Log the failure, sleep this many seconds, and wait again.
    Cooldown { secs: u64 },
    /// Save the session and return.
    SaveSessionAndExit,
    /// Do nothing.
    Halt,
}

/// One transition of the dispatcher.
#[derive(Clone, Copy, Debug, PartialEq, Eq, Structural)]
pub struct Dispatch {
    pub state: DispatchState,
    pub action: DispatchAction,
}

/// The dispatcher's transition from `s` on `ev`. A receive failure is never
/// fatal; only the shutdown signal ends the loop, and after it nothing is done.
pub open spec fn dispatch_next(s: DispatchState, ev: DispatchEvent) -> Dispatch {
    match s {
        DispatchState::Stopping => Dispatch { state: DispatchState::Stopping, action: DispatchAction::Halt },
        DispatchState::Running => match ev {
            DispatchEvent::Shutdown => Dispatch {
                state: DispatchState::Stopping,
                action: DispatchAction::SaveSessionAndExit,
            },
            DispatchEvent::Received => Dispatch {
                state: DispatchState::Running,
                action: DispatchAction::SpawnWorker,
            },
            DispatchEvent::ReceiveFailed => Dispatch {
                state: DispatchState::Running,
                action: DispatchAction::Cooldown { secs: RECEIVE_COOLDOWN_SECS },
            },
        },
    }
}

/// The transitions of the dispatcher from `s` on the events `evs`, one per event.
pub open spec fn dispatch_run(s: DispatchState, evs: Seq<DispatchEvent>) -> Seq<Dispatch>
    decreases evs.len(),
{
    if evs.len() == 0 {
        Seq::empty()
    } else {
        let d = dispatch_next(s, evs[0]);
        seq![d] + dispatch_run(d.state, evs.drop_first())
    }
}

/// Decides what the dispatcher does in state `s` when `ev` ends its wait.
pub fn dispatch(s: DispatchState, ev: DispatchEvent) -> (r: Dispatch)
    ensures
        r == dispatch_next(s, ev),
        r.action is SaveSessionAndExit <==> (s is Running && ev is Shutdown),
        r.action is SpawnWorker <==> (s is Running && ev is Received),
{
    match s {
        DispatchState::Stopping => Dispatch { state: DispatchState::Stopping, action: DispatchAction::Halt },
        DispatchState::Running => match ev {
            DispatchEvent::Shutdown => Dispatch {
                state: DispatchState::Stopping,
                action: DispatchAction::SaveSessionAndExit,
            },
            DispatchEvent::Received => Dispatch {
                state: DispatchState::Running,
                action: DispatchAction::SpawnWorker,
            },
            DispatchEvent::ReceiveFailed => Dispatch {
                state: DispatchState::Running,
                action: DispatchAction::Cooldown { secs: RECEIVE_COOLDOWN_SECS },
            },
        },
    }
}

/// Once stopped, the dispatcher does nothing, whatever happens.
pub proof fn law_stopped_stays_stopped(evs: Seq<DispatchEvent>)
    ensures
        dispatch_run(DispatchState::Stopping, evs).len() == evs.len(),
        forall|i: int|
            0 <= i < evs.len() ==> #[trigger] dispatch_run(DispatchState::Stopping, evs)[i] == (Dispatch {
                state: DispatchState::Stopping,
                action: DispatchAction::Halt,
            }),
    decreases evs.len(),
{
    if evs.len() > 0 {
        law_stopped_stays_stopped(evs.drop_first());
        let rest = dispatch_run(DispatchState::Stopping, evs.drop_first());
        assert forall|i: int| 0 <= i < evs.len() implies #[trigger] dispatch_run(DispatchState::Stopping, evs)[i]
            == (Dispatch { state: DispatchState::Stopping, action: DispatchAction::Halt }) by {
            if i > 0 {
                assert(rest[i - 1] == dispatch_run(DispatchState::Stopping, evs)[i]);
            }
        }
    }
}

/// When the shutdown signal first arrives, at position `k`, the session is
/// saved there and at no other step, and no worker is spawned afterwards.
pub proof fn law_shutdown_saves_once(evs: Seq<DispatchEvent>, k: int)
    requires
        0 <= k < evs.len(),
        evs[k] is Shutdown,
        forall|j: int| 0 <= j < k ==> !(#[trigger] evs[j] is Shutdown),
    ensures
        ({
            let r = dispatch_run(DispatchState::Running, evs);
            &&& r.len() == evs.len()
            &&& r[k].action is SaveSessionAndExit
            &&& forall|j: int| 0 <= j < evs.len() && j != k ==> !(#[trigger] r[j].action is SaveSessionAndExit)
            &&& forall|j: int| k < j < evs.len() ==> #[trigger] r[j].action is Halt
        }),
    decreases k,
{
    let r = dispatch_run(DispatchState::Running, evs);
    let rest_evs = evs.drop_first();
    if k == 0 {
        law_stopped_stays_stopped(rest_evs);
        let rest = dispatch_run(DispatchState::Stopping, rest_evs);
        assert forall|j: int| 0 < j < evs.len() implies #[trigger] r[j].action is Halt by {
            assert(r[j] == rest[j - 1]);
        }
    } else {
        assert(!(evs[0] is Shutdown));
        assert forall|j: int| 0 <= j < k - 1 implies !(#[trigger] rest_evs[j] is Shutdown) by {
            assert(rest_evs[j] == evs[j + 1]);
        }
        law_shutdown_saves_once(rest_evs, k - 1);
        let rest = dispatch_run(DispatchState::Running, rest_evs);
        assert(dispatch_next(DispatchState::Running, evs[0]).state is Running);
        assert forall|j: int| 0 < j < evs.len() implies #[trigger] r[j] == rest[j - 1] by {}
        assert forall|j: int| 0 <= j < evs.len() && j != k implies !(#[trigger] r[j].action is SaveSessionAndExit) by {
            if j > 0 {
                assert(r[j] == rest[j - 1]);
            }
        }
        assert forall|j: int| k < j < evs.len() implies #[trigger] r[j].action is Halt by {
            assert(r[j] == rest[j - 1]);
        }
        assert(r[k] == rest[k - 1]);
    }
}

} // verus!
