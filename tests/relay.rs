use relay::config::{is_channel_allowed, RoutingConfig};
use relay::dispatch::{dispatch, DispatchAction, DispatchEvent, DispatchState, RECEIVE_COOLDOWN_SECS};
use relay::reconnect::{decide, Reconnect};
use relay::worker::{
    start, step, Command, Diagnostic, InboundEvent, Phase, Step, WorkerEvent, WorkerState, MAX_RETRIES,
};

/// Runs one worker to completion against a fixed list of visible conversations
/// and a queue of forward outcomes (true: success). Returns what was logged and
/// the targets of the forward attempts, in order.
fn drive(config: &RoutingConfig, ev: InboundEvent, dialogs: &[i64], outcomes: &[bool]) -> (Vec<Diagnostic>, Vec<i64>) {
    let origin = match ev {
        InboundEvent::NewMessage { origin, .. } => origin,
        InboundEvent::Other => 0,
    };
    let mut diags = Vec::new();
    let mut attempts = Vec::new();
    let mut cursor = 0usize;
    let mut next_outcome = 0usize;
    let mut st: Step = start(config, ev).step;
    for _ in 0..10_000 {
        if let Some(d) = st.diag {
            diags.push(d);
        }
        let reply = match st.cmd {
            Command::Finish => return (diags, attempts),
            Command::Scan { .. } | Command::NextDialog => {
                if let Command::Scan { .. } = st.cmd {
                    cursor = 0;
                }
                if cursor < dialogs.len() {
                    cursor += 1;
                    WorkerEvent::Dialog { id: dialogs[cursor - 1] }
                } else {
                    WorkerEvent::DialogsEnd
                }
            }
            Command::Forward { target } => {
                attempts.push(target);
                let ok = outcomes.get(next_outcome).copied().unwrap_or(true);
                next_outcome += 1;
                if ok {
                    WorkerEvent::ForwardOk
                } else {
                    WorkerEvent::ForwardFailed
                }
            }
        };
        st = step(config, origin, st.state, reply);
    }
    panic!("worker did not finish");
}

fn msg(origin: i64) -> InboundEvent {
    InboundEvent::NewMessage { origin, outgoing: false }
}

#[test]
fn backoff_doubles_then_caps() {
    let expected: [u64; 11] = [1, 2, 4, 8, 16, 32, 60, 60, 60, 60, 60];
    for (n, secs) in expected.iter().enumerate() {
        assert_eq!(decide(n), Reconnect::Retry { delay_secs: *secs });
    }
}

#[test]
fn backoff_gives_up_past_ten() {
    assert_eq!(decide(11), Reconnect::GiveUp);
    assert_eq!(decide(12), Reconnect::GiveUp);
    assert_eq!(decide(usize::MAX), Reconnect::GiveUp);
}

#[test]
fn channel_membership() {
    assert!(is_channel_allowed(&[1, -100, 7], -100));
    assert!(!is_channel_allowed(&[1, -100, 7], 100));
    assert!(!is_channel_allowed(&[], 1));
    assert!(is_channel_allowed(&[5, 5], 5));
}

#[test]
fn own_message_is_not_forwarded() {
    let config = RoutingConfig::new(vec![10], vec![20], true);
    let s = start(&config, InboundEvent::NewMessage { origin: 10, outgoing: true });
    assert!(!s.log_message);
    assert_eq!(s.step.cmd, Command::Finish);
    let (diags, attempts) = drive(&config, InboundEvent::NewMessage { origin: 10, outgoing: true }, &[20], &[]);
    assert!(diags.is_empty());
    assert!(attempts.is_empty());
}

#[test]
fn other_update_is_ignored() {
    let config = RoutingConfig::new(vec![10], vec![20], true);
    let s = start(&config, InboundEvent::Other);
    assert!(!s.log_message);
    assert_eq!(s.step.cmd, Command::Finish);
    assert_eq!(s.step.diag, None);
}

#[test]
fn foreign_message_is_not_forwarded() {
    let config = RoutingConfig::new(vec![10], vec![20], true);
    let s = start(&config, msg(11));
    assert!(s.log_message);
    assert_eq!(s.step.cmd, Command::Finish);
    let (diags, attempts) = drive(&config, msg(11), &[10, 20], &[]);
    assert!(diags.is_empty());
    assert!(attempts.is_empty());
}

#[test]
fn verbose_flag_controls_message_log() {
    let quiet = RoutingConfig::new(vec![10], vec![20], false);
    assert!(!start(&quiet, msg(10)).log_message);
    let loud = RoutingConfig::new(vec![10], vec![20], true);
    assert!(start(&loud, msg(10)).log_message);
    assert_eq!(start(&loud, msg(10)).step.cmd, Command::Scan { target: 20 });
}

#[test]
fn missing_target_is_skipped_silently() {
    let (a, b) = (100, 200);
    let config = RoutingConfig::new(vec![1], vec![a, b], false);
    let (diags, attempts) = drive(&config, msg(1), &[300, b, 400], &[]);
    assert_eq!(diags, vec![Diagnostic::Forwarded { origin: 1, target: b }]);
    assert_eq!(attempts, vec![b]);
}

#[test]
fn always_failing_forward_is_tried_three_times() {
    let config = RoutingConfig::new(vec![1], vec![5, 6], false);
    let (diags, attempts) = drive(&config, msg(1), &[5, 6], &[false, false, false, true]);
    assert_eq!(MAX_RETRIES, 3);
    assert_eq!(attempts, vec![5, 5, 5, 6]);
    assert_eq!(
        diags,
        vec![
            Diagnostic::ForwardFailed { target: 5, attempt: 1 },
            Diagnostic::ForwardFailed { target: 5, attempt: 2 },
            Diagnostic::ForwardFailed { target: 5, attempt: 3 },
            Diagnostic::Forwarded { origin: 1, target: 6 },
        ]
    );
}

#[test]
fn failure_then_success_is_tried_twice() {
    let config = RoutingConfig::new(vec![1], vec![5], false);
    let (diags, attempts) = drive(&config, msg(1), &[9, 5], &[false, true]);
    assert_eq!(attempts, vec![5, 5]);
    assert_eq!(
        diags,
        vec![Diagnostic::ForwardFailed { target: 5, attempt: 1 }, Diagnostic::Forwarded { origin: 1, target: 5 }]
    );
}

#[test]
fn every_target_gets_the_message() {
    let config = RoutingConfig::new(vec![1, 2], vec![5, 6, 5], false);
    let (diags, attempts) = drive(&config, msg(2), &[6, 5], &[]);
    assert_eq!(attempts, vec![5, 6, 5]);
    assert_eq!(diags.len(), 3);
}

#[test]
fn no_targets_finishes_at_once() {
    let config = RoutingConfig::new(vec![1], vec![], false);
    assert_eq!(start(&config, msg(1)).step.cmd, Command::Finish);
}

#[test]
fn listing_failure_aborts_worker() {
    let config = RoutingConfig::new(vec![1], vec![5, 6], false);
    let s0 = start(&config, msg(1)).step;
    assert_eq!(s0.cmd, Command::Scan { target: 5 });
    let s1 = step(&config, 1, s0.state, WorkerEvent::DialogsFailed);
    assert_eq!(s1.diag, Some(Diagnostic::Aborted));
    assert_eq!(s1.cmd, Command::Finish);
    assert_eq!(s1.state.phase, Phase::Done);
}

#[test]
fn unexpected_event_ends_worker() {
    let config = RoutingConfig::new(vec![1], vec![5], false);
    let scanning = WorkerState { target: 0, phase: Phase::Scanning };
    let r = step(&config, 1, scanning, WorkerEvent::ForwardOk);
    assert_eq!(r.cmd, Command::Finish);
    assert_eq!(r.diag, None);
    let out_of_range = WorkerState { target: 3, phase: Phase::Scanning };
    assert_eq!(step(&config, 1, out_of_range, WorkerEvent::Dialog { id: 5 }).cmd, Command::Finish);
}

#[test]
fn overlapping_workers_are_independent() {
    let config = RoutingConfig::new(vec![1, 2], vec![7, 8], false);
    let mut a = start(&config, msg(1)).step;
    let mut b = start(&config, msg(2)).step;
    let mut a_diags = Vec::new();
    let mut b_diags = Vec::new();
    // Interleave the two workers; every forward of the first fails, every
    // forward of the second succeeds at once.
    let dialogs = [7i64, 8];
    let (mut ca, mut cb) = (0usize, 0usize);
    for _ in 0..100 {
        for (st, origin, cursor, ok, diags) in
            [(&mut a, 1i64, &mut ca, false, &mut a_diags), (&mut b, 2i64, &mut cb, true, &mut b_diags)]
        {
            if let Some(d) = st.diag.take() {
                diags.push(d);
            }
            let reply = match st.cmd {
                Command::Finish => continue,
                Command::Scan { .. } | Command::NextDialog => {
                    if let Command::Scan { .. } = st.cmd {
                        *cursor = 0;
                    }
                    if *cursor < dialogs.len() {
                        *cursor += 1;
                        WorkerEvent::Dialog { id: dialogs[*cursor - 1] }
                    } else {
                        WorkerEvent::DialogsEnd
                    }
                }
                Command::Forward { .. } => {
                    if ok {
                        WorkerEvent::ForwardOk
                    } else {
                        WorkerEvent::ForwardFailed
                    }
                }
            };
            *st = step(&config, origin, st.state, reply);
        }
    }
    assert_eq!(a.cmd, Command::Finish);
    assert_eq!(b.cmd, Command::Finish);
    assert_eq!(a_diags.len(), 6);
    assert!(a_diags.iter().all(|d| matches!(d, Diagnostic::ForwardFailed { .. })));
    assert_eq!(
        b_diags,
        vec![Diagnostic::Forwarded { origin: 2, target: 7 }, Diagnostic::Forwarded { origin: 2, target: 8 }]
    );
}

#[test]
fn shutdown_saves_session_once() {
    let events = [
        DispatchEvent::Received,
        DispatchEvent::ReceiveFailed,
        DispatchEvent::Received,
        DispatchEvent::Shutdown,
        DispatchEvent::Received,
        DispatchEvent::Shutdown,
    ];
    let mut s = DispatchState::Running;
    let mut actions = Vec::new();
    for ev in events {
        let d = dispatch(s, ev);
        s = d.state;
        actions.push(d.action);
    }
    assert_eq!(
        actions,
        vec![
            DispatchAction::SpawnWorker,
            DispatchAction::Cooldown { secs: RECEIVE_COOLDOWN_SECS },
            DispatchAction::SpawnWorker,
            DispatchAction::SaveSessionAndExit,
            DispatchAction::Halt,
            DispatchAction::Halt,
        ]
    );
    assert_eq!(s, DispatchState::Stopping);
}

#[test]
fn receive_failure_cools_down_five_seconds() {
    let d = dispatch(DispatchState::Running, DispatchEvent::ReceiveFailed);
    assert_eq!(d.action, DispatchAction::Cooldown { secs: 5 });
    assert_eq!(d.state, DispatchState::Running);
}
