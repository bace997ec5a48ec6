use pianki_supervisor::probe::{probe_ports, ProbeResult, ProbeState};

#[test]
fn timeout_is_reported_within_one_interval_of_the_deadline() {
    // 500 ms budget, 200 ms polling interval, no port ever opens: rounds at
    // 0, 200 and 400 ms find nothing, and the round that would start at
    // 600 ms reports the timeout instead — at or after 500 ms, and before
    // 500 + 200 ms.
    let mut probe = ProbeState::new(500, 200);
    assert!(probe.result.is_none());
    assert_eq!(probe.step(None), None);
    assert_eq!(probe.step(None), None);
    let r = probe.step(None);
    assert_eq!(r, Some(ProbeResult::TimedOut { elapsed_ms: 600 }));
    match r {
        Some(ProbeResult::TimedOut { elapsed_ms }) => {
            assert!(500 <= elapsed_ms && elapsed_ms < 500 + 200);
        }
        _ => unreachable!(),
    }
}

#[test]
fn success_comes_within_one_interval_of_the_port_opening() {
    // The port opens 100 ms after probing starts, with a 200 ms interval
    // and a 5000 ms budget: the round at 0 ms misses it, the round at
    // 200 ms sees it — well before the timeout, and within one interval
    // of the opening.
    let mut probe = ProbeState::new(5000, 200);
    assert_eq!(probe.step(None), None);
    let r = probe.step(Some(9908));
    assert_eq!(r, Some(ProbeResult::Ready { port: 9908, elapsed_ms: 200 }));
    match r {
        Some(ProbeResult::Ready { elapsed_ms, .. }) => {
            assert!(elapsed_ms < 100 + 200);
        }
        _ => unreachable!(),
    }
}

#[test]
fn a_port_open_at_the_first_round_wins_immediately() {
    let mut probe = ProbeState::new(500, 200);
    let r = probe.step(Some(9910));
    assert_eq!(r, Some(ProbeResult::Ready { port: 9910, elapsed_ms: 0 }));
}

#[test]
fn success_beats_the_clock_even_on_the_last_round() {
    let mut probe = ProbeState::new(500, 200);
    assert_eq!(probe.step(None), None);
    assert_eq!(probe.step(None), None);
    let r = probe.step(Some(9928));
    assert_eq!(r, Some(ProbeResult::Ready { port: 9928, elapsed_ms: 400 }));
}

#[test]
fn zero_timeout_is_already_over() {
    let probe = ProbeState::new(0, 200);
    assert_eq!(probe.result, Some(ProbeResult::TimedOut { elapsed_ms: 0 }));
}

#[test]
fn candidate_range_is_contiguous_and_inclusive() {
    let ports = probe_ports(9908, 9928);
    assert_eq!(ports.len(), 21);
    assert_eq!(ports[0], 9908);
    assert_eq!(ports[20], 9928);
    for (i, p) in ports.iter().enumerate() {
        assert_eq!(*p as usize, 9908 + i);
    }
}

#[test]
fn single_candidate_range() {
    let ports = probe_ports(9908, 9908);
    assert_eq!(ports, vec![9908]);
}
