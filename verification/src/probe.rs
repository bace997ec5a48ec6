//! The readiness probe decides, round by round, whether to keep polling the
//! candidate ports, report the port that accepted a connection, or give up
//! after the timeout.  The host performs the actual connection attempts and
//! the sleeps; it reports each round's outcome to `step` and obeys the
//! decision that comes back.  Time is modelled by the elapsed counter, which
//! advances by exactly one polling interval per round, matching a host that
//! sleeps the interval between rounds.

use vstd::prelude::*;

verus! {

/// What a finished probe reports: the port that accepted a connection and
/// when, or that the timeout elapsed with no port open.  The timeout case is
/// informational, not an error: startup continues regardless.
#[derive(Clone, Copy, PartialEq, Eq, Structural, Debug)]
pub enum ProbeResult {
    Ready { port: u16, elapsed_ms: u64 },
    TimedOut { elapsed_ms: u64 },
}

/// The polling state: fixed timeout and interval, the elapsed-time counter,
/// and the result once the probe has finished.
#[derive(Clone, Copy, PartialEq, Eq, Structural, Debug)]
pub struct ProbeState {
    pub timeout_ms: u64,
    pub interval_ms: u64,
    pub elapsed_ms: u64,
    pub result: Option<ProbeResult>,
}

/// A well-formed probe: the interval is positive (each round advances time),
/// one more interval past the timeout still fits the counter, and a probe
/// that is still running has not yet reached its timeout.
pub open spec fn probe_wf(p: ProbeState) -> bool {
    &&& p.interval_ms >= 1
    &&& p.timeout_ms + p.interval_ms <= u64::MAX
    &&& p.result is None ==> p.elapsed_ms < p.timeout_ms
}

/// The transition of one polling round.  A reported connection wins
/// immediately, whatever the clock says; otherwise the round costs one
/// interval, and the probe times out as soon as the counter reaches the
/// timeout.
pub open spec fn probe_step(p: ProbeState, connected: Option<u16>) -> ProbeState {
    match connected {
        Some(port) => ProbeState {
            result: Some(ProbeResult::Ready { port, elapsed_ms: p.elapsed_ms }),
            ..p
        },
        None => {
            let next = (p.elapsed_ms + p.interval_ms) as u64;
            if next >= p.timeout_ms {
                ProbeState { result: Some(ProbeResult::TimedOut { elapsed_ms: next }), ..p }
            } else {
                ProbeState { elapsed_ms: next, ..p }
            }
        },
    }
}

/// The state after a whole run of rounds; the run stops at the first round
/// that finishes the probe, and later inputs change nothing.
pub open spec fn probe_run(p: ProbeState, rounds: Seq<Option<u16>>) -> ProbeState
    decreases rounds.len(),
{
    if rounds.len() == 0 || p.result is Some {
        p
    } else {
        probe_run(probe_step(p, rounds[0]), rounds.drop_first())
    }
}

impl ProbeState {
    /// A probe that has performed no rounds yet.  A zero timeout is already
    /// over: it reports the timeout at once rather than polling.
    pub fn new(timeout_ms: u64, interval_ms: u64) -> (p: ProbeState)
        requires
            interval_ms >= 1,
            timeout_ms + interval_ms <= u64::MAX,
        ensures
            probe_wf(p),
            p.timeout_ms == timeout_ms,
            p.interval_ms == interval_ms,
            p.elapsed_ms == 0,
            p.result == if timeout_ms == 0 {
                Some(ProbeResult::TimedOut { elapsed_ms: 0u64 })
            } else {
                None::<ProbeResult>
            },
    {
        ProbeState {
            timeout_ms,
            interval_ms,
            elapsed_ms: 0,
            result: if timeout_ms == 0 {
                Some(ProbeResult::TimedOut { elapsed_ms: 0 })
            } else {
                None
            },
        }
    }

    /// One polling round: the host reports which port accepted a connection,
    /// if any, and receives the result to act on — `None` means sleep one
    /// interval and poll again.  Success is reported the moment a round sees
    /// an open port, at the round's start time; a timeout is reported the
    /// first time the counter reaches the timeout, so no later than one
    /// interval past it.
    pub fn step(&mut self, connected: Option<u16>) -> (r: Option<ProbeResult>)
        requires
            probe_wf(*old(self)),
            old(self).result is None,
        ensures
            probe_wf(*final(self)),
            *final(self) == probe_step(*old(self), connected),
            r == final(self).result,
            connected matches Some(port) ==> r == Some(
                ProbeResult::Ready { port, elapsed_ms: old(self).elapsed_ms },
            ),
            connected is None && r is Some ==> r == Some(
                ProbeResult::TimedOut { elapsed_ms: (old(self).elapsed_ms + old(self).interval_ms) as u64 },
            ) && old(self).timeout_ms <= old(self).elapsed_ms + old(self).interval_ms
                < old(self).timeout_ms + old(self).interval_ms,
    {
        match connected {
            Some(port) => {
                let out = ProbeResult::Ready { port, elapsed_ms: self.elapsed_ms };
                self.result = Some(out);
                Some(out)
            },
            None => {
                let next = self.elapsed_ms + self.interval_ms;
                if next >= self.timeout_ms {
                    let out = ProbeResult::TimedOut { elapsed_ms: next };
                    self.result = Some(out);
                    Some(out)
                } else {
                    self.elapsed_ms = next;
                    None
                }
            },
        }
    }
}

/// Probe timeout boundary: if no round ever reports an open port and enough
/// rounds are run, the probe reports a timeout, and the elapsed time it
/// reports is no earlier than the timeout and earlier than the timeout plus
/// one polling interval.
pub proof fn lemma_probe_timeout_window(p: ProbeState, rounds: Seq<Option<u16>>)
    requires
        probe_wf(p),
        p.result is None,
        forall|j: int| 0 <= j < rounds.len() ==> rounds[j] is None,
        p.elapsed_ms + rounds.len() * p.interval_ms >= p.timeout_ms,
    ensures
        probe_run(p, rounds).result matches Some(ProbeResult::TimedOut { elapsed_ms })
            && p.timeout_ms <= elapsed_ms < p.timeout_ms + p.interval_ms,
    decreases rounds.len(),
{
    assert(rounds.len() >= 1) by {
        if rounds.len() == 0 {
            assert(p.elapsed_ms >= p.timeout_ms);
        }
    }
    let q = probe_step(p, rounds[0]);
    if q.result is Some {
        assert(probe_run(q, rounds.drop_first()) == q);
    } else {
        assert(q.elapsed_ms + (rounds.len() - 1) * q.interval_ms == p.elapsed_ms
            + rounds.len() * p.interval_ms) by (nonlinear_arith)
            requires
                q.interval_ms == p.interval_ms,
                q.elapsed_ms == p.elapsed_ms + p.interval_ms,
                rounds.len() >= 1,
        ;
        lemma_probe_timeout_window(q, rounds.drop_first());
    }
}

/// Probe success race: if the port opens at time `t_open` — every round that
/// starts at or after `t_open` finds it connectable, every earlier round does
/// not — and the probe would not time out first, then the probe reports that
/// port ready at the first round at or after `t_open`, which starts less than
/// one polling interval after `t_open`: success comes within one interval of
/// the port opening, not after the full timeout.
pub proof fn lemma_probe_success_race(
    p: ProbeState,
    rounds: Seq<Option<u16>>,
    t_open: int,
    port: u16,
)
    requires
        probe_wf(p),
        p.result is None,
        p.elapsed_ms < t_open + p.interval_ms,
        t_open + p.interval_ms <= p.timeout_ms,
        rounds.len() >= 1,
        p.elapsed_ms + (rounds.len() - 1) * p.interval_ms >= t_open,
        forall|j: int|
            0 <= j < rounds.len() ==> rounds[j] == (if p.elapsed_ms + j * p.interval_ms >= t_open {
                Some(port)
            } else {
                None::<u16>
            }),
    ensures
        probe_run(p, rounds).result matches Some(ProbeResult::Ready { port: rp, elapsed_ms })
            && rp == port && t_open <= elapsed_ms < t_open + p.interval_ms,
    decreases rounds.len(),
{
    assert(rounds[0] == (if p.elapsed_ms + 0 * p.interval_ms >= t_open {
        Some(port)
    } else {
        None::<u16>
    }));
    if p.elapsed_ms >= t_open {
        let q = probe_step(p, rounds[0]);
        assert(probe_run(q, rounds.drop_first()) == q);
    } else {
        let q = probe_step(p, rounds[0]);
        assert(q.result is None && q.elapsed_ms == p.elapsed_ms + p.interval_ms) by {
            assert(p.elapsed_ms + p.interval_ms < t_open + p.interval_ms);
        }
        assert(rounds.len() >= 2) by {
            if rounds.len() == 1 {
                assert(p.elapsed_ms + 0 * p.interval_ms >= t_open);
            }
        }
        assert(q.elapsed_ms + (rounds.len() - 2) * q.interval_ms >= t_open) by (nonlinear_arith)
            requires
                q.interval_ms == p.interval_ms,
                q.elapsed_ms == p.elapsed_ms + p.interval_ms,
                rounds.len() >= 2,
                p.elapsed_ms + (rounds.len() - 1) * p.interval_ms >= t_open,
        ;
        assert forall|j: int| 0 <= j < rounds.drop_first().len() implies rounds.drop_first()[j]
            == (if q.elapsed_ms + j * q.interval_ms >= t_open {
            Some(port)
        } else {
            None::<u16>
        }) by {
            assert(rounds.drop_first()[j] == rounds[j + 1]);
            assert(q.elapsed_ms + j * q.interval_ms == p.elapsed_ms + (j + 1) * p.interval_ms)
                by (nonlinear_arith)
                requires
                    q.interval_ms == p.interval_ms,
                    q.elapsed_ms == p.elapsed_ms + p.interval_ms,
            ;
        }
        lemma_probe_success_race(q, rounds.drop_first(), t_open, port);
    }
}

/// The fixed contiguous range of candidate ports, first to last inclusive:
/// the backend may fall back to a port near its preferred one, so every
/// candidate is polled each round.
pub fn probe_ports(first: u16, last: u16) -> (v: Vec<u16>)
    requires
        first <= last,
    ensures
        v@.len() == last - first + 1,
        forall|i: int| 0 <= i < v@.len() ==> v@[i] == first + i,
{
    let count: usize = (last - first) as usize + 1;
    let mut v: Vec<u16> = Vec::new();
    let mut i: usize = 0;
    while i < count
        invariant
            i <= count,
            count == last - first + 1,
            first <= last,
            v@.len() == i,
            forall|t: int| 0 <= t < i ==> v@[t] == first + t,
        decreases count - i,
    {
        v.push(first + i as u16);
        i += 1;
    }
    v
}

} // verus!
