//! The log relay drains the child's combined output stream.  For each event
//! the host receives from the stream it calls `on_child_event`, which decides
//! what to log and at which level, whether the line announces the backend's
//! port, and whether the stream has ended — in which case the child's exit is
//! recorded in the supervisor so that no later shutdown trigger tries to kill
//! the already-gone process.

use vstd::prelude::*;

use crate::ready::spec_ready_port;
use crate::ready::parse_ready_port;
use crate::supervisor::Supervisor;

verus! {

/// Which stream of the child a line came from.  Stdout lines are logged at
/// info level, stderr lines at error level.
#[derive(Clone, Copy, PartialEq, Eq, Structural, Debug)]
pub enum Origin {
    Stdout,
    Stderr,
}

/// One line of child output, tagged by its origin, ready for the logging
/// sink.  Produced and consumed immediately, never buffered.
#[derive(PartialEq, Eq, Debug)]
pub struct LogLine {
    pub origin: Origin,
    pub text: Vec<u8>,
}

/// The exit status the stream's terminal event carries: the exit code if the
/// child returned one, or the signal that ended it.
#[derive(Clone, Copy, PartialEq, Eq, Debug)]
pub struct ExitStatus {
    pub code: Option<i32>,
    pub signal: Option<i32>,
}

/// One event of the child's output stream, as the host hands it over: a
/// stdout line, a stderr line, the terminal exited event, or anything else
/// the stream may carry, which the relay ignores.
pub enum ChildEvent {
    Stdout(Vec<u8>),
    Stderr(Vec<u8>),
    Terminated(ExitStatus),
    Other,
}

/// What the host must do with one event: forward a tagged line to the
/// logging sink, announce a ready port to the front end, and record the exit
/// status and stop relaying once the stream has ended.
pub struct RelayAction {
    pub log: Option<LogLine>,
    pub ready_port: Option<u16>,
    pub exited: Option<ExitStatus>,
}

/// Handle one event of the child's output stream.  Stdout lines are logged
/// at info level and scanned for the readiness marker; stderr lines are
/// logged at error level; the terminal event clears the supervisor's slot
/// without a kill request (the process is already dead) and tells the host
/// to record the status and end the relay loop.  No other event touches the
/// supervisor.
pub fn on_child_event(sup: &mut Supervisor, event: ChildEvent) -> (action: RelayAction)
    ensures
        match event {
            ChildEvent::Stdout(line) => {
                &&& action.log matches Some(l) && l.origin == Origin::Stdout && l.text@ == line@
                &&& action.ready_port == spec_ready_port(line@)
                &&& action.exited is None
                &&& final(sup).model() == old(sup).model()
            },
            ChildEvent::Stderr(line) => {
                &&& action.log matches Some(l) && l.origin == Origin::Stderr && l.text@ == line@
                &&& action.ready_port is None
                &&& action.exited is None
                &&& final(sup).model() == old(sup).model()
            },
            ChildEvent::Terminated(status) => {
                &&& action.log is None
                &&& action.ready_port is None
                &&& action.exited == Some(status)
                &&& final(sup).model() is None
            },
            ChildEvent::Other => {
                &&& action.log is None
                &&& action.ready_port is None
                &&& action.exited is None
                &&& final(sup).model() == old(sup).model()
            },
        },
{
    match event {
        ChildEvent::Stdout(line) => {
            let ready_port = parse_ready_port(line.as_slice());
            RelayAction {
                log: Some(LogLine { origin: Origin::Stdout, text: line }),
                ready_port,
                exited: None,
            }
        },
        ChildEvent::Stderr(line) => RelayAction {
            log: Some(LogLine { origin: Origin::Stderr, text: line }),
            ready_port: None,
            exited: None,
        },
        ChildEvent::Terminated(status) => {
            sup.notify_exited();
            RelayAction { log: None, ready_port: None, exited: Some(status) }
        },
        ChildEvent::Other => RelayAction { log: None, ready_port: None, exited: None },
    }
}

} // verus!
