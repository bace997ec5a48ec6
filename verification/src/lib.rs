//! A single-child process supervisor for a desktop shell that bundles an
//! auxiliary backend server: it models the lifecycle of that one subprocess
//! (spawn, readiness detection, output relay, idempotent termination) as a
//! verified state machine.  The host application performs the actual I/O
//! (spawning, TCP probes, sleeping, logging) and feeds the results back into
//! these verified decision functions.

pub mod launcher;
pub mod probe;
pub mod relay;
pub mod ready;
pub mod supervisor;
