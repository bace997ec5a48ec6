//! The launcher composes the child-process invocation: the executable name
//! and the environment the backend needs — its data directory and the port
//! it is asked to listen on, passed as a string-encoded integer.  Whether a
//! child should be spawned at all is configuration: in embedded-development
//! mode the backend is started by an external tool and no plan is produced.
//! The host performs the actual spawn from the returned plan.

use vstd::prelude::*;

use crate::ready::dec_val;
use crate::ready::is_digit;

verus! {

/// What the launcher is told: whether to spawn at all, the data-directory
/// path to hand the backend (a path as raw bytes, exactly as the host's
/// filesystem reports it), and the port the backend is asked to bind.
pub struct LaunchConfig {
    pub spawn_enabled: bool,
    pub data_dir: Vec<u8>,
    pub port: u16,
}

/// One environment variable of the child process.
pub struct EnvVar {
    pub name: String,
    pub value: Vec<u8>,
}

/// A composed invocation: the executable to start and the environment to
/// pass it.
pub struct LaunchPlan {
    pub executable: String,
    pub env: Vec<EnvVar>,
}

/// The canonical decimal digits of a number: most significant first, no
/// leading zero (a lone zero for zero itself).
pub open spec fn spec_decimal(n: int) -> Seq<u8>
    decreases n,
    when n >= 0
{
    if n < 10 {
        seq![(n + 48) as u8]
    } else {
        spec_decimal(n / 10).push((n % 10 + 48) as u8)
    }
}

/// The canonical decimal digits of `n` read back as a number give `n`; they
/// are all digits, and only zero starts with the zero digit.
pub proof fn lemma_spec_decimal(n: int)
    requires
        n >= 0,
    ensures
        spec_decimal(n).len() >= 1,
        dec_val(spec_decimal(n)) == n,
        forall|i: int| 0 <= i < spec_decimal(n).len() ==> is_digit(spec_decimal(n)[i]),
        spec_decimal(n)[0] == 48 ==> n == 0,
    decreases n,
{
    if n < 10 {
        assert(spec_decimal(n).drop_last() =~= Seq::<u8>::empty());
        assert(dec_val(Seq::<u8>::empty()) == 0);
    } else {
        lemma_spec_decimal(n / 10);
        assert(spec_decimal(n).drop_last() =~= spec_decimal(n / 10));
        assert(spec_decimal(n).last() == (n % 10 + 48) as u8);
        assert(n / 10 * 10 + n % 10 == n) by (nonlinear_arith)
            requires
                n >= 10,
        ;
    }
}

/// Append the canonical decimal digits of `n` to `d`.
fn push_decimal(n: u16, d: &mut Vec<u8>)
    ensures
        final(d)@ == old(d)@ + spec_decimal(n as int),
    decreases n,
{
    if n < 10 {
        d.push(n as u8 + 48);
        proof {
            assert(d@ =~= old(d)@ + spec_decimal(n as int));
        }
    } else {
        push_decimal(n / 10, d);
        d.push((n % 10) as u8 + 48);
        proof {
            assert(d@ =~= old(d)@ + spec_decimal(n as int));
        }
    }
}

/// The port a backend is asked to bind, string-encoded for its environment:
/// the canonical decimal digits of `port`.
pub fn format_port(port: u16) -> (d: Vec<u8>)
    ensures
        d@ == spec_decimal(port as int),
        d@.len() >= 1,
        dec_val(d@) == port,
        forall|i: int| 0 <= i < d@.len() ==> is_digit(d@[i]),
        d@[0] == 48 ==> port == 0,
{
    let mut d: Vec<u8> = Vec::new();
    push_decimal(port, &mut d);
    proof {
        lemma_spec_decimal(port as int);
        assert(d@ =~= spec_decimal(port as int));
    }
    d
}

/// Compose the child invocation, or decline: in embedded-development mode no
/// child is spawned.  The plan names the backend executable and passes it
/// exactly two environment variables: the data-directory path unchanged, and
/// the requested port as its canonical decimal digits.
pub fn build_launch_plan(cfg: &LaunchConfig) -> (r: Option<LaunchPlan>)
    ensures
        cfg.spawn_enabled <==> r is Some,
        r matches Some(plan) ==> {
            &&& plan.executable@ == "pianki-backend"@
            &&& plan.env@.len() == 2
            &&& plan.env@[0].name@ == "PIANKI_DATA_DIR"@
            &&& plan.env@[0].value@ == cfg.data_dir@
            &&& plan.env@[1].name@ == "PORT"@
            &&& plan.env@[1].value@ == spec_decimal(cfg.port as int)
            &&& dec_val(plan.env@[1].value@) == cfg.port
        },
{
    if !cfg.spawn_enabled {
        return None;
    }
    let mut env: Vec<EnvVar> = Vec::new();
    let mut dir: Vec<u8> = Vec::new();
    let mut i: usize = 0;
    let n = cfg.data_dir.len();
    while i < n
        invariant
            i <= n,
            n == cfg.data_dir@.len(),
            dir@ == cfg.data_dir@.subrange(0, i as int),
        decreases n - i,
    {
        dir.push(cfg.data_dir[i]);
        proof {
            assert(dir@ =~= cfg.data_dir@.subrange(0, i + 1));
        }
        i += 1;
    }
    proof {
        assert(dir@ =~= cfg.data_dir@);
        lemma_spec_decimal(cfg.port as int);
    }
    env.push(EnvVar { name: String::from_str("PIANKI_DATA_DIR"), value: dir });
    env.push(EnvVar { name: String::from_str("PORT"), value: format_port(cfg.port) });
    Some(LaunchPlan { executable: String::from_str("pianki-backend"), env })
}

} // verus!
