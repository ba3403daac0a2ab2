//! Which signals a shim listens to and what it does on each.

use crate::shim::Config;
use vstd::prelude::*;

verus! {

/// The numbers of the signals a shim cares about on the host platform.
#[derive(Clone, Copy, Debug)]
pub struct SignalNumbers {
    pub term: i32,
    pub int: i32,
    pub pipe: i32,
    pub chld: i32,
}

/// What to do on a signal.
#[derive(Clone, Copy, Debug, PartialEq, Eq, Structural)]
pub enum SignalAction {
    /// Stop handling signals.
    Stop,
    /// Reap one exited child and report its exit.
    Reap,
    /// Nothing.
    Ignore,
}

/// The signals to listen to: termination, interrupt and broken pipe, and
/// child exit unless reaping is off.
pub open spec fn watched(nums: SignalNumbers, no_reaper: bool) -> Seq<i32> {
    if no_reaper {
        seq![nums.term, nums.int, nums.pipe]
    } else {
        seq![nums.term, nums.int, nums.pipe, nums.chld]
    }
}

/// The action a signal calls for: termination and interrupt stop, child exit
/// reaps, anything else is ignored.
pub open spec fn action_of(nums: SignalNumbers, sig: i32) -> SignalAction {
    if sig == nums.term || sig == nums.int {
        SignalAction::Stop
    } else if sig == nums.chld {
        SignalAction::Reap
    } else {
        SignalAction::Ignore
    }
}

/// The exit code in a `waitpid` status word.
pub open spec fn exit_code_of(status: i32) -> i32 {
    (status >> 8u32) & 0xff
}

/// Reads the exit code out of a wait status, as `libc::WEXITSTATUS` does:
/// bits 8 to 15 of the status.
pub fn exit_status(status: i32) -> (r: i32)
    ensures
        r == exit_code_of(status),
        0 <= r <= 255,
        r as int == (status as int / 256) % 256,
{
    proof {
        law_exit_code_is_second_byte(status);
    }
    assert((status >> 8u32) & 0xff >= 0 && (status >> 8u32) & 0xff <= 255) by (bit_vector);
    (status >> 8u32) & 0xff
}

/// The signals to listen to under `config`.
pub fn signals_to_watch(nums: &SignalNumbers, config: &Config) -> (r: Vec<i32>)
    ensures
        r@ == watched(*nums, config.no_reaper),
        r@.len() == if config.no_reaper { 3int } else { 4int },
        r@[0] == nums.term,
        r@[1] == nums.int,
        r@[2] == nums.pipe,
        !config.no_reaper ==> r@[3] == nums.chld,
{
    if config.no_reaper {
        vec![nums.term, nums.int, nums.pipe]
    } else {
        vec![nums.term, nums.int, nums.pipe, nums.chld]
    }
}

/// The action signal `sig` calls for.
pub fn signal_action(nums: &SignalNumbers, sig: i32) -> (r: SignalAction)
    ensures
        r == action_of(*nums, sig),
        sig == nums.term || sig == nums.int ==> r == SignalAction::Stop,
        sig == nums.chld && sig != nums.term && sig != nums.int ==> r == SignalAction::Reap,
        sig != nums.term && sig != nums.int && sig != nums.chld ==> r == SignalAction::Ignore,
{
    if sig == nums.term || sig == nums.int {
        SignalAction::Stop
    } else if sig == nums.chld {
        SignalAction::Reap
    } else {
        SignalAction::Ignore
    }
}

/// What a reap found: the pid and exit code to report, when `waitpid`
/// returned a child (a positive pid); nothing otherwise.
pub fn reaped_exit(res_pid: i32, status: i32) -> (r: Option<(i32, i32)>)
    ensures
        r == (if res_pid > 0 {
            Some((res_pid, exit_code_of(status)))
        } else {
            None
        }),
        r is Some <==> res_pid > 0,
        r matches Some((p, c)) ==> p == res_pid && 0 <= c <= 255 && c as int == (status as int
            / 256) % 256,
{
    let code = exit_status(status);
    if res_pid > 0 {
        Some((res_pid, code))
    } else {
        None
    }
}

/// The exit code of a wait status is its second byte: the status divided
/// by 256, taken modulo 256, for every status, negative ones included.
pub proof fn law_exit_code_is_second_byte(status: i32)
    ensures
        exit_code_of(status) as int == (status as int / 256) % 256,
        0 <= exit_code_of(status) <= 255,
{
    assert(((status >> 8u32) & 0xff) as int == (status as int / 256) % 256) by (bit_vector);
    assert(0 <= (status >> 8u32) & 0xff <= 255) by (bit_vector);
}

} // verus!
