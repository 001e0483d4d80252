//! What a non-blocking wait on a child fuzzer says about it.

use vstd::prelude::*;

verus! {

/// Why a child fuzzer no longer runs, or why that could not be told.
#[derive(Clone, Copy, Debug, PartialEq, Eq)]
pub enum ChildFault {
    /// The child exited, with this exit status.
    Exited(i32),
    /// A signal of this number ended the child.
    Signaled(i32),
    /// The child changed state for another reason.
    Stopped,
    /// The wait itself failed.
    WaitFailed,
}

/// The low seven bits of a wait status: the number of the signal that ended
/// the child, or zero where it exited.
pub open spec fn signal_bits(status: i32) -> i32 {
    status & 0x7f
}

/// The exit status held in a wait status: its second byte.
pub open spec fn exit_bits(status: i32) -> i32 {
    (status >> 8) & 0xff
}

/// The wait status says that the child exited.
pub open spec fn exited(status: i32) -> bool {
    signal_bits(status) == 0
}

/// The wait status says that a signal ended the child: its signal bits are
/// neither zero (exited) nor all set (stopped).
pub open spec fn signaled(status: i32) -> bool {
    1 <= signal_bits(status) <= 126
}

/// What a wait that returned `result` and `status` says of the child.
pub open spec fn fault_of(result: i32, status: i32) -> Option<ChildFault> {
    if result >= 1 {
        if exited(status) {
            Some(ChildFault::Exited(exit_bits(status)))
        } else if signaled(status) {
            Some(ChildFault::Signaled(signal_bits(status)))
        } else {
            Some(ChildFault::Stopped)
        }
    } else if result == -1 {
        Some(ChildFault::WaitFailed)
    } else {
        None
    }
}

/// `libc::WIFEXITED`, as libc defines it for Linux: true where the low seven bits of the status are zero.
#[verifier::external_body]
fn wifexited(status: i32) -> (r: bool)
    ensures
        r == exited(status),
{
    libc::WIFEXITED(status)
}

/// `libc::WEXITSTATUS`, as libc defines it for Linux: the second byte of the status.
#[verifier::external_body]
fn wexitstatus(status: i32) -> (r: i32)
    ensures
        r == exit_bits(status),
{
    libc::WEXITSTATUS(status)
}

/// `libc::WIFSIGNALED`, as libc defines it for Linux: true where the low seven bits of the status, plus
/// one and read as a signed byte, are at least two; that is, where they lie
/// between 1 and 126.
#[verifier::external_body]
fn wifsignaled(status: i32) -> (r: bool)
    ensures
        r == signaled(status),
{
    libc::WIFSIGNALED(status)
}

/// `libc::WTERMSIG`, as libc defines it for Linux: the low seven bits of the status.
#[verifier::external_body]
fn wtermsig(status: i32) -> (r: i32)
    ensures
        r == signal_bits(status),
{
    libc::WTERMSIG(status)
}

/// Reads the outcome of a non-blocking wait on a child fuzzer. A positive
/// `result` means that the child changed state, and `status` says how; `-1`
/// means that the wait failed; anything else means that the child still
/// runs, which is the only good outcome.
pub fn handle_wait_result(result: i32, status: &i32) -> (r: Result<(), ChildFault>)
    ensures
        match fault_of(result, *status) {
            Some(fault) => r == Err::<(), ChildFault>(fault),
            None => r.is_ok(),
        },
{
    if result >= 1 {
        if wifexited(*status) {
            Err(ChildFault::Exited(wexitstatus(*status)))
        } else if wifsignaled(*status) {
            Err(ChildFault::Signaled(wtermsig(*status)))
        } else {
            Err(ChildFault::Stopped)
        }
    } else if result == -1 {
        Err(ChildFault::WaitFailed)
    } else {
        Ok(())
    }
}

} // verus!
