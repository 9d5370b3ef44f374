//! Forwarding of an operator interrupt to the running child process.
use vstd::prelude::*;

verus! {

/// The process that an interrupt goes to, given the value of the active child
/// handle: the child it names, or none while the handle is zero.
pub open spec fn interrupt_target_spec(handle: u32) -> Option<u32> {
    if handle == 0 {
        None
    } else {
        Some(handle)
    }
}

/// Decides where an interrupt received by the grading tool is forwarded.
/// `None` means the interrupt is dropped, and the tool keeps running.
pub fn interrupt_target(handle: u32) -> (r: Option<u32>)
    ensures
        r == interrupt_target_spec(handle),
        r is None <==> handle == 0,
        r is Some ==> r->0 == handle,
{
    if handle > 0 {
        Some(handle)
    } else {
        None
    }
}

} // verus!
