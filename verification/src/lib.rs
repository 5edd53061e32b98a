//! ABI model for Linux `perf_event_open` and its ioctls.
//!
//! The kernel's performance-monitoring interface is reached through one
//! numbered system call, `perf_event_open`, and a family of `ioctl`
//! requests on the file descriptor it returns.  This crate holds the
//! verified half of a binding to that interface: the attribute struct
//! with its zero-default construction and bit-field accessors, the
//! request-code encoding for every supported ioctl, and constructors
//! that assemble a call's arguments without altering them.  The unsafe
//! system calls themselves live outside the library, in a thin layer
//! that executes exactly what these types describe.

use vstd::prelude::*;

pub mod bindings;
pub mod ioctls;

verus! {

/// The arguments of one `perf_event_open` invocation, besides the
/// attribute struct: the target process, the target CPU, an optional
/// group leader descriptor, and the flag word.
#[derive(Clone, Copy, PartialEq, Eq, Structural, Debug)]
pub struct OpenRequest {
    pub pid: i32,
    pub cpu: i32,
    pub group_fd: i32,
    pub flags: u64,
}

impl OpenRequest {
    /// Assembles the scalar arguments of an open call, carrying each
    /// one through unchanged.
    pub fn new(pid: i32, cpu: i32, group_fd: i32, flags: u64) -> (r: OpenRequest)
        ensures
            r.pid == pid,
            r.cpu == cpu,
            r.group_fd == group_fd,
            r.flags == flags,
    {
        OpenRequest { pid, cpu, group_fd, flags }
    }
}

/// The OS error number the kernel uses for an oversized request: the
/// open call fails with this code, negated, when the attribute struct
/// asks for behaviour the running kernel is too old to know.
pub const E2BIG: i32 = 7;

/// What one return of the open call means, under its convention of
/// returning the new descriptor or a negated OS error number.
#[derive(Clone, Copy, PartialEq, Eq, Structural, Debug)]
pub enum OpenResult {
    /// The call succeeded; the value is the new file descriptor.
    Fd(i32),
    /// The call failed with the oversized-struct code: the running
    /// kernel is too old for a requested feature, and the value is the
    /// size the kernel wrote back into the struct's size field as the
    /// one it supports.
    TooOld(u32),
    /// The call failed; the value is the negated OS error number, as
    /// the call returned it.
    Failed(i32),
}

/// Classifies the raw return of the open call, together with the size
/// field as the kernel left it.  A non-negative return is the new
/// descriptor; the negated oversized-request code is the
/// kernel-too-old condition, which callers must test for themselves
/// and which comes with the kernel's supported size written back; any
/// other negative return carries its negated error number through
/// unchanged.  Every possible return value falls in exactly one of the
/// three cases.
pub fn classify_open(ret: i32, size_after_call: u32) -> (r: OpenResult)
    ensures
        ret >= 0 ==> r == OpenResult::Fd(ret),
        ret == -E2BIG ==> r == OpenResult::TooOld(size_after_call),
        ret < 0 && ret != -E2BIG ==> r == OpenResult::Failed(ret),
{
    if ret >= 0 {
        OpenResult::Fd(ret)
    } else if ret == -E2BIG {
        OpenResult::TooOld(size_after_call)
    } else {
        OpenResult::Failed(ret)
    }
}

/// Whether a control shim's return signals failure under its
/// convention: exactly the value -1, with the cause left in the C
/// library's global error value.  Any other value, the operation's own
/// non-negative result included, is success.
pub fn ioctl_failed(ret: i32) -> (r: bool)
    ensures
        r == (ret == -1),
{
    ret == -1
}

} // verus!
