//! Request codes and call assembly for the ioctls of a perf event
//! file descriptor.
//!
//! Every operation on an open counter (enable, disable, reset, and so
//! on) is one `ioctl` request whose numeric code follows the generic
//! encoding of `<asm-generic/ioctl.h>`: a two-bit transfer direction,
//! a fourteen-bit argument size, the magic byte `'$'` of the perf
//! subsystem, and a sequence number, packed into one 32-bit word.  The
//! constants below carry the packed codes; [`lemma_request_codes`]
//! proves each one equal to the encoding of its documented direction,
//! number and size.
//!
//! Most C libraries take the request as an unsigned long, but at least
//! one takes a 32-bit int instead; [`request_narrow`] yields the code
//! at that width, with the same bit pattern.

use vstd::prelude::*;

verus! {

/// The perf subsystem's ioctl magic byte, `'$'`.
pub const PERF_IOC_MAGIC: u64 = 0x24;

/// Transfer-direction values of the generic ioctl encoding: no
/// argument transfer.
pub const IOC_NONE: u64 = 0;

/// Transfer direction: the argument is written from user space to the
/// kernel.
pub const IOC_WRITE: u64 = 1;

/// Transfer direction: the argument is read back from the kernel into
/// user space.
pub const IOC_READ: u64 = 2;

/// The generic ioctl request encoding: direction in the top two bits,
/// argument size in the fourteen bits below, then the subsystem's
/// magic byte, then the sequence number in the low byte.
pub open spec fn ioc(dir: u64, nr: u64, size: u64) -> u64 {
    (dir << 30) | (size << 16) | (PERF_IOC_MAGIC << 8) | nr
}

/// Request code of ENABLE: start the counter.  Takes a flags word.
pub const PERF_EVENT_IOC_ENABLE: u64 = 0x2400;

/// Request code of DISABLE: stop the counter.  Takes a flags word.
pub const PERF_EVENT_IOC_DISABLE: u64 = 0x2401;

/// Request code of REFRESH: re-arm a one-shot counter for the given
/// number of overflows.
pub const PERF_EVENT_IOC_REFRESH: u64 = 0x2402;

/// Request code of RESET: zero the counter value.  Takes a flags word.
pub const PERF_EVENT_IOC_RESET: u64 = 0x2403;

/// Request code of PERIOD: change the sampling period to the 64-bit
/// value the argument points at.
pub const PERF_EVENT_IOC_PERIOD: u64 = 0x40082404;

/// Request code of SET_OUTPUT: redirect sampled output to another
/// descriptor's ring buffer.
pub const PERF_EVENT_IOC_SET_OUTPUT: u64 = 0x2405;

/// Request code of SET_FILTER: install the filter expression the
/// argument points at.
pub const PERF_EVENT_IOC_SET_FILTER: u64 = 0x40082406;

/// Request code of ID: read back the counter's unique identifier into
/// the 64-bit location the argument points at.
pub const PERF_EVENT_IOC_ID: u64 = 0x80082407;

/// Request code of SET_BPF: attach the BPF program whose descriptor is
/// the argument.
pub const PERF_EVENT_IOC_SET_BPF: u64 = 0x40042408;

/// Request code of PAUSE_OUTPUT: pause or resume ring-buffer output.
pub const PERF_EVENT_IOC_PAUSE_OUTPUT: u64 = 0x40042409;

/// Request code of QUERY_BPF: list the BPF programs attached to the
/// event, through the query struct the argument points at.
pub const PERF_EVENT_IOC_QUERY_BPF: u64 = 0xC008240A;

/// Request code of MODIFY_ATTRIBUTES: modify a live counter from the
/// attribute struct the argument points at.
pub const PERF_EVENT_IOC_MODIFY_ATTRIBUTES: u64 = 0x4008240B;

/// Each request constant equals the generic encoding of its documented
/// direction, sequence number, and argument byte size.
pub proof fn lemma_request_codes()
    ensures
        PERF_EVENT_IOC_ENABLE == ioc(IOC_NONE, 0, 0),
        PERF_EVENT_IOC_DISABLE == ioc(IOC_NONE, 1, 0),
        PERF_EVENT_IOC_REFRESH == ioc(IOC_NONE, 2, 0),
        PERF_EVENT_IOC_RESET == ioc(IOC_NONE, 3, 0),
        PERF_EVENT_IOC_PERIOD == ioc(IOC_WRITE, 4, 8),
        PERF_EVENT_IOC_SET_OUTPUT == ioc(IOC_NONE, 5, 0),
        PERF_EVENT_IOC_SET_FILTER == ioc(IOC_WRITE, 6, 8),
        PERF_EVENT_IOC_ID == ioc(IOC_READ, 7, 8),
        PERF_EVENT_IOC_SET_BPF == ioc(IOC_WRITE, 8, 4),
        PERF_EVENT_IOC_PAUSE_OUTPUT == ioc(IOC_WRITE, 9, 4),
        PERF_EVENT_IOC_QUERY_BPF == ioc(IOC_WRITE | IOC_READ, 10, 8),
        PERF_EVENT_IOC_MODIFY_ATTRIBUTES == ioc(IOC_WRITE, 11, 8),
{
    assert(0x2400u64 == (0u64 << 30) | (0u64 << 16) | (0x24u64 << 8) | 0u64) by (bit_vector);
    assert(0x2401u64 == (0u64 << 30) | (0u64 << 16) | (0x24u64 << 8) | 1u64) by (bit_vector);
    assert(0x2402u64 == (0u64 << 30) | (0u64 << 16) | (0x24u64 << 8) | 2u64) by (bit_vector);
    assert(0x2403u64 == (0u64 << 30) | (0u64 << 16) | (0x24u64 << 8) | 3u64) by (bit_vector);
    assert(0x40082404u64 == (1u64 << 30) | (8u64 << 16) | (0x24u64 << 8) | 4u64) by (bit_vector);
    assert(0x2405u64 == (0u64 << 30) | (0u64 << 16) | (0x24u64 << 8) | 5u64) by (bit_vector);
    assert(0x40082406u64 == (1u64 << 30) | (8u64 << 16) | (0x24u64 << 8) | 6u64) by (bit_vector);
    assert(0x80082407u64 == (2u64 << 30) | (8u64 << 16) | (0x24u64 << 8) | 7u64) by (bit_vector);
    assert(0x40042408u64 == (1u64 << 30) | (4u64 << 16) | (0x24u64 << 8) | 8u64) by (bit_vector);
    assert(0x40042409u64 == (1u64 << 30) | (4u64 << 16) | (0x24u64 << 8) | 9u64) by (bit_vector);
    assert(0xC008240Au64 == (3u64 << 30) | (8u64 << 16) | (0x24u64 << 8) | 10u64) by (bit_vector);
    assert(0x4008240Bu64 == (1u64 << 30) | (8u64 << 16) | (0x24u64 << 8) | 11u64) by (bit_vector);
    assert((1u64 | 2u64) == 3u64) by (bit_vector);
}

/// Any request whose direction, number and size lie in the encoding's
/// field ranges packs into 32 bits, so the narrow request width loses
/// nothing.
pub proof fn lemma_ioc_fits_32(dir: u64, nr: u64, size: u64)
    by (bit_vector)
    requires
        dir <= 3,
        nr <= 0xFF,
        size <= 0x3FFF,
    ensures
        ioc(dir, nr, size) <= 0xFFFF_FFFF,
{
}

/// The request code at the narrow width used by the C library whose
/// `ioctl` takes a 32-bit int: the same 32-bit pattern, reinterpreted
/// as signed.
pub fn request_narrow(request: u64) -> (r: i32)
    requires
        request <= 0xFFFF_FFFF,
    ensures
        r as u32 == request,
{
    let wide: u32 = request as u32;
    proof {
        assert(request <= 0xFFFF_FFFF ==> ((request as u32) as i32) as u32 == request as u32)
            by (bit_vector);
    }
    #[verifier::truncate] (wide as i32)
}

/// The argument word of one ioctl invocation, at the width and
/// signedness the operation declares.  Pointer-argument operations
/// carry no value here; the caller of the raw request supplies the
/// pointer itself.
#[derive(Clone, Copy, PartialEq, Eq, Structural, Debug)]
pub enum IoctlArg {
    Unsigned(u32),
    Signed(i32),
    Wide(u64),
}

/// One fully assembled ioctl invocation on a perf event descriptor:
/// the descriptor, the request code, and the scalar argument.
#[derive(Clone, Copy, PartialEq, Eq, Structural, Debug)]
pub struct IoctlCall {
    pub fd: i32,
    pub request: u64,
    pub arg: IoctlArg,
}

impl IoctlCall {
    /// An ENABLE invocation: descriptor and flags word carried through
    /// unchanged, request code fixed.
    pub fn enable(fd: i32, arg: u32) -> (c: IoctlCall)
        ensures
            c.fd == fd,
            c.request == PERF_EVENT_IOC_ENABLE,
            c.arg == IoctlArg::Unsigned(arg),
    {
        IoctlCall { fd, request: PERF_EVENT_IOC_ENABLE, arg: IoctlArg::Unsigned(arg) }
    }

    /// A DISABLE invocation: descriptor and flags word carried through
    /// unchanged, request code fixed.
    pub fn disable(fd: i32, arg: u32) -> (c: IoctlCall)
        ensures
            c.fd == fd,
            c.request == PERF_EVENT_IOC_DISABLE,
            c.arg == IoctlArg::Unsigned(arg),
    {
        IoctlCall { fd, request: PERF_EVENT_IOC_DISABLE, arg: IoctlArg::Unsigned(arg) }
    }

    /// A REFRESH invocation: descriptor and overflow count carried
    /// through unchanged, request code fixed.
    pub fn refresh(fd: i32, arg: i32) -> (c: IoctlCall)
        ensures
            c.fd == fd,
            c.request == PERF_EVENT_IOC_REFRESH,
            c.arg == IoctlArg::Signed(arg),
    {
        IoctlCall { fd, request: PERF_EVENT_IOC_REFRESH, arg: IoctlArg::Signed(arg) }
    }

    /// A RESET invocation: descriptor and flags word carried through
    /// unchanged, request code fixed.
    pub fn reset(fd: i32, arg: u32) -> (c: IoctlCall)
        ensures
            c.fd == fd,
            c.request == PERF_EVENT_IOC_RESET,
            c.arg == IoctlArg::Unsigned(arg),
    {
        IoctlCall { fd, request: PERF_EVENT_IOC_RESET, arg: IoctlArg::Unsigned(arg) }
    }

    /// A PERIOD invocation: descriptor and new period carried through
    /// unchanged, request code fixed.
    pub fn period(fd: i32, arg: u64) -> (c: IoctlCall)
        ensures
            c.fd == fd,
            c.request == PERF_EVENT_IOC_PERIOD,
            c.arg == IoctlArg::Wide(arg),
    {
        IoctlCall { fd, request: PERF_EVENT_IOC_PERIOD, arg: IoctlArg::Wide(arg) }
    }

    /// A SET_OUTPUT invocation: descriptor and target descriptor
    /// carried through unchanged, request code fixed.
    pub fn set_output(fd: i32, arg: i32) -> (c: IoctlCall)
        ensures
            c.fd == fd,
            c.request == PERF_EVENT_IOC_SET_OUTPUT,
            c.arg == IoctlArg::Signed(arg),
    {
        IoctlCall { fd, request: PERF_EVENT_IOC_SET_OUTPUT, arg: IoctlArg::Signed(arg) }
    }

    /// A SET_BPF invocation: descriptor and BPF program descriptor
    /// carried through unchanged, request code fixed.
    pub fn set_bpf(fd: i32, arg: u32) -> (c: IoctlCall)
        ensures
            c.fd == fd,
            c.request == PERF_EVENT_IOC_SET_BPF,
            c.arg == IoctlArg::Unsigned(arg),
    {
        IoctlCall { fd, request: PERF_EVENT_IOC_SET_BPF, arg: IoctlArg::Unsigned(arg) }
    }

    /// A PAUSE_OUTPUT invocation: descriptor and pause switch carried
    /// through unchanged, request code fixed.
    pub fn pause_output(fd: i32, arg: u32) -> (c: IoctlCall)
        ensures
            c.fd == fd,
            c.request == PERF_EVENT_IOC_PAUSE_OUTPUT,
            c.arg == IoctlArg::Unsigned(arg),
    {
        IoctlCall { fd, request: PERF_EVENT_IOC_PAUSE_OUTPUT, arg: IoctlArg::Unsigned(arg) }
    }
}

} // verus!
