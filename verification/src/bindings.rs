//! Models of the types and constants from `<linux/perf_event.h>`.
//!
//! The attribute struct here mirrors the kernel's `perf_event_attr` at
//! `PERF_EVENT_ATTR_SIZE_VER6` (120 bytes), field for field, with each
//! anonymous union flattened to one member of the union's width.  The
//! kernel's compatibility rule is that every field a caller does not
//! use must be zero, so values are built by zero-filling (`default`)
//! and then assigning only the fields of interest; the bit-field
//! accessors write single flags without disturbing anything else, and
//! the lemmas below prove exactly that.

use vstd::prelude::*;

verus! {

/// Number of the `perf_event_open` system call on x86-64, from
/// `<asm/unistd_64.h>`.
pub const NR_PERF_EVENT_OPEN: u64 = 298;

/// Event class selectors for `perf_event_attr::type_`, the
/// `perf_type_id` enumeration.
pub const PERF_TYPE_HARDWARE: u32 = 0;

pub const PERF_TYPE_SOFTWARE: u32 = 1;

pub const PERF_TYPE_TRACEPOINT: u32 = 2;

pub const PERF_TYPE_HW_CACHE: u32 = 3;

pub const PERF_TYPE_RAW: u32 = 4;

pub const PERF_TYPE_BREAKPOINT: u32 = 5;

pub const PERF_TYPE_MAX: u32 = 6;

/// Hardware event selectors for `config` under `PERF_TYPE_HARDWARE`,
/// the `perf_hw_id` enumeration.
pub const PERF_COUNT_HW_CPU_CYCLES: u64 = 0;

pub const PERF_COUNT_HW_INSTRUCTIONS: u64 = 1;

pub const PERF_COUNT_HW_CACHE_REFERENCES: u64 = 2;

pub const PERF_COUNT_HW_CACHE_MISSES: u64 = 3;

pub const PERF_COUNT_HW_BRANCH_INSTRUCTIONS: u64 = 4;

pub const PERF_COUNT_HW_BRANCH_MISSES: u64 = 5;

pub const PERF_COUNT_HW_BUS_CYCLES: u64 = 6;

pub const PERF_COUNT_HW_STALLED_CYCLES_FRONTEND: u64 = 7;

pub const PERF_COUNT_HW_STALLED_CYCLES_BACKEND: u64 = 8;

pub const PERF_COUNT_HW_REF_CPU_CYCLES: u64 = 9;

pub const PERF_COUNT_HW_MAX: u64 = 10;

/// Software event selectors for `config` under `PERF_TYPE_SOFTWARE`,
/// the `perf_sw_ids` enumeration.
pub const PERF_COUNT_SW_CPU_CLOCK: u64 = 0;

pub const PERF_COUNT_SW_TASK_CLOCK: u64 = 1;

pub const PERF_COUNT_SW_PAGE_FAULTS: u64 = 2;

pub const PERF_COUNT_SW_CONTEXT_SWITCHES: u64 = 3;

pub const PERF_COUNT_SW_CPU_MIGRATIONS: u64 = 4;

pub const PERF_COUNT_SW_PAGE_FAULTS_MIN: u64 = 5;

pub const PERF_COUNT_SW_PAGE_FAULTS_MAJ: u64 = 6;

pub const PERF_COUNT_SW_ALIGNMENT_FAULTS: u64 = 7;

pub const PERF_COUNT_SW_EMULATION_FAULTS: u64 = 8;

pub const PERF_COUNT_SW_DUMMY: u64 = 9;

pub const PERF_COUNT_SW_BPF_OUTPUT: u64 = 10;

pub const PERF_COUNT_SW_MAX: u64 = 11;

/// Bits for the `flags` argument of the open call itself.
pub const PERF_FLAG_FD_NO_GROUP: u64 = 1;

pub const PERF_FLAG_FD_OUTPUT: u64 = 2;

pub const PERF_FLAG_PID_CGROUP: u64 = 4;

pub const PERF_FLAG_FD_CLOEXEC: u64 = 8;

/// Sizes of `perf_event_attr` at each published revision of the header.
pub const PERF_ATTR_SIZE_VER0: u32 = 64;

pub const PERF_ATTR_SIZE_VER1: u32 = 72;

pub const PERF_ATTR_SIZE_VER2: u32 = 80;

pub const PERF_ATTR_SIZE_VER3: u32 = 96;

pub const PERF_ATTR_SIZE_VER4: u32 = 104;

pub const PERF_ATTR_SIZE_VER5: u32 = 112;

pub const PERF_ATTR_SIZE_VER6: u32 = 120;

/// Byte widths of the fields of [`PerfEventAttr`], in declaration
/// order: index `i` is the width of the struct's `i`-th field, from
/// `type_` at index 0 to `reserved_3` at index 20.
pub open spec fn attr_field_sizes() -> Seq<int> {
    seq![4, 4, 8, 8, 8, 8, 8, 4, 4, 8, 8, 8, 8, 4, 4, 8, 4, 2, 2, 4, 4]
}

/// Byte offset of the `i`-th field of [`PerfEventAttr`] in the packed
/// layout: the sum of the widths of the fields before it.  At index 21
/// this is the size of the whole struct.
pub open spec fn attr_offset(i: int) -> int
    decreases i,
{
    if i <= 0 {
        0
    } else {
        attr_offset(i - 1) + attr_field_sizes()[i - 1]
    }
}

/// The packed layout of the declared field widths reproduces the
/// kernel's own layout of `perf_event_attr`: every offset is the one
/// the header gives (each field falls on a multiple of its width, so
/// C struct alignment inserts no padding and agrees with the packed
/// sum), the running size at each published revision boundary equals
/// that revision's size constant, and the whole struct is
/// `PERF_ATTR_SIZE_VER6` bytes.
pub proof fn lemma_attr_layout()
    ensures
        attr_offset(0) == 0,  // type_
        attr_offset(1) == 4,  // size
        attr_offset(2) == 8,  // config
        attr_offset(3) == 16,  // sample_period_or_freq
        attr_offset(4) == 24,  // sample_type
        attr_offset(5) == 32,  // read_format
        attr_offset(6) == 40,  // flags
        attr_offset(7) == 48,  // wakeup_events_or_watermark
        attr_offset(8) == 52,  // bp_type
        attr_offset(9) == 56,  // bp_addr_or_config1
        attr_offset(10) == 64,  // bp_len_or_config2
        attr_offset(11) == 72,  // branch_sample_type
        attr_offset(12) == 80,  // sample_regs_user
        attr_offset(13) == 88,  // sample_stack_user
        attr_offset(14) == 92,  // clockid
        attr_offset(15) == 96,  // sample_regs_intr
        attr_offset(16) == 104,  // aux_watermark
        attr_offset(17) == 108,  // sample_max_stack
        attr_offset(18) == 110,  // reserved_2
        attr_offset(19) == 112,  // aux_sample_size
        attr_offset(20) == 116,  // reserved_3
        attr_offset(10) == PERF_ATTR_SIZE_VER0,
        attr_offset(11) == PERF_ATTR_SIZE_VER1,
        attr_offset(12) == PERF_ATTR_SIZE_VER2,
        attr_offset(15) == PERF_ATTR_SIZE_VER3,
        attr_offset(16) == PERF_ATTR_SIZE_VER4,
        attr_offset(19) == PERF_ATTR_SIZE_VER5,
        attr_offset(21) == PERF_ATTR_SIZE_VER6,
        forall|i: int|
            0 <= i < 21 ==> #[trigger] attr_offset(i) % attr_field_sizes()[i] == 0,
{
    assert(attr_offset(0) == 0);
    assert(attr_offset(1) == 4);
    assert(attr_offset(2) == 8);
    assert(attr_offset(3) == 16);
    assert(attr_offset(4) == 24);
    assert(attr_offset(5) == 32);
    assert(attr_offset(6) == 40);
    assert(attr_offset(7) == 48);
    assert(attr_offset(8) == 52);
    assert(attr_offset(9) == 56);
    assert(attr_offset(10) == 64);
    assert(attr_offset(11) == 72);
    assert(attr_offset(12) == 80);
    assert(attr_offset(13) == 88);
    assert(attr_offset(14) == 92);
    assert(attr_offset(15) == 96);
    assert(attr_offset(16) == 104);
    assert(attr_offset(17) == 108);
    assert(attr_offset(18) == 110);
    assert(attr_offset(19) == 112);
    assert(attr_offset(20) == 116);
    assert(attr_offset(21) == 120);
    assert forall|i: int| 0 <= i < 21 implies #[trigger] attr_offset(i) % attr_field_sizes()[i]
        == 0 by {
        if i == 0 {
            assert(attr_field_sizes()[0] == 4);
            assert(attr_offset(0) % 4 == 0);
        } else if i == 1 {
            assert(attr_field_sizes()[1] == 4);
            assert(attr_offset(1) % 4 == 0);
        } else if i == 2 {
            assert(attr_field_sizes()[2] == 8);
            assert(attr_offset(2) % 8 == 0);
        } else if i == 3 {
            assert(attr_field_sizes()[3] == 8);
            assert(attr_offset(3) % 8 == 0);
        } else if i == 4 {
            assert(attr_field_sizes()[4] == 8);
            assert(attr_offset(4) % 8 == 0);
        } else if i == 5 {
            assert(attr_field_sizes()[5] == 8);
            assert(attr_offset(5) % 8 == 0);
        } else if i == 6 {
            assert(attr_field_sizes()[6] == 8);
            assert(attr_offset(6) % 8 == 0);
        } else if i == 7 {
            assert(attr_field_sizes()[7] == 4);
            assert(attr_offset(7) % 4 == 0);
        } else if i == 8 {
            assert(attr_field_sizes()[8] == 4);
            assert(attr_offset(8) % 4 == 0);
        } else if i == 9 {
            assert(attr_field_sizes()[9] == 8);
            assert(attr_offset(9) % 8 == 0);
        } else if i == 10 {
            assert(attr_field_sizes()[10] == 8);
            assert(attr_offset(10) % 8 == 0);
        } else if i == 11 {
            assert(attr_field_sizes()[11] == 8);
            assert(attr_offset(11) % 8 == 0);
        } else if i == 12 {
            assert(attr_field_sizes()[12] == 8);
            assert(attr_offset(12) % 8 == 0);
        } else if i == 13 {
            assert(attr_field_sizes()[13] == 4);
            assert(attr_offset(13) % 4 == 0);
        } else if i == 14 {
            assert(attr_field_sizes()[14] == 4);
            assert(attr_offset(14) % 4 == 0);
        } else if i == 15 {
            assert(attr_field_sizes()[15] == 8);
            assert(attr_offset(15) % 8 == 0);
        } else if i == 16 {
            assert(attr_field_sizes()[16] == 4);
            assert(attr_offset(16) % 4 == 0);
        } else if i == 17 {
            assert(attr_field_sizes()[17] == 2);
            assert(attr_offset(17) % 2 == 0);
        } else if i == 18 {
            assert(attr_field_sizes()[18] == 2);
            assert(attr_offset(18) % 2 == 0);
        } else if i == 19 {
            assert(attr_field_sizes()[19] == 4);
            assert(attr_offset(19) % 4 == 0);
        } else if i == 20 {
            assert(attr_field_sizes()[20] == 4);
            assert(attr_offset(20) % 4 == 0);
        } else {
        }
    }
}

/// A bit-field write: `value`, masked to the field's width, replaces
/// the bits of `word` selected by `mask << shift`; every other bit of
/// `word` is kept.  `mask` is the field's width expressed as its low
/// bits (`1` for a one-bit flag, `3` for a two-bit field).
pub open spec fn with_field(word: u64, shift: u64, mask: u64, value: u64) -> u64 {
    (word & !(mask << shift)) | ((value & mask) << shift)
}

/// A bit-field read: the bits of `word` selected by `mask << shift`,
/// moved down to the low end.
pub open spec fn field_of(word: u64, shift: u64, mask: u64) -> u64 {
    (word >> shift) & mask
}

/// Writing one bit-field leaves every bit outside the field unchanged.
pub proof fn lemma_with_field_frames(word: u64, shift: u64, mask: u64, value: u64, i: u64)
    by (bit_vector)
    requires
        shift < 64,
        i < 64,
        (mask << shift) & (1u64 << i) == 0,
    ensures
        with_field(word, shift, mask, value) & (1u64 << i) == word & (1u64 << i),
{
}

/// Every bit-field of a zero flags word reads zero: a zero-filled
/// struct claims no behaviour.
pub proof fn lemma_zero_flags_read_zero(shift: u64, mask: u64)
    by (bit_vector)
    requires
        shift < 64,
    ensures
        field_of(0, shift, mask) == 0,
{
}

/// Reading a bit-field straight after writing it returns the written
/// value, masked to the field's width.
pub proof fn lemma_field_round_trip(word: u64, shift: u64, mask: u64, value: u64)
    by (bit_vector)
    requires
        shift < 64,
        (mask << shift) >> shift == mask,
    ensures
        field_of(with_field(word, shift, mask, value), shift, mask) == value & mask,
{
}

fn set_field(word: u64, shift: u64, mask: u64, value: u64) -> (r: u64)
    requires
        shift < 64,
    ensures
        r == with_field(word, shift, mask, value),
{
    (word & !(mask << shift)) | ((value & mask) << shift)
}

fn get_field(word: u64, shift: u64, mask: u64) -> (r: u64)
    requires
        shift < 64,
    ensures
        r == field_of(word, shift, mask),
{
    (word >> shift) & mask
}

/// The event description passed to the open call: which event to
/// count, how to sample it, and a word of behavioural flag bits.
/// Field order and widths follow the kernel struct at
/// `PERF_ATTR_SIZE_VER6`; each `.._or_..` field stands for an
/// anonymous union of the kernel struct, and `flags` for its packed
/// bit-field block.
#[derive(Clone, Copy, PartialEq, Eq, Structural, Debug)]
pub struct PerfEventAttr {
    pub type_: u32,
    pub size: u32,
    pub config: u64,
    pub sample_period_or_freq: u64,
    pub sample_type: u64,
    pub read_format: u64,
    pub flags: u64,
    pub wakeup_events_or_watermark: u32,
    pub bp_type: u32,
    pub bp_addr_or_config1: u64,
    pub bp_len_or_config2: u64,
    pub branch_sample_type: u64,
    pub sample_regs_user: u64,
    pub sample_stack_user: u32,
    pub clockid: i32,
    pub sample_regs_intr: u64,
    pub aux_watermark: u32,
    pub sample_max_stack: u16,
    pub reserved_2: u16,
    pub aux_sample_size: u32,
    pub reserved_3: u32,
}

impl PerfEventAttr {
    /// True when every field holds zero: the state from which the
    /// kernel's compatibility rule asks callers to start.
    pub open spec fn zero_filled(&self) -> bool {
        &&& self.type_ == 0
        &&& self.size == 0
        &&& self.config == 0
        &&& self.sample_period_or_freq == 0
        &&& self.sample_type == 0
        &&& self.read_format == 0
        &&& self.flags == 0
        &&& self.wakeup_events_or_watermark == 0
        &&& self.bp_type == 0
        &&& self.bp_addr_or_config1 == 0
        &&& self.bp_len_or_config2 == 0
        &&& self.branch_sample_type == 0
        &&& self.sample_regs_user == 0
        &&& self.sample_stack_user == 0
        &&& self.clockid == 0
        &&& self.sample_regs_intr == 0
        &&& self.aux_watermark == 0
        &&& self.sample_max_stack == 0
        &&& self.reserved_2 == 0
        &&& self.aux_sample_size == 0
        &&& self.reserved_3 == 0
    }

    /// True when every field the header declares as reserved holds
    /// zero: the two trailing reserved fields, and the flag bits above
    /// the last defined one.  The kernel rejects a struct in which any
    /// of these is set.
    pub open spec fn reserved_clear(&self) -> bool {
        &&& self.reserved_2 == 0
        &&& self.reserved_3 == 0
        &&& self.flags >> 32 == 0
    }
}

impl Default for PerfEventAttr {
    /// A zero-filled attribute struct.
    fn default() -> (r: Self)
        ensures
            r.zero_filled(),
    {
        PerfEventAttr {
            type_: 0,
            size: 0,
            config: 0,
            sample_period_or_freq: 0,
            sample_type: 0,
            read_format: 0,
            flags: 0,
            wakeup_events_or_watermark: 0,
            bp_type: 0,
            bp_addr_or_config1: 0,
            bp_len_or_config2: 0,
            branch_sample_type: 0,
            sample_regs_user: 0,
            sample_stack_user: 0,
            clockid: 0,
            sample_regs_intr: 0,
            aux_watermark: 0,
            sample_max_stack: 0,
            reserved_2: 0,
            aux_sample_size: 0,
            reserved_3: 0,
        }
    }
}

/// A zero-filled struct satisfies the reserved-field invariant.
pub proof fn lemma_zero_filled_reserved_clear(a: PerfEventAttr)
    requires
        a.zero_filled(),
    ensures
        a.reserved_clear(),
{
    assert(0u64 >> 32 == 0) by (bit_vector);
}

/// Writing any flag field that lies below bit 32 keeps the
/// reserved-field invariant: zero-default construction followed by
/// defined flag writes never touches a reserved bit.
pub proof fn lemma_flag_write_keeps_reserved(a: PerfEventAttr, b: PerfEventAttr, shift: u64, mask: u64, value: u64)
    requires
        a.reserved_clear(),
        shift < 32,
        (mask << shift) >> 32 == 0,
        (b == PerfEventAttr { flags: with_field(a.flags, shift, mask, value), ..a }),
    ensures
        b.reserved_clear(),
{
    let w = a.flags;
    assert(w >> 32 == 0 && (mask << shift) >> 32 == 0 && shift < 32 ==> with_field(
        w,
        shift,
        mask,
        value,
    ) >> 32 == 0) by (bit_vector);
}

impl PerfEventAttr {
    /// Flag bit 0: create the counter in the disabled state.
    pub fn set_disabled(&mut self, value: u64)
        ensures
            (*final(self) == PerfEventAttr {
                flags: with_field(old(self).flags, 0, 1, value),
                ..*old(self)
            }),
    {
        self.flags = set_field(self.flags, 0, 1, value);
    }

    /// Flag bit 0, read back.
    pub fn disabled(&self) -> (r: u64)
        ensures
            r == field_of(self.flags, 0, 1),
    {
        get_field(self.flags, 0, 1)
    }
}

impl PerfEventAttr {
    /// Flag bit 1: children inherit the counter.
    pub fn set_inherit(&mut self, value: u64)
        ensures
            (*final(self) == PerfEventAttr {
                flags: with_field(old(self).flags, 1, 1, value),
                ..*old(self)
            }),
    {
        self.flags = set_field(self.flags, 1, 1, value);
    }

    /// Flag bit 1, read back.
    pub fn inherit(&self) -> (r: u64)
        ensures
            r == field_of(self.flags, 1, 1),
    {
        get_field(self.flags, 1, 1)
    }

    /// Flag bit 2: the counter must always be on the PMU.
    pub fn set_pinned(&mut self, value: u64)
        ensures
            (*final(self) == PerfEventAttr {
                flags: with_field(old(self).flags, 2, 1, value),
                ..*old(self)
            }),
    {
        self.flags = set_field(self.flags, 2, 1, value);
    }

    /// Flag bit 2, read back.
    pub fn pinned(&self) -> (r: u64)
        ensures
            r == field_of(self.flags, 2, 1),
    {
        get_field(self.flags, 2, 1)
    }

    /// Flag bit 3: only this group may be on the PMU.
    pub fn set_exclusive(&mut self, value: u64)
        ensures
            (*final(self) == PerfEventAttr {
                flags: with_field(old(self).flags, 3, 1, value),
                ..*old(self)
            }),
    {
        self.flags = set_field(self.flags, 3, 1, value);
    }

    /// Flag bit 3, read back.
    pub fn exclusive(&self) -> (r: u64)
        ensures
            r == field_of(self.flags, 3, 1),
    {
        get_field(self.flags, 3, 1)
    }

    /// Flag bit 4: do not count user-space events.
    pub fn set_exclude_user(&mut self, value: u64)
        ensures
            (*final(self) == PerfEventAttr {
                flags: with_field(old(self).flags, 4, 1, value),
                ..*old(self)
            }),
    {
        self.flags = set_field(self.flags, 4, 1, value);
    }

    /// Flag bit 4, read back.
    pub fn exclude_user(&self) -> (r: u64)
        ensures
            r == field_of(self.flags, 4, 1),
    {
        get_field(self.flags, 4, 1)
    }

    /// Flag bit 5: do not count kernel events.
    pub fn set_exclude_kernel(&mut self, value: u64)
        ensures
            (*final(self) == PerfEventAttr {
                flags: with_field(old(self).flags, 5, 1, value),
                ..*old(self)
            }),
    {
        self.flags = set_field(self.flags, 5, 1, value);
    }

    /// Flag bit 5, read back.
    pub fn exclude_kernel(&self) -> (r: u64)
        ensures
            r == field_of(self.flags, 5, 1),
    {
        get_field(self.flags, 5, 1)
    }

    /// Flag bit 6: do not count hypervisor events.
    pub fn set_exclude_hv(&mut self, value: u64)
        ensures
            (*final(self) == PerfEventAttr {
                flags: with_field(old(self).flags, 6, 1, value),
                ..*old(self)
            }),
    {
        self.flags = set_field(self.flags, 6, 1, value);
    }

    /// Flag bit 6, read back.
    pub fn exclude_hv(&self) -> (r: u64)
        ensures
            r == field_of(self.flags, 6, 1),
    {
        get_field(self.flags, 6, 1)
    }

    /// Flag bit 7: do not count while idle.
    pub fn set_exclude_idle(&mut self, value: u64)
        ensures
            (*final(self) == PerfEventAttr {
                flags: with_field(old(self).flags, 7, 1, value),
                ..*old(self)
            }),
    {
        self.flags = set_field(self.flags, 7, 1, value);
    }

    /// Flag bit 7, read back.
    pub fn exclude_idle(&self) -> (r: u64)
        ensures
            r == field_of(self.flags, 7, 1),
    {
        get_field(self.flags, 7, 1)
    }

    /// Flag bit 8: record executable mmap events.
    pub fn set_mmap(&mut self, value: u64)
        ensures
            (*final(self) == PerfEventAttr {
                flags: with_field(old(self).flags, 8, 1, value),
                ..*old(self)
            }),
    {
        self.flags = set_field(self.flags, 8, 1, value);
    }

    /// Flag bit 8, read back.
    pub fn mmap(&self) -> (r: u64)
        ensures
            r == field_of(self.flags, 8, 1),
    {
        get_field(self.flags, 8, 1)
    }

    /// Flag bit 9: record process-name changes.
    pub fn set_comm(&mut self, value: u64)
        ensures
            (*final(self) == PerfEventAttr {
                flags: with_field(old(self).flags, 9, 1, value),
                ..*old(self)
            }),
    {
        self.flags = set_field(self.flags, 9, 1, value);
    }

    /// Flag bit 9, read back.
    pub fn comm(&self) -> (r: u64)
        ensures
            r == field_of(self.flags, 9, 1),
    {
        get_field(self.flags, 9, 1)
    }

    /// Flag bit 10: read the sample field as a frequency.
    pub fn set_freq(&mut self, value: u64)
        ensures
            (*final(self) == PerfEventAttr {
                flags: with_field(old(self).flags, 10, 1, value),
                ..*old(self)
            }),
    {
        self.flags = set_field(self.flags, 10, 1, value);
    }

    /// Flag bit 10, read back.
    pub fn freq(&self) -> (r: u64)
        ensures
            r == field_of(self.flags, 10, 1),
    {
        get_field(self.flags, 10, 1)
    }

    /// Flag bit 11: per-task counts for inherited counters.
    pub fn set_inherit_stat(&mut self, value: u64)
        ensures
            (*final(self) == PerfEventAttr {
                flags: with_field(old(self).flags, 11, 1, value),
                ..*old(self)
            }),
    {
        self.flags = set_field(self.flags, 11, 1, value);
    }

    /// Flag bit 11, read back.
    pub fn inherit_stat(&self) -> (r: u64)
        ensures
            r == field_of(self.flags, 11, 1),
    {
        get_field(self.flags, 11, 1)
    }

    /// Flag bit 12: enable the counter on exec.
    pub fn set_enable_on_exec(&mut self, value: u64)
        ensures
            (*final(self) == PerfEventAttr {
                flags: with_field(old(self).flags, 12, 1, value),
                ..*old(self)
            }),
    {
        self.flags = set_field(self.flags, 12, 1, value);
    }

    /// Flag bit 12, read back.
    pub fn enable_on_exec(&self) -> (r: u64)
        ensures
            r == field_of(self.flags, 12, 1),
    {
        get_field(self.flags, 12, 1)
    }

    /// Flag bit 13: record fork and exit events.
    pub fn set_task(&mut self, value: u64)
        ensures
            (*final(self) == PerfEventAttr {
                flags: with_field(old(self).flags, 13, 1, value),
                ..*old(self)
            }),
    {
        self.flags = set_field(self.flags, 13, 1, value);
    }

    /// Flag bit 13, read back.
    pub fn task(&self) -> (r: u64)
        ensures
            r == field_of(self.flags, 13, 1),
    {
        get_field(self.flags, 13, 1)
    }

    /// Flag bit 14: read the wakeup field as a byte watermark.
    pub fn set_watermark(&mut self, value: u64)
        ensures
            (*final(self) == PerfEventAttr {
                flags: with_field(old(self).flags, 14, 1, value),
                ..*old(self)
            }),
    {
        self.flags = set_field(self.flags, 14, 1, value);
    }

    /// Flag bit 14, read back.
    pub fn watermark(&self) -> (r: u64)
        ensures
            r == field_of(self.flags, 14, 1),
    {
        get_field(self.flags, 14, 1)
    }

    /// Flag bit 15 and bit 16: skid constraint on the sampled instruction pointer, two bits wide.
    pub fn set_precise_ip(&mut self, value: u64)
        ensures
            (*final(self) == PerfEventAttr {
                flags: with_field(old(self).flags, 15, 3, value),
                ..*old(self)
            }),
    {
        self.flags = set_field(self.flags, 15, 3, value);
    }

    /// Flag bit 15 and bit 16, read back.
    pub fn precise_ip(&self) -> (r: u64)
        ensures
            r == field_of(self.flags, 15, 3),
    {
        get_field(self.flags, 15, 3)
    }

    /// Flag bit 17: record non-executable mmap events.
    pub fn set_mmap_data(&mut self, value: u64)
        ensures
            (*final(self) == PerfEventAttr {
                flags: with_field(old(self).flags, 17, 1, value),
                ..*old(self)
            }),
    {
        self.flags = set_field(self.flags, 17, 1, value);
    }

    /// Flag bit 17, read back.
    pub fn mmap_data(&self) -> (r: u64)
        ensures
            r == field_of(self.flags, 17, 1),
    {
        get_field(self.flags, 17, 1)
    }

    /// Flag bit 18: add sample identifiers to every record.
    pub fn set_sample_id_all(&mut self, value: u64)
        ensures
            (*final(self) == PerfEventAttr {
                flags: with_field(old(self).flags, 18, 1, value),
                ..*old(self)
            }),
    {
        self.flags = set_field(self.flags, 18, 1, value);
    }

    /// Flag bit 18, read back.
    pub fn sample_id_all(&self) -> (r: u64)
        ensures
            r == field_of(self.flags, 18, 1),
    {
        get_field(self.flags, 18, 1)
    }

    /// Flag bit 19: do not count on the host side.
    pub fn set_exclude_host(&mut self, value: u64)
        ensures
            (*final(self) == PerfEventAttr {
                flags: with_field(old(self).flags, 19, 1, value),
                ..*old(self)
            }),
    {
        self.flags = set_field(self.flags, 19, 1, value);
    }

    /// Flag bit 19, read back.
    pub fn exclude_host(&self) -> (r: u64)
        ensures
            r == field_of(self.flags, 19, 1),
    {
        get_field(self.flags, 19, 1)
    }

    /// Flag bit 20: do not count on the guest side.
    pub fn set_exclude_guest(&mut self, value: u64)
        ensures
            (*final(self) == PerfEventAttr {
                flags: with_field(old(self).flags, 20, 1, value),
                ..*old(self)
            }),
    {
        self.flags = set_field(self.flags, 20, 1, value);
    }

    /// Flag bit 20, read back.
    pub fn exclude_guest(&self) -> (r: u64)
        ensures
            r == field_of(self.flags, 20, 1),
    {
        get_field(self.flags, 20, 1)
    }

    /// Flag bit 21: omit kernel frames from call chains.
    pub fn set_exclude_callchain_kernel(&mut self, value: u64)
        ensures
            (*final(self) == PerfEventAttr {
                flags: with_field(old(self).flags, 21, 1, value),
                ..*old(self)
            }),
    {
        self.flags = set_field(self.flags, 21, 1, value);
    }

    /// Flag bit 21, read back.
    pub fn exclude_callchain_kernel(&self) -> (r: u64)
        ensures
            r == field_of(self.flags, 21, 1),
    {
        get_field(self.flags, 21, 1)
    }

    /// Flag bit 22: omit user frames from call chains.
    pub fn set_exclude_callchain_user(&mut self, value: u64)
        ensures
            (*final(self) == PerfEventAttr {
                flags: with_field(old(self).flags, 22, 1, value),
                ..*old(self)
            }),
    {
        self.flags = set_field(self.flags, 22, 1, value);
    }

    /// Flag bit 22, read back.
    pub fn exclude_callchain_user(&self) -> (r: u64)
        ensures
            r == field_of(self.flags, 22, 1),
    {
        get_field(self.flags, 22, 1)
    }

    /// Flag bit 23: extended mmap records that carry inode data.
    pub fn set_mmap2(&mut self, value: u64)
        ensures
            (*final(self) == PerfEventAttr {
                flags: with_field(old(self).flags, 23, 1, value),
                ..*old(self)
            }),
    {
        self.flags = set_field(self.flags, 23, 1, value);
    }

    /// Flag bit 23, read back.
    pub fn mmap2(&self) -> (r: u64)
        ensures
            r == field_of(self.flags, 23, 1),
    {
        get_field(self.flags, 23, 1)
    }

    /// Flag bit 24: mark process-name records caused by exec.
    pub fn set_comm_exec(&mut self, value: u64)
        ensures
            (*final(self) == PerfEventAttr {
                flags: with_field(old(self).flags, 24, 1, value),
                ..*old(self)
            }),
    {
        self.flags = set_field(self.flags, 24, 1, value);
    }

    /// Flag bit 24, read back.
    pub fn comm_exec(&self) -> (r: u64)
        ensures
            r == field_of(self.flags, 24, 1),
    {
        get_field(self.flags, 24, 1)
    }

    /// Flag bit 25: take the event clock from the clockid field.
    pub fn set_use_clockid(&mut self, value: u64)
        ensures
            (*final(self) == PerfEventAttr {
                flags: with_field(old(self).flags, 25, 1, value),
                ..*old(self)
            }),
    {
        self.flags = set_field(self.flags, 25, 1, value);
    }

    /// Flag bit 25, read back.
    pub fn use_clockid(&self) -> (r: u64)
        ensures
            r == field_of(self.flags, 25, 1),
    {
        get_field(self.flags, 25, 1)
    }

    /// Flag bit 26: record context-switch events.
    pub fn set_context_switch(&mut self, value: u64)
        ensures
            (*final(self) == PerfEventAttr {
                flags: with_field(old(self).flags, 26, 1, value),
                ..*old(self)
            }),
    {
        self.flags = set_field(self.flags, 26, 1, value);
    }

    /// Flag bit 26, read back.
    pub fn context_switch(&self) -> (r: u64)
        ensures
            r == field_of(self.flags, 26, 1),
    {
        get_field(self.flags, 26, 1)
    }

    /// Flag bit 27: fill the ring buffer from its end backwards.
    pub fn set_write_backward(&mut self, value: u64)
        ensures
            (*final(self) == PerfEventAttr {
                flags: with_field(old(self).flags, 27, 1, value),
                ..*old(self)
            }),
    {
        self.flags = set_field(self.flags, 27, 1, value);
    }

    /// Flag bit 27, read back.
    pub fn write_backward(&self) -> (r: u64)
        ensures
            r == field_of(self.flags, 27, 1),
    {
        get_field(self.flags, 27, 1)
    }

    /// Flag bit 28: record namespace events.
    pub fn set_namespaces(&mut self, value: u64)
        ensures
            (*final(self) == PerfEventAttr {
                flags: with_field(old(self).flags, 28, 1, value),
                ..*old(self)
            }),
    {
        self.flags = set_field(self.flags, 28, 1, value);
    }

    /// Flag bit 28, read back.
    pub fn namespaces(&self) -> (r: u64)
        ensures
            r == field_of(self.flags, 28, 1),
    {
        get_field(self.flags, 28, 1)
    }

    /// Flag bit 29: record kernel symbol events.
    pub fn set_ksymbol(&mut self, value: u64)
        ensures
            (*final(self) == PerfEventAttr {
                flags: with_field(old(self).flags, 29, 1, value),
                ..*old(self)
            }),
    {
        self.flags = set_field(self.flags, 29, 1, value);
    }

    /// Flag bit 29, read back.
    pub fn ksymbol(&self) -> (r: u64)
        ensures
            r == field_of(self.flags, 29, 1),
    {
        get_field(self.flags, 29, 1)
    }

    /// Flag bit 30: record BPF program events.
    pub fn set_bpf_event(&mut self, value: u64)
        ensures
            (*final(self) == PerfEventAttr {
                flags: with_field(old(self).flags, 30, 1, value),
                ..*old(self)
            }),
    {
        self.flags = set_field(self.flags, 30, 1, value);
    }

    /// Flag bit 30, read back.
    pub fn bpf_event(&self) -> (r: u64)
        ensures
            r == field_of(self.flags, 30, 1),
    {
        get_field(self.flags, 30, 1)
    }

    /// Flag bit 31: route auxiliary output to this event.
    pub fn set_aux_output(&mut self, value: u64)
        ensures
            (*final(self) == PerfEventAttr {
                flags: with_field(old(self).flags, 31, 1, value),
                ..*old(self)
            }),
    {
        self.flags = set_field(self.flags, 31, 1, value);
    }

    /// Flag bit 31, read back.
    pub fn aux_output(&self) -> (r: u64)
        ensures
            r == field_of(self.flags, 31, 1),
    {
        get_field(self.flags, 31, 1)
    }
}

/// Result buffer of the QUERY_BPF ioctl: the caller declares in
/// `ids_len` how many identifiers fit, and the kernel writes the count
/// of attached programs to `prog_cnt` and their identifiers to `ids`.
#[derive(Clone, Debug)]
pub struct PerfEventQueryBpf {
    pub ids_len: u32,
    pub prog_cnt: u32,
    pub ids: Vec<u32>,
}

impl PerfEventQueryBpf {
    /// A query buffer with room for `n` program identifiers: capacity
    /// declared, every result field and slot zeroed.
    pub fn with_capacity(n: u32) -> (q: PerfEventQueryBpf)
        ensures
            q.ids_len == n,
            q.prog_cnt == 0,
            q.ids@.len() == n,
            forall|i: int| 0 <= i < n ==> q.ids@[i] == 0u32,
    {
        let mut ids: Vec<u32> = Vec::new();
        let mut k: u32 = 0;
        while k < n
            invariant
                k <= n,
                ids@.len() == k,
                forall|i: int| 0 <= i < k ==> ids@[i] == 0u32,
            decreases n - k,
        {
            ids.push(0);
            k = k + 1;
        }
        PerfEventQueryBpf { ids_len: n, prog_cnt: 0, ids }
    }
}

} // verus!
