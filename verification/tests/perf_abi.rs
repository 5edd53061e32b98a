use perf_event_open_sys::bindings::PerfEventAttr;
use perf_event_open_sys::bindings::PerfEventQueryBpf;
use perf_event_open_sys::bindings;
use perf_event_open_sys::ioctls::IoctlArg;
use perf_event_open_sys::ioctls::IoctlCall;
use perf_event_open_sys::ioctls;
use perf_event_open_sys::OpenRequest;

#[test]
fn default_attr_is_zero_filled() {
    let a = PerfEventAttr::default();
    assert_eq!(a.type_, 0);
    assert_eq!(a.size, 0);
    assert_eq!(a.config, 0);
    assert_eq!(a.sample_period_or_freq, 0);
    assert_eq!(a.sample_type, 0);
    assert_eq!(a.read_format, 0);
    assert_eq!(a.flags, 0);
    assert_eq!(a.wakeup_events_or_watermark, 0);
    assert_eq!(a.bp_type, 0);
    assert_eq!(a.bp_addr_or_config1, 0);
    assert_eq!(a.bp_len_or_config2, 0);
    assert_eq!(a.branch_sample_type, 0);
    assert_eq!(a.sample_regs_user, 0);
    assert_eq!(a.sample_stack_user, 0);
    assert_eq!(a.clockid, 0);
    assert_eq!(a.sample_regs_intr, 0);
    assert_eq!(a.aux_watermark, 0);
    assert_eq!(a.sample_max_stack, 0);
    assert_eq!(a.reserved_2, 0);
    assert_eq!(a.aux_sample_size, 0);
    assert_eq!(a.reserved_3, 0);
}

#[test]
fn set_disabled_sets_bit_zero() {
    let mut a = PerfEventAttr::default();
    a.set_disabled(1);
    assert_eq!(a.flags, 1);
    assert_eq!(a.disabled(), 1);
}

#[test]
fn zero_default_then_override_builds_expected_flags() {
    // The documented construction idiom: zero-fill, then set only the
    // fields of interest.
    let mut a = PerfEventAttr::default();
    a.size = bindings::PERF_ATTR_SIZE_VER6;
    a.type_ = bindings::PERF_TYPE_HARDWARE;
    a.config = bindings::PERF_COUNT_HW_INSTRUCTIONS;
    a.set_disabled(1);
    a.set_exclude_kernel(1);
    a.set_exclude_hv(1);
    // Bits 0, 5 and 6.
    assert_eq!(a.flags, 0x61);
    assert_eq!(a.size, 120);
    assert_eq!(a.type_, 0);
    assert_eq!(a.config, 1);
    // Nothing else was touched.
    assert_eq!(a.sample_period_or_freq, 0);
    assert_eq!(a.reserved_2, 0);
    assert_eq!(a.reserved_3, 0);
}

#[test]
fn setter_masks_value_to_field_width() {
    let mut a = PerfEventAttr::default();
    a.set_disabled(0xFF);
    assert_eq!(a.flags, 1);
    let mut b = PerfEventAttr::default();
    b.set_precise_ip(5);
    // A two-bit field keeps only the low two bits: 5 & 3 == 1.
    assert_eq!(b.flags, 1u64 << 15);
    assert_eq!(b.precise_ip(), 1);
}

#[test]
fn precise_ip_round_trip() {
    let mut a = PerfEventAttr::default();
    a.set_precise_ip(2);
    assert_eq!(a.precise_ip(), 2);
    assert_eq!(a.flags, 2u64 << 15);
}

#[test]
fn set_then_clear_restores_zero() {
    let mut a = PerfEventAttr::default();
    a.set_disabled(1);
    a.set_disabled(0);
    assert_eq!(a.flags, 0);
    assert_eq!(a.disabled(), 0);
}

#[test]
fn each_flag_sets_its_own_bit() {
    let cases: Vec<(fn(&mut PerfEventAttr), u32)> = vec![
        (|a| a.set_disabled(1), 0),
        (|a| a.set_inherit(1), 1),
        (|a| a.set_pinned(1), 2),
        (|a| a.set_exclusive(1), 3),
        (|a| a.set_exclude_user(1), 4),
        (|a| a.set_exclude_kernel(1), 5),
        (|a| a.set_exclude_hv(1), 6),
        (|a| a.set_exclude_idle(1), 7),
        (|a| a.set_mmap(1), 8),
        (|a| a.set_comm(1), 9),
        (|a| a.set_freq(1), 10),
        (|a| a.set_inherit_stat(1), 11),
        (|a| a.set_enable_on_exec(1), 12),
        (|a| a.set_task(1), 13),
        (|a| a.set_watermark(1), 14),
        (|a| a.set_mmap_data(1), 17),
        (|a| a.set_sample_id_all(1), 18),
        (|a| a.set_exclude_host(1), 19),
        (|a| a.set_exclude_guest(1), 20),
        (|a| a.set_exclude_callchain_kernel(1), 21),
        (|a| a.set_exclude_callchain_user(1), 22),
        (|a| a.set_mmap2(1), 23),
        (|a| a.set_comm_exec(1), 24),
        (|a| a.set_use_clockid(1), 25),
        (|a| a.set_context_switch(1), 26),
        (|a| a.set_write_backward(1), 27),
        (|a| a.set_namespaces(1), 28),
        (|a| a.set_ksymbol(1), 29),
        (|a| a.set_bpf_event(1), 30),
        (|a| a.set_aux_output(1), 31),
    ];
    for (set, bit) in cases {
        let mut a = PerfEventAttr::default();
        set(&mut a);
        assert_eq!(a.flags, 1u64 << bit, "wrong bit for flag at bit {}", bit);
    }
}

#[test]
fn getters_read_distinct_bits() {
    let mut a = PerfEventAttr::default();
    a.set_exclude_kernel(1);
    a.set_use_clockid(1);
    assert_eq!(a.exclude_kernel(), 1);
    assert_eq!(a.use_clockid(), 1);
    assert_eq!(a.exclude_user(), 0);
    assert_eq!(a.disabled(), 0);
    assert_eq!(a.aux_output(), 0);
}

#[test]
fn request_codes_exact() {
    assert_eq!(ioctls::PERF_EVENT_IOC_ENABLE, 0x2400);
    assert_eq!(ioctls::PERF_EVENT_IOC_DISABLE, 0x2401);
    assert_eq!(ioctls::PERF_EVENT_IOC_REFRESH, 0x2402);
    assert_eq!(ioctls::PERF_EVENT_IOC_RESET, 0x2403);
    assert_eq!(ioctls::PERF_EVENT_IOC_PERIOD, 0x40082404);
    assert_eq!(ioctls::PERF_EVENT_IOC_SET_OUTPUT, 0x2405);
    assert_eq!(ioctls::PERF_EVENT_IOC_SET_FILTER, 0x40082406);
    assert_eq!(ioctls::PERF_EVENT_IOC_ID, 0x80082407);
    assert_eq!(ioctls::PERF_EVENT_IOC_SET_BPF, 0x40042408);
    assert_eq!(ioctls::PERF_EVENT_IOC_PAUSE_OUTPUT, 0x40042409);
    assert_eq!(ioctls::PERF_EVENT_IOC_QUERY_BPF, 0xC008240A);
    assert_eq!(ioctls::PERF_EVENT_IOC_MODIFY_ATTRIBUTES, 0x4008240B);
}

#[test]
fn narrow_requests_keep_the_bit_pattern() {
    let codes = [
        ioctls::PERF_EVENT_IOC_ENABLE,
        ioctls::PERF_EVENT_IOC_DISABLE,
        ioctls::PERF_EVENT_IOC_REFRESH,
        ioctls::PERF_EVENT_IOC_RESET,
        ioctls::PERF_EVENT_IOC_PERIOD,
        ioctls::PERF_EVENT_IOC_SET_OUTPUT,
        ioctls::PERF_EVENT_IOC_SET_FILTER,
        ioctls::PERF_EVENT_IOC_ID,
        ioctls::PERF_EVENT_IOC_SET_BPF,
        ioctls::PERF_EVENT_IOC_PAUSE_OUTPUT,
        ioctls::PERF_EVENT_IOC_QUERY_BPF,
        ioctls::PERF_EVENT_IOC_MODIFY_ATTRIBUTES,
    ];
    for code in codes {
        let narrow = ioctls::request_narrow(code);
        assert_eq!(narrow as u32, code as u32);
    }
}

#[test]
fn narrow_requests_exact_values() {
    assert_eq!(ioctls::request_narrow(ioctls::PERF_EVENT_IOC_ENABLE), 0x2400);
    assert_eq!(ioctls::request_narrow(ioctls::PERF_EVENT_IOC_PERIOD), 0x40082404);
    // The two codes whose top bit is set come out negative at the
    // narrow width.
    assert_eq!(ioctls::request_narrow(ioctls::PERF_EVENT_IOC_ID), -2146950137);
    assert_eq!(ioctls::request_narrow(ioctls::PERF_EVENT_IOC_QUERY_BPF), -1073208310);
    assert_eq!(ioctls::request_narrow(ioctls::PERF_EVENT_IOC_MODIFY_ATTRIBUTES), 1074275339);
}

#[test]
fn ioctl_call_constructors_forward_arguments() {
    let c = IoctlCall::enable(5, 7);
    assert_eq!(c.fd, 5);
    assert_eq!(c.request, ioctls::PERF_EVENT_IOC_ENABLE);
    assert_eq!(c.arg, IoctlArg::Unsigned(7));

    let c = IoctlCall::disable(5, 0);
    assert_eq!(c.request, ioctls::PERF_EVENT_IOC_DISABLE);
    assert_eq!(c.arg, IoctlArg::Unsigned(0));

    let c = IoctlCall::refresh(9, -3);
    assert_eq!(c.fd, 9);
    assert_eq!(c.request, ioctls::PERF_EVENT_IOC_REFRESH);
    assert_eq!(c.arg, IoctlArg::Signed(-3));

    let c = IoctlCall::reset(2, 1);
    assert_eq!(c.request, ioctls::PERF_EVENT_IOC_RESET);
    assert_eq!(c.arg, IoctlArg::Unsigned(1));

    let c = IoctlCall::period(3, 1u64 << 33);
    assert_eq!(c.fd, 3);
    assert_eq!(c.request, ioctls::PERF_EVENT_IOC_PERIOD);
    assert_eq!(c.arg, IoctlArg::Wide(1u64 << 33));

    let c = IoctlCall::set_output(4, -1);
    assert_eq!(c.request, ioctls::PERF_EVENT_IOC_SET_OUTPUT);
    assert_eq!(c.arg, IoctlArg::Signed(-1));

    let c = IoctlCall::set_bpf(6, 42);
    assert_eq!(c.request, ioctls::PERF_EVENT_IOC_SET_BPF);
    assert_eq!(c.arg, IoctlArg::Unsigned(42));

    let c = IoctlCall::pause_output(7, 1);
    assert_eq!(c.request, ioctls::PERF_EVENT_IOC_PAUSE_OUTPUT);
    assert_eq!(c.arg, IoctlArg::Unsigned(1));
}

#[test]
fn open_request_forwards_arguments() {
    let r = OpenRequest::new(0, -1, -1, bindings::PERF_FLAG_FD_CLOEXEC);
    assert_eq!(r.pid, 0);
    assert_eq!(r.cpu, -1);
    assert_eq!(r.group_fd, -1);
    assert_eq!(r.flags, 8);
}

#[test]
fn attr_version_sizes_exact() {
    assert_eq!(bindings::PERF_ATTR_SIZE_VER0, 64);
    assert_eq!(bindings::PERF_ATTR_SIZE_VER1, 72);
    assert_eq!(bindings::PERF_ATTR_SIZE_VER2, 80);
    assert_eq!(bindings::PERF_ATTR_SIZE_VER3, 96);
    assert_eq!(bindings::PERF_ATTR_SIZE_VER4, 104);
    assert_eq!(bindings::PERF_ATTR_SIZE_VER5, 112);
    assert_eq!(bindings::PERF_ATTR_SIZE_VER6, 120);
}

#[test]
fn event_selector_constants_exact() {
    assert_eq!(bindings::NR_PERF_EVENT_OPEN, 298);
    assert_eq!(bindings::PERF_TYPE_HARDWARE, 0);
    assert_eq!(bindings::PERF_TYPE_SOFTWARE, 1);
    assert_eq!(bindings::PERF_TYPE_RAW, 4);
    assert_eq!(bindings::PERF_COUNT_HW_CPU_CYCLES, 0);
    assert_eq!(bindings::PERF_COUNT_HW_INSTRUCTIONS, 1);
    assert_eq!(bindings::PERF_COUNT_HW_REF_CPU_CYCLES, 9);
    assert_eq!(bindings::PERF_COUNT_SW_CPU_CLOCK, 0);
    assert_eq!(bindings::PERF_COUNT_SW_DUMMY, 9);
    assert_eq!(bindings::PERF_FLAG_FD_NO_GROUP, 1);
    assert_eq!(bindings::PERF_FLAG_FD_OUTPUT, 2);
    assert_eq!(bindings::PERF_FLAG_PID_CGROUP, 4);
    assert_eq!(bindings::PERF_FLAG_FD_CLOEXEC, 8);
}

#[test]
fn query_buffer_is_zeroed() {
    let q = PerfEventQueryBpf::with_capacity(4);
    assert_eq!(q.ids_len, 4);
    assert_eq!(q.prog_cnt, 0);
    assert_eq!(q.ids, vec![0u32, 0, 0, 0]);
}

#[test]
fn query_buffer_empty_capacity() {
    let q = PerfEventQueryBpf::with_capacity(0);
    assert_eq!(q.ids_len, 0);
    assert_eq!(q.prog_cnt, 0);
    assert!(q.ids.is_empty());
}

#[test]
fn classify_open_success_is_the_descriptor() {
    assert_eq!(
        perf_event_open_sys::classify_open(5, 120),
        perf_event_open_sys::OpenResult::Fd(5)
    );
    assert_eq!(
        perf_event_open_sys::classify_open(0, 120),
        perf_event_open_sys::OpenResult::Fd(0)
    );
}

#[test]
fn classify_open_oversized_struct_reports_kernel_size() {
    // A negated E2BIG together with the size the kernel wrote back is
    // the kernel-too-old condition.
    assert_eq!(perf_event_open_sys::E2BIG, 7);
    assert_eq!(
        perf_event_open_sys::classify_open(-7, 96),
        perf_event_open_sys::OpenResult::TooOld(96)
    );
}

#[test]
fn classify_open_other_errors_pass_through_negated() {
    // ENOENT, negated, as a nonexistent event type would produce.
    assert_eq!(
        perf_event_open_sys::classify_open(-2, 120),
        perf_event_open_sys::OpenResult::Failed(-2)
    );
    assert_eq!(
        perf_event_open_sys::classify_open(i32::MIN, 120),
        perf_event_open_sys::OpenResult::Failed(i32::MIN)
    );
}

#[test]
fn ioctl_failure_is_exactly_minus_one() {
    assert!(perf_event_open_sys::ioctl_failed(-1));
    assert!(!perf_event_open_sys::ioctl_failed(0));
    assert!(!perf_event_open_sys::ioctl_failed(3));
    assert!(!perf_event_open_sys::ioctl_failed(-2));
}
