use posix_platform::target::Target;
use posix_platform::thread::guard::{
    align_up, attributes_available, current, finish, get_stack_start, has_guard, init,
    mapped_in_place, probe, GuardFault, GuardPlan, MapOutcome, MapRequest, Probe, StackInfo,
};
use posix_platform::Std;

const PAGE: usize = 4096;

fn attrs(addr: usize) -> StackInfo {
    StackInfo::Attributes { addr, size: 8 << 20, guard_size: Some(PAGE) }
}

fn page_at(addr: usize) -> MapRequest {
    MapRequest {
        addr,
        len: PAGE,
        readable: false,
        writable: false,
        executable: false,
        private: true,
        anonymous: true,
        fixed: true,
    }
}

#[test]
fn probe_by_platform() {
    assert_eq!(probe(Target::Linux), Probe::Attributes);
    assert_eq!(probe(Target::FreeBsd), Probe::Attributes);
    assert_eq!(probe(Target::NetBsd), Probe::Attributes);
    assert_eq!(probe(Target::MacOs), Probe::Segment);
    assert_eq!(probe(Target::OpenBsd), Probe::Segment);
    assert_eq!(probe(Target::Bitrig), Probe::Segment);
    assert_eq!(probe(Target::Solaris), Probe::Bounds);
    assert_eq!(probe(Target::LinuxMusl), Probe::Unsupported);
    assert_eq!(probe(Target::NetBsdRumprun), Probe::Unsupported);
    assert_eq!(probe(Target::Android), Probe::Unsupported);
    assert_eq!(probe(Target::DragonFly), Probe::Unsupported);
    assert_eq!(probe(Target::L4Re), Probe::Unsupported);
    assert_eq!(probe(Target::Emscripten), Probe::Unsupported);
    assert_eq!(probe(Target::Fuchsia), Probe::Unsupported);
    assert_eq!(probe(Target::Other), Probe::Unsupported);
}

#[test]
fn align_up_rounds_to_the_next_page() {
    assert_eq!(align_up(0, PAGE), Some(0));
    assert_eq!(align_up(1, PAGE), Some(PAGE));
    assert_eq!(align_up(4095, PAGE), Some(PAGE));
    assert_eq!(align_up(4096, PAGE), Some(PAGE));
    assert_eq!(align_up(4097, PAGE), Some(2 * PAGE));
    assert_eq!(align_up(0x7fff_1234, PAGE), Some(0x7fff_2000));
    assert_eq!(align_up(10, 3), Some(12));
    assert_eq!(align_up(12, 3), Some(12));
    assert_eq!(align_up(5, 1), Some(5));
}

#[test]
fn align_up_out_of_range() {
    assert_eq!(align_up(usize::MAX, PAGE), None);
    assert_eq!(align_up(usize::MAX - 4094, PAGE), None);
    assert_eq!(align_up(usize::MAX - 4095, PAGE), Some(usize::MAX - 4095));
    assert_eq!(align_up(usize::MAX - 4096, PAGE), Some(usize::MAX - 4095));
}

#[test]
fn linux_records_the_aligned_address_and_maps_nothing() {
    assert_eq!(init(Target::Linux, attrs(0x7000_0000), PAGE), Ok(GuardPlan::Record(0x7000_0000)));
    assert_eq!(init(Target::Linux, attrs(0x7000_0123), PAGE), Ok(GuardPlan::Record(0x7000_1000)));
}

#[test]
fn other_platforms_map_one_page_at_the_aligned_address() {
    assert_eq!(
        init(Target::FreeBsd, attrs(0x7000_0123), PAGE),
        Ok(GuardPlan::MapPage(page_at(0x7000_1000)))
    );
    assert_eq!(
        init(Target::NetBsd, attrs(0x7000_0000), PAGE),
        Ok(GuardPlan::MapPage(page_at(0x7000_0000)))
    );
    let seg = StackInfo::Segment { top: 0x8000_0000, size: 0x0010_0010, main_thread: false };
    assert_eq!(init(Target::MacOs, seg, PAGE), Ok(GuardPlan::MapPage(page_at(0x7ff0_0000))));
    assert_eq!(
        init(Target::Solaris, StackInfo::Base(0x1000_0001), PAGE),
        Ok(GuardPlan::MapPage(page_at(0x1000_1000)))
    );
}

#[test]
fn mapped_guard_is_page_aligned() {
    let mut start = 0x7000_0000usize;
    while start < 0x7000_0000 + 3 * PAGE {
        match init(Target::FreeBsd, attrs(start), PAGE) {
            Ok(GuardPlan::MapPage(request)) => {
                assert_eq!(request.addr % PAGE, 0);
                assert!(request.addr >= start);
                assert!(request.addr < start + PAGE);
                assert_eq!(request.len, PAGE);
                let bound = finish(Target::FreeBsd, &request, MapOutcome::At(request.addr));
                assert_eq!(bound.unwrap() % PAGE, 0);
            }
            other => panic!("{:?}", other),
        }
        start += 511;
    }
}

#[test]
fn no_guard_where_the_stack_is_unknown() {
    assert_eq!(init(Target::Linux, StackInfo::Unavailable, PAGE), Ok(GuardPlan::NoGuard));
    assert_eq!(init(Target::FreeBsd, StackInfo::Unavailable, PAGE), Ok(GuardPlan::NoGuard));
    assert_eq!(init(Target::MacOs, StackInfo::Unavailable, PAGE), Ok(GuardPlan::NoGuard));
    assert_eq!(init(Target::Other, attrs(0x7000_0000), PAGE), Ok(GuardPlan::NoGuard));
    assert_eq!(init(Target::LinuxMusl, attrs(0x7000_0000), PAGE), Ok(GuardPlan::NoGuard));
    assert_eq!(init(Target::Linux, StackInfo::Base(0x7000_0000), PAGE), Ok(GuardPlan::NoGuard));
    assert_eq!(current(Target::Other, attrs(0x7000_0000), PAGE), Ok(None));
    assert_eq!(current(Target::Linux, StackInfo::Unavailable, PAGE), Ok(None));
    assert_eq!(current(Target::Emscripten, StackInfo::Unavailable, PAGE), Ok(None));
}

#[test]
fn init_faults() {
    assert_eq!(init(Target::Linux, attrs(0x7000_0001), 0), Err(GuardFault::OutOfRange));
    assert_eq!(init(Target::Linux, attrs(usize::MAX), PAGE), Err(GuardFault::OutOfRange));
    assert_eq!(init(Target::Linux, StackInfo::Unavailable, 0), Ok(GuardPlan::NoGuard));
}

#[test]
fn init_does_not_ask_for_the_guard_size() {
    let unread = StackInfo::Attributes { addr: 0x7000_0000, size: 1 << 20, guard_size: None };
    assert_eq!(init(Target::Linux, unread, PAGE), Ok(GuardPlan::Record(0x7000_0000)));
    assert_eq!(init(Target::NetBsd, unread, PAGE), Ok(GuardPlan::MapPage(page_at(0x7000_0000))));
    assert_eq!(get_stack_start(Target::FreeBsd, unread, PAGE), Ok(Some(0x7000_0000)));
    let none = StackInfo::Attributes { addr: 0x7000_0000, size: 1 << 20, guard_size: Some(0) };
    assert_eq!(init(Target::Linux, none, PAGE), Ok(GuardPlan::Record(0x7000_0000)));
}

#[test]
fn attributes_are_there_where_the_platform_gave_them() {
    assert!(attributes_available(0));
    assert!(!attributes_available(1));
    assert!(!attributes_available(-1));
    assert!(!attributes_available(libc::ENOMEM));
}

#[test]
fn report_without_a_guard_is_told_apart() {
    let zero = StackInfo::Attributes { addr: 0x7000_0000, size: 1 << 20, guard_size: Some(0) };
    let unread = StackInfo::Attributes { addr: 0x7000_0000, size: 1 << 20, guard_size: None };
    let one = StackInfo::Attributes { addr: 0x7000_0000, size: 1 << 20, guard_size: Some(1) };
    assert!(!has_guard(Target::Linux, zero));
    assert!(!has_guard(Target::FreeBsd, zero));
    assert!(!has_guard(Target::NetBsd, zero));
    assert!(!has_guard(Target::Linux, unread));
    assert!(has_guard(Target::Linux, one));
    assert!(has_guard(Target::FreeBsd, attrs(0x7000_0000)));
    assert!(has_guard(Target::Linux, StackInfo::Unavailable));
    assert!(has_guard(Target::Other, zero));
    assert!(has_guard(Target::MacOs, zero));
    assert!(has_guard(Target::Solaris, StackInfo::Base(7)));
    let seg = StackInfo::Segment { top: 0x8000_0000, size: 0x10_0000, main_thread: true };
    assert!(has_guard(Target::OpenBsd, seg));
}

#[test]
fn bound_lies_one_page_above_the_guard_and_two_on_freebsd() {
    let request = page_at(0x7000_1000);
    assert_eq!(finish(Target::FreeBsd, &request, MapOutcome::At(0x7000_1000)), Ok(0x7000_3000));
    assert_eq!(finish(Target::NetBsd, &request, MapOutcome::At(0x7000_1000)), Ok(0x7000_2000));
    assert_eq!(finish(Target::MacOs, &request, MapOutcome::At(0x7000_1000)), Ok(0x7000_2000));
    assert_eq!(finish(Target::OpenBsd, &request, MapOutcome::At(0x7000_1000)), Ok(0x7000_2000));
    assert_eq!(finish(Target::Solaris, &request, MapOutcome::At(0x7000_1000)), Ok(0x7000_2000));
}

#[test]
fn guard_mapped_elsewhere_is_told_apart() {
    let request = page_at(0x7000_1000);
    assert!(mapped_in_place(&request, MapOutcome::At(0x7000_1000)));
    assert!(!mapped_in_place(&request, MapOutcome::Failed));
    assert!(!mapped_in_place(&request, MapOutcome::At(0x7000_2000)));
    assert!(!mapped_in_place(&request, MapOutcome::At(0x7000_0fff)));
    assert!(!mapped_in_place(&request, MapOutcome::At(0)));
    assert!(!mapped_in_place(&request, MapOutcome::At(usize::MAX)));
}

#[test]
fn bound_out_of_range_is_a_fault() {
    let top = usize::MAX - 4095;
    let request = page_at(top);
    assert_eq!(finish(Target::NetBsd, &request, MapOutcome::At(top)), Err(GuardFault::OutOfRange));
    let below = page_at(top - PAGE);
    assert_eq!(finish(Target::NetBsd, &below, MapOutcome::At(top - PAGE)), Ok(top));
    assert_eq!(
        finish(Target::FreeBsd, &below, MapOutcome::At(top - PAGE)),
        Err(GuardFault::OutOfRange)
    );
}

#[test]
fn current_from_thread_attributes() {
    let info =
        StackInfo::Attributes { addr: 0x7000_0000, size: 1 << 20, guard_size: Some(0x2000) };
    assert!(has_guard(Target::Linux, info));
    assert_eq!(current(Target::Linux, info, PAGE), Ok(Some(0x7000_2000)));
    assert_eq!(current(Target::FreeBsd, info, PAGE), Ok(Some(0x6fff_e000)));
    assert_eq!(current(Target::NetBsd, info, PAGE), Ok(Some(0x7000_0000)));
}

#[test]
fn current_from_stack_segment() {
    let thread = StackInfo::Segment { top: 0x8000_0000, size: 0x10_0000, main_thread: false };
    let main = StackInfo::Segment { top: 0x8000_0000, size: 0x10_0000, main_thread: true };
    assert_eq!(current(Target::MacOs, thread, PAGE), Ok(Some(0x7ff0_0000)));
    assert_eq!(current(Target::MacOs, main, PAGE), Ok(Some(0x7ff0_0000)));
    assert_eq!(current(Target::OpenBsd, thread, PAGE), Ok(Some(0x7ff0_0000)));
    assert_eq!(current(Target::OpenBsd, main, PAGE), Ok(Some(0x7ff0_1000)));
    assert_eq!(current(Target::Bitrig, thread, PAGE), Ok(Some(0x7ff0_0000)));
    assert_eq!(current(Target::Bitrig, main, PAGE), Ok(Some(0x7ff0_3000)));
}

#[test]
fn current_from_stack_bounds() {
    assert_eq!(current(Target::Solaris, StackInfo::Base(0x1234_5000), PAGE), Ok(Some(0x1234_5000)));
    assert_eq!(get_stack_start(Target::Solaris, StackInfo::Base(7), PAGE), Ok(Some(7)));
}

#[test]
fn current_out_of_range() {
    let low = StackInfo::Attributes { addr: 0x1000, size: 1 << 20, guard_size: Some(0x2000) };
    assert_eq!(current(Target::FreeBsd, low, PAGE), Err(GuardFault::OutOfRange));
    let high = StackInfo::Attributes { addr: usize::MAX, size: 1 << 20, guard_size: Some(1) };
    assert_eq!(current(Target::Linux, high, PAGE), Err(GuardFault::OutOfRange));
    assert_eq!(current(Target::NetBsd, high, PAGE), Ok(Some(usize::MAX)));
    let inverted = StackInfo::Segment { top: 0x1000, size: 0x2000, main_thread: false };
    assert_eq!(current(Target::MacOs, inverted, PAGE), Err(GuardFault::OutOfRange));
    assert_eq!(current(Target::OpenBsd, inverted, PAGE), Err(GuardFault::OutOfRange));
    let seg = StackInfo::Segment { top: 0x8000_0000, size: 0x10_0000, main_thread: false };
    assert_eq!(current(Target::Bitrig, seg, usize::MAX), Err(GuardFault::OutOfRange));
    assert_eq!(current(Target::OpenBsd, seg, usize::MAX), Ok(Some(0x7ff0_0000)));
}

#[test]
fn stack_start_by_platform() {
    let info =
        StackInfo::Attributes { addr: 0x7000_0123, size: 1 << 20, guard_size: Some(0x1000) };
    assert_eq!(get_stack_start(Target::Linux, info, PAGE), Ok(Some(0x7000_0123)));
    assert_eq!(get_stack_start(Target::FreeBsd, info, PAGE), Ok(Some(0x7000_0123)));
    assert_eq!(get_stack_start(Target::NetBsd, info, PAGE), Ok(Some(0x7000_0123)));
    assert_eq!(get_stack_start(Target::Linux, StackInfo::Unavailable, PAGE), Ok(None));
    assert_eq!(get_stack_start(Target::Other, info, PAGE), Ok(None));
    let main = StackInfo::Segment { top: 0x8000_0000, size: 0x10_0000, main_thread: true };
    assert_eq!(get_stack_start(Target::OpenBsd, main, PAGE), Ok(Some(0x7ff0_1000)));
}

#[test]
fn thread_guard_init_is_the_guard_plan() {
    assert_eq!(
        Std::thread_guard_init(Target::Linux, attrs(0x7000_0123), PAGE),
        init(Target::Linux, attrs(0x7000_0123), PAGE)
    );
    assert_eq!(
        Std::thread_guard_init(Target::FreeBsd, attrs(0x7000_0123), PAGE),
        Ok(GuardPlan::MapPage(page_at(0x7000_1000)))
    );
}
