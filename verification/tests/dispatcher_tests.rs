use ipfd::codec::DebugContext;
use ipfd::dispatcher::callback_from_raw;
use ipfd::dispatcher::classify_region;
use ipfd::dispatcher::resume_acknowledge;
use ipfd::dispatcher::route_trap;
use ipfd::dispatcher::should_acknowledge;
use ipfd::dispatcher::TrapRoute;
use ipfd::dispatcher::CONTINUE_EXECUTION;
use ipfd::dispatcher::CONTINUE_SEARCH;
use ipfd::dispatcher::EXCEPTION_BREAKPOINT_CODE;
use ipfd::dispatcher::EXCEPTION_SINGLE_STEP_CODE;
use ipfd::dispatcher::MEM_IMAGE_TYPE;
use ipfd::enumerate::enumeration_pass;
use ipfd::enumerate::VisitedThreads;

#[test]
fn foreign_exception_codes_are_declined() {
    // an access violation, for instance, goes to the next handler
    assert_eq!(route_trap(0xC000_0005, Some(false), true), TrapRoute::Decline);
    assert_eq!(route_trap(0, None, false), TrapRoute::Decline);
}

#[test]
fn dynamic_code_trap_always_resumes() {
    // a trap from dynamically generated (non-image) memory is resumed
    // transparently whether or not a callback is registered, for both codes;
    // an unqueryable region counts as dynamic.
    for code in [EXCEPTION_BREAKPOINT_CODE, EXCEPTION_SINGLE_STEP_CODE] {
        for registered in [false, true] {
            assert_eq!(route_trap(code, Some(true), registered), TrapRoute::Resume);
            assert_eq!(route_trap(code, None, registered), TrapRoute::Resume);
        }
    }
}

#[test]
fn image_code_trap_forwards_only_with_callback() {
    assert_eq!(
        route_trap(EXCEPTION_BREAKPOINT_CODE, Some(false), true),
        TrapRoute::Forward
    );
    assert_eq!(
        route_trap(EXCEPTION_BREAKPOINT_CODE, Some(false), false),
        TrapRoute::Resume
    );
    assert_eq!(
        route_trap(EXCEPTION_SINGLE_STEP_CODE, Some(false), true),
        TrapRoute::Forward
    );
}

#[test]
fn region_classification() {
    assert_eq!(classify_region(false, MEM_IMAGE_TYPE), None);
    assert_eq!(classify_region(true, MEM_IMAGE_TYPE), Some(false));
    assert_eq!(classify_region(true, 0x0002_0000), Some(true));
}

#[test]
fn callback_cell_reading() {
    assert_eq!(callback_from_raw(0), None);
    assert_eq!(callback_from_raw(0xDEAD_BEEF), Some(0xDEAD_BEEF));
}

#[test]
fn acknowledgement_runs_only_on_resume() {
    assert!(should_acknowledge(CONTINUE_EXECUTION));
    assert!(!should_acknowledge(CONTINUE_SEARCH));
    assert!(!should_acknowledge(7));
}

#[test]
fn resume_acknowledge_rewrites_status_and_flags() {
    let mut ctx = DebugContext {
        dr0: 1,
        dr1: 2,
        dr2: 3,
        dr3: 4,
        dr6: 0xFFF5,
        dr7: 0x701,
        eflags: 0x246,
        rip: 0x4000,
    };
    resume_acknowledge(&mut ctx);
    // the low four status bits are acknowledged, the resume/trap flag is set
    assert_eq!(ctx.dr6, 0xFFF0);
    assert_eq!(ctx.eflags, 0x246 | 0x1000);
    // nothing else moves
    assert_eq!(ctx.dr0, 1);
    assert_eq!(ctx.dr7, 0x701);
    assert_eq!(ctx.rip, 0x4000);
}

#[test]
fn enumeration_visits_all_but_the_caller() {
    let mut visited = VisitedThreads::new();
    let snapshot: Vec<u32> = vec![10, 20, 30, 20];
    let new_ids = enumeration_pass(&mut visited, &snapshot, 20);
    // each new id exactly once, the caller never
    assert_eq!(new_ids, vec![10, 30]);
    assert!(visited.mem(10));
    assert!(visited.mem(30));
    assert!(!visited.mem(20));
    assert_eq!(visited.len(), 2);
}

#[test]
fn enumeration_converges_when_threads_appear() {
    // threads 4 and 5 appear while enumeration runs; the loop repeats until
    // a pass discovers nothing new, and then every thread id alive in the
    // final snapshot (bar the caller) has been visited.
    let caller = 1;
    let mut visited = VisitedThreads::new();
    let first = enumeration_pass(&mut visited, &vec![1, 2, 3], caller);
    assert_eq!(first, vec![2, 3]);
    let second = enumeration_pass(&mut visited, &vec![1, 2, 3, 4, 5], caller);
    assert_eq!(second, vec![4, 5]);
    let third = enumeration_pass(&mut visited, &vec![1, 2, 3, 4, 5], caller);
    assert!(third.is_empty());
    for alive in [2, 3, 4, 5] {
        assert!(visited.mem(alive));
    }
}

#[test]
fn enumeration_tolerates_disappearing_threads() {
    // a thread that exits between snapshots simply stays visited; the pass
    // over the shrunken snapshot is quiescent.
    let mut visited = VisitedThreads::new();
    let first = enumeration_pass(&mut visited, &vec![7, 8, 9], 7);
    assert_eq!(first, vec![8, 9]);
    let second = enumeration_pass(&mut visited, &vec![7, 9], 7);
    assert!(second.is_empty());
    assert!(visited.mem(8));
    assert!(visited.mem(9));
}
