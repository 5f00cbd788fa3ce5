use ipfd::breakpoint::Breakpoint;
use ipfd::surface::ipfd_clear_all_breakpoints;
use ipfd::surface::ipfd_memmove;
use ipfd::surface::ipfd_refresh_all_breakpoints;
use ipfd::surface::ipfd_set_breakpoint;
use ipfd::surface::ipfd_set_event;
use ipfd::surface::ipfd_sync_result;
use ipfd::surface::ipfd_sync_submit;
use ipfd::surface::send;
use ipfd::surface::thread_notification_message;
use ipfd::surface::Lifecycle;
use ipfd::surface::Status;
use ipfd::surface::THREAD_ATTACH_REASON;
use ipfd::worker::IpfdMessage;
use ipfd::worker::IpfdServer;

#[test]
fn set_breakpoint_rejects_index_out_of_range() {
    // index 4 is invalid: "invalid argument", nothing submitted, so the
    // worker's table cannot be touched.
    let (status, message) = ipfd_set_breakpoint(true, 4, 0x1000, 0);
    assert_eq!(status, Status::InvalidArgument);
    assert!(message.is_none());
}

#[test]
fn set_breakpoint_rejects_reserved_flag_bits() {
    // 0x0C sets the two reserved bits: likewise rejected.
    let (status, message) = ipfd_set_breakpoint(true, 0, 0x1000, 0x0C);
    assert_eq!(status, Status::InvalidArgument);
    assert!(message.is_none());
}

#[test]
fn set_breakpoint_accepts_valid_input() {
    let (status, message) = ipfd_set_breakpoint(true, 3, 0xABCD, 0xF3);
    assert_eq!(status, Status::Success);
    match message {
        Some(IpfdMessage::SetBreakpoint { index, breakpoint }) => {
            assert_eq!(index, 3);
            assert_eq!(breakpoint, Breakpoint { flags: 0xF3, address: 0xABCD });
        },
        _ => panic!("valid input must submit a set-breakpoint command"),
    }
}

#[test]
fn set_breakpoint_without_worker_reports_not_initialized() {
    let (status, message) = ipfd_set_breakpoint(false, 0, 0x1000, 0x01);
    assert_eq!(status, Status::NotInitialized);
    assert!(message.is_none());
}

#[test]
fn rejected_input_never_reaches_the_worker() {
    // drive a worker with exactly what the boundary hands through: the two
    // invalid submissions produce no message, so the table stays empty.
    let mut server = IpfdServer::new();
    for (index, flags) in [(4u8, 0u8), (0u8, 0x0Cu8)] {
        let (_, message) = ipfd_set_breakpoint(true, index, 0x1000, flags);
        if let Some(m) = message {
            server.step(m);
        }
    }
    assert_eq!(server.breakpoints.slot0, None);
    assert_eq!(server.breakpoints.slot1, None);
    assert_eq!(server.breakpoints.slot2, None);
    assert_eq!(server.breakpoints.slot3, None);
}

#[test]
fn send_requires_running_worker() {
    let (status, message) = send(false, IpfdMessage::RefreshAllBreakpoints);
    assert_eq!(status, Status::NotInitialized);
    assert!(message.is_none());
    let (status, message) = send(true, IpfdMessage::RefreshAllBreakpoints);
    assert_eq!(status, Status::Success);
    assert!(matches!(message, Some(IpfdMessage::RefreshAllBreakpoints)));
}

#[test]
fn entry_points_build_their_commands() {
    assert!(matches!(
        ipfd_refresh_all_breakpoints(true),
        (Status::Success, Some(IpfdMessage::RefreshAllBreakpoints))
    ));
    assert!(matches!(
        ipfd_clear_all_breakpoints(true),
        (Status::Success, Some(IpfdMessage::ClearAllBreakpoints))
    ));
    assert!(matches!(
        ipfd_memmove(true, 1, 2, 3),
        (Status::Success, Some(IpfdMessage::MemoryCopy { source: 1, destination: 2, size: 3 }))
    ));
    assert!(matches!(
        ipfd_set_event(true, 0x77),
        (Status::Success, Some(IpfdMessage::SetEvent { hevent: 0x77 }))
    ));
    assert!(matches!(
        ipfd_sync_submit(true, 0x88),
        (Status::Success, Some(IpfdMessage::SetEvent { hevent: 0x88 }))
    ));
}

#[test]
fn sync_result_propagates_each_outcome() {
    assert_eq!(ipfd_sync_result(Status::NotInitialized, true), Status::NotInitialized);
    assert_eq!(ipfd_sync_result(Status::Success, true), Status::Success);
    assert_eq!(ipfd_sync_result(Status::Success, false), Status::Failure);
}

#[test]
fn status_result_codes() {
    assert_eq!(Status::Success.result_code(), 0);
    assert_eq!(Status::NotInitialized.result_code(), 0x8007139Fu32 as i32);
    assert_eq!(Status::InvalidArgument.result_code(), 0x80070057u32 as i32);
    assert_eq!(Status::Failure.result_code(), 0x80004005u32 as i32);
}

#[test]
fn reference_count_lifecycle() {
    // two initialize calls then one terminate leave the worker running; the
    // second terminate stops it.  (A terminate with the count already at
    // zero is a fatal programming error: the library's precondition forbids
    // it, and the unverified shell turns it into an abort.)
    let mut lifecycle = Lifecycle::new();
    assert!(!lifecycle.is_running());
    assert!(lifecycle.initialize());
    assert!(lifecycle.is_running());
    assert!(!lifecycle.initialize());
    assert!(lifecycle.is_running());
    assert!(!lifecycle.terminate());
    assert!(lifecycle.is_running());
    assert!(lifecycle.terminate());
    assert!(!lifecycle.is_running());
    assert_eq!(lifecycle.count, 0);
}

#[test]
fn thread_attach_submits_single_thread_refresh() {
    match thread_notification_message(THREAD_ATTACH_REASON, 42) {
        Some(IpfdMessage::ThreadRefreshBreakpoints { thread_id }) => assert_eq!(thread_id, 42),
        _ => panic!("thread attach must refresh the new thread"),
    }
    assert!(thread_notification_message(1, 42).is_none());
    assert!(thread_notification_message(0, 42).is_none());
}
