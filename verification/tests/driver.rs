use opensk_flash::opensk_syscall::{Callback, FlashRequest, Notify, OpenskSyscall, ReturnCode};

/// A driver with one process that registered callback 7 and shared `region`.
fn driver_with_region(region: Vec<u8>) -> OpenskSyscall {
    let mut d = OpenskSyscall::new(1);
    assert_eq!(d.subscribe(0, Some(Callback { id: 7 }), 0), ReturnCode::Success);
    assert_eq!(d.allow(0, 0, Some(region)), ReturnCode::Success);
    d
}

#[test]
fn command_zero_probes() {
    let mut d = OpenskSyscall::new(1);
    assert_eq!(d.command(0, 0, 0, 0), (ReturnCode::Success, None));
}

#[test]
fn query_config() {
    let mut d = OpenskSyscall::new(1);
    assert_eq!(
        d.command(1, 0, 0, 0),
        (ReturnCode::SuccessWithValue { value: 4 }, None)
    );
    assert_eq!(
        d.command(1, 1, 0, 0),
        (ReturnCode::SuccessWithValue { value: 2048 }, None)
    );
    assert_eq!(
        d.command(1, 2, 0, 0),
        (ReturnCode::SuccessWithValue { value: 2 }, None)
    );
    assert_eq!(
        d.command(1, 3, 0, 0),
        (ReturnCode::SuccessWithValue { value: 10000 }, None)
    );
    assert_eq!(d.command(1, 4, 0, 0), (ReturnCode::EInval, None));
}

#[test]
fn unknown_selectors() {
    let mut d = OpenskSyscall::new(1);
    assert_eq!(d.command(9, 0, 0, 0), (ReturnCode::ENoSupport, None));
    assert_eq!(d.subscribe(1, Some(Callback { id: 1 }), 0), ReturnCode::ENoSupport);
    assert_eq!(d.allow(0, 1, None), ReturnCode::ENoSupport);
}

#[test]
fn record_out_of_range_fails() {
    let mut d = OpenskSyscall::new(1);
    assert_eq!(d.subscribe(0, Some(Callback { id: 1 }), 3), ReturnCode::Fail);
    assert_eq!(d.allow(3, 0, Some(vec![0u8; 4])), ReturnCode::Fail);
    assert_eq!(d.command(2, 0x40000, 4, 3), (ReturnCode::Fail, None));
}

#[test]
fn write_one_chunk_at_base() {
    // 128 bytes = 32 words at the flash base: cursor starts at word 0,
    // so one chunk of min(64, 32) = 32 words covers the whole region.
    let region: Vec<u8> = (0..128u32).map(|i| i as u8).collect();
    let mut d = driver_with_region(region);
    let (code, req) = d.command(2, 0x40000, 128, 0);
    assert_eq!(code, ReturnCode::Success);
    assert_eq!(req, Some(FlashRequest::Write { target: 0, length: 32 }));
    assert!(d.is_busy());
    assert_eq!(d.pending_cursor(), Some(32));
    assert_eq!(d.pending_target(), Some(0x10000));
    // Words are assembled least-significant byte first.
    let staged = d.staged_words();
    assert_eq!(staged.len(), 32);
    assert_eq!(staged[0], 0x03020100);
    assert_eq!(staged[31], 0x7F7E7D7C);
    let (next, notify) = d.write_done(ReturnCode::Success);
    assert_eq!(next, None);
    assert_eq!(
        notify,
        Some(Notify { callback: Callback { id: 7 }, status: ReturnCode::Success })
    );
    assert!(!d.is_busy());
    assert_eq!(d.pending_cursor(), None);
}

#[test]
fn write_two_chunks_across_boundary() {
    // 256 bytes = 64 words starting 32 words past a 64-word boundary:
    // the first chunk may only reach the boundary (32 words), the second
    // takes the remaining 32, and the callback fires after the second.
    let region = vec![0xABu8; 256];
    let mut d = driver_with_region(region);
    let addr = 0x40000 + 32 * 4;
    let (code, req) = d.command(2, addr, 256, 0);
    assert_eq!(code, ReturnCode::Success);
    assert_eq!(req, Some(FlashRequest::Write { target: 32, length: 32 }));
    assert_eq!(d.pending_cursor(), Some(32));
    let (next, notify) = d.write_done(ReturnCode::Success);
    assert_eq!(next, Some(FlashRequest::Write { target: 64, length: 32 }));
    assert_eq!(notify, None);
    assert_eq!(d.pending_cursor(), Some(64));
    let (next, notify) = d.write_done(ReturnCode::Success);
    assert_eq!(next, None);
    assert_eq!(
        notify,
        Some(Notify { callback: Callback { id: 7 }, status: ReturnCode::Success })
    );
    assert!(!d.is_busy());
}

#[test]
fn busy_leaves_pending_operation_untouched() {
    let region = vec![0x55u8; 256];
    let mut d = driver_with_region(region);
    let (code, _) = d.command(2, 0x40000, 256, 0);
    assert_eq!(code, ReturnCode::Success);
    let target = d.pending_target();
    let cursor = d.pending_cursor();
    let region_len = d.pending_region_len();
    // A second write and an erase are both rejected with busy and change
    // nothing about the outstanding operation.
    assert_eq!(d.allow(0, 0, Some(vec![0u8; 8])), ReturnCode::Success);
    assert_eq!(d.command(2, 0x40000, 8, 0), (ReturnCode::EBusy, None));
    assert_eq!(d.command(3, 0x40000, 2048, 0), (ReturnCode::EBusy, None));
    assert_eq!(d.pending_target(), target);
    assert_eq!(d.pending_cursor(), cursor);
    assert_eq!(d.pending_region_len(), region_len);
    assert!(d.is_busy());
}

#[test]
fn erase_invalid_arguments() {
    // Misaligned address, wrong length, address below the flash base: all
    // rejected with invalid-argument, and no hardware call is issued.
    let mut d = OpenskSyscall::new(1);
    assert_eq!(d.command(3, 0x40004, 2048, 0), (ReturnCode::EInval, None));
    assert_eq!(d.command(3, 0x40800, 1024, 0), (ReturnCode::EInval, None));
    assert_eq!(d.command(3, 0x3F800, 2048, 0), (ReturnCode::EInval, None));
    assert!(!d.is_busy());
}

#[test]
fn write_invalid_arguments() {
    // Misaligned address, misaligned length, length different from the
    // shared region, missing region: all rejected with invalid-argument,
    // and no hardware call is issued.
    let mut d = driver_with_region(vec![0u8; 8]);
    assert_eq!(d.command(2, 0x40001, 8, 0), (ReturnCode::EInval, None));
    assert_eq!(d.command(2, 0x3FFFC, 8, 0), (ReturnCode::EInval, None));
    assert_eq!(d.command(2, 0x40000, 4, 0), (ReturnCode::EInval, None));
    assert!(!d.is_busy());
    let mut bare = OpenskSyscall::new(1);
    assert_eq!(bare.command(2, 0x40000, 8, 0), (ReturnCode::EInval, None));
    let mut odd = driver_with_region(vec![0u8; 6]);
    assert_eq!(odd.command(2, 0x40000, 6, 0), (ReturnCode::EInval, None));
}

#[test]
fn chunk_failure_aborts_and_notifies_once() {
    // A hardware failure on the first of two chunks: exactly one callback,
    // carrying the failure, and no further chunk is issued.
    let region = vec![0x77u8; 256];
    let mut d = driver_with_region(region);
    let (code, req) = d.command(2, 0x40000 + 32 * 4, 256, 0);
    assert_eq!(code, ReturnCode::Success);
    assert!(req.is_some());
    let (next, notify) = d.write_done(ReturnCode::Fail);
    assert_eq!(next, None);
    assert_eq!(
        notify,
        Some(Notify { callback: Callback { id: 7 }, status: ReturnCode::Fail })
    );
    assert!(!d.is_busy());
    assert_eq!(d.pending_cursor(), None);
}

#[test]
fn erase_page_flow() {
    let mut d = OpenskSyscall::new(1);
    assert_eq!(d.subscribe(0, Some(Callback { id: 3 }), 0), ReturnCode::Success);
    let (code, req) = d.command(3, 0x40000 + 5 * 2048, 2048, 0);
    assert_eq!(code, ReturnCode::Success);
    assert_eq!(req, Some(FlashRequest::Erase { page: 5 }));
    assert!(d.is_busy());
    assert_eq!(d.current_owner(), Some(0));
    let notify = d.erase_done(ReturnCode::Success);
    assert_eq!(
        notify,
        Some(Notify { callback: Callback { id: 3 }, status: ReturnCode::Success })
    );
    assert!(!d.is_busy());
}

#[test]
fn completion_without_callback_is_dropped() {
    // Fire-and-forget: with no registered callback the status is dropped.
    let mut d = OpenskSyscall::new(1);
    assert_eq!(d.allow(0, 0, Some(vec![0x11u8; 8])), ReturnCode::Success);
    let (code, _) = d.command(2, 0x40000, 8, 0);
    assert_eq!(code, ReturnCode::Success);
    let (next, notify) = d.write_done(ReturnCode::Success);
    assert_eq!(next, None);
    assert_eq!(notify, None);
    assert!(!d.is_busy());
}

#[test]
fn write_consumes_the_shared_region() {
    let mut d = driver_with_region(vec![0x42u8; 8]);
    let (code, _) = d.command(2, 0x40000, 8, 0);
    assert_eq!(code, ReturnCode::Success);
    let (_, notify) = d.write_done(ReturnCode::Success);
    assert!(notify.is_some());
    // The region was moved into the finished write; a new write needs a
    // fresh allow.
    assert_eq!(d.command(2, 0x40000, 8, 0), (ReturnCode::EInval, None));
    assert_eq!(d.allow(0, 0, Some(vec![0x43u8; 8])), ReturnCode::Success);
    let (code, _) = d.command(2, 0x40000, 8, 0);
    assert_eq!(code, ReturnCode::Success);
}

#[test]
fn write_of_empty_region() {
    // A zero-length write is accepted and issues one empty chunk.
    let mut d = driver_with_region(Vec::new());
    let (code, req) = d.command(2, 0x40000, 0, 0);
    assert_eq!(code, ReturnCode::Success);
    assert_eq!(req, Some(FlashRequest::Write { target: 0, length: 0 }));
    assert_eq!(d.staged_words().len(), 0);
    let (next, notify) = d.write_done(ReturnCode::Success);
    assert_eq!(next, None);
    assert_eq!(
        notify,
        Some(Notify { callback: Callback { id: 7 }, status: ReturnCode::Success })
    );
    assert!(!d.is_busy());
}

#[test]
fn drive_write_consumes_whole_plan() {
    // 320 bytes = 80 words from word offset 44: chunks of 20, 32 and 28
    // words. With every status a success the request consumes one
    // completion per chunk and the callback reports success.
    let mut d = driver_with_region(vec![0x5A; 320]);
    let (code, req) = d.command(2, 0x40000 + 44 * 4, 320, 0);
    assert_eq!(code, ReturnCode::Success);
    assert_eq!(req, Some(FlashRequest::Write { target: 44, length: 20 }));
    let statuses = vec![ReturnCode::Success; 3];
    let (consumed, notify) = d.drive_write(&statuses);
    assert_eq!(consumed, 3);
    assert_eq!(
        notify,
        Some(Notify { callback: Callback { id: 7 }, status: ReturnCode::Success })
    );
    assert!(!d.is_busy());

    // A failure on the second chunk stops the write there, and the one
    // callback carries that failure.
    assert_eq!(d.allow(0, 0, Some(vec![0x5A; 320])), ReturnCode::Success);
    let (code, _) = d.command(2, 0x40000 + 44 * 4, 320, 0);
    assert_eq!(code, ReturnCode::Success);
    let statuses = vec![ReturnCode::Success, ReturnCode::Fail, ReturnCode::Success];
    let (consumed, notify) = d.drive_write(&statuses);
    assert_eq!(consumed, 2);
    assert_eq!(
        notify,
        Some(Notify { callback: Callback { id: 7 }, status: ReturnCode::Fail })
    );
    assert!(!d.is_busy());
}

#[test]
fn chunks_never_cross_boundary_nor_call_limit() {
    // Drive a long write and check every issued chunk against the boundary
    // rule: it stays in one 64-word block and within one hardware call.
    let region = vec![0x99u8; 1024];  // 256 words
    let mut d = driver_with_region(region);
    let addr = 0x40000 + 44 * 4;  // word offset 44, so the first chunk is short
    let (code, req) = d.command(2, addr, 1024, 0);
    assert_eq!(code, ReturnCode::Success);
    let mut chunks = Vec::new();
    let mut current = req;
    loop {
        match current {
            Some(FlashRequest::Write { target, length }) => {
                chunks.push((target, length));
                assert!(length <= 32);
                if length > 0 {
                    let start = 0x10000 + target;
                    assert_eq!(start / 64, (start + length - 1) / 64);
                }
            }
            _ => panic!("expected a write chunk"),
        }
        let (next, notify) = d.write_done(ReturnCode::Success);
        if let Some(n) = notify {
            assert_eq!(n.status, ReturnCode::Success);
            assert!(next.is_none());
            break;
        }
        current = next;
    }
    // First chunk reaches the boundary (64 - 44 = 20 words), then full
    // 32-word chunks; the lengths cover the region exactly.
    assert_eq!(chunks[0], (44, 20));
    let total: usize = chunks.iter().map(|c| c.1).sum();
    assert_eq!(total, 256);
    assert_eq!(chunks.len(), 1 + (256 - 20 + 31) / 32);
}
