use xous_services::spinor_access::{AccessRequest, SpinorAccess, LOADER_LOC, SOC_STAGING_GW_LOC};
use xous_services::spinor_write::{
    flash_id_from_rdid, page_words, page_write_step, plan_page_programs, write_region_step, PageProgram,
    PageWriteAction, RegionAction, RegionEvent, SpinorError, WriteRegion, SPINOR_SIZE_BYTES,
};

fn request(start: u32, len: u32, clean_patch: bool) -> WriteRegion {
    WriteRegion { id: [1, 2, 3, 4], start, data: vec![0u8; 4096], len, clean_patch, result: None }
}

#[test]
fn region_past_end_of_flash_is_invalid() {
    let wr = request(SPINOR_SIZE_BYTES - 0x1000, 0x1001, false);
    assert_eq!(write_region_step(&wr, RegionEvent::Begin), RegionAction::Complete(SpinorError::InvalidRequest));
    let wr = request(u32::MAX, 2, true);
    assert_eq!(write_region_step(&wr, RegionEvent::Begin), RegionAction::Complete(SpinorError::InvalidRequest));
    let wr = request(SPINOR_SIZE_BYTES - 0x1000, 0x1000, false);
    assert_eq!(write_region_step(&wr, RegionEvent::Begin), RegionAction::EraseSector(SPINOR_SIZE_BYTES - 0x1000));
}

#[test]
fn unaligned_erase_is_refused() {
    let wr = request(0x1_0010, 16, false);
    assert_eq!(write_region_step(&wr, RegionEvent::Begin), RegionAction::Complete(SpinorError::AlignmentError));
}

#[test]
fn erase_then_write_sequence() {
    let wr = request(0x2_0000, 4096, false);
    assert_eq!(write_region_step(&wr, RegionEvent::Begin), RegionAction::EraseSector(0x2_0000));
    assert_eq!(write_region_step(&wr, RegionEvent::EraseDone(0)), RegionAction::WritePages);
    assert_eq!(
        write_region_step(&wr, RegionEvent::EraseDone(0x40)),
        RegionAction::Complete(SpinorError::EraseFailed)
    );
    assert_eq!(write_region_step(&wr, RegionEvent::WriteDone(0x00)), RegionAction::Complete(SpinorError::NoError));
    assert_eq!(
        write_region_step(&wr, RegionEvent::WriteDone(0x20)),
        RegionAction::Complete(SpinorError::WriteFailed)
    );
}

#[test]
fn clean_patch_skips_the_erase() {
    let wr = request(0x2_0012, 2, true);
    assert_eq!(write_region_step(&wr, RegionEvent::Begin), RegionAction::WritePages);
}

#[test]
fn flash_id_reassembly() {
    assert_eq!(flash_id_from_rdid(0x3b3b_8080, 0x8080_c2c2), 0x003b_80c2);
    assert_eq!(flash_id_from_rdid(0xffff_ffff, 0xffff_ffff), 0x00ff_ffff);
}

#[test]
fn plan_for_aligned_pages_skips_blank_ones() {
    let mut data = vec![0xFFu8; 4096];
    data[0] = 0x12;
    data[600] = 0x34;
    let plan = plan_page_programs(0x1000, &data, 1024);
    assert_eq!(
        plan,
        vec![
            PageProgram { address: 0x1000, offset: 0, len: 256 },
            PageProgram { address: 0x1200, offset: 512, len: 256 },
        ]
    );
}

#[test]
fn plan_for_unaligned_start_begins_with_partial_page() {
    let data = vec![0u8; 4096];
    let plan = plan_page_programs(0x1F0, &data, 300);
    assert_eq!(
        plan,
        vec![
            PageProgram { address: 0x1F0, offset: 0, len: 16 },
            PageProgram { address: 0x200, offset: 16, len: 256 },
            PageProgram { address: 0x300, offset: 272, len: 28 },
        ]
    );
}

#[test]
fn plan_for_write_inside_one_page() {
    let data = vec![0u8; 8];
    let plan = plan_page_programs(0x123, &data, 6);
    assert_eq!(plan, vec![PageProgram { address: 0x123, offset: 0, len: 6 }]);
    let blank = vec![0xFFu8; 8];
    assert_eq!(plan_page_programs(0x124, &blank, 8), vec![]);
    assert_eq!(plan_page_programs(0x124, &data, 0), vec![]);
}

#[test]
fn words_are_little_endian_byte_pairs() {
    let data = vec![0x01u8, 0x02, 0x03, 0x04, 0xFF, 0xFF];
    assert_eq!(page_words(&data, 0, 6), vec![0x0201, 0x0403, 0xFFFF]);
    assert_eq!(page_words(&data, 2, 2), vec![0x0403]);
}

#[test]
fn page_writes_stop_at_first_failure() {
    let plan = vec![
        PageProgram { address: 0x100, offset: 0, len: 256 },
        PageProgram { address: 0x200, offset: 256, len: 256 },
    ];
    assert_eq!(page_write_step(&plan, 0, 0), PageWriteAction::Program(plan[0]));
    assert_eq!(page_write_step(&plan, 1, 0x02), PageWriteAction::Program(plan[1]));
    assert_eq!(page_write_step(&plan, 1, 0x22), PageWriteAction::Finish(0x22));
    assert_eq!(page_write_step(&plan, 2, 0x02), PageWriteAction::Finish(0x02));
    assert_eq!(page_write_step(&vec![], 0, 0), PageWriteAction::Finish(0));
}

const TOKEN: [u32; 4] = [7, 7, 7, 7];
const CLIENT: [u32; 4] = [9, 8, 7, 6];

#[test]
fn soc_token_first_claim_wins() {
    let mut s = SpinorAccess::new();
    s.register_soc_token(TOKEN);
    s.register_soc_token(CLIENT);
    assert_eq!(s.soc_token, Some(TOKEN));
}

#[test]
fn staging_protection_only_by_token_holder() {
    let mut s = SpinorAccess::new();
    s.set_staging_write_protect(TOKEN, true);
    assert!(!s.staging_write_protect);
    s.register_soc_token(TOKEN);
    s.set_staging_write_protect(CLIENT, true);
    assert!(!s.staging_write_protect);
    s.set_staging_write_protect(TOKEN, true);
    assert!(s.staging_write_protect);
    s.set_staging_write_protect(TOKEN, false);
    assert!(!s.staging_write_protect);
}

#[test]
fn exclusive_lock_rules() {
    let mut s = SpinorAccess::new();
    assert!(!s.acquire_exclusive(CLIENT));
    s.register_soc_token(TOKEN);
    assert!(s.acquire_exclusive(CLIENT));
    assert!(s.op_in_progress);
    assert!(!s.acquire_exclusive(TOKEN));
    assert!(!s.acquire_suspend_lock());
    s.release_exclusive();
    assert!(!s.op_in_progress);
    assert!(s.acquire_suspend_lock());
    assert!(!s.acquire_exclusive(CLIENT));
    s.release_suspend_lock();
    assert!(s.acquire_exclusive(CLIENT));
}

#[test]
fn suspend_cycle() {
    let mut s = SpinorAccess::new();
    s.register_soc_token(TOKEN);
    assert!(s.acquire_exclusive(CLIENT));
    s.begin_suspend();
    assert!(!s.suspend_may_proceed());
    s.release_exclusive();
    assert!(s.suspend_may_proceed());
    assert!(!s.acquire_exclusive(CLIENT));
    s.end_suspend(false);
    assert!(s.suspend_failure);
    assert!(!s.suspend_pending);
    assert!(s.acquire_exclusive(CLIENT));
    assert!(!s.suspend_failure);
}

#[test]
fn write_authorization_verdicts() {
    let mut s = SpinorAccess::new();
    assert_eq!(s.authorize_write(CLIENT, 0x100_0000), Err(SpinorError::AccessDenied));
    s.register_soc_token(TOKEN);
    assert_eq!(s.authorize_write(CLIENT, 0x100_0000), Err(SpinorError::NoId));
    assert!(s.acquire_exclusive(CLIENT));
    assert_eq!(s.authorize_write(CLIENT, 0x100_0000), Ok(()));
    assert_eq!(s.authorize_write(TOKEN, 0x100_0000), Err(SpinorError::IdMismatch));
    // the main gateware needs the token
    assert_eq!(s.authorize_write(CLIENT, 0x1000), Err(SpinorError::AccessDenied));
    // the staging gateware only while protected
    assert_eq!(s.authorize_write(CLIENT, SOC_STAGING_GW_LOC), Ok(()));
    s.set_staging_write_protect(TOKEN, true);
    assert_eq!(s.authorize_write(CLIENT, SOC_STAGING_GW_LOC), Err(SpinorError::AccessDenied));
    assert_eq!(s.authorize_write(CLIENT, LOADER_LOC), Ok(()));
    // the token holder writing the gateware still needs the lock
    assert_eq!(s.authorize_write(TOKEN, 0x1000), Err(SpinorError::IdMismatch));
    s.release_exclusive();
    assert!(s.acquire_exclusive(TOKEN));
    assert_eq!(s.authorize_write(TOKEN, 0x1000), Ok(()));
}

#[test]
fn ecc_errors_fill_slots_in_order() {
    let mut s = SpinorAccess::new();
    assert!(s.record_ecc_error(10));
    assert!(s.record_ecc_error(20));
    assert!(s.record_ecc_error(30));
    assert!(s.record_ecc_error(40));
    assert!(!s.record_ecc_error(50));
    assert_eq!(s.ecc_errors, [Some(10), Some(20), Some(30), Some(40)]);
}

#[test]
fn plan_programs_every_written_byte_once() {
    let mut data = vec![0xFFu8; 4096];
    for i in (0..4096).step_by(97) {
        data[i] = (i % 251) as u8;
    }
    for &start in &[0u32, 0x40, 0x1FE, 0x2_0000] {
        let len = 3000usize;
        let plan = plan_page_programs(start, &data, len);
        for b in 0..len {
            let covering = plan.iter().filter(|p| p.offset <= b && b < p.offset + p.len).count();
            if data[b] != 0xFF {
                assert_eq!(covering, 1);
            } else {
                assert!(covering <= 1);
            }
        }
        for p in &plan {
            assert!(p.len <= 256);
            assert_eq!(p.address, start + p.offset as u32);
            // a program never crosses a page boundary
            assert_eq!(p.address / 256, (p.address + p.len as u32 - 1) / 256);
        }
    }
}

#[test]
fn request_sequence_token_and_staging_flag() {
    let mut s = SpinorAccess::new();
    assert!(s.handle(AccessRequest::SetStagingWriteProtect(TOKEN)));
    assert!(!s.staging_write_protect);
    s.handle(AccessRequest::RegisterSocToken(TOKEN));
    s.handle(AccessRequest::RegisterSocToken(CLIENT));
    s.handle(AccessRequest::SetStagingWriteProtect(CLIENT));
    assert!(!s.staging_write_protect);
    s.handle(AccessRequest::SetStagingWriteProtect(TOKEN));
    assert!(s.staging_write_protect);
    s.handle(AccessRequest::ClearStagingWriteProtect(CLIENT));
    assert!(s.staging_write_protect);
    s.handle(AccessRequest::ClearStagingWriteProtect(TOKEN));
    assert!(!s.staging_write_protect);
    assert_eq!(s.soc_token, Some(TOKEN));
}

#[test]
fn request_sequence_locks_exclude_each_other() {
    let mut s = SpinorAccess::new();
    s.handle(AccessRequest::RegisterSocToken(TOKEN));
    assert!(s.handle(AccessRequest::AcquireExclusive(CLIENT)));
    s.handle(AccessRequest::EccError(5));
    s.handle(AccessRequest::ReleaseSuspendLock);
    assert!(!s.handle(AccessRequest::AcquireSuspendLock));
    assert!(!s.handle(AccessRequest::AcquireExclusive(TOKEN)));
    assert_eq!(s.client_id, Some(CLIENT));
    s.handle(AccessRequest::ReleaseExclusive);
    assert!(s.handle(AccessRequest::AcquireSuspendLock));
    s.handle(AccessRequest::RegisterSocToken(CLIENT));
    assert!(!s.handle(AccessRequest::AcquireExclusive(TOKEN)));
    s.handle(AccessRequest::SuspendFinished(true));
    assert!(s.handle(AccessRequest::AcquireExclusive(TOKEN)));
}

#[test]
fn request_sequence_ecc_log() {
    let mut s = SpinorAccess::new();
    for a in [1u32, 2, 3, 4, 5, 6] {
        let kept = s.handle(AccessRequest::EccError(a));
        assert_eq!(kept, a <= 4);
        s.handle(AccessRequest::ReleaseExclusive);
    }
    assert_eq!(s.ecc_errors, [Some(1), Some(2), Some(3), Some(4)]);
}
