// Record-decoding tests: populate records from hand-built native byte
// layouts and check every field against the expected value.

use task_info::flavor::Flavor;
use task_info::records::MachTaskBasicInfo;
use task_info::records::TaskBasicInfo32;
use task_info::records::TaskEventsInfo;
use task_info::records::TaskFlagsInfo;
use task_info::records::TaskPowerInfoV2;
use task_info::records::TaskVmInfo;
use task_info::records::TaskVmInfoPurgeable;
use task_info::records::TaskWaitStateInfo;

fn push_u32(b: &mut Vec<u8>, x: u32) {
    b.extend_from_slice(&x.to_le_bytes());
}

fn push_i32(b: &mut Vec<u8>, x: i32) {
    b.extend_from_slice(&x.to_le_bytes());
}

fn push_u64(b: &mut Vec<u8>, x: u64) {
    b.extend_from_slice(&x.to_le_bytes());
}

#[test]
fn events_info_fields_exact() {
    let mut b: Vec<u8> = Vec::new();
    push_i32(&mut b, 7);
    push_i32(&mut b, 2);
    push_i32(&mut b, -1);
    push_i32(&mut b, 1000);
    push_i32(&mut b, 999);
    push_i32(&mut b, 0x0403_0201);
    push_i32(&mut b, i32::MIN);
    push_i32(&mut b, i32::MAX);
    assert_eq!(b.len(), TaskEventsInfo::byte_len());
    let r = TaskEventsInfo::from_bytes(&b);
    assert_eq!(r.faults, 7);
    assert_eq!(r.pageins, 2);
    assert_eq!(r.cow_faults, -1);
    assert_eq!(r.messages_sent, 1000);
    assert_eq!(r.messages_received, 999);
    assert_eq!(r.syscalls_mach, 0x0403_0201);
    assert_eq!(r.syscalls_unix, i32::MIN);
    assert_eq!(r.csw, i32::MAX);
}

#[test]
fn events_info_bytes_little_endian() {
    // 0x04030201 stored little-endian: lowest byte first.
    let mut b: Vec<u8> = vec![0x01, 0x02, 0x03, 0x04];
    b.resize(32, 0);
    let r = TaskEventsInfo::from_bytes(&b);
    assert_eq!(r.faults, 0x0403_0201);
    assert_eq!(r.pageins, 0);
}

#[test]
fn basic_info_32_fields_exact() {
    let mut b: Vec<u8> = Vec::new();
    push_i32(&mut b, 1); // suspend_count
    push_u32(&mut b, 0xffff_ffff); // virtual_size
    push_u32(&mut b, 4096); // resident_size
    push_i32(&mut b, 3); // user_time.seconds
    push_i32(&mut b, 500_000); // user_time.microseconds
    push_i32(&mut b, 4); // system_time.seconds
    push_i32(&mut b, 250_000); // system_time.microseconds
    push_i32(&mut b, 2); // policy
    assert_eq!(b.len(), TaskBasicInfo32::byte_len());
    let r = TaskBasicInfo32::from_bytes(&b);
    assert_eq!(r.suspend_count, 1);
    assert_eq!(r.virtual_size, 0xffff_ffff);
    assert_eq!(r.resident_size, 4096);
    assert_eq!(r.user_time.seconds, 3);
    assert_eq!(r.user_time.microseconds, 500_000);
    assert_eq!(r.system_time.seconds, 4);
    assert_eq!(r.system_time.microseconds, 250_000);
    assert_eq!(r.policy, 2);
}

fn vm_info_bytes(tag: u64) -> Vec<u8> {
    let mut b: Vec<u8> = Vec::new();
    push_u64(&mut b, 1 << 40); // virtual_size
    push_i32(&mut b, 120); // region_count
    push_i32(&mut b, 16384); // page_size
    push_u64(&mut b, 8 << 20); // resident_size
    push_u64(&mut b, 9 << 20); // resident_size_peak
    for i in 0..15u64 {
        push_u64(&mut b, tag + i);
    }
    b
}

#[test]
fn vm_info_fields_exact() {
    let b = vm_info_bytes(100);
    assert_eq!(b.len(), TaskVmInfo::byte_len());
    let r = TaskVmInfo::from_bytes(&b);
    assert_eq!(r.virtual_size, 1 << 40);
    assert_eq!(r.region_count, 120);
    assert_eq!(r.page_size, 16384);
    assert_eq!(r.resident_size, 8 << 20);
    assert_eq!(r.resident_size_peak, 9 << 20);
    assert_eq!(r.device, 100);
    assert_eq!(r.device_peak, 101);
    assert_eq!(r.internal, 102);
    assert_eq!(r.internal_peak, 103);
    assert_eq!(r.external, 104);
    assert_eq!(r.external_peak, 105);
    assert_eq!(r.reusable, 106);
    assert_eq!(r.reusable_peak, 107);
    assert_eq!(r.purgeable_volatile_pmap, 108);
    assert_eq!(r.purgeable_volatile_resident, 109);
    assert_eq!(r.purgeable_volatile_virtual, 110);
    assert_eq!(r.compressed, 111);
    assert_eq!(r.compressed_peak, 112);
    assert_eq!(r.compressed_lifetime, 113);
    assert_eq!(r.phys_footprint, 114);
}

#[test]
fn purgeable_wrapper_matches_wrapped() {
    // Populated from the same query instant (the same bytes), the wrapper
    // record's size and field values are identical to the wrapped record's.
    assert_eq!(TaskVmInfoPurgeable::byte_len(), TaskVmInfo::byte_len());
    let b = vm_info_bytes(7000);
    let plain = TaskVmInfo::from_bytes(&b);
    let wrapped = TaskVmInfoPurgeable::from_bytes(&b);
    assert_eq!(wrapped.0, plain);
}

#[test]
fn basic_task_info_sanity_bounds() {
    // A populated basic record for a live process carries nonzero sizes.
    let mut b: Vec<u8> = Vec::new();
    push_u64(&mut b, 5 << 30); // virtual_size
    push_u64(&mut b, 24 << 20); // resident_size
    push_u64(&mut b, 32 << 20); // resident_size_max
    push_i32(&mut b, 0);
    push_i32(&mut b, 0);
    push_i32(&mut b, 1);
    push_i32(&mut b, 2);
    push_i32(&mut b, 1); // policy
    push_i32(&mut b, 0); // suspend_count
    assert_eq!(b.len(), MachTaskBasicInfo::byte_len());
    let r = MachTaskBasicInfo::new(0, &b).expect("query succeeded");
    assert!(r.resident_size > 0);
    assert!(r.virtual_size > 0);
}

#[test]
fn negative_status_yields_no_record() {
    let b = vec![0u8; TaskFlagsInfo::byte_len()];
    assert!(TaskFlagsInfo::new(-1, &b).is_none());
    assert!(TaskFlagsInfo::new(0, &b).is_some());
}

#[test]
fn repeated_population_gives_independent_snapshots() {
    // Two sequential populations of the same flavor both succeed, each a
    // fully valid snapshot, even though a counter differs between them.
    let mut first: Vec<u8> = Vec::new();
    push_i32(&mut first, 0); // suspend_count
    push_u32(&mut first, 1 << 20);
    push_u32(&mut first, 1 << 16);
    push_i32(&mut first, 1);
    push_i32(&mut first, 0);
    push_i32(&mut first, 1);
    push_i32(&mut first, 0);
    push_i32(&mut first, 1);
    let mut second = first.clone();
    second[0] = 2; // the suspend counter moved between the calls
    let mut r = TaskBasicInfo32::from_bytes(&first);
    assert_eq!(r.suspend_count, 0);
    r.init_self(&second);
    assert_eq!(r.suspend_count, 2);
    assert_eq!(r.virtual_size, 1 << 20);
    assert_eq!(r.resident_size, 1 << 16);
}

#[test]
fn wait_state_keeps_reserved_region() {
    let mut b: Vec<u8> = Vec::new();
    push_u64(&mut b, 123_456_789);
    push_u64(&mut b, 23_456);
    push_u32(&mut b, 0xdead_beef);
    push_u32(&mut b, 1);
    push_u32(&mut b, 2);
    push_u32(&mut b, 3);
    assert_eq!(b.len(), TaskWaitStateInfo::byte_len());
    let r = TaskWaitStateInfo::from_bytes(&b);
    assert_eq!(r.total_wait_state_time, 123_456_789);
    assert_eq!(r.total_wait_sfi_state_time, 23_456);
    assert_eq!(r.reserved0, 0xdead_beef);
    assert_eq!(r.reserved1, 1);
    assert_eq!(r.reserved2, 2);
    assert_eq!(r.reserved3, 3);
}

#[test]
fn power_info_v2_nests_both_records() {
    let mut b: Vec<u8> = Vec::new();
    for i in 0..6u64 {
        push_u64(&mut b, 10 + i); // cpu_energy
    }
    for i in 0..4u64 {
        push_u64(&mut b, 90 + i); // gpu_energy
    }
    assert_eq!(b.len(), TaskPowerInfoV2::byte_len());
    let r = TaskPowerInfoV2::from_bytes(&b);
    assert_eq!(r.cpu_energy.total_user, 10);
    assert_eq!(r.cpu_energy.task_timer_wakeups_bin_2, 15);
    assert_eq!(r.gpu_energy.task_gpu_utilisation, 90);
    assert_eq!(r.gpu_energy.task_gpu_stat_reserved2, 93);
}

#[test]
fn oversized_buffer_decodes_only_the_record() {
    // A buffer larger than the native structure is allowed; bytes past the
    // record's own region never reach the decoded fields.
    let mut b = vm_info_bytes(5);
    let plain = TaskVmInfo::from_bytes(&b);
    b.extend_from_slice(&[0xaa; 16]);
    let padded = TaskVmInfo::from_bytes(&b);
    assert_eq!(padded, plain);
}

#[test]
fn flags_info_single_word() {
    let b = vec![0x01, 0x00, 0x00, 0x80];
    let r = TaskFlagsInfo::from_bytes(&b);
    assert_eq!(r.flags, 0x8000_0001);
}
