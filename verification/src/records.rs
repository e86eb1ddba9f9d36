//! The info-record catalog: one fixed-layout value type per flavor.
//!
//! Every field is a fixed-width integer sized to match the host ABI for its
//! flavor, in the native record's field order with no padding beyond what the
//! native structure defines; reserved native regions stay as explicit fields
//! of matching width. Each type decodes from the packed little-endian bytes
//! the host query call writes.

use vstd::prelude::*;
use crate::bytes::i32_at;
use crate::bytes::u32_at;
use crate::bytes::u64_at;
use crate::bytes::read_i32;
use crate::bytes::read_u32;
use crate::bytes::read_u64;
use crate::flavor::FieldWidth;
use crate::flavor::Flavor;
use crate::registry::FlavorVariant;

verus! {

// Fixed-width aliases for the host ABI's own type names.
#[allow(non_camel_case_types)]
pub type mach_vm_address_t = u64;

#[allow(non_camel_case_types)]
pub type mach_vm_size_t = u64;

#[allow(non_camel_case_types)]
pub type integer_t = i32;

#[allow(non_camel_case_types)]
pub type natural_t = u32;

#[allow(non_camel_case_types)]
pub type policy_t = i32;

/// A host time value: whole seconds and the microsecond remainder.
#[allow(non_camel_case_types)]
#[derive(Copy, Clone, Debug, PartialEq, Eq, Structural)]
pub struct time_value {
    pub seconds: integer_t,
    pub microseconds: integer_t,
}

#[allow(non_camel_case_types)]
pub type time_value_t = time_value;

/// The time value stored at byte offset `off`: seconds then microseconds.
pub open spec fn time_value_at(b: Seq<u8>, off: int) -> time_value {
    time_value { seconds: i32_at(b, off), microseconds: i32_at(b, off + 4) }
}

/// Reads the time value stored at byte offset `off`.
pub fn read_time_value(b: &[u8], off: usize) -> (r: time_value)
    requires
        off + 8 <= b@.len(),
    ensures
        r == time_value_at(b@, off as int),
{
    let _n: usize = b.len();
    time_value { seconds: read_i32(b, off), microseconds: read_i32(b, off + 4) }
}

/// Note: the host's own headers say to use `MachTaskBasicInfo` instead.
/// (This is mainly here for completeness.)
#[derive(Copy, Clone, Debug, PartialEq, Eq, Structural)]
pub struct TaskBasicInfo32 {
    /// suspend count for task
    pub suspend_count: integer_t,
    /// virtual memory size (bytes)
    pub virtual_size: natural_t,
    /// resident memory size (bytes)
    pub resident_size: natural_t,
    /// total user run time for terminated threads
    pub user_time: time_value_t,
    /// total system run time for terminated threads
    pub system_time: time_value_t,
    /// default policy for new threads
    pub policy: policy_t,
}

impl Flavor for TaskBasicInfo32 {
    open spec fn variant_spec() -> FlavorVariant {
        FlavorVariant::TaskBasicInfo32
    }

    open spec fn name_spec() -> Seq<char> {
        "TASK_BASIC_INFO_32\0"@
    }

    open spec fn size_spec() -> nat {
        32
    }

    open spec fn decode_spec(b: Seq<u8>) -> Self {
        TaskBasicInfo32 {
            suspend_count: i32_at(b, 0),
            virtual_size: u32_at(b, 4),
            resident_size: u32_at(b, 8),
            user_time: time_value_at(b, 12),
            system_time: time_value_at(b, 20),
            policy: i32_at(b, 28),
        }
    }

    fn variant() -> FlavorVariant {
        FlavorVariant::TaskBasicInfo32
    }

    fn c_name() -> &'static str {
        "TASK_BASIC_INFO_32\0"
    }

    fn byte_len() -> usize {
        32
    }

    fn from_bytes(b: &[u8]) -> Self {
        TaskBasicInfo32 {
            suspend_count: read_i32(b, 0),
            virtual_size: read_u32(b, 4),
            resident_size: read_u32(b, 8),
            user_time: read_time_value(b, 12),
            system_time: read_time_value(b, 20),
            policy: read_i32(b, 28),
        }
    }

    proof fn lemma_size_consistent() {
    }

    proof fn lemma_name_consistent() {
    }

    proof fn lemma_decode_local(b1: Seq<u8>, b2: Seq<u8>) {
        crate::bytes::lemma_prefix_agreement(b1, b2, Self::size_spec() as int);
    }

    fn describe() -> Vec<FieldWidth> {
        Vec::new()
    }
}

/// Note: the host's own headers say to use `MachTaskBasicInfo` instead.
/// (This is mainly here for completeness.)
#[derive(Copy, Clone, Debug, PartialEq, Eq, Structural)]
pub struct TaskBasicInfo64 {
    /// suspend count for task
    pub suspend_count: integer_t,
    /// virtual memory size (bytes)
    pub virtual_size: mach_vm_size_t,
    /// resident memory size (bytes)
    pub resident_size: mach_vm_size_t,
    /// total user run time for terminated threads
    pub user_time: time_value_t,
    /// total system run time for terminated threads
    pub system_time: time_value_t,
    /// default policy for new threads
    pub policy: policy_t,
}

impl Flavor for TaskBasicInfo64 {
    open spec fn variant_spec() -> FlavorVariant {
        FlavorVariant::TaskBasicInfo64
    }

    open spec fn name_spec() -> Seq<char> {
        "TASK_BASIC_INFO_64\0"@
    }

    open spec fn size_spec() -> nat {
        40
    }

    open spec fn decode_spec(b: Seq<u8>) -> Self {
        TaskBasicInfo64 {
            suspend_count: i32_at(b, 0),
            virtual_size: u64_at(b, 4),
            resident_size: u64_at(b, 12),
            user_time: time_value_at(b, 20),
            system_time: time_value_at(b, 28),
            policy: i32_at(b, 36),
        }
    }

    open spec fn describe_spec() -> Seq<(Seq<char>, nat)> {
        seq![
            ("suspend_count"@, 4nat),
            ("virtual_size"@, 8nat),
            ("resident_size"@, 8nat),
            ("user_time"@, 8nat),
            ("system_time"@, 8nat),
            ("policy"@, 4nat),
        ]
    }

    fn variant() -> FlavorVariant {
        FlavorVariant::TaskBasicInfo64
    }

    fn c_name() -> &'static str {
        "TASK_BASIC_INFO_64\0"
    }

    fn byte_len() -> usize {
        40
    }

    fn from_bytes(b: &[u8]) -> Self {
        TaskBasicInfo64 {
            suspend_count: read_i32(b, 0),
            virtual_size: read_u64(b, 4),
            resident_size: read_u64(b, 12),
            user_time: read_time_value(b, 20),
            system_time: read_time_value(b, 28),
            policy: read_i32(b, 36),
        }
    }

    proof fn lemma_size_consistent() {
    }

    proof fn lemma_name_consistent() {
    }

    proof fn lemma_decode_local(b1: Seq<u8>, b2: Seq<u8>) {
        crate::bytes::lemma_prefix_agreement(b1, b2, Self::size_spec() as int);
    }

    fn describe() -> (v: Vec<FieldWidth>) {
        let mut v: Vec<FieldWidth> = Vec::new();
        v.push(FieldWidth { name: "suspend_count", width: 4 });
        v.push(FieldWidth { name: "virtual_size", width: 8 });
        v.push(FieldWidth { name: "resident_size", width: 8 });
        v.push(FieldWidth { name: "user_time", width: 8 });
        v.push(FieldWidth { name: "system_time", width: 8 });
        v.push(FieldWidth { name: "policy", width: 4 });
        v
    }
}

/// Counts of task-lifetime events.
#[derive(Copy, Clone, Debug, PartialEq, Eq, Structural)]
pub struct TaskEventsInfo {
    /// number of page faults
    pub faults: integer_t,
    /// number of actual pageins
    pub pageins: integer_t,
    /// number of copy-on-write faults
    pub cow_faults: integer_t,
    /// number of messages sent
    pub messages_sent: integer_t,
    /// number of messages received
    pub messages_received: integer_t,
    /// number of mach system calls
    pub syscalls_mach: integer_t,
    /// number of unix system calls
    pub syscalls_unix: integer_t,
    /// number of context switches
    pub csw: integer_t,
}

impl Flavor for TaskEventsInfo {
    open spec fn variant_spec() -> FlavorVariant {
        FlavorVariant::TaskEventsInfo
    }

    open spec fn name_spec() -> Seq<char> {
        "TASK_EVENTS_INFO\0"@
    }

    open spec fn size_spec() -> nat {
        32
    }

    open spec fn decode_spec(b: Seq<u8>) -> Self {
        TaskEventsInfo {
            faults: i32_at(b, 0),
            pageins: i32_at(b, 4),
            cow_faults: i32_at(b, 8),
            messages_sent: i32_at(b, 12),
            messages_received: i32_at(b, 16),
            syscalls_mach: i32_at(b, 20),
            syscalls_unix: i32_at(b, 24),
            csw: i32_at(b, 28),
        }
    }

    fn variant() -> FlavorVariant {
        FlavorVariant::TaskEventsInfo
    }

    fn c_name() -> &'static str {
        "TASK_EVENTS_INFO\0"
    }

    fn byte_len() -> usize {
        32
    }

    fn from_bytes(b: &[u8]) -> Self {
        TaskEventsInfo {
            faults: read_i32(b, 0),
            pageins: read_i32(b, 4),
            cow_faults: read_i32(b, 8),
            messages_sent: read_i32(b, 12),
            messages_received: read_i32(b, 16),
            syscalls_mach: read_i32(b, 20),
            syscalls_unix: read_i32(b, 24),
            csw: read_i32(b, 28),
        }
    }

    proof fn lemma_size_consistent() {
    }

    proof fn lemma_name_consistent() {
    }

    proof fn lemma_decode_local(b1: Seq<u8>, b2: Seq<u8>) {
        crate::bytes::lemma_prefix_agreement(b1, b2, Self::size_spec() as int);
    }

    fn describe() -> Vec<FieldWidth> {
        Vec::new()
    }
}

/// Run times aggregated over the task's live threads.
#[derive(Copy, Clone, Debug, PartialEq, Eq, Structural)]
pub struct TaskThreadTimesInfo {
    /// total user run time for live threads
    pub user_time: time_value_t,
    /// total system run time for live threads
    pub system_time: time_value_t,
}

impl Flavor for TaskThreadTimesInfo {
    open spec fn variant_spec() -> FlavorVariant {
        FlavorVariant::TaskThreadTimesInfo
    }

    open spec fn name_spec() -> Seq<char> {
        "TASK_THREAD_TIMES_INFO\0"@
    }

    open spec fn size_spec() -> nat {
        16
    }

    open spec fn decode_spec(b: Seq<u8>) -> Self {
        TaskThreadTimesInfo { user_time: time_value_at(b, 0), system_time: time_value_at(b, 8) }
    }

    fn variant() -> FlavorVariant {
        FlavorVariant::TaskThreadTimesInfo
    }

    fn c_name() -> &'static str {
        "TASK_THREAD_TIMES_INFO\0"
    }

    fn byte_len() -> usize {
        16
    }

    fn from_bytes(b: &[u8]) -> Self {
        TaskThreadTimesInfo {
            user_time: read_time_value(b, 0),
            system_time: read_time_value(b, 8),
        }
    }

    proof fn lemma_size_consistent() {
    }

    proof fn lemma_name_consistent() {
    }

    proof fn lemma_decode_local(b1: Seq<u8>, b2: Seq<u8>) {
        crate::bytes::lemma_prefix_agreement(b1, b2, Self::size_spec() as int);
    }

    fn describe() -> Vec<FieldWidth> {
        Vec::new()
    }
}

/// Run times in absolute-time units.
#[derive(Copy, Clone, Debug, PartialEq, Eq, Structural)]
pub struct TaskAbsolutetimeInfo {
    pub total_user: u64,
    pub total_system: u64,
    /// existing threads only
    pub threads_user: u64,
    pub threads_system: u64,
}

impl Flavor for TaskAbsolutetimeInfo {
    open spec fn variant_spec() -> FlavorVariant {
        FlavorVariant::TaskAbsolutetimeInfo
    }

    open spec fn name_spec() -> Seq<char> {
        "TASK_ABSOLUTETIME_INFO\0"@
    }

    open spec fn size_spec() -> nat {
        32
    }

    open spec fn decode_spec(b: Seq<u8>) -> Self {
        TaskAbsolutetimeInfo {
            total_user: u64_at(b, 0),
            total_system: u64_at(b, 8),
            threads_user: u64_at(b, 16),
            threads_system: u64_at(b, 24),
        }
    }

    fn variant() -> FlavorVariant {
        FlavorVariant::TaskAbsolutetimeInfo
    }

    fn c_name() -> &'static str {
        "TASK_ABSOLUTETIME_INFO\0"
    }

    fn byte_len() -> usize {
        32
    }

    fn from_bytes(b: &[u8]) -> Self {
        TaskAbsolutetimeInfo {
            total_user: read_u64(b, 0),
            total_system: read_u64(b, 8),
            threads_user: read_u64(b, 16),
            threads_system: read_u64(b, 24),
        }
    }

    proof fn lemma_size_consistent() {
    }

    proof fn lemma_name_consistent() {
    }

    proof fn lemma_decode_local(b1: Seq<u8>, b2: Seq<u8>) {
        crate::bytes::lemma_prefix_agreement(b1, b2, Self::size_spec() as int);
    }

    fn describe() -> Vec<FieldWidth> {
        Vec::new()
    }
}

/// Kernel memory allocated and freed on the task's behalf.
#[derive(Copy, Clone, Debug, PartialEq, Eq, Structural)]
pub struct TaskKernelmemoryInfo {
    /// private kernel mem alloc'ed
    pub total_palloc: u64,
    /// private kernel mem freed
    pub total_pfree: u64,
    /// shared kernel mem alloc'ed
    pub total_salloc: u64,
    /// shared kernel mem freed
    pub total_sfree: u64,
}

impl Flavor for TaskKernelmemoryInfo {
    open spec fn variant_spec() -> FlavorVariant {
        FlavorVariant::TaskKernelmemoryInfo
    }

    open spec fn name_spec() -> Seq<char> {
        "TASK_KERNELMEMORY_INFO\0"@
    }

    open spec fn size_spec() -> nat {
        32
    }

    open spec fn decode_spec(b: Seq<u8>) -> Self {
        TaskKernelmemoryInfo {
            total_palloc: u64_at(b, 0),
            total_pfree: u64_at(b, 8),
            total_salloc: u64_at(b, 16),
            total_sfree: u64_at(b, 24),
        }
    }

    fn variant() -> FlavorVariant {
        FlavorVariant::TaskKernelmemoryInfo
    }

    fn c_name() -> &'static str {
        "TASK_KERNELMEMORY_INFO\0"
    }

    fn byte_len() -> usize {
        32
    }

    fn from_bytes(b: &[u8]) -> Self {
        TaskKernelmemoryInfo {
            total_palloc: read_u64(b, 0),
            total_pfree: read_u64(b, 8),
            total_salloc: read_u64(b, 16),
            total_sfree: read_u64(b, 24),
        }
    }

    proof fn lemma_size_consistent() {
    }

    proof fn lemma_name_consistent() {
    }

    proof fn lemma_decode_local(b1: Seq<u8>, b2: Seq<u8>) {
        crate::bytes::lemma_prefix_agreement(b1, b2, Self::size_spec() as int);
    }

    fn describe() -> Vec<FieldWidth> {
        Vec::new()
    }
}

/// The task's affinity-tag namespace summary.
#[derive(Copy, Clone, Debug, PartialEq, Eq, Structural)]
pub struct TaskAffinityTagInfo {
    pub set_count: integer_t,
    pub min: integer_t,
    pub max: integer_t,
    pub task_count: integer_t,
}

impl Flavor for TaskAffinityTagInfo {
    open spec fn variant_spec() -> FlavorVariant {
        FlavorVariant::TaskAffinityTagInfo
    }

    open spec fn name_spec() -> Seq<char> {
        "TASK_AFFINITY_TAG_INFO\0"@
    }

    open spec fn size_spec() -> nat {
        16
    }

    open spec fn decode_spec(b: Seq<u8>) -> Self {
        TaskAffinityTagInfo {
            set_count: i32_at(b, 0),
            min: i32_at(b, 4),
            max: i32_at(b, 8),
            task_count: i32_at(b, 12),
        }
    }

    fn variant() -> FlavorVariant {
        FlavorVariant::TaskAffinityTagInfo
    }

    fn c_name() -> &'static str {
        "TASK_AFFINITY_TAG_INFO\0"
    }

    fn byte_len() -> usize {
        16
    }

    fn from_bytes(b: &[u8]) -> Self {
        TaskAffinityTagInfo {
            set_count: read_i32(b, 0),
            min: read_i32(b, 4),
            max: read_i32(b, 8),
            task_count: read_i32(b, 12),
        }
    }

    proof fn lemma_size_consistent() {
    }

    proof fn lemma_name_consistent() {
    }

    proof fn lemma_decode_local(b1: Seq<u8>, b2: Seq<u8>) {
        crate::bytes::lemma_prefix_agreement(b1, b2, Self::size_spec() as int);
    }

    fn describe() -> Vec<FieldWidth> {
        Vec::new()
    }
}

/// Where the dynamic linker keeps the task's image-info region.
#[derive(Copy, Clone, Debug, PartialEq, Eq, Structural)]
pub struct TaskDyldInfo {
    pub all_image_info_addr: mach_vm_address_t,
    pub all_image_info_size: mach_vm_size_t,
    pub all_image_info_format: integer_t,
}

impl Flavor for TaskDyldInfo {
    open spec fn variant_spec() -> FlavorVariant {
        FlavorVariant::TaskDyldInfo
    }

    open spec fn name_spec() -> Seq<char> {
        "TASK_DYLD_INFO\0"@
    }

    open spec fn size_spec() -> nat {
        20
    }

    open spec fn decode_spec(b: Seq<u8>) -> Self {
        TaskDyldInfo {
            all_image_info_addr: u64_at(b, 0),
            all_image_info_size: u64_at(b, 8),
            all_image_info_format: i32_at(b, 16),
        }
    }

    fn variant() -> FlavorVariant {
        FlavorVariant::TaskDyldInfo
    }

    fn c_name() -> &'static str {
        "TASK_DYLD_INFO\0"
    }

    fn byte_len() -> usize {
        20
    }

    fn from_bytes(b: &[u8]) -> Self {
        TaskDyldInfo {
            all_image_info_addr: read_u64(b, 0),
            all_image_info_size: read_u64(b, 8),
            all_image_info_format: read_i32(b, 16),
        }
    }

    proof fn lemma_size_consistent() {
    }

    proof fn lemma_name_consistent() {
    }

    proof fn lemma_decode_local(b1: Seq<u8>, b2: Seq<u8>) {
        crate::bytes::lemma_prefix_agreement(b1, b2, Self::size_spec() as int);
    }

    fn describe() -> Vec<FieldWidth> {
        Vec::new()
    }
}

/// The preferred basic task summary.
#[derive(Copy, Clone, Debug, PartialEq, Eq, Structural)]
pub struct MachTaskBasicInfo {
    /// virtual memory size (bytes)
    pub virtual_size: mach_vm_size_t,
    /// resident memory size (bytes)
    pub resident_size: mach_vm_size_t,
    /// maximum resident memory size (bytes)
    pub resident_size_max: mach_vm_size_t,
    /// total user run time for terminated threads
    pub user_time: time_value_t,
    /// total system run time for terminated threads
    pub system_time: time_value_t,
    /// default policy for new threads
    pub policy: policy_t,
    /// suspend count for task
    pub suspend_count: integer_t,
}

impl Flavor for MachTaskBasicInfo {
    open spec fn variant_spec() -> FlavorVariant {
        FlavorVariant::MachTaskBasicInfo
    }

    open spec fn name_spec() -> Seq<char> {
        "MACH_TASK_BASIC_INFO\0"@
    }

    open spec fn size_spec() -> nat {
        48
    }

    open spec fn decode_spec(b: Seq<u8>) -> Self {
        MachTaskBasicInfo {
            virtual_size: u64_at(b, 0),
            resident_size: u64_at(b, 8),
            resident_size_max: u64_at(b, 16),
            user_time: time_value_at(b, 24),
            system_time: time_value_at(b, 32),
            policy: i32_at(b, 40),
            suspend_count: i32_at(b, 44),
        }
    }

    fn variant() -> FlavorVariant {
        FlavorVariant::MachTaskBasicInfo
    }

    fn c_name() -> &'static str {
        "MACH_TASK_BASIC_INFO\0"
    }

    fn byte_len() -> usize {
        48
    }

    fn from_bytes(b: &[u8]) -> Self {
        MachTaskBasicInfo {
            virtual_size: read_u64(b, 0),
            resident_size: read_u64(b, 8),
            resident_size_max: read_u64(b, 16),
            user_time: read_time_value(b, 24),
            system_time: read_time_value(b, 32),
            policy: read_i32(b, 40),
            suspend_count: read_i32(b, 44),
        }
    }

    proof fn lemma_size_consistent() {
    }

    proof fn lemma_name_consistent() {
    }

    proof fn lemma_decode_local(b1: Seq<u8>, b2: Seq<u8>) {
        crate::bytes::lemma_prefix_agreement(b1, b2, Self::size_spec() as int);
    }

    fn describe() -> Vec<FieldWidth> {
        Vec::new()
    }
}

/// CPU energy counters for the task.
#[derive(Copy, Clone, Debug, PartialEq, Eq, Structural)]
pub struct TaskPowerInfo {
    pub total_user: u64,
    pub total_system: u64,
    pub task_interrupt_wakeups: u64,
    pub task_platform_idle_wakeups: u64,
    pub task_timer_wakeups_bin_1: u64,
    pub task_timer_wakeups_bin_2: u64,
}

/// The CPU power record stored at byte offset `off`.
pub open spec fn task_power_info_at(b: Seq<u8>, off: int) -> TaskPowerInfo {
    TaskPowerInfo {
        total_user: u64_at(b, off),
        total_system: u64_at(b, off + 8),
        task_interrupt_wakeups: u64_at(b, off + 16),
        task_platform_idle_wakeups: u64_at(b, off + 24),
        task_timer_wakeups_bin_1: u64_at(b, off + 32),
        task_timer_wakeups_bin_2: u64_at(b, off + 40),
    }
}

/// Reads the CPU power record stored at byte offset `off`.
pub fn read_task_power_info(b: &[u8], off: usize) -> (r: TaskPowerInfo)
    requires
        off + 48 <= b@.len(),
    ensures
        r == task_power_info_at(b@, off as int),
{
    let _n: usize = b.len();
    TaskPowerInfo {
        total_user: read_u64(b, off),
        total_system: read_u64(b, off + 8),
        task_interrupt_wakeups: read_u64(b, off + 16),
        task_platform_idle_wakeups: read_u64(b, off + 24),
        task_timer_wakeups_bin_1: read_u64(b, off + 32),
        task_timer_wakeups_bin_2: read_u64(b, off + 40),
    }
}

impl Flavor for TaskPowerInfo {
    open spec fn variant_spec() -> FlavorVariant {
        FlavorVariant::TaskPowerInfo
    }

    open spec fn name_spec() -> Seq<char> {
        "TASK_POWER_INFO\0"@
    }

    open spec fn size_spec() -> nat {
        48
    }

    open spec fn decode_spec(b: Seq<u8>) -> Self {
        task_power_info_at(b, 0)
    }

    fn variant() -> FlavorVariant {
        FlavorVariant::TaskPowerInfo
    }

    fn c_name() -> &'static str {
        "TASK_POWER_INFO\0"
    }

    fn byte_len() -> usize {
        48
    }

    fn from_bytes(b: &[u8]) -> Self {
        read_task_power_info(b, 0)
    }

    proof fn lemma_size_consistent() {
    }

    proof fn lemma_name_consistent() {
    }

    proof fn lemma_decode_local(b1: Seq<u8>, b2: Seq<u8>) {
        crate::bytes::lemma_prefix_agreement(b1, b2, Self::size_spec() as int);
    }

    fn describe() -> Vec<FieldWidth> {
        Vec::new()
    }
}

/// Virtual-memory usage counters for the task.
#[derive(Copy, Clone, Debug, PartialEq, Eq, Structural)]
pub struct TaskVmInfo {
    /// virtual memory size (bytes)
    pub virtual_size: mach_vm_size_t,
    /// number of memory regions
    pub region_count: integer_t,
    pub page_size: integer_t,
    /// resident memory size (bytes)
    pub resident_size: mach_vm_size_t,
    /// peak resident size (bytes)
    pub resident_size_peak: mach_vm_size_t,
    pub device: mach_vm_size_t,
    pub device_peak: mach_vm_size_t,
    pub internal: mach_vm_size_t,
    pub internal_peak: mach_vm_size_t,
    pub external: mach_vm_size_t,
    pub external_peak: mach_vm_size_t,
    pub reusable: mach_vm_size_t,
    pub reusable_peak: mach_vm_size_t,
    pub purgeable_volatile_pmap: mach_vm_size_t,
    pub purgeable_volatile_resident: mach_vm_size_t,
    pub purgeable_volatile_virtual: mach_vm_size_t,
    pub compressed: mach_vm_size_t,
    pub compressed_peak: mach_vm_size_t,
    pub compressed_lifetime: mach_vm_size_t,
    /// added for the record's first revision
    pub phys_footprint: mach_vm_size_t,
}

impl Flavor for TaskVmInfo {
    open spec fn variant_spec() -> FlavorVariant {
        FlavorVariant::TaskVmInfo
    }

    open spec fn name_spec() -> Seq<char> {
        "TASK_VM_INFO\0"@
    }

    open spec fn size_spec() -> nat {
        152
    }

    open spec fn decode_spec(b: Seq<u8>) -> Self {
        TaskVmInfo {
            virtual_size: u64_at(b, 0),
            region_count: i32_at(b, 8),
            page_size: i32_at(b, 12),
            resident_size: u64_at(b, 16),
            resident_size_peak: u64_at(b, 24),
            device: u64_at(b, 32),
            device_peak: u64_at(b, 40),
            internal: u64_at(b, 48),
            internal_peak: u64_at(b, 56),
            external: u64_at(b, 64),
            external_peak: u64_at(b, 72),
            reusable: u64_at(b, 80),
            reusable_peak: u64_at(b, 88),
            purgeable_volatile_pmap: u64_at(b, 96),
            purgeable_volatile_resident: u64_at(b, 104),
            purgeable_volatile_virtual: u64_at(b, 112),
            compressed: u64_at(b, 120),
            compressed_peak: u64_at(b, 128),
            compressed_lifetime: u64_at(b, 136),
            phys_footprint: u64_at(b, 144),
        }
    }

    fn variant() -> FlavorVariant {
        FlavorVariant::TaskVmInfo
    }

    fn c_name() -> &'static str {
        "TASK_VM_INFO\0"
    }

    fn byte_len() -> usize {
        152
    }

    fn from_bytes(b: &[u8]) -> Self {
        TaskVmInfo {
            virtual_size: read_u64(b, 0),
            region_count: read_i32(b, 8),
            page_size: read_i32(b, 12),
            resident_size: read_u64(b, 16),
            resident_size_peak: read_u64(b, 24),
            device: read_u64(b, 32),
            device_peak: read_u64(b, 40),
            internal: read_u64(b, 48),
            internal_peak: read_u64(b, 56),
            external: read_u64(b, 64),
            external_peak: read_u64(b, 72),
            reusable: read_u64(b, 80),
            reusable_peak: read_u64(b, 88),
            purgeable_volatile_pmap: read_u64(b, 96),
            purgeable_volatile_resident: read_u64(b, 104),
            purgeable_volatile_virtual: read_u64(b, 112),
            compressed: read_u64(b, 120),
            compressed_peak: read_u64(b, 128),
            compressed_lifetime: read_u64(b, 136),
            phys_footprint: read_u64(b, 144),
        }
    }

    proof fn lemma_size_consistent() {
    }

    proof fn lemma_name_consistent() {
    }

    proof fn lemma_decode_local(b1: Seq<u8>, b2: Seq<u8>) {
        crate::bytes::lemma_prefix_agreement(b1, b2, Self::size_spec() as int);
    }

    fn describe() -> Vec<FieldWidth> {
        Vec::new()
    }
}

/// A deliberate thin wrapper: the same layout as `TaskVmInfo`, field for
/// field, under its own flavor code. It stays a distinct nominal type, not an
/// alias, because the host reserves a separate code for it.
#[derive(Copy, Clone, Debug, PartialEq, Eq, Structural)]
pub struct TaskVmInfoPurgeable(pub TaskVmInfo);

impl Flavor for TaskVmInfoPurgeable {
    open spec fn variant_spec() -> FlavorVariant {
        FlavorVariant::TaskVmInfoPurgeable
    }

    open spec fn name_spec() -> Seq<char> {
        "TASK_VM_INFO_PURGEABLE\0"@
    }

    open spec fn size_spec() -> nat {
        152
    }

    open spec fn decode_spec(b: Seq<u8>) -> Self {
        TaskVmInfoPurgeable(TaskVmInfo::decode_spec(b))
    }

    fn variant() -> FlavorVariant {
        FlavorVariant::TaskVmInfoPurgeable
    }

    fn c_name() -> &'static str {
        "TASK_VM_INFO_PURGEABLE\0"
    }

    fn byte_len() -> usize {
        152
    }

    fn from_bytes(b: &[u8]) -> Self {
        TaskVmInfoPurgeable(TaskVmInfo::from_bytes(b))
    }

    proof fn lemma_size_consistent() {
    }

    proof fn lemma_name_consistent() {
    }

    proof fn lemma_decode_local(b1: Seq<u8>, b2: Seq<u8>) {
        crate::bytes::lemma_prefix_agreement(b1, b2, Self::size_spec() as int);
    }

    fn describe() -> Vec<FieldWidth> {
        Vec::new()
    }
}

/// The wrapper record and the record it wraps agree exactly: same byte size,
/// and for any populated bytes the wrapper's field values are the wrapped
/// record's.
pub proof fn lemma_purgeable_wraps_vm_info(b: Seq<u8>)
    ensures
        TaskVmInfoPurgeable::size_spec() == TaskVmInfo::size_spec(),
        TaskVmInfoPurgeable::decode_spec(b).0 == TaskVmInfo::decode_spec(b),
{
}

/// Where the task's trace memory buffer lies.
#[derive(Copy, Clone, Debug, PartialEq, Eq, Structural)]
pub struct TaskTraceMemoryInfo {
    /// address of start of trace memory buffer
    pub user_memory_address: u64,
    /// size of buffer in bytes
    pub buffer_size: u64,
    /// size of mailbox area in bytes
    pub mailbox_array_size: u64,
}

impl Flavor for TaskTraceMemoryInfo {
    open spec fn variant_spec() -> FlavorVariant {
        FlavorVariant::TaskTraceMemoryInfo
    }

    open spec fn name_spec() -> Seq<char> {
        "TASK_TRACE_MEMORY_INFO\0"@
    }

    open spec fn size_spec() -> nat {
        24
    }

    open spec fn decode_spec(b: Seq<u8>) -> Self {
        TaskTraceMemoryInfo {
            user_memory_address: u64_at(b, 0),
            buffer_size: u64_at(b, 8),
            mailbox_array_size: u64_at(b, 16),
        }
    }

    fn variant() -> FlavorVariant {
        FlavorVariant::TaskTraceMemoryInfo
    }

    fn c_name() -> &'static str {
        "TASK_TRACE_MEMORY_INFO\0"
    }

    fn byte_len() -> usize {
        24
    }

    fn from_bytes(b: &[u8]) -> Self {
        TaskTraceMemoryInfo {
            user_memory_address: read_u64(b, 0),
            buffer_size: read_u64(b, 8),
            mailbox_array_size: read_u64(b, 16),
        }
    }

    proof fn lemma_size_consistent() {
    }

    proof fn lemma_name_consistent() {
    }

    proof fn lemma_decode_local(b1: Seq<u8>, b2: Seq<u8>) {
        crate::bytes::lemma_prefix_agreement(b1, b2, Self::size_spec() as int);
    }

    fn describe() -> Vec<FieldWidth> {
        Vec::new()
    }
}

/// Cumulative wait-state times; the native record's reserved tail region
/// stays as explicit fields of matching width.
#[derive(Copy, Clone, Debug, PartialEq, Eq, Structural)]
pub struct TaskWaitStateInfo {
    /// Time that all threads past and present have been in a wait state
    pub total_wait_state_time: u64,
    /// Time that threads have been in SFI wait (should be a subset of total
    /// wait state time)
    pub total_wait_sfi_state_time: u64,
    /// reserved native region, first word
    pub reserved0: u32,
    /// reserved native region, second word
    pub reserved1: u32,
    /// reserved native region, third word
    pub reserved2: u32,
    /// reserved native region, fourth word
    pub reserved3: u32,
}

impl Flavor for TaskWaitStateInfo {
    open spec fn variant_spec() -> FlavorVariant {
        FlavorVariant::TaskWaitStateInfo
    }

    open spec fn name_spec() -> Seq<char> {
        "TASK_WAIT_STATE_INFO\0"@
    }

    open spec fn size_spec() -> nat {
        32
    }

    open spec fn decode_spec(b: Seq<u8>) -> Self {
        TaskWaitStateInfo {
            total_wait_state_time: u64_at(b, 0),
            total_wait_sfi_state_time: u64_at(b, 8),
            reserved0: u32_at(b, 16),
            reserved1: u32_at(b, 20),
            reserved2: u32_at(b, 24),
            reserved3: u32_at(b, 28),
        }
    }

    fn variant() -> FlavorVariant {
        FlavorVariant::TaskWaitStateInfo
    }

    fn c_name() -> &'static str {
        "TASK_WAIT_STATE_INFO\0"
    }

    fn byte_len() -> usize {
        32
    }

    fn from_bytes(b: &[u8]) -> Self {
        TaskWaitStateInfo {
            total_wait_state_time: read_u64(b, 0),
            total_wait_sfi_state_time: read_u64(b, 8),
            reserved0: read_u32(b, 16),
            reserved1: read_u32(b, 20),
            reserved2: read_u32(b, 24),
            reserved3: read_u32(b, 28),
        }
    }

    proof fn lemma_size_consistent() {
    }

    proof fn lemma_name_consistent() {
    }

    proof fn lemma_decode_local(b1: Seq<u8>, b2: Seq<u8>) {
        crate::bytes::lemma_prefix_agreement(b1, b2, Self::size_spec() as int);
    }

    fn describe() -> Vec<FieldWidth> {
        Vec::new()
    }
}

/// GPU energy counters; not a flavor of its own, only the tail of
/// `TaskPowerInfoV2`.
#[derive(Copy, Clone, Debug, PartialEq, Eq, Structural)]
pub struct GpuEnergyData {
    pub task_gpu_utilisation: u64,
    pub task_gpu_stat_reserved0: u64,
    pub task_gpu_stat_reserved1: u64,
    pub task_gpu_stat_reserved2: u64,
}

/// The GPU energy record stored at byte offset `off`.
pub open spec fn gpu_energy_data_at(b: Seq<u8>, off: int) -> GpuEnergyData {
    GpuEnergyData {
        task_gpu_utilisation: u64_at(b, off),
        task_gpu_stat_reserved0: u64_at(b, off + 8),
        task_gpu_stat_reserved1: u64_at(b, off + 16),
        task_gpu_stat_reserved2: u64_at(b, off + 24),
    }
}

/// Reads the GPU energy record stored at byte offset `off`.
pub fn read_gpu_energy_data(b: &[u8], off: usize) -> (r: GpuEnergyData)
    requires
        off + 32 <= b@.len(),
    ensures
        r == gpu_energy_data_at(b@, off as int),
{
    let _n: usize = b.len();
    GpuEnergyData {
        task_gpu_utilisation: read_u64(b, off),
        task_gpu_stat_reserved0: read_u64(b, off + 8),
        task_gpu_stat_reserved1: read_u64(b, off + 16),
        task_gpu_stat_reserved2: read_u64(b, off + 24),
    }
}

/// CPU and GPU energy counters together.
#[derive(Copy, Clone, Debug, PartialEq, Eq, Structural)]
pub struct TaskPowerInfoV2 {
    pub cpu_energy: TaskPowerInfo,
    pub gpu_energy: GpuEnergyData,
}

impl Flavor for TaskPowerInfoV2 {
    open spec fn variant_spec() -> FlavorVariant {
        FlavorVariant::TaskPowerInfoV2
    }

    open spec fn name_spec() -> Seq<char> {
        "TASK_POWER_INFO_V2\0"@
    }

    open spec fn size_spec() -> nat {
        80
    }

    open spec fn decode_spec(b: Seq<u8>) -> Self {
        TaskPowerInfoV2 {
            cpu_energy: task_power_info_at(b, 0),
            gpu_energy: gpu_energy_data_at(b, 48),
        }
    }

    fn variant() -> FlavorVariant {
        FlavorVariant::TaskPowerInfoV2
    }

    fn c_name() -> &'static str {
        "TASK_POWER_INFO_V2\0"
    }

    fn byte_len() -> usize {
        80
    }

    fn from_bytes(b: &[u8]) -> Self {
        TaskPowerInfoV2 {
            cpu_energy: read_task_power_info(b, 0),
            gpu_energy: read_gpu_energy_data(b, 48),
        }
    }

    proof fn lemma_size_consistent() {
    }

    proof fn lemma_name_consistent() {
    }

    proof fn lemma_decode_local(b1: Seq<u8>, b2: Seq<u8>) {
        crate::bytes::lemma_prefix_agreement(b1, b2, Self::size_spec() as int);
    }

    fn describe() -> Vec<FieldWidth> {
        Vec::new()
    }
}

/// The task's flag word.
#[derive(Copy, Clone, Debug, PartialEq, Eq, Structural)]
pub struct TaskFlagsInfo {
    /// task flags
    pub flags: u32,
}

impl Flavor for TaskFlagsInfo {
    open spec fn variant_spec() -> FlavorVariant {
        FlavorVariant::TaskFlagsInfo
    }

    open spec fn name_spec() -> Seq<char> {
        "TASK_FLAGS_INFO\0"@
    }

    open spec fn size_spec() -> nat {
        4
    }

    open spec fn decode_spec(b: Seq<u8>) -> Self {
        TaskFlagsInfo { flags: u32_at(b, 0) }
    }

    fn variant() -> FlavorVariant {
        FlavorVariant::TaskFlagsInfo
    }

    fn c_name() -> &'static str {
        "TASK_FLAGS_INFO\0"
    }

    fn byte_len() -> usize {
        4
    }

    fn from_bytes(b: &[u8]) -> Self {
        TaskFlagsInfo { flags: read_u32(b, 0) }
    }

    proof fn lemma_size_consistent() {
    }

    proof fn lemma_name_consistent() {
    }

    proof fn lemma_decode_local(b1: Seq<u8>, b2: Seq<u8>) {
        crate::bytes::lemma_prefix_agreement(b1, b2, Self::size_spec() as int);
    }

    fn describe() -> Vec<FieldWidth> {
        Vec::new()
    }
}

/// The breakdown `TaskBasicInfo64::describe` reports covers the whole
/// record: its field widths sum to the declared layout size.
pub proof fn lemma_basic_info_64_breakdown_total()
    ensures
        TaskBasicInfo64::describe_spec()[0].1 + TaskBasicInfo64::describe_spec()[1].1
            + TaskBasicInfo64::describe_spec()[2].1 + TaskBasicInfo64::describe_spec()[3].1
            + TaskBasicInfo64::describe_spec()[4].1 + TaskBasicInfo64::describe_spec()[5].1
            == TaskBasicInfo64::size_spec(),
{
}

} // verus!
