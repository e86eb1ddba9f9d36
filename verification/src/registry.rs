//! The closed set of supported flavor codes.
//!
//! Each variant names one native record layout the host query call can fill.
//! The numeric codes are fixed by the host interface's ABI; a few codes the
//! host defines are deliberately unbound here (token records without a struct
//! here, and an alignment-directive layout too risky to mirror byte for
//! byte), and those must never appear in the iteration the validator walks.

use vstd::prelude::*;

verus! {

/// One supported flavor: a numeric selector telling the host query call
/// which kind of task-information record to produce.
#[derive(Copy, Clone, Debug, PartialEq, Eq, Structural)]
pub enum FlavorVariant {
    TaskBasicInfo32,
    TaskBasicInfo64,
    TaskEventsInfo,
    TaskThreadTimesInfo,
    TaskAbsolutetimeInfo,
    TaskKernelmemoryInfo,
    TaskAffinityTagInfo,
    TaskDyldInfo,
    MachTaskBasicInfo,
    TaskPowerInfo,
    TaskVmInfo,
    TaskVmInfoPurgeable,
    TaskTraceMemoryInfo,
    TaskWaitStateInfo,
    TaskPowerInfoV2,
    TaskFlagsInfo,
}

/// The numeric code the host interface reserves for each supported flavor.
pub open spec fn flavor_code(v: FlavorVariant) -> i32 {
    match v {
        FlavorVariant::TaskBasicInfo32 => 4,
        FlavorVariant::TaskBasicInfo64 => 5,
        FlavorVariant::TaskEventsInfo => 2,
        FlavorVariant::TaskThreadTimesInfo => 3,
        FlavorVariant::TaskAbsolutetimeInfo => 1,
        FlavorVariant::TaskKernelmemoryInfo => 7,
        FlavorVariant::TaskAffinityTagInfo => 16,
        FlavorVariant::TaskDyldInfo => 17,
        FlavorVariant::MachTaskBasicInfo => 20,
        FlavorVariant::TaskPowerInfo => 21,
        FlavorVariant::TaskVmInfo => 22,
        FlavorVariant::TaskVmInfoPurgeable => 23,
        FlavorVariant::TaskTraceMemoryInfo => 24,
        FlavorVariant::TaskWaitStateInfo => 25,
        FlavorVariant::TaskPowerInfoV2 => 26,
        FlavorVariant::TaskFlagsInfo => 28,
    }
}

/// The host-recognized symbolic name of each supported flavor, as a
/// NUL-terminated C string. Used for validation and diagnostics only.
pub open spec fn flavor_name(v: FlavorVariant) -> Seq<char> {
    match v {
        FlavorVariant::TaskBasicInfo32 => "TASK_BASIC_INFO_32\0"@,
        FlavorVariant::TaskBasicInfo64 => "TASK_BASIC_INFO_64\0"@,
        FlavorVariant::TaskEventsInfo => "TASK_EVENTS_INFO\0"@,
        FlavorVariant::TaskThreadTimesInfo => "TASK_THREAD_TIMES_INFO\0"@,
        FlavorVariant::TaskAbsolutetimeInfo => "TASK_ABSOLUTETIME_INFO\0"@,
        FlavorVariant::TaskKernelmemoryInfo => "TASK_KERNELMEMORY_INFO\0"@,
        FlavorVariant::TaskAffinityTagInfo => "TASK_AFFINITY_TAG_INFO\0"@,
        FlavorVariant::TaskDyldInfo => "TASK_DYLD_INFO\0"@,
        FlavorVariant::MachTaskBasicInfo => "MACH_TASK_BASIC_INFO\0"@,
        FlavorVariant::TaskPowerInfo => "TASK_POWER_INFO\0"@,
        FlavorVariant::TaskVmInfo => "TASK_VM_INFO\0"@,
        FlavorVariant::TaskVmInfoPurgeable => "TASK_VM_INFO_PURGEABLE\0"@,
        FlavorVariant::TaskTraceMemoryInfo => "TASK_TRACE_MEMORY_INFO\0"@,
        FlavorVariant::TaskWaitStateInfo => "TASK_WAIT_STATE_INFO\0"@,
        FlavorVariant::TaskPowerInfoV2 => "TASK_POWER_INFO_V2\0"@,
        FlavorVariant::TaskFlagsInfo => "TASK_FLAGS_INFO\0"@,
    }
}

/// The byte size of the native structure the host writes for each flavor:
/// the packed sum of the record's field widths on the host ABI.
pub open spec fn native_size_of(v: FlavorVariant) -> nat {
    match v {
        FlavorVariant::TaskBasicInfo32 => 32,
        FlavorVariant::TaskBasicInfo64 => 40,
        FlavorVariant::TaskEventsInfo => 32,
        FlavorVariant::TaskThreadTimesInfo => 16,
        FlavorVariant::TaskAbsolutetimeInfo => 32,
        FlavorVariant::TaskKernelmemoryInfo => 32,
        FlavorVariant::TaskAffinityTagInfo => 16,
        FlavorVariant::TaskDyldInfo => 20,
        FlavorVariant::MachTaskBasicInfo => 48,
        FlavorVariant::TaskPowerInfo => 48,
        FlavorVariant::TaskVmInfo => 152,
        FlavorVariant::TaskVmInfoPurgeable => 152,
        FlavorVariant::TaskTraceMemoryInfo => 24,
        FlavorVariant::TaskWaitStateInfo => 32,
        FlavorVariant::TaskPowerInfoV2 => 80,
        FlavorVariant::TaskFlagsInfo => 4,
    }
}

/// Every registered flavor, in the order the validator walks them.
pub open spec fn registry_seq() -> Seq<FlavorVariant> {
    seq![
        FlavorVariant::TaskBasicInfo32,
        FlavorVariant::TaskBasicInfo64,
        FlavorVariant::TaskEventsInfo,
        FlavorVariant::TaskThreadTimesInfo,
        FlavorVariant::TaskAbsolutetimeInfo,
        FlavorVariant::TaskKernelmemoryInfo,
        FlavorVariant::TaskAffinityTagInfo,
        FlavorVariant::TaskDyldInfo,
        FlavorVariant::MachTaskBasicInfo,
        FlavorVariant::TaskPowerInfo,
        FlavorVariant::TaskVmInfo,
        FlavorVariant::TaskVmInfoPurgeable,
        FlavorVariant::TaskTraceMemoryInfo,
        FlavorVariant::TaskWaitStateInfo,
        FlavorVariant::TaskPowerInfoV2,
        FlavorVariant::TaskFlagsInfo,
    ]
}

impl FlavorVariant {
    /// This flavor's fixed numeric code.
    pub fn code(self) -> (c: i32)
        ensures
            c == flavor_code(self),
    {
        match self {
            FlavorVariant::TaskBasicInfo32 => 4,
            FlavorVariant::TaskBasicInfo64 => 5,
            FlavorVariant::TaskEventsInfo => 2,
            FlavorVariant::TaskThreadTimesInfo => 3,
            FlavorVariant::TaskAbsolutetimeInfo => 1,
            FlavorVariant::TaskKernelmemoryInfo => 7,
            FlavorVariant::TaskAffinityTagInfo => 16,
            FlavorVariant::TaskDyldInfo => 17,
            FlavorVariant::MachTaskBasicInfo => 20,
            FlavorVariant::TaskPowerInfo => 21,
            FlavorVariant::TaskVmInfo => 22,
            FlavorVariant::TaskVmInfoPurgeable => 23,
            FlavorVariant::TaskTraceMemoryInfo => 24,
            FlavorVariant::TaskWaitStateInfo => 25,
            FlavorVariant::TaskPowerInfoV2 => 26,
            FlavorVariant::TaskFlagsInfo => 28,
        }
    }

    /// This flavor's host-recognized symbolic name, NUL-terminated.
    pub fn name(self) -> (s: &'static str)
        ensures
            s@ == flavor_name(self),
    {
        match self {
            FlavorVariant::TaskBasicInfo32 => "TASK_BASIC_INFO_32\0",
            FlavorVariant::TaskBasicInfo64 => "TASK_BASIC_INFO_64\0",
            FlavorVariant::TaskEventsInfo => "TASK_EVENTS_INFO\0",
            FlavorVariant::TaskThreadTimesInfo => "TASK_THREAD_TIMES_INFO\0",
            FlavorVariant::TaskAbsolutetimeInfo => "TASK_ABSOLUTETIME_INFO\0",
            FlavorVariant::TaskKernelmemoryInfo => "TASK_KERNELMEMORY_INFO\0",
            FlavorVariant::TaskAffinityTagInfo => "TASK_AFFINITY_TAG_INFO\0",
            FlavorVariant::TaskDyldInfo => "TASK_DYLD_INFO\0",
            FlavorVariant::MachTaskBasicInfo => "MACH_TASK_BASIC_INFO\0",
            FlavorVariant::TaskPowerInfo => "TASK_POWER_INFO\0",
            FlavorVariant::TaskVmInfo => "TASK_VM_INFO\0",
            FlavorVariant::TaskVmInfoPurgeable => "TASK_VM_INFO_PURGEABLE\0",
            FlavorVariant::TaskTraceMemoryInfo => "TASK_TRACE_MEMORY_INFO\0",
            FlavorVariant::TaskWaitStateInfo => "TASK_WAIT_STATE_INFO\0",
            FlavorVariant::TaskPowerInfoV2 => "TASK_POWER_INFO_V2\0",
            FlavorVariant::TaskFlagsInfo => "TASK_FLAGS_INFO\0",
        }
    }
}

/// Every registered flavor, in the validator's iteration order.
pub fn all_flavors() -> (v: Vec<FlavorVariant>)
    ensures
        v@ == registry_seq(),
{
    let mut v: Vec<FlavorVariant> = Vec::new();
    v.push(FlavorVariant::TaskBasicInfo32);
    v.push(FlavorVariant::TaskBasicInfo64);
    v.push(FlavorVariant::TaskEventsInfo);
    v.push(FlavorVariant::TaskThreadTimesInfo);
    v.push(FlavorVariant::TaskAbsolutetimeInfo);
    v.push(FlavorVariant::TaskKernelmemoryInfo);
    v.push(FlavorVariant::TaskAffinityTagInfo);
    v.push(FlavorVariant::TaskDyldInfo);
    v.push(FlavorVariant::MachTaskBasicInfo);
    v.push(FlavorVariant::TaskPowerInfo);
    v.push(FlavorVariant::TaskVmInfo);
    v.push(FlavorVariant::TaskVmInfoPurgeable);
    v.push(FlavorVariant::TaskTraceMemoryInfo);
    v.push(FlavorVariant::TaskWaitStateInfo);
    v.push(FlavorVariant::TaskPowerInfoV2);
    v.push(FlavorVariant::TaskFlagsInfo);
    proof {
        assert(v@ =~= registry_seq());
    }
    v
}

/// The registry is one-to-one: distinct flavors never share a numeric code.
pub proof fn lemma_codes_injective()
    ensures
        forall|a: FlavorVariant, b: FlavorVariant|
            flavor_code(a) == flavor_code(b) ==> a == b,
{
}

/// The registry is one-to-one in names as well: distinct flavors never share
/// a diagnostic name.
pub proof fn lemma_names_injective()
    ensures
        forall|a: FlavorVariant, b: FlavorVariant|
            flavor_name(a) == flavor_name(b) ==> a == b,
{
    reveal_strlit("TASK_BASIC_INFO_32\0");
    reveal_strlit("TASK_BASIC_INFO_64\0");
    reveal_strlit("TASK_EVENTS_INFO\0");
    reveal_strlit("TASK_THREAD_TIMES_INFO\0");
    reveal_strlit("TASK_ABSOLUTETIME_INFO\0");
    reveal_strlit("TASK_KERNELMEMORY_INFO\0");
    reveal_strlit("TASK_AFFINITY_TAG_INFO\0");
    reveal_strlit("TASK_DYLD_INFO\0");
    reveal_strlit("MACH_TASK_BASIC_INFO\0");
    reveal_strlit("TASK_POWER_INFO\0");
    reveal_strlit("TASK_VM_INFO\0");
    reveal_strlit("TASK_VM_INFO_PURGEABLE\0");
    reveal_strlit("TASK_TRACE_MEMORY_INFO\0");
    reveal_strlit("TASK_WAIT_STATE_INFO\0");
    reveal_strlit("TASK_POWER_INFO_V2\0");
    reveal_strlit("TASK_FLAGS_INFO\0");
    assert forall|a: FlavorVariant, b: FlavorVariant|
        flavor_name(a) == flavor_name(b) implies a == b by {
        let sa = flavor_name(a);
        let sb = flavor_name(b);
        assert(sa.len() == sb.len());
        assert(sa[0] == sb[0] && sa[5] == sb[5] && sa[6] == sb[6]);
        if sa.len() == 19 {
            assert(sa[16] == sb[16]);
        }
    }
}

/// Codes the host defines but the registry deliberately excludes — the token
/// record codes and the alignment-directive layout — never appear in the
/// iteration the validator walks.
pub proof fn lemma_excluded_codes_absent()
    ensures
        forall|i: int|
            0 <= i < registry_seq().len() ==> flavor_code(#[trigger] registry_seq()[i]) != 13
                && flavor_code(registry_seq()[i]) != 15 && flavor_code(registry_seq()[i]) != 19,
{
    assert forall|i: int| 0 <= i < registry_seq().len() implies flavor_code(
        #[trigger] registry_seq()[i],
    ) != 13 && flavor_code(registry_seq()[i]) != 15 && flavor_code(registry_seq()[i]) != 19 by {
        let v = registry_seq()[i];
        assert(flavor_code(v) != 13 && flavor_code(v) != 15 && flavor_code(v) != 19);
    }
}

} // verus!
