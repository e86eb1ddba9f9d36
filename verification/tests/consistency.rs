// Validation-harness tests: a stand-in host answers the diagnostic queries
// (code lookup by name, native size by code) with the host ABI's own values,
// and every registered binding is checked against it.

use task_info::flavor::Flavor;
use task_info::records::MachTaskBasicInfo;
use task_info::records::TaskAbsolutetimeInfo;
use task_info::records::TaskAffinityTagInfo;
use task_info::records::TaskBasicInfo32;
use task_info::records::TaskBasicInfo64;
use task_info::records::TaskDyldInfo;
use task_info::records::TaskEventsInfo;
use task_info::records::TaskFlagsInfo;
use task_info::records::TaskKernelmemoryInfo;
use task_info::records::TaskPowerInfo;
use task_info::records::TaskPowerInfoV2;
use task_info::records::TaskThreadTimesInfo;
use task_info::records::TaskTraceMemoryInfo;
use task_info::records::TaskVmInfo;
use task_info::records::TaskVmInfoPurgeable;
use task_info::records::TaskWaitStateInfo;
use task_info::registry::all_flavors;
use task_info::registry::FlavorVariant;
use task_info::validate::bindings;
use task_info::validate::check_size;
use task_info::validate::check_value;
use task_info::validate::validate;
use task_info::validate::validate_registry;
use task_info::validate::FaultKind;
use task_info::validate::HostReport;
use task_info::validate::SizeCheck;

/// What the host's name-to-code lookup returns: the ABI's reserved code for
/// each known diagnostic name, negative for an unknown name.
fn host_code_for_name(name: &str) -> i32 {
    match name {
        "TASK_BASIC_INFO_32\0" => 4,
        "TASK_BASIC_INFO_64\0" => 5,
        "TASK_EVENTS_INFO\0" => 2,
        "TASK_THREAD_TIMES_INFO\0" => 3,
        "TASK_ABSOLUTETIME_INFO\0" => 1,
        "TASK_KERNELMEMORY_INFO\0" => 7,
        "TASK_AFFINITY_TAG_INFO\0" => 16,
        "TASK_DYLD_INFO\0" => 17,
        "MACH_TASK_BASIC_INFO\0" => 20,
        "TASK_POWER_INFO\0" => 21,
        "TASK_VM_INFO\0" => 22,
        "TASK_VM_INFO_PURGEABLE\0" => 23,
        "TASK_TRACE_MEMORY_INFO\0" => 24,
        "TASK_WAIT_STATE_INFO\0" => 25,
        "TASK_POWER_INFO_V2\0" => 26,
        "TASK_FLAGS_INFO\0" => 28,
        _ => -1,
    }
}

/// What the host reports as the native structure size for each flavor code.
fn host_size_for_code(code: i32) -> usize {
    match code {
        4 => 32,
        5 => 40,
        2 => 32,
        3 => 16,
        1 => 32,
        7 => 32,
        16 => 16,
        17 => 20,
        20 => 48,
        21 => 48,
        22 => 152,
        23 => 152,
        24 => 24,
        25 => 32,
        26 => 80,
        28 => 4,
        _ => 0,
    }
}

fn host_reports() -> Vec<HostReport> {
    all_flavors()
        .into_iter()
        .map(|v| HostReport {
            code_for_name: host_code_for_name(v.name()),
            size_for_code: host_size_for_code(v.code()),
        })
        .collect()
}

#[test]
fn check_flavor_values() {
    assert!(check_value::<TaskBasicInfo32>(host_code_for_name(TaskBasicInfo32::c_name())));
    assert!(check_value::<TaskBasicInfo64>(host_code_for_name(TaskBasicInfo64::c_name())));
    assert!(check_value::<TaskEventsInfo>(host_code_for_name(TaskEventsInfo::c_name())));
    assert!(check_value::<TaskThreadTimesInfo>(host_code_for_name(TaskThreadTimesInfo::c_name())));
    assert!(check_value::<TaskAbsolutetimeInfo>(host_code_for_name(
        TaskAbsolutetimeInfo::c_name()
    )));
    assert!(check_value::<TaskKernelmemoryInfo>(host_code_for_name(
        TaskKernelmemoryInfo::c_name()
    )));
    assert!(check_value::<TaskAffinityTagInfo>(host_code_for_name(TaskAffinityTagInfo::c_name())));
    assert!(check_value::<TaskDyldInfo>(host_code_for_name(TaskDyldInfo::c_name())));
    assert!(check_value::<MachTaskBasicInfo>(host_code_for_name(MachTaskBasicInfo::c_name())));
    assert!(check_value::<TaskPowerInfo>(host_code_for_name(TaskPowerInfo::c_name())));
    assert!(check_value::<TaskVmInfo>(host_code_for_name(TaskVmInfo::c_name())));
    assert!(check_value::<TaskVmInfoPurgeable>(host_code_for_name(TaskVmInfoPurgeable::c_name())));
    assert!(check_value::<TaskTraceMemoryInfo>(host_code_for_name(TaskTraceMemoryInfo::c_name())));
    assert!(check_value::<TaskWaitStateInfo>(host_code_for_name(TaskWaitStateInfo::c_name())));
    assert!(check_value::<TaskPowerInfoV2>(host_code_for_name(TaskPowerInfoV2::c_name())));
    assert!(check_value::<TaskFlagsInfo>(host_code_for_name(TaskFlagsInfo::c_name())));
}

#[test]
fn check_sizes() {
    assert!(check_size::<TaskBasicInfo32>(host_size_for_code(TaskBasicInfo32::variant().code()))
        .is_match());
    assert!(check_size::<TaskBasicInfo64>(host_size_for_code(TaskBasicInfo64::variant().code()))
        .is_match());
    assert!(check_size::<TaskEventsInfo>(host_size_for_code(TaskEventsInfo::variant().code()))
        .is_match());
    assert!(check_size::<TaskThreadTimesInfo>(host_size_for_code(
        TaskThreadTimesInfo::variant().code()
    ))
    .is_match());
    assert!(check_size::<TaskAbsolutetimeInfo>(host_size_for_code(
        TaskAbsolutetimeInfo::variant().code()
    ))
    .is_match());
    assert!(check_size::<TaskKernelmemoryInfo>(host_size_for_code(
        TaskKernelmemoryInfo::variant().code()
    ))
    .is_match());
    assert!(check_size::<TaskAffinityTagInfo>(host_size_for_code(
        TaskAffinityTagInfo::variant().code()
    ))
    .is_match());
    assert!(
        check_size::<TaskDyldInfo>(host_size_for_code(TaskDyldInfo::variant().code())).is_match()
    );
    assert!(check_size::<MachTaskBasicInfo>(host_size_for_code(
        MachTaskBasicInfo::variant().code()
    ))
    .is_match());
    assert!(
        check_size::<TaskPowerInfo>(host_size_for_code(TaskPowerInfo::variant().code()))
            .is_match()
    );
    assert!(check_size::<TaskVmInfo>(host_size_for_code(TaskVmInfo::variant().code())).is_match());
    assert!(check_size::<TaskVmInfoPurgeable>(host_size_for_code(
        TaskVmInfoPurgeable::variant().code()
    ))
    .is_match());
    assert!(check_size::<TaskTraceMemoryInfo>(host_size_for_code(
        TaskTraceMemoryInfo::variant().code()
    ))
    .is_match());
    assert!(check_size::<TaskWaitStateInfo>(host_size_for_code(
        TaskWaitStateInfo::variant().code()
    ))
    .is_match());
    assert!(check_size::<TaskPowerInfoV2>(host_size_for_code(TaskPowerInfoV2::variant().code()))
        .is_match());
    assert!(
        check_size::<TaskFlagsInfo>(host_size_for_code(TaskFlagsInfo::variant().code()))
            .is_match()
    );
}

#[test]
fn flavor_codes_exact() {
    assert_eq!(TaskBasicInfo32::variant().code(), 4);
    assert_eq!(TaskBasicInfo64::variant().code(), 5);
    assert_eq!(TaskEventsInfo::variant().code(), 2);
    assert_eq!(TaskThreadTimesInfo::variant().code(), 3);
    assert_eq!(TaskAbsolutetimeInfo::variant().code(), 1);
    assert_eq!(TaskKernelmemoryInfo::variant().code(), 7);
    assert_eq!(TaskAffinityTagInfo::variant().code(), 16);
    assert_eq!(TaskDyldInfo::variant().code(), 17);
    assert_eq!(MachTaskBasicInfo::variant().code(), 20);
    assert_eq!(TaskPowerInfo::variant().code(), 21);
    assert_eq!(TaskVmInfo::variant().code(), 22);
    assert_eq!(TaskVmInfoPurgeable::variant().code(), 23);
    assert_eq!(TaskTraceMemoryInfo::variant().code(), 24);
    assert_eq!(TaskWaitStateInfo::variant().code(), 25);
    assert_eq!(TaskPowerInfoV2::variant().code(), 26);
    assert_eq!(TaskFlagsInfo::variant().code(), 28);
}

#[test]
fn declared_sizes_exact() {
    assert_eq!(TaskBasicInfo32::byte_len(), 32);
    assert_eq!(TaskBasicInfo64::byte_len(), 40);
    assert_eq!(TaskEventsInfo::byte_len(), 32);
    assert_eq!(TaskThreadTimesInfo::byte_len(), 16);
    assert_eq!(TaskAbsolutetimeInfo::byte_len(), 32);
    assert_eq!(TaskKernelmemoryInfo::byte_len(), 32);
    assert_eq!(TaskAffinityTagInfo::byte_len(), 16);
    assert_eq!(TaskDyldInfo::byte_len(), 20);
    assert_eq!(MachTaskBasicInfo::byte_len(), 48);
    assert_eq!(TaskPowerInfo::byte_len(), 48);
    assert_eq!(TaskVmInfo::byte_len(), 152);
    assert_eq!(TaskVmInfoPurgeable::byte_len(), 152);
    assert_eq!(TaskTraceMemoryInfo::byte_len(), 24);
    assert_eq!(TaskWaitStateInfo::byte_len(), 32);
    assert_eq!(TaskPowerInfoV2::byte_len(), 80);
    assert_eq!(TaskFlagsInfo::byte_len(), 4);
}

#[test]
fn validate_registry_clean() {
    let reports = host_reports();
    let report = validate_registry(&reports);
    assert!(report.ok());
    assert!(report.faults.is_empty());
}

#[test]
fn validate_reports_each_fault_kind() {
    let bs = bindings();
    let mut reports = host_reports();
    // Unknown name for the first binding, wrong code for the second, wrong
    // size for the third.
    reports[0].code_for_name = -3;
    reports[1].code_for_name = 6;
    reports[2].size_for_code = 36;
    let report = validate(&bs, &reports);
    assert!(!report.ok());
    assert_eq!(report.faults.len(), 3);
    assert_eq!(report.faults[0].variant, FlavorVariant::TaskBasicInfo32);
    assert_eq!(report.faults[0].kind, FaultKind::LookupNegative { got: -3 });
    assert_eq!(report.faults[1].variant, FlavorVariant::TaskBasicInfo64);
    assert_eq!(
        report.faults[1].kind,
        FaultKind::CodeMismatch { declared_code: 5, reported_code: 6 }
    );
    assert_eq!(report.faults[2].variant, FlavorVariant::TaskEventsInfo);
    assert_eq!(
        report.faults[2].kind,
        FaultKind::SizeMismatch { declared_size: 32, reported_size: 36 }
    );
}

#[test]
fn check_value_rejects_disagreement() {
    // Negative lookup: the host does not know the name.
    assert!(!check_value::<TaskVmInfo>(-1));
    // The host knows the name under a different code.
    assert!(!check_value::<TaskVmInfo>(23));
}

#[test]
fn check_size_reports_breakdown() {
    let r = check_size::<TaskBasicInfo64>(44);
    match r {
        SizeCheck::Match => panic!("sizes must disagree"),
        SizeCheck::Mismatch { declared, reported, breakdown } => {
            assert_eq!(declared, 40);
            assert_eq!(reported, 44);
            let names: Vec<&str> = breakdown.iter().map(|f| f.name).collect();
            assert_eq!(
                names,
                vec![
                    "suspend_count",
                    "virtual_size",
                    "resident_size",
                    "user_time",
                    "system_time",
                    "policy"
                ]
            );
            let total: usize = breakdown.iter().map(|f| f.width).sum();
            assert_eq!(total, TaskBasicInfo64::byte_len());
        }
    }
}

#[test]
fn excluded_codes_stay_absent() {
    let flavors = all_flavors();
    assert_eq!(flavors.len(), 16);
    for v in &flavors {
        let code = v.code();
        assert_ne!(code, 13);
        assert_ne!(code, 15);
        assert_ne!(code, 19);
    }
    // The registry is one-to-one: no two flavors share a code.
    for (i, a) in flavors.iter().enumerate() {
        for b in &flavors[i + 1..] {
            assert_ne!(a.code(), b.code());
            assert_ne!(a.name(), b.name());
        }
    }
}

#[test]
fn names_are_nul_terminated() {
    for v in &all_flavors() {
        let name = v.name();
        assert!(name.ends_with('\0'));
        assert_eq!(host_code_for_name(name), v.code());
    }
}
