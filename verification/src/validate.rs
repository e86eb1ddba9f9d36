//! The consistency validator: cross-checks every registered binding against
//! host-reported ground truth.
//!
//! The host's diagnostic entry points (look a code up by name, report the
//! native size for a code) live outside this library; a verification harness
//! invokes them and hands the answers in as plain values. Two independent
//! checks run for every binding: the value check (the registry's numeric code
//! equals the host's lookup of the diagnostic name) and the size check (the
//! declared layout size equals the host-reported native size). Any single
//! failure fails the whole run and names the offending flavor with the
//! expected and actual values.

use vstd::prelude::*;
use crate::flavor::FieldWidth;
use crate::flavor::Flavor;
use crate::registry::FlavorVariant;
use crate::registry::flavor_code;
use crate::registry::native_size_of;
use crate::registry::registry_seq;

verus! {

/// Whether the host's lookup of a flavor's diagnostic name confirms the
/// registry's numeric code: the lookup succeeded (non-negative) and returned
/// exactly the declared code.
pub open spec fn value_check_passes(declared: i32, reported: i32) -> bool {
    reported >= 0 && reported == declared
}

/// The value check for record type `F`: `reported` is what the host's
/// name-to-code lookup returned for `F`'s diagnostic name. Passes exactly
/// when the lookup succeeded and agrees with `F`'s declared code.
pub fn check_value<F: Flavor>(reported: i32) -> (ok: bool)
    ensures
        ok == value_check_passes(flavor_code(F::variant_spec()), reported),
{
    let declared = F::variant().code();
    reported >= 0 && reported == declared
}

/// The outcome of one size check.
pub enum SizeCheck {
    /// Declared and host-reported sizes agree.
    Match,
    /// They disagree: the declared size, the host-reported size, and the
    /// type's per-field breakdown (empty if the type offers none), to aid
    /// root-causing which field disagrees.
    Mismatch { declared: usize, reported: usize, breakdown: Vec<FieldWidth> },
}

impl SizeCheck {
    /// Whether the sizes agreed.
    pub fn is_match(&self) -> (b: bool)
        ensures
            b == (*self is Match),
    {
        match self {
            SizeCheck::Match => true,
            SizeCheck::Mismatch { .. } => false,
        }
    }
}

/// The size check for record type `F`: `reported` is the native size the
/// host reports for `F`'s flavor code. On mismatch the result carries both
/// sizes and `F`'s field breakdown.
pub fn check_size<F: Flavor>(reported: usize) -> (r: SizeCheck)
    ensures
        reported == F::size_spec() ==> r is Match,
        reported != F::size_spec() ==> (r matches SizeCheck::Mismatch {
            declared,
            reported: rep,
            breakdown,
        } && declared == F::size_spec() && rep == reported && breakdown@.len()
            == F::describe_spec().len() && (forall|i: int|
            0 <= i < breakdown@.len() ==> (#[trigger] breakdown@[i]).name@
                == F::describe_spec()[i].0 && breakdown@[i].width == F::describe_spec()[i].1)),
{
    let declared = F::byte_len();
    if reported == declared {
        SizeCheck::Match
    } else {
        SizeCheck::Mismatch { declared, reported, breakdown: F::describe() }
    }
}

/// One registered binding, as data: the flavor, its declared numeric code,
/// and the declared byte size of its record layout.
#[derive(Copy, Clone, Debug, PartialEq, Eq, Structural)]
pub struct Binding {
    pub variant: FlavorVariant,
    pub code: i32,
    pub size: usize,
}

/// The binding the registry declares for flavor `v`.
pub open spec fn binding_spec(v: FlavorVariant) -> Binding {
    Binding { variant: v, code: flavor_code(v), size: native_size_of(v) as usize }
}

/// What the host reported for one binding: the code its name-lookup returned
/// for the flavor's diagnostic name (negative when the name is unknown), and
/// the native size it reports for the flavor's code.
#[derive(Copy, Clone, Debug, PartialEq, Eq, Structural)]
pub struct HostReport {
    pub code_for_name: i32,
    pub size_for_code: usize,
}

/// Whether one binding agrees with what the host reported for it.
pub open spec fn binding_ok(b: Binding, h: HostReport) -> bool {
    value_check_passes(b.code, h.code_for_name) && h.size_for_code == b.size
}

/// What one failed check records: which check failed and the expected and
/// actual values.
#[derive(Copy, Clone, Debug, PartialEq, Eq, Structural)]
pub enum FaultKind {
    /// The host does not know the diagnostic name at all.
    LookupNegative { got: i32 },
    /// The host knows the name but under a different numeric code.
    CodeMismatch { declared_code: i32, reported_code: i32 },
    /// The host reports a different native size for the flavor's code.
    SizeMismatch { declared_size: usize, reported_size: usize },
}

/// One validation failure: the offending flavor and what disagreed.
#[derive(Copy, Clone, Debug, PartialEq, Eq, Structural)]
pub struct Fault {
    pub variant: FlavorVariant,
    pub kind: FaultKind,
}

/// The faults one binding contributes: at most one from the value check and
/// one from the size check, value check first.
pub open spec fn pair_faults(b: Binding, h: HostReport) -> Seq<Fault> {
    let value_faults: Seq<Fault> = if h.code_for_name < 0 {
        seq![Fault { variant: b.variant, kind: FaultKind::LookupNegative { got: h.code_for_name } }]
    } else if h.code_for_name != b.code {
        seq![
            Fault {
                variant: b.variant,
                kind: FaultKind::CodeMismatch { declared_code: b.code, reported_code: h.code_for_name },
            },
        ]
    } else {
        Seq::empty()
    };
    let size_faults: Seq<Fault> = if h.size_for_code != b.size {
        seq![
            Fault {
                variant: b.variant,
                kind: FaultKind::SizeMismatch { declared_size: b.size, reported_size: h.size_for_code },
            },
        ]
    } else {
        Seq::empty()
    };
    value_faults + size_faults
}

/// All faults of the first `n` bindings, in order.
pub open spec fn faults_upto(bs: Seq<Binding>, hs: Seq<HostReport>, n: int) -> Seq<Fault>
    decreases n,
{
    if n <= 0 {
        Seq::empty()
    } else {
        faults_upto(bs, hs, n - 1) + pair_faults(bs[n - 1], hs[n - 1])
    }
}

/// A binding contributes no fault exactly when it agrees with the host.
pub proof fn lemma_pair_faults_empty_iff_ok(b: Binding, h: HostReport)
    ensures
        pair_faults(b, h).len() == 0 <==> binding_ok(b, h),
{
}

/// The full fault list is empty exactly when every binding agrees with what
/// the host reported for it.
pub proof fn lemma_no_faults_iff_all_ok(bs: Seq<Binding>, hs: Seq<HostReport>, n: int)
    requires
        0 <= n <= bs.len(),
        bs.len() == hs.len(),
    ensures
        faults_upto(bs, hs, n).len() == 0 <==> (forall|i: int|
            0 <= i < n ==> binding_ok(#[trigger] bs[i], hs[i])),
    decreases n,
{
    if n > 0 {
        lemma_no_faults_iff_all_ok(bs, hs, n - 1);
        lemma_pair_faults_empty_iff_ok(bs[n - 1], hs[n - 1]);
    }
}

/// Every registered binding, in the registry's iteration order, each built
/// from its record type's own declarations.
pub fn bindings() -> (v: Vec<Binding>)
    ensures
        v@.len() == registry_seq().len(),
        forall|i: int| 0 <= i < v@.len() ==> #[trigger] v@[i] == binding_spec(registry_seq()[i]),
{
    let mut v: Vec<Binding> = Vec::new();
    v.push(
        Binding {
            variant: crate::records::TaskBasicInfo32::variant(),
            code: crate::records::TaskBasicInfo32::variant().code(),
            size: crate::records::TaskBasicInfo32::byte_len(),
        },
    );
    v.push(
        Binding {
            variant: crate::records::TaskBasicInfo64::variant(),
            code: crate::records::TaskBasicInfo64::variant().code(),
            size: crate::records::TaskBasicInfo64::byte_len(),
        },
    );
    v.push(
        Binding {
            variant: crate::records::TaskEventsInfo::variant(),
            code: crate::records::TaskEventsInfo::variant().code(),
            size: crate::records::TaskEventsInfo::byte_len(),
        },
    );
    v.push(
        Binding {
            variant: crate::records::TaskThreadTimesInfo::variant(),
            code: crate::records::TaskThreadTimesInfo::variant().code(),
            size: crate::records::TaskThreadTimesInfo::byte_len(),
        },
    );
    v.push(
        Binding {
            variant: crate::records::TaskAbsolutetimeInfo::variant(),
            code: crate::records::TaskAbsolutetimeInfo::variant().code(),
            size: crate::records::TaskAbsolutetimeInfo::byte_len(),
        },
    );
    v.push(
        Binding {
            variant: crate::records::TaskKernelmemoryInfo::variant(),
            code: crate::records::TaskKernelmemoryInfo::variant().code(),
            size: crate::records::TaskKernelmemoryInfo::byte_len(),
        },
    );
    v.push(
        Binding {
            variant: crate::records::TaskAffinityTagInfo::variant(),
            code: crate::records::TaskAffinityTagInfo::variant().code(),
            size: crate::records::TaskAffinityTagInfo::byte_len(),
        },
    );
    v.push(
        Binding {
            variant: crate::records::TaskDyldInfo::variant(),
            code: crate::records::TaskDyldInfo::variant().code(),
            size: crate::records::TaskDyldInfo::byte_len(),
        },
    );
    v.push(
        Binding {
            variant: crate::records::MachTaskBasicInfo::variant(),
            code: crate::records::MachTaskBasicInfo::variant().code(),
            size: crate::records::MachTaskBasicInfo::byte_len(),
        },
    );
    v.push(
        Binding {
            variant: crate::records::TaskPowerInfo::variant(),
            code: crate::records::TaskPowerInfo::variant().code(),
            size: crate::records::TaskPowerInfo::byte_len(),
        },
    );
    v.push(
        Binding {
            variant: crate::records::TaskVmInfo::variant(),
            code: crate::records::TaskVmInfo::variant().code(),
            size: crate::records::TaskVmInfo::byte_len(),
        },
    );
    v.push(
        Binding {
            variant: crate::records::TaskVmInfoPurgeable::variant(),
            code: crate::records::TaskVmInfoPurgeable::variant().code(),
            size: crate::records::TaskVmInfoPurgeable::byte_len(),
        },
    );
    v.push(
        Binding {
            variant: crate::records::TaskTraceMemoryInfo::variant(),
            code: crate::records::TaskTraceMemoryInfo::variant().code(),
            size: crate::records::TaskTraceMemoryInfo::byte_len(),
        },
    );
    v.push(
        Binding {
            variant: crate::records::TaskWaitStateInfo::variant(),
            code: crate::records::TaskWaitStateInfo::variant().code(),
            size: crate::records::TaskWaitStateInfo::byte_len(),
        },
    );
    v.push(
        Binding {
            variant: crate::records::TaskPowerInfoV2::variant(),
            code: crate::records::TaskPowerInfoV2::variant().code(),
            size: crate::records::TaskPowerInfoV2::byte_len(),
        },
    );
    v.push(
        Binding {
            variant: crate::records::TaskFlagsInfo::variant(),
            code: crate::records::TaskFlagsInfo::variant().code(),
            size: crate::records::TaskFlagsInfo::byte_len(),
        },
    );
    proof {
        crate::records::TaskBasicInfo32::lemma_size_consistent();
        crate::records::TaskBasicInfo64::lemma_size_consistent();
        crate::records::TaskEventsInfo::lemma_size_consistent();
        crate::records::TaskThreadTimesInfo::lemma_size_consistent();
        crate::records::TaskAbsolutetimeInfo::lemma_size_consistent();
        crate::records::TaskKernelmemoryInfo::lemma_size_consistent();
        crate::records::TaskAffinityTagInfo::lemma_size_consistent();
        crate::records::TaskDyldInfo::lemma_size_consistent();
        crate::records::MachTaskBasicInfo::lemma_size_consistent();
        crate::records::TaskPowerInfo::lemma_size_consistent();
        crate::records::TaskVmInfo::lemma_size_consistent();
        crate::records::TaskVmInfoPurgeable::lemma_size_consistent();
        crate::records::TaskTraceMemoryInfo::lemma_size_consistent();
        crate::records::TaskWaitStateInfo::lemma_size_consistent();
        crate::records::TaskPowerInfoV2::lemma_size_consistent();
        crate::records::TaskFlagsInfo::lemma_size_consistent();
    }
    v
}

/// The outcome of one whole validation run.
pub struct ValidationReport {
    pub faults: Vec<Fault>,
}

impl ValidationReport {
    /// Whether the run found every binding consistent with the host.
    pub fn ok(&self) -> (b: bool)
        ensures
            b == (self.faults@.len() == 0),
    {
        self.faults.len() == 0
    }
}

/// One generic validation routine over the whole binding list: for each
/// binding, the value check and the size check against the host's report,
/// both exhaustive; the result carries every fault found, in order.
pub fn validate(bs: &Vec<Binding>, hs: &Vec<HostReport>) -> (r: ValidationReport)
    requires
        bs@.len() == hs@.len(),
    ensures
        r.faults@ == faults_upto(bs@, hs@, bs@.len() as int),
        (r.faults@.len() == 0 <==> (forall|i: int|
            0 <= i < bs@.len() ==> binding_ok(#[trigger] bs@[i], hs@[i]))),
{
    let mut faults: Vec<Fault> = Vec::new();
    let n = bs.len();
    let mut i: usize = 0;
    while i < n
        invariant
            0 <= i <= n,
            n == bs@.len(),
            bs@.len() == hs@.len(),
            faults@ == faults_upto(bs@, hs@, i as int),
        decreases n - i,
    {
        let b = bs[i];
        let h = hs[i];
        if h.code_for_name < 0 {
            faults.push(
                Fault { variant: b.variant, kind: FaultKind::LookupNegative { got: h.code_for_name } },
            );
        } else if h.code_for_name != b.code {
            faults.push(
                Fault {
                    variant: b.variant,
                    kind: FaultKind::CodeMismatch { declared_code: b.code, reported_code: h.code_for_name },
                },
            );
        }
        if h.size_for_code != b.size {
            faults.push(
                Fault {
                    variant: b.variant,
                    kind: FaultKind::SizeMismatch { declared_size: b.size, reported_size: h.size_for_code },
                },
            );
        }
        proof {
            assert(faults@ =~= faults_upto(bs@, hs@, i as int) + pair_faults(bs@[i as int], hs@[i as int]));
        }
        i = i + 1;
    }
    proof {
        lemma_no_faults_iff_all_ok(bs@, hs@, bs@.len() as int);
    }
    ValidationReport { faults }
}

/// Convenience for a verification harness: the registry's own bindings,
/// validated against one host report per registered flavor, in the
/// registry's iteration order.
pub fn validate_registry(hs: &Vec<HostReport>) -> (r: ValidationReport)
    requires
        hs@.len() == registry_seq().len(),
    ensures
        (r.faults@.len() == 0 <==> (forall|i: int|
            0 <= i < registry_seq().len() ==> binding_ok(
                binding_spec(#[trigger] registry_seq()[i]),
                hs@[i],
            ))),
{
    let bs = bindings();
    let r = validate(&bs, hs);
    proof {
        assert forall|i: int| 0 <= i < registry_seq().len() implies binding_ok(
            binding_spec(#[trigger] registry_seq()[i]),
            hs@[i],
        ) == binding_ok(bs@[i], hs@[i]) by {
            assert(bs@[i] == binding_spec(registry_seq()[i]));
        }
    }
    r
}

} // verus!
