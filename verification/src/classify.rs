//! Pure classification of raw service facts: a numeric type bitmask is
//! mapped to a canonical category and label, a numeric state code to a
//! lifecycle label, and a category to its interaction-eligibility flag.

use vstd::prelude::*;

verus! {

/// Type bit of a kernel-mode driver.
pub const KERNEL_DRIVER_BITS: u32 = 0x1;
/// Type bit of a file system driver.
pub const FILE_SYSTEM_DRIVER_BITS: u32 = 0x2;
/// Type bits of a Win32 service running in its own process.
pub const WIN32_OWN_PROCESS_BITS: u32 = 0x10;
/// Type bits of a Win32 service sharing a process.
pub const WIN32_SHARE_PROCESS_BITS: u32 = 0x20;
/// Type bits of a per-user service in its own process.
pub const USER_OWN_PROCESS_BITS: u32 = 0x50;
/// Type bits of a per-user service sharing a process.
pub const USER_SHARE_PROCESS_BITS: u32 = 0x60;

/// Canonical service category, decided from the raw type bitmask by an
/// ordered first-match test.
#[derive(Clone, Copy, Debug, PartialEq, Eq, Structural)]
pub enum ServiceCategory {
    FileSystemDriver,
    KernelDriver,
    Win32OwnProcess,
    Win32ShareProcess,
    UserOwnProcess,
    UserShareProcess,
    /// No known category bit was found in the mask.
    Unclassified,
}

/// Canonical lifecycle state, decided from the raw state code.
#[derive(Clone, Copy, Debug, PartialEq, Eq, Structural)]
pub enum ServiceState {
    Stopped,
    StartPending,
    StopPending,
    Running,
    ContinuePending,
    PausePending,
    Paused,
    /// The code is none of the seven known ones.
    Unknown,
}

/// Whether the category's bit test accepts the mask. The classifier runs
/// these tests in a fixed priority order; this predicate is one such test
/// in isolation.
pub open spec fn spec_mask_matches(mask: u32, category: ServiceCategory) -> bool {
    match category {
        ServiceCategory::FileSystemDriver => mask & FILE_SYSTEM_DRIVER_BITS != 0,
        ServiceCategory::KernelDriver => mask & KERNEL_DRIVER_BITS != 0,
        ServiceCategory::Win32OwnProcess => mask & WIN32_OWN_PROCESS_BITS != 0,
        ServiceCategory::Win32ShareProcess => mask & WIN32_SHARE_PROCESS_BITS != 0,
        ServiceCategory::UserOwnProcess => mask & USER_OWN_PROCESS_BITS != 0,
        ServiceCategory::UserShareProcess => mask & USER_SHARE_PROCESS_BITS != 0,
        ServiceCategory::Unclassified => false,
    }
}

/// The classifier's fixed priority order: file system driver, kernel
/// driver, Win32 own, Win32 share, user own, user share; the first test
/// whose bits intersect the mask wins.
pub open spec fn spec_classify_type(mask: u32) -> ServiceCategory {
    if mask & FILE_SYSTEM_DRIVER_BITS != 0 {
        ServiceCategory::FileSystemDriver
    } else if mask & KERNEL_DRIVER_BITS != 0 {
        ServiceCategory::KernelDriver
    } else if mask & WIN32_OWN_PROCESS_BITS != 0 {
        ServiceCategory::Win32OwnProcess
    } else if mask & WIN32_SHARE_PROCESS_BITS != 0 {
        ServiceCategory::Win32ShareProcess
    } else if mask & USER_OWN_PROCESS_BITS != 0 {
        ServiceCategory::UserOwnProcess
    } else if mask & USER_SHARE_PROCESS_BITS != 0 {
        ServiceCategory::UserShareProcess
    } else {
        ServiceCategory::Unclassified
    }
}

/// The canonical classification value carried downstream: the matched
/// category's own bits, or the raw mask unchanged when nothing matched.
pub open spec fn spec_classified_value(mask: u32) -> u32 {
    match spec_classify_type(mask) {
        ServiceCategory::FileSystemDriver => FILE_SYSTEM_DRIVER_BITS,
        ServiceCategory::KernelDriver => KERNEL_DRIVER_BITS,
        ServiceCategory::Win32OwnProcess => WIN32_OWN_PROCESS_BITS,
        ServiceCategory::Win32ShareProcess => WIN32_SHARE_PROCESS_BITS,
        ServiceCategory::UserOwnProcess => USER_OWN_PROCESS_BITS,
        ServiceCategory::UserShareProcess => USER_SHARE_PROCESS_BITS,
        ServiceCategory::Unclassified => mask,
    }
}

/// Only the two Win32 process categories may be touched by control
/// operations; drivers and per-user services never are.
pub open spec fn spec_eligible(category: ServiceCategory) -> bool {
    category is Win32OwnProcess || category is Win32ShareProcess
}

/// The seven known state codes in their fixed table; anything else is
/// Unknown.
pub open spec fn spec_classify_state(code: u32) -> ServiceState {
    if code == 1 {
        ServiceState::Stopped
    } else if code == 2 {
        ServiceState::StartPending
    } else if code == 3 {
        ServiceState::StopPending
    } else if code == 4 {
        ServiceState::Running
    } else if code == 5 {
        ServiceState::ContinuePending
    } else if code == 6 {
        ServiceState::PausePending
    } else if code == 7 {
        ServiceState::Paused
    } else {
        ServiceState::Unknown
    }
}

/// The human label of a lifecycle state.
pub open spec fn spec_state_text(state: ServiceState) -> Seq<char> {
    match state {
        ServiceState::Stopped => "Stopped"@,
        ServiceState::StartPending => "Start Pending"@,
        ServiceState::StopPending => "Stop Pending"@,
        ServiceState::Running => "Running"@,
        ServiceState::ContinuePending => "Continue Pending"@,
        ServiceState::PausePending => "Pause Pending"@,
        ServiceState::Paused => "Paused"@,
        ServiceState::Unknown => "Unknown"@,
    }
}

/// The label a raw state code ends up with.
pub open spec fn spec_state_label(code: u32) -> Seq<char> {
    spec_state_text(spec_classify_state(code))
}

/// The human label of a category.
pub open spec fn spec_category_text(category: ServiceCategory) -> Seq<char> {
    match category {
        ServiceCategory::FileSystemDriver => "File System Driver"@,
        ServiceCategory::KernelDriver => "Kernel Driver"@,
        ServiceCategory::Win32OwnProcess => "Win32 Own Process"@,
        ServiceCategory::Win32ShareProcess => "Win32 Share Process"@,
        ServiceCategory::UserOwnProcess => "User Own Process"@,
        ServiceCategory::UserShareProcess => "User Share Process"@,
        ServiceCategory::Unclassified => "unknown"@,
    }
}

/// The label a raw type bitmask ends up with.
pub open spec fn spec_type_label(mask: u32) -> Seq<char> {
    spec_category_text(spec_classify_type(mask))
}

/// Classify a raw type bitmask by the ordered first-match test.
pub fn classify_type(mask: u32) -> (category: ServiceCategory)
    ensures
        category == spec_classify_type(mask),
{
    if mask & FILE_SYSTEM_DRIVER_BITS != 0 {
        ServiceCategory::FileSystemDriver
    } else if mask & KERNEL_DRIVER_BITS != 0 {
        ServiceCategory::KernelDriver
    } else if mask & WIN32_OWN_PROCESS_BITS != 0 {
        ServiceCategory::Win32OwnProcess
    } else if mask & WIN32_SHARE_PROCESS_BITS != 0 {
        ServiceCategory::Win32ShareProcess
    } else if mask & USER_OWN_PROCESS_BITS != 0 {
        ServiceCategory::UserOwnProcess
    } else if mask & USER_SHARE_PROCESS_BITS != 0 {
        ServiceCategory::UserShareProcess
    } else {
        ServiceCategory::Unclassified
    }
}

/// The canonical classification value for a raw type bitmask.
pub fn classified_value(mask: u32) -> (value: u32)
    ensures
        value == spec_classified_value(mask),
{
    match classify_type(mask) {
        ServiceCategory::FileSystemDriver => FILE_SYSTEM_DRIVER_BITS,
        ServiceCategory::KernelDriver => KERNEL_DRIVER_BITS,
        ServiceCategory::Win32OwnProcess => WIN32_OWN_PROCESS_BITS,
        ServiceCategory::Win32ShareProcess => WIN32_SHARE_PROCESS_BITS,
        ServiceCategory::UserOwnProcess => USER_OWN_PROCESS_BITS,
        ServiceCategory::UserShareProcess => USER_SHARE_PROCESS_BITS,
        ServiceCategory::Unclassified => mask,
    }
}

/// Classify a raw state code.
pub fn classify_state(code: u32) -> (state: ServiceState)
    ensures
        state == spec_classify_state(code),
{
    if code == 1 {
        ServiceState::Stopped
    } else if code == 2 {
        ServiceState::StartPending
    } else if code == 3 {
        ServiceState::StopPending
    } else if code == 4 {
        ServiceState::Running
    } else if code == 5 {
        ServiceState::ContinuePending
    } else if code == 6 {
        ServiceState::PausePending
    } else if code == 7 {
        ServiceState::Paused
    } else {
        ServiceState::Unknown
    }
}

/// Whether a category is eligible for control operations.
pub fn is_eligible(category: &ServiceCategory) -> (eligible: bool)
    ensures
        eligible == spec_eligible(*category),
{
    match category {
        ServiceCategory::Win32OwnProcess => true,
        ServiceCategory::Win32ShareProcess => true,
        _ => false,
    }
}

/// The human label of a lifecycle state, as owned text.
pub fn state_text(state: &ServiceState) -> (label: String)
    ensures
        label@ == spec_state_text(*state),
{
    match state {
        ServiceState::Stopped => "Stopped".to_owned(),
        ServiceState::StartPending => "Start Pending".to_owned(),
        ServiceState::StopPending => "Stop Pending".to_owned(),
        ServiceState::Running => "Running".to_owned(),
        ServiceState::ContinuePending => "Continue Pending".to_owned(),
        ServiceState::PausePending => "Pause Pending".to_owned(),
        ServiceState::Paused => "Paused".to_owned(),
        ServiceState::Unknown => "Unknown".to_owned(),
    }
}

/// The human label of a category, as owned text.
pub fn category_text(category: &ServiceCategory) -> (label: String)
    ensures
        label@ == spec_category_text(*category),
{
    match category {
        ServiceCategory::FileSystemDriver => "File System Driver".to_owned(),
        ServiceCategory::KernelDriver => "Kernel Driver".to_owned(),
        ServiceCategory::Win32OwnProcess => "Win32 Own Process".to_owned(),
        ServiceCategory::Win32ShareProcess => "Win32 Share Process".to_owned(),
        ServiceCategory::UserOwnProcess => "User Own Process".to_owned(),
        ServiceCategory::UserShareProcess => "User Share Process".to_owned(),
        ServiceCategory::Unclassified => "unknown".to_owned(),
    }
}

/// A mask that passes exactly one category's bit test is classified as
/// that category, whatever its position in the priority order, and its
/// eligibility is that category's.
pub proof fn lemma_unique_match_classifies(mask: u32, category: ServiceCategory)
    requires
        spec_mask_matches(mask, category),
        forall|other: ServiceCategory| other != category ==> !spec_mask_matches(mask, other),
    ensures
        spec_classify_type(mask) == category,
        spec_eligible(spec_classify_type(mask)) == (category is Win32OwnProcess
            || category is Win32ShareProcess),
{
    assert(!spec_mask_matches(mask, ServiceCategory::FileSystemDriver)
        || category == ServiceCategory::FileSystemDriver);
    assert(!spec_mask_matches(mask, ServiceCategory::KernelDriver)
        || category == ServiceCategory::KernelDriver);
    assert(!spec_mask_matches(mask, ServiceCategory::Win32OwnProcess)
        || category == ServiceCategory::Win32OwnProcess);
    assert(!spec_mask_matches(mask, ServiceCategory::Win32ShareProcess)
        || category == ServiceCategory::Win32ShareProcess);
    assert(!spec_mask_matches(mask, ServiceCategory::UserOwnProcess)
        || category == ServiceCategory::UserOwnProcess);
    assert(!spec_mask_matches(mask, ServiceCategory::UserShareProcess)
        || category == ServiceCategory::UserShareProcess);
}

/// The seven known state codes map to their exact labels, and every other
/// code maps to the Unknown label.
pub proof fn lemma_state_labels_exact()
    ensures
        spec_state_label(1) == "Stopped"@,
        spec_state_label(2) == "Start Pending"@,
        spec_state_label(3) == "Stop Pending"@,
        spec_state_label(4) == "Running"@,
        spec_state_label(5) == "Continue Pending"@,
        spec_state_label(6) == "Pause Pending"@,
        spec_state_label(7) == "Paused"@,
        forall|code: u32| !(1 <= code <= 7) ==> spec_state_label(code) == "Unknown"@,
{
}

/// Eligibility holds exactly for the two Win32 process categories, and
/// equally exactly for the two Win32 classification values: a mask that
/// classifies to no category keeps its raw value, which can be neither.
pub proof fn lemma_eligibility(mask: u32)
    ensures
        spec_eligible(spec_classify_type(mask)) <==> (spec_classify_type(mask)
            is Win32OwnProcess || spec_classify_type(mask) is Win32ShareProcess),
        spec_eligible(spec_classify_type(mask)) <==> (spec_classified_value(mask)
            == WIN32_OWN_PROCESS_BITS || spec_classified_value(mask)
            == WIN32_SHARE_PROCESS_BITS),
{
    if spec_classify_type(mask) is Unclassified {
        assert(mask & WIN32_OWN_PROCESS_BITS == 0 ==> mask != WIN32_OWN_PROCESS_BITS)
            by (bit_vector);
        assert(mask & WIN32_SHARE_PROCESS_BITS == 0 ==> mask != WIN32_SHARE_PROCESS_BITS)
            by (bit_vector);
    }
}

} // verus!
