//! The control operations' deciding half. Each of the four operations
//! opens the service with the rights its transition needs, re-reads the
//! service's status, and issues the transition if and only if the fresh
//! snapshot is eligible; an ineligible service is a silent successful
//! no-op. The host makes the privileged open, query, and signal calls and
//! hands their results in as plain values.

use vstd::prelude::*;

use crate::status::ServiceSnapshot;

verus! {

/// Access right asked of the registry to enumerate services.
pub const ENUMERATE_ACCESS: u32 = 0x4;
/// Access right asked of a service to read its status.
pub const QUERY_STATUS_ACCESS: u32 = 0x4;
/// Access right asked of a service to start it.
pub const START_ACCESS: u32 = 0x10;
/// Access right asked of a service to stop it.
pub const STOP_ACCESS: u32 = 0x20;
/// Access right asked of a service to pause or resume it.
pub const PAUSE_CONTINUE_ACCESS: u32 = 0x40;

/// Control code of the stop signal.
pub const STOP_CONTROL_CODE: u32 = 1;
/// Control code of the pause signal.
pub const PAUSE_CONTROL_CODE: u32 = 2;
/// Control code of the continue signal.
pub const CONTINUE_CONTROL_CODE: u32 = 3;

/// The four state transitions a caller may request.
#[derive(Clone, Copy, Debug, PartialEq, Eq, Structural)]
pub enum ControlOp {
    Start,
    Stop,
    Pause,
    Resume,
}

/// What a control operation does after the fresh status was read.
#[derive(Clone, Copy, Debug, PartialEq, Eq, Structural)]
pub enum ControlAction {
    /// Issue a start request with no startup arguments.
    Launch,
    /// Send this control code, with the just-read status record as the
    /// protocol buffer.
    Signal { code: u32 },
    /// The service is not eligible: touch nothing and report success.
    NoAction,
}

/// The access right each operation's open call asks for.
pub open spec fn spec_required_access(op: ControlOp) -> u32 {
    match op {
        ControlOp::Start => START_ACCESS,
        ControlOp::Stop => STOP_ACCESS,
        ControlOp::Pause => PAUSE_CONTINUE_ACCESS,
        ControlOp::Resume => PAUSE_CONTINUE_ACCESS,
    }
}

/// What each operation does to an eligible service.
pub open spec fn spec_eligible_action(op: ControlOp) -> ControlAction {
    match op {
        ControlOp::Start => ControlAction::Launch,
        ControlOp::Stop => ControlAction::Signal { code: STOP_CONTROL_CODE },
        ControlOp::Pause => ControlAction::Signal { code: PAUSE_CONTROL_CODE },
        ControlOp::Resume => ControlAction::Signal { code: CONTINUE_CONTROL_CODE },
    }
}

/// The action decided from the freshly read snapshot: the operation's
/// transition when the snapshot is eligible, nothing otherwise.
pub open spec fn spec_plan_control(op: ControlOp, snapshot: ServiceSnapshot) -> ControlAction {
    if snapshot.can_interact {
        spec_eligible_action(op)
    } else {
        ControlAction::NoAction
    }
}

/// The operation's result, given the decided action and the host's
/// signal outcome: silence is success, and a failed transition call's
/// error text is surfaced unchanged.
pub open spec fn spec_control_result(
    action: ControlAction,
    signal: Option<Result<(), String>>,
) -> Result<(), String> {
    match signal {
        Option::None => Result::Ok(()),
        Option::Some(outcome) => outcome,
    }
}

/// The access right each operation's open call asks for.
pub fn required_access(op: &ControlOp) -> (access: u32)
    ensures
        access == spec_required_access(*op),
{
    match op {
        ControlOp::Start => START_ACCESS,
        ControlOp::Stop => STOP_ACCESS,
        ControlOp::Pause => PAUSE_CONTINUE_ACCESS,
        ControlOp::Resume => PAUSE_CONTINUE_ACCESS,
    }
}

/// Decide what the operation does, from the snapshot just read:
/// eligibility is re-derived on every call from the fresh snapshot, never
/// taken from the caller or from an earlier query.
pub fn plan_control(op: &ControlOp, snapshot: &ServiceSnapshot) -> (action: ControlAction)
    ensures
        action == spec_plan_control(*op, *snapshot),
        action is NoAction <==> !snapshot.can_interact,
{
    if snapshot.can_interact {
        match op {
            ControlOp::Start => ControlAction::Launch,
            ControlOp::Stop => ControlAction::Signal { code: STOP_CONTROL_CODE },
            ControlOp::Pause => ControlAction::Signal { code: PAUSE_CONTROL_CODE },
            ControlOp::Resume => ControlAction::Signal { code: CONTINUE_CONTROL_CODE },
        }
    } else {
        ControlAction::NoAction
    }
}

/// Finish the operation: when no action was planned there is nothing the
/// host could have attempted and the result is success; otherwise the
/// host's transition outcome is passed through unchanged, its error text
/// verbatim.
pub fn control_result(action: &ControlAction, signal: Option<Result<(), String>>) -> (outcome:
    Result<(), String>)
    requires
        (*action is NoAction) <==> signal is None,
    ensures
        outcome == spec_control_result(*action, signal),
        *action is NoAction ==> outcome is Ok,
        signal matches Some(attempted) ==> outcome == attempted,
{
    match signal {
        Option::None => Result::Ok(()),
        Option::Some(attempted) => attempted,
    }
}

/// A pause requested of an eligible service is planned as the pause
/// signal whatever the service's lifecycle state — an already-paused
/// service included — so repeating the request plans the same signal
/// again; each attempt's result is then the manager's own outcome,
/// unchanged: success when the manager accepted the redundant
/// transition, and the manager's rejection text verbatim when it did
/// not.
pub proof fn lemma_redundant_pause_not_masked(snapshot: ServiceSnapshot, outcome: Result<
    (),
    String,
>)
    requires
        snapshot.can_interact,
    ensures
        spec_plan_control(ControlOp::Pause, snapshot) == (ControlAction::Signal {
            code: PAUSE_CONTROL_CODE,
        }),
        spec_control_result(
            spec_plan_control(ControlOp::Pause, snapshot),
            Option::Some(outcome),
        ) == outcome,
{
}

/// A control operation on a service whose fresh snapshot classifies as a
/// kernel driver or a file system driver plans no action at all, and the
/// operation's result is then success: drivers are never signaled, and
/// the caller sees no error.
pub proof fn lemma_driver_control_is_silent_success(op: ControlOp, snapshot: ServiceSnapshot)
    requires
        snapshot.wf(),
        snapshot.category is KernelDriver || snapshot.category is FileSystemDriver,
    ensures
        spec_plan_control(op, snapshot) == ControlAction::NoAction,
        spec_control_result(ControlAction::NoAction, Option::None) == Result::<(), String>::Ok(
            (),
        ),
{
}

} // verus!
