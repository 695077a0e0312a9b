//! The interceptor's setup sequence as a state machine: each outside step
//! (creating the interception point, creating the delivery bridge) reports
//! success or failure, and the machine decides what to do next.

use vstd::prelude::*;

verus! {

/// Where the interceptor stands in its life cycle.
#[derive(Clone, Copy, Debug, PartialEq, Eq, Structural)]
pub enum InterceptorState {
    /// Before setup: nothing requested yet.
    Inactive,
    /// The interception point exists and is enabled; the delivery bridge is
    /// still to be requested.
    AwaitingBridge,
    /// Both setup steps succeeded; the interceptor stays active until the
    /// process is terminated externally.
    Active,
    /// A setup step failed; the process terminates.
    Failed,
}

/// The outcome of one outside setup step.
#[derive(Clone, Copy, Debug, PartialEq, Eq, Structural)]
pub enum SetupEvent {
    /// The OS answered the interception-point request: `true` for a usable
    /// handle, `false` for the failure sentinel.
    InterceptionPoint { ok: bool },
    /// The OS answered the delivery-bridge request: `true` for a usable
    /// source, `false` for the failure sentinel.
    DeliveryBridge { ok: bool },
}

/// What the driver must do after a step.
#[derive(Clone, Copy, Debug, PartialEq, Eq, Structural)]
pub enum SetupAction {
    /// Enable the interception point, then request the delivery bridge.
    EnableAndBridge,
    /// Attach the bridge and enter the indefinite wait loop.
    RunForever,
    /// Report the failure and terminate with this exit status.
    Exit(i32),
}

/// The setup events a state can answer: the interception point is requested
/// first, the delivery bridge second, and nothing follows success or failure.
pub open spec fn valid_step(s: InterceptorState, e: SetupEvent) -> bool {
    ||| s == InterceptorState::Inactive && e is InterceptionPoint
    ||| s == InterceptorState::AwaitingBridge && e is DeliveryBridge
}

/// The transition relation: a failed step leads to termination with exit
/// status 1, a successful one to the next setup step or to the active state.
pub open spec fn step_spec(s: InterceptorState, e: SetupEvent) -> (InterceptorState, SetupAction) {
    match e {
        SetupEvent::InterceptionPoint { ok } => if ok {
            (InterceptorState::AwaitingBridge, SetupAction::EnableAndBridge)
        } else {
            (InterceptorState::Failed, SetupAction::Exit(1))
        },
        SetupEvent::DeliveryBridge { ok } => if ok {
            (InterceptorState::Active, SetupAction::RunForever)
        } else {
            (InterceptorState::Failed, SetupAction::Exit(1))
        },
    }
}

/// Advance the setup sequence by one step.
pub fn setup_step(s: InterceptorState, e: SetupEvent) -> (r: (InterceptorState, SetupAction))
    requires
        valid_step(s, e),
    ensures
        r == step_spec(s, e),
        e == (SetupEvent::InterceptionPoint { ok: false }) ==> r.0 == InterceptorState::Failed
            && r.1 == SetupAction::Exit(1),
        e == (SetupEvent::DeliveryBridge { ok: false }) ==> r.0 == InterceptorState::Failed
            && r.1 == SetupAction::Exit(1),
{
    match e {
        SetupEvent::InterceptionPoint { ok: true } => (
            InterceptorState::AwaitingBridge,
            SetupAction::EnableAndBridge,
        ),
        SetupEvent::InterceptionPoint { ok: false } => (
            InterceptorState::Failed,
            SetupAction::Exit(1),
        ),
        SetupEvent::DeliveryBridge { ok: true } => (InterceptorState::Active, SetupAction::RunForever),
        SetupEvent::DeliveryBridge { ok: false } => (InterceptorState::Failed, SetupAction::Exit(1)),
    }
}

/// The active state is reached only from a successful delivery-bridge step,
/// which itself can only be answered after a successful interception-point
/// step: a failure at either step never leads to the wait loop, and the
/// failed state answers no further setup event.
pub proof fn lemma_active_needs_both_successes(s: InterceptorState, e: SetupEvent)
    ensures
        step_spec(s, e).0 == InterceptorState::Active ==> e == (
        SetupEvent::DeliveryBridge { ok: true }),
        valid_step(s, e) && e is DeliveryBridge ==> s == InterceptorState::AwaitingBridge,
        step_spec(s, e).0 == InterceptorState::AwaitingBridge ==> e == (
        SetupEvent::InterceptionPoint { ok: true }),
        !valid_step(InterceptorState::Failed, e),
{
}

} // verus!
