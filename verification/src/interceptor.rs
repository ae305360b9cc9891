//! Permission policy interceptor: the decision function the engine's
//! permission prompts are resolved by, and its registration on a handle.
//!
//! The policy is a total, pure function of the request kind. The local user
//! of this single-purpose communication shell is the same principal the
//! page acts for, so its own media-capture prompts are allowed without a
//! native dialog; every other kind falls through to the engine's default
//! behaviour. The policy is scoped to this application's window and must be
//! re-evaluated before the engine ever loads third-party content.

use vstd::prelude::*;
use crate::injector::{EngineHandleModel, EngineSettingsHandle};

verus! {

/// The kind tag an incoming permission request carries. The engine may
/// grow new kinds; everything this policy does not recognize is
/// [`PermissionRequestKind::Unknown`]-like and takes the default branch.
#[derive(Clone, Copy, Debug, PartialEq, Eq, Structural)]
pub enum PermissionRequestKind {
    /// Camera or microphone capture access.
    MediaDeviceAccess,
    /// Enumeration of the attached capture devices.
    DeviceEnumeration,
    /// Geographic position access.
    Geolocation,
    /// Desktop notification display.
    Notification,
    /// Pointer-lock capture.
    PointerLock,
    /// DRM key-system access.
    MediaKeySystem,
    /// A kind this policy has no name for.
    Unknown,
}

/// The decision rendered on one request.
#[derive(Clone, Copy, Debug, PartialEq, Eq, Structural)]
pub enum PermissionDecision {
    /// Grant the request.
    Allow,
    /// Refuse the request.
    Deny,
    /// Render no decision; the engine's own default behaviour follows.
    NotHandled,
}

/// What the decision callback returns to the engine: the decision, and
/// whether the request was handled — `true` tells the engine not to fall
/// through to its own prompting.
#[derive(Clone, Copy, Debug, PartialEq, Eq, Structural)]
pub struct PermissionResponse {
    pub decision: PermissionDecision,
    pub handled: bool,
}

/// The policy itself: media-device access and device enumeration are
/// allowed and handled; every other kind is left to the engine.
pub open spec fn spec_decide(kind: PermissionRequestKind) -> PermissionResponse {
    if kind == PermissionRequestKind::MediaDeviceAccess || kind
        == PermissionRequestKind::DeviceEnumeration {
        PermissionResponse { decision: PermissionDecision::Allow, handled: true }
    } else {
        PermissionResponse { decision: PermissionDecision::NotHandled, handled: false }
    }
}

/// Renders the permission decision for one request kind. Total, pure, and
/// non-blocking: the engine may call it on its own dispatch thread and
/// awaits the `handled` flag synchronously.
pub fn decide_permission(kind: PermissionRequestKind) -> (r: PermissionResponse)
    ensures
        r == spec_decide(kind),
        (kind == PermissionRequestKind::MediaDeviceAccess || kind
            == PermissionRequestKind::DeviceEnumeration) ==> r.decision
            == PermissionDecision::Allow && r.handled,
        !(kind == PermissionRequestKind::MediaDeviceAccess || kind
            == PermissionRequestKind::DeviceEnumeration) ==> r.decision
            == PermissionDecision::NotHandled && !r.handled,
{
    match kind {
        PermissionRequestKind::MediaDeviceAccess | PermissionRequestKind::DeviceEnumeration => {
            PermissionResponse { decision: PermissionDecision::Allow, handled: true }
        },
        _ => PermissionResponse { decision: PermissionDecision::NotHandled, handled: false },
    }
}

/// Law: the policy is total over request kinds and never denies — every
/// kind gets exactly one of the two responses, the request is handled
/// exactly where it is allowed, and the allowed kinds are exactly
/// media-device access and device enumeration.
pub proof fn lemma_permission_policy_total(kind: PermissionRequestKind)
    ensures
        spec_decide(kind).decision != PermissionDecision::Deny,
        spec_decide(kind).handled <==> spec_decide(kind).decision == PermissionDecision::Allow,
        spec_decide(kind).decision == PermissionDecision::Allow <==> (kind
            == PermissionRequestKind::MediaDeviceAccess || kind
            == PermissionRequestKind::DeviceEnumeration),
{
}

/// Installs the decision callback on the handle's engine. Where the handle
/// is unavailable, registration is unsupported and the operation is a
/// no-op: the engine keeps its own default permission prompting — a
/// degraded but functional state, never a failure.
pub fn register_decision_callback(handle: &mut EngineSettingsHandle) -> (r: bool)
    ensures
        old(handle)@.settings is Some ==> final(handle)@ == (EngineHandleModel {
            settings: old(handle)@.settings,
            callback_registered: true,
        }) && r,
        old(handle)@.settings is None ==> final(handle)@ == old(handle)@ && !r,
{
    if handle.is_available() {
        handle.mark_callback_registered();
        true
    } else {
        false
    }
}

/// One steady-state dispatch: what the engine gets back for a request of
/// this kind on this handle. With the callback installed the policy
/// decides; without it nothing is handled and the engine's own default
/// behaviour follows.
pub fn dispatch_permission_request(handle: &EngineSettingsHandle, kind: PermissionRequestKind)
    -> (r: PermissionResponse)
    ensures
        handle@.callback_registered ==> r == spec_decide(kind),
        !handle@.callback_registered ==> r == (PermissionResponse {
            decision: PermissionDecision::NotHandled,
            handled: false,
        }),
{
    if handle.callback_registered() {
        decide_permission(kind)
    } else {
        PermissionResponse { decision: PermissionDecision::NotHandled, handled: false }
    }
}

} // verus!
