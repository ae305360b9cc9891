use mediacaps::injector::EngineSettingsHandle;
use mediacaps::interceptor::{
    decide_permission, dispatch_permission_request, register_decision_callback,
    PermissionDecision, PermissionRequestKind, PermissionResponse,
};

#[test]
fn media_device_access_is_allowed_and_handled() {
    let r = decide_permission(PermissionRequestKind::MediaDeviceAccess);
    assert_eq!(r.decision, PermissionDecision::Allow);
    assert!(r.handled);
}

#[test]
fn device_enumeration_is_allowed_and_handled() {
    let r = decide_permission(PermissionRequestKind::DeviceEnumeration);
    assert_eq!(
        r,
        PermissionResponse {
            decision: PermissionDecision::Allow,
            handled: true,
        }
    );
}

#[test]
fn geolocation_is_not_handled() {
    let r = decide_permission(PermissionRequestKind::Geolocation);
    assert_eq!(r.decision, PermissionDecision::NotHandled);
    assert!(!r.handled);
}

#[test]
fn every_other_kind_takes_the_default_branch() {
    for kind in [
        PermissionRequestKind::Geolocation,
        PermissionRequestKind::Notification,
        PermissionRequestKind::PointerLock,
        PermissionRequestKind::MediaKeySystem,
        PermissionRequestKind::Unknown,
    ] {
        let r = decide_permission(kind);
        assert_eq!(r.decision, PermissionDecision::NotHandled);
        assert!(!r.handled);
    }
}

#[test]
fn policy_never_denies() {
    for kind in [
        PermissionRequestKind::MediaDeviceAccess,
        PermissionRequestKind::DeviceEnumeration,
        PermissionRequestKind::Geolocation,
        PermissionRequestKind::Notification,
        PermissionRequestKind::PointerLock,
        PermissionRequestKind::MediaKeySystem,
        PermissionRequestKind::Unknown,
    ] {
        let r = decide_permission(kind);
        assert_ne!(r.decision, PermissionDecision::Deny);
        assert_eq!(r.handled, r.decision == PermissionDecision::Allow);
    }
}

#[test]
fn registration_succeeds_on_an_available_handle() {
    let mut handle = EngineSettingsHandle::with_engine_defaults();
    assert!(register_decision_callback(&mut handle));
    assert!(handle.callback_registered());
    let r = dispatch_permission_request(&handle, PermissionRequestKind::DeviceEnumeration);
    assert_eq!(r.decision, PermissionDecision::Allow);
    assert!(r.handled);
}

#[test]
fn registration_on_an_unavailable_handle_is_a_no_op() {
    let mut handle = EngineSettingsHandle::unavailable();
    assert!(!register_decision_callback(&mut handle));
    assert!(!handle.callback_registered());
    let r = dispatch_permission_request(&handle, PermissionRequestKind::MediaDeviceAccess);
    assert_eq!(r.decision, PermissionDecision::NotHandled);
    assert!(!r.handled);
}
