use mediacaps::environment::ProcessEnvironment;
use mediacaps::injector::{
    apply_engine_settings, configure_startup, ApplyOutcome, EngineSettingsHandle,
};
use mediacaps::matrix::{settings_for, HardwareAccelerationPolicy, PlatformProfile};

#[test]
fn unavailable_handle_is_left_untouched() {
    let (_, spec) = settings_for(PlatformProfile::LinuxLike);
    let mut handle = EngineSettingsHandle::unavailable();
    let outcome = apply_engine_settings(&mut handle, &spec);
    assert_eq!(outcome, ApplyOutcome::SettingsUnavailable);
    assert!(!handle.is_available());
    assert!(handle.settings().is_none());
    assert!(!handle.callback_registered());
}

#[test]
fn linux_row_applied_to_fresh_handle_is_queryable() {
    let (_, spec) = settings_for(PlatformProfile::LinuxLike);
    assert!(spec.realtime_capture);
    assert_eq!(
        spec.hardware_acceleration,
        HardwareAccelerationPolicy::Always
    );

    let mut handle = EngineSettingsHandle::with_engine_defaults();
    let outcome = apply_engine_settings(&mut handle, &spec);
    assert_eq!(outcome, ApplyOutcome::Applied);

    let settings = handle.settings().expect("settings object present");
    assert!(settings.realtime_capture);
    assert_eq!(
        settings.hardware_acceleration,
        HardwareAccelerationPolicy::Always
    );
    assert!(settings.device_stream);
    assert!(settings.media_capabilities);
    assert!(settings.adaptive_media_source);
    assert!(settings.encrypted_media);
    assert!(settings.script_execution);
    assert!(settings.gpu_rendering);
    assert!(settings.audio_processing);
    assert!(settings.developer_diagnostics);
    assert!(settings.console_to_stdout);
    assert_eq!(
        settings.user_agent_override,
        spec.user_agent_override
    );
}

#[test]
fn fresh_handle_starts_at_engine_defaults() {
    let handle = EngineSettingsHandle::with_engine_defaults();
    assert!(handle.is_available());
    let settings = handle.settings().expect("settings object present");
    assert!(!settings.realtime_capture);
    assert_eq!(
        settings.hardware_acceleration,
        HardwareAccelerationPolicy::OnDemand
    );
    assert_eq!(settings.user_agent_override, None);
    assert!(!handle.callback_registered());
}

#[test]
fn applying_the_default_row_keeps_defaults() {
    let (_, spec) = settings_for(PlatformProfile::Unknown);
    let mut handle = EngineSettingsHandle::with_engine_defaults();
    let outcome = apply_engine_settings(&mut handle, &spec);
    assert_eq!(outcome, ApplyOutcome::Applied);
    let settings = handle.settings().expect("settings object present");
    assert!(!settings.realtime_capture);
    assert_eq!(settings.user_agent_override, None);
}

#[test]
fn startup_configures_environment_engine_and_callback() {
    let mut env = ProcessEnvironment::new();
    let mut handle = EngineSettingsHandle::with_engine_defaults();
    let outcome = configure_startup(PlatformProfile::LinuxLike, &mut env, &mut handle);
    assert_eq!(outcome, ApplyOutcome::Applied);
    assert_eq!(
        env.get_var(&"WEBKIT_WEBRTC_ENABLED".to_string()),
        Some(&"1".to_string())
    );
    assert_eq!(
        env.get_var(&"WEBKIT_DISABLE_COMPOSITING_MODE".to_string()),
        Some(&"1".to_string())
    );
    let settings = handle.settings().expect("settings object present");
    assert!(settings.realtime_capture);
    assert!(handle.callback_registered());
}

#[test]
fn startup_with_unavailable_handle_still_writes_environment() {
    let mut env = ProcessEnvironment::new();
    let mut handle = EngineSettingsHandle::unavailable();
    let outcome = configure_startup(PlatformProfile::LinuxLike, &mut env, &mut handle);
    assert_eq!(outcome, ApplyOutcome::SettingsUnavailable);
    assert_eq!(
        env.get_var(&"GST_DEBUG".to_string()),
        Some(&"webrtc*:3".to_string())
    );
    assert!(!handle.is_available());
    assert!(!handle.callback_registered());
}

#[test]
fn startup_on_unsupported_platform_is_a_no_op_row() {
    let mut env = ProcessEnvironment::new();
    let mut handle = EngineSettingsHandle::with_engine_defaults();
    let outcome = configure_startup(PlatformProfile::MacLike, &mut env, &mut handle);
    assert_eq!(outcome, ApplyOutcome::Applied);
    assert_eq!(env.get_var(&"WEBKIT_WEBRTC_ENABLED".to_string()), None);
    let settings = handle.settings().expect("settings object present");
    assert!(!settings.realtime_capture);
    assert!(handle.callback_registered());
}
