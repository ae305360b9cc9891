//! Capability injector: applies a matrix row to the live engine.
//!
//! The engine-settings object is owned by the window subsystem and may
//! legitimately be absent — the window not yet realized, or the platform
//! without an underlying settings object. [`apply_engine_settings`] treats
//! that as a recoverable, reported condition: it changes nothing and never
//! fails. [`configure_startup`] is the whole startup path in one call:
//! environment first, then engine settings, then the permission callback.

use vstd::prelude::*;
use crate::environment::{apply_process_environment, spec_apply_all, ProcessEnvironment};
use crate::matrix::{
    engine_defaults,
    settings_for,
    spec_engine_settings_for,
    spec_environment_settings_for,
    EngineSettingsModel,
    EngineSettingsSpec,
    HardwareAccelerationPolicy,
    PlatformProfile,
};

verus! {

/// The engine's live, mutable configuration: the same toggles an
/// [`EngineSettingsSpec`] prescribes, as the engine currently holds them.
#[derive(Clone, Debug, PartialEq, Eq)]
pub struct EngineSettings {
    pub realtime_capture: bool,
    pub device_stream: bool,
    pub media_capabilities: bool,
    pub adaptive_media_source: bool,
    pub encrypted_media: bool,
    pub script_execution: bool,
    pub gpu_rendering: bool,
    pub audio_processing: bool,
    pub developer_diagnostics: bool,
    pub console_to_stdout: bool,
    pub hardware_acceleration: HardwareAccelerationPolicy,
    pub user_agent_override: Option<String>,
}

impl View for EngineSettings {
    type V = EngineSettingsModel;

    open spec fn view(&self) -> EngineSettingsModel {
        EngineSettingsModel {
            realtime_capture: self.realtime_capture,
            device_stream: self.device_stream,
            media_capabilities: self.media_capabilities,
            adaptive_media_source: self.adaptive_media_source,
            encrypted_media: self.encrypted_media,
            script_execution: self.script_execution,
            gpu_rendering: self.gpu_rendering,
            audio_processing: self.audio_processing,
            developer_diagnostics: self.developer_diagnostics,
            console_to_stdout: self.console_to_stdout,
            hardware_acceleration: self.hardware_acceleration,
            user_agent_override: match self.user_agent_override {
                Some(ref ua) => Some(ua@),
                None => None,
            },
        }
    }
}

/// What a handle looks like from a contract: the settings object behind it
/// (absent where the handle is unavailable) and whether the permission
/// decision callback has been installed on it.
pub struct EngineHandleModel {
    pub settings: Option<EngineSettingsModel>,
    pub callback_registered: bool,
}

/// A borrowed capability onto one window's engine: its settings object,
/// where the platform provides one, and the registration state of the
/// permission decision callback. The window subsystem owns the real
/// engine; this handle is the state the contracts speak about.
pub struct EngineSettingsHandle {
    settings: Option<EngineSettings>,
    callback_registered: bool,
}

impl View for EngineSettingsHandle {
    type V = EngineHandleModel;

    closed spec fn view(&self) -> EngineHandleModel {
        EngineHandleModel {
            settings: match self.settings {
                Some(ref s) => Some(s@),
                None => None,
            },
            callback_registered: self.callback_registered,
        }
    }
}

/// What applying a specification to a handle came to.
#[derive(Clone, Copy, Debug, PartialEq, Eq, Structural)]
pub enum ApplyOutcome {
    /// Every toggle of the specification was set on the engine.
    Applied,
    /// The handle has no settings object; the engine keeps its defaults.
    SettingsUnavailable,
}

impl EngineSettingsHandle {
    /// A freshly realized handle: a settings object at the engine's own
    /// defaults, no callback installed.
    pub fn with_engine_defaults() -> (h: EngineSettingsHandle)
        ensures
            h@.settings == Some(engine_defaults()),
            !h@.callback_registered,
    {
        EngineSettingsHandle {
            settings: Some(
                EngineSettings {
                    realtime_capture: false,
                    device_stream: false,
                    media_capabilities: false,
                    adaptive_media_source: false,
                    encrypted_media: false,
                    script_execution: false,
                    gpu_rendering: false,
                    audio_processing: false,
                    developer_diagnostics: false,
                    console_to_stdout: false,
                    hardware_acceleration: HardwareAccelerationPolicy::OnDemand,
                    user_agent_override: None,
                },
            ),
            callback_registered: false,
        }
    }

    /// A handle with no settings object behind it: a window not yet
    /// realized, or a platform without one.
    pub fn unavailable() -> (h: EngineSettingsHandle)
        ensures
            h@.settings is None,
            !h@.callback_registered,
    {
        EngineSettingsHandle { settings: None, callback_registered: false }
    }

    /// Whether a settings object backs this handle.
    pub fn is_available(&self) -> (r: bool)
        ensures
            r == (self@.settings is Some),
    {
        self.settings.is_some()
    }

    /// The settings object behind the handle, to query its current values.
    pub fn settings(&self) -> (r: Option<&EngineSettings>)
        ensures
            match r {
                Some(s) => self@.settings == Some(s@),
                None => self@.settings is None,
            },
    {
        match &self.settings {
            Some(s) => Some(s),
            None => None,
        }
    }

    /// Whether the permission decision callback is installed.
    pub fn callback_registered(&self) -> (r: bool)
        ensures
            r == self@.callback_registered,
    {
        self.callback_registered
    }

    /// Records that the permission decision callback has been installed;
    /// everything else about the handle stays as it was.
    pub(crate) fn mark_callback_registered(&mut self)
        ensures
            final(self)@ == (EngineHandleModel {
                settings: old(self)@.settings,
                callback_registered: true,
            }),
    {
        self.callback_registered = true;
    }
}

/// Sets every toggle the specification prescribes onto the handle's
/// settings object. Where the handle is unavailable the engine keeps its
/// defaults: nothing changes and the outcome reports it — a recoverable
/// condition, never a failure.
pub fn apply_engine_settings(handle: &mut EngineSettingsHandle, spec: &EngineSettingsSpec) -> (r:
    ApplyOutcome)
    ensures
        old(handle)@.settings is None ==> final(handle)@ == old(handle)@ && r
            == ApplyOutcome::SettingsUnavailable,
        old(handle)@.settings is Some ==> final(handle)@ == (EngineHandleModel {
            settings: Some(spec@),
            callback_registered: old(handle)@.callback_registered,
        }) && r == ApplyOutcome::Applied,
{
    match &mut handle.settings {
        None => ApplyOutcome::SettingsUnavailable,
        Some(s) => {
            s.realtime_capture = spec.realtime_capture;
            s.device_stream = spec.device_stream;
            s.media_capabilities = spec.media_capabilities;
            s.adaptive_media_source = spec.adaptive_media_source;
            s.encrypted_media = spec.encrypted_media;
            s.script_execution = spec.script_execution;
            s.gpu_rendering = spec.gpu_rendering;
            s.audio_processing = spec.audio_processing;
            s.developer_diagnostics = spec.developer_diagnostics;
            s.console_to_stdout = spec.console_to_stdout;
            s.hardware_acceleration = spec.hardware_acceleration;
            s.user_agent_override = match &spec.user_agent_override {
                Some(ua) => Some(ua.clone()),
                None => None,
            };
            ApplyOutcome::Applied
        },
    }
}

/// The whole startup path for one platform and one window, in the order
/// the engine requires: the matrix row's environment variables first (the
/// engine reads them once, at its own initialization), then the engine
/// settings, then the permission decision callback on the same handle.
pub fn configure_startup(
    profile: PlatformProfile,
    env: &mut ProcessEnvironment,
    handle: &mut EngineSettingsHandle,
) -> (r: ApplyOutcome)
    ensures
        final(env)@ == spec_apply_all(old(env)@, spec_environment_settings_for(profile)),
        old(handle)@.settings is None ==> final(handle)@ == old(handle)@ && r
            == ApplyOutcome::SettingsUnavailable,
        old(handle)@.settings is Some ==> final(handle)@ == (EngineHandleModel {
            settings: Some(spec_engine_settings_for(profile)),
            callback_registered: true,
        }) && r == ApplyOutcome::Applied,
{
    let (env_settings, engine_spec) = settings_for(profile);
    apply_process_environment(env, &env_settings);
    let outcome = apply_engine_settings(handle, &engine_spec);
    crate::interceptor::register_decision_callback(handle);
    outcome
}

} // verus!
