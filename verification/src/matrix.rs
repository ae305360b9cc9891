//! Platform capability matrix: a static mapping from target platform to the
//! environment variables and engine settings that real-time media capture
//! needs on that platform.
//!
//! [`settings_for`] is the whole interface: a pure, deterministic lookup.
//! An unsupported platform is not an error; it maps to an empty environment
//! list and the engine-default settings specification.

use vstd::prelude::*;
use vstd::string::*;

verus! {

/// The target operating-system family, resolved once at build time by the
/// hosting shell and passed in as plain data.
#[derive(Clone, Copy, Debug, PartialEq, Eq, Structural)]
pub enum PlatformProfile {
    /// A Linux-family target whose embedded engine is WebKitGTK-like: the
    /// one platform with required overrides.
    LinuxLike,
    /// A macOS-family target; the engine ships media capture enabled.
    MacLike,
    /// A Windows-family target; the engine ships media capture enabled.
    WindowsLike,
    /// Any other or future target.
    Unknown,
}

/// The engine's hardware-acceleration policy for media decode and
/// compositing.
#[derive(Clone, Copy, Debug, PartialEq, Eq, Structural)]
pub enum HardwareAccelerationPolicy {
    /// The engine decides per workload (the engine default).
    OnDemand,
    /// Never fall back to software paths.
    Always,
    /// Never use hardware paths.
    Never,
}

/// One process-environment variable: a name and the value it must hold.
#[derive(Clone, Debug, PartialEq, Eq)]
pub struct EnvironmentSetting {
    pub name: String,
    pub value: String,
}

/// The mathematical value of an [`EnvironmentSetting`]: both strings as
/// character sequences.
pub struct EnvironmentSettingModel {
    pub name: Seq<char>,
    pub value: Seq<char>,
}

impl View for EnvironmentSetting {
    type V = EnvironmentSettingModel;

    open spec fn view(&self) -> EnvironmentSettingModel {
        EnvironmentSettingModel { name: self.name@, value: self.value@ }
    }
}

/// The mathematical values of a sequence of environment settings.
pub open spec fn env_models(s: Seq<EnvironmentSetting>) -> Seq<EnvironmentSettingModel> {
    s.map_values(|e: EnvironmentSetting| e@)
}

/// The recognized engine toggles and the values they must take for
/// real-time media capture to work.
#[derive(Clone, Debug, PartialEq, Eq)]
pub struct EngineSettingsSpec {
    /// Enable real-time media capture and peer-to-peer media negotiation.
    pub realtime_capture: bool,
    /// Enable page access to camera/microphone device streams.
    pub device_stream: bool,
    /// Enable the media-capabilities query interface.
    pub media_capabilities: bool,
    /// Enable adaptive media source extensions.
    pub adaptive_media_source: bool,
    /// Enable encrypted media, for DRM-gated decode paths.
    pub encrypted_media: bool,
    /// Enable script execution in page content.
    pub script_execution: bool,
    /// Enable GPU-accelerated canvas rendering paths.
    pub gpu_rendering: bool,
    /// Enable the engine's audio-processing graph.
    pub audio_processing: bool,
    /// Enable developer diagnostics on the engine.
    pub developer_diagnostics: bool,
    /// Mirror page console messages to standard output.
    pub console_to_stdout: bool,
    /// The hardware-acceleration policy to set.
    pub hardware_acceleration: HardwareAccelerationPolicy,
    /// An optional user-agent override, for pages whose feature detection
    /// keys on the reported browser identity; `None` keeps the engine's own
    /// user agent.
    pub user_agent_override: Option<String>,
}

/// The mathematical value of an [`EngineSettingsSpec`]: the same toggles,
/// with the user-agent override as a character sequence.
pub struct EngineSettingsModel {
    pub realtime_capture: bool,
    pub device_stream: bool,
    pub media_capabilities: bool,
    pub adaptive_media_source: bool,
    pub encrypted_media: bool,
    pub script_execution: bool,
    pub gpu_rendering: bool,
    pub audio_processing: bool,
    pub developer_diagnostics: bool,
    pub console_to_stdout: bool,
    pub hardware_acceleration: HardwareAccelerationPolicy,
    pub user_agent_override: Option<Seq<char>>,
}

impl View for EngineSettingsSpec {
    type V = EngineSettingsModel;

    open spec fn view(&self) -> EngineSettingsModel {
        EngineSettingsModel {
            realtime_capture: self.realtime_capture,
            device_stream: self.device_stream,
            media_capabilities: self.media_capabilities,
            adaptive_media_source: self.adaptive_media_source,
            encrypted_media: self.encrypted_media,
            script_execution: self.script_execution,
            gpu_rendering: self.gpu_rendering,
            audio_processing: self.audio_processing,
            developer_diagnostics: self.developer_diagnostics,
            console_to_stdout: self.console_to_stdout,
            hardware_acceleration: self.hardware_acceleration,
            user_agent_override: match self.user_agent_override {
                Some(ref ua) => Some(ua@),
                None => None,
            },
        }
    }
}

/// The engine's own default configuration, as this model abstracts it: no
/// media-capture capability enabled, hardware acceleration left to the
/// engine, no user-agent override. The "no-op" specification for
/// unsupported platforms.
pub open spec fn engine_defaults() -> EngineSettingsModel {
    EngineSettingsModel {
        realtime_capture: false,
        device_stream: false,
        media_capabilities: false,
        adaptive_media_source: false,
        encrypted_media: false,
        script_execution: false,
        gpu_rendering: false,
        audio_processing: false,
        developer_diagnostics: false,
        console_to_stdout: false,
        hardware_acceleration: HardwareAccelerationPolicy::OnDemand,
        user_agent_override: None,
    }
}

/// The engine settings a Linux-family WebKitGTK-like engine needs for
/// real-time media capture: every media toggle on, hardware acceleration
/// forced, and a Chrome-like user agent so page feature detection treats
/// the engine as WebRTC-capable.
pub open spec fn linux_engine_settings() -> EngineSettingsModel {
    EngineSettingsModel {
        realtime_capture: true,
        device_stream: true,
        media_capabilities: true,
        adaptive_media_source: true,
        encrypted_media: true,
        script_execution: true,
        gpu_rendering: true,
        audio_processing: true,
        developer_diagnostics: true,
        console_to_stdout: true,
        hardware_acceleration: HardwareAccelerationPolicy::Always,
        user_agent_override: Some(
            "Mozilla/5.0 (X11; Linux x86_64) AppleWebKit/537.36 (KHTML, like Gecko) Chrome/120.0.0.0 Safari/537.36"@,
        ),
    }
}

/// The environment variables a Linux-family WebKitGTK-like engine reads at
/// its own startup: compositing off, WebRTC on, hardware video decoders
/// ranked first, the engine sandbox off, media-pipeline diagnostics on, and
/// the audio stream tagged as telephony.
pub open spec fn linux_environment_settings() -> Seq<EnvironmentSettingModel> {
    seq![
        EnvironmentSettingModel { name: "WEBKIT_DISABLE_COMPOSITING_MODE"@, value: "1"@ },
        EnvironmentSettingModel { name: "WEBKIT_WEBRTC_ENABLED"@, value: "1"@ },
        EnvironmentSettingModel {
            name: "GST_PLUGIN_FEATURE_RANK"@,
            value: "vah264dec:MAX,vaav1dec:MAX,vavp8dec:MAX,vavp9dec:MAX"@,
        },
        EnvironmentSettingModel { name: "WEBKIT_FORCE_SANDBOX"@, value: "0"@ },
        EnvironmentSettingModel { name: "GST_DEBUG"@, value: "webrtc*:3"@ },
        EnvironmentSettingModel { name: "PULSE_PROP_media.role"@, value: "phone"@ },
    ]
}

/// Whether the matrix carries overrides for this platform.
pub open spec fn profile_supported(profile: PlatformProfile) -> bool {
    profile == PlatformProfile::LinuxLike
}

/// The environment-variable half of the matrix row for `profile`.
pub open spec fn spec_environment_settings_for(profile: PlatformProfile) -> Seq<
    EnvironmentSettingModel,
> {
    if profile_supported(profile) {
        linux_environment_settings()
    } else {
        Seq::empty()
    }
}

/// The engine-settings half of the matrix row for `profile`.
pub open spec fn spec_engine_settings_for(profile: PlatformProfile) -> EngineSettingsModel {
    if profile_supported(profile) {
        linux_engine_settings()
    } else {
        engine_defaults()
    }
}

/// Builds the engine-default ("no-op") specification.
pub fn default_engine_spec() -> (s: EngineSettingsSpec)
    ensures
        s@ == engine_defaults(),
{
    EngineSettingsSpec {
        realtime_capture: false,
        device_stream: false,
        media_capabilities: false,
        adaptive_media_source: false,
        encrypted_media: false,
        script_execution: false,
        gpu_rendering: false,
        audio_processing: false,
        developer_diagnostics: false,
        console_to_stdout: false,
        hardware_acceleration: HardwareAccelerationPolicy::OnDemand,
        user_agent_override: None,
    }
}

/// Builds the engine-settings row for a Linux-family target.
fn linux_engine_spec() -> (s: EngineSettingsSpec)
    ensures
        s@ == linux_engine_settings(),
{
    EngineSettingsSpec {
        realtime_capture: true,
        device_stream: true,
        media_capabilities: true,
        adaptive_media_source: true,
        encrypted_media: true,
        script_execution: true,
        gpu_rendering: true,
        audio_processing: true,
        developer_diagnostics: true,
        console_to_stdout: true,
        hardware_acceleration: HardwareAccelerationPolicy::Always,
        user_agent_override: Some(
            String::from_str(
                "Mozilla/5.0 (X11; Linux x86_64) AppleWebKit/537.36 (KHTML, like Gecko) Chrome/120.0.0.0 Safari/537.36",
            ),
        ),
    }
}

/// Builds the environment-variable row for a Linux-family target.
fn linux_environment() -> (v: Vec<EnvironmentSetting>)
    ensures
        env_models(v@) == linux_environment_settings(),
{
    let mut v: Vec<EnvironmentSetting> = Vec::new();
    v.push(
        EnvironmentSetting {
            name: String::from_str("WEBKIT_DISABLE_COMPOSITING_MODE"),
            value: String::from_str("1"),
        },
    );
    v.push(
        EnvironmentSetting {
            name: String::from_str("WEBKIT_WEBRTC_ENABLED"),
            value: String::from_str("1"),
        },
    );
    v.push(
        EnvironmentSetting {
            name: String::from_str("GST_PLUGIN_FEATURE_RANK"),
            value: String::from_str("vah264dec:MAX,vaav1dec:MAX,vavp8dec:MAX,vavp9dec:MAX"),
        },
    );
    v.push(
        EnvironmentSetting {
            name: String::from_str("WEBKIT_FORCE_SANDBOX"),
            value: String::from_str("0"),
        },
    );
    v.push(
        EnvironmentSetting {
            name: String::from_str("GST_DEBUG"),
            value: String::from_str("webrtc*:3"),
        },
    );
    v.push(
        EnvironmentSetting {
            name: String::from_str("PULSE_PROP_media.role"),
            value: String::from_str("phone"),
        },
    );
    proof {
        assert(env_models(v@) =~= linux_environment_settings());
    }
    v
}

/// The capability matrix: the environment variables and engine settings
/// that `profile` requires for real-time media capture. Pure and
/// deterministic; an unsupported platform yields an empty environment list
/// and the engine-default specification, never an error.
pub fn settings_for(profile: PlatformProfile) -> (r: (Vec<EnvironmentSetting>, EngineSettingsSpec))
    ensures
        env_models(r.0@) == spec_environment_settings_for(profile),
        r.0@.len() == spec_environment_settings_for(profile).len(),
        r.1@ == spec_engine_settings_for(profile),
{
    match profile {
        PlatformProfile::LinuxLike => (linux_environment(), linux_engine_spec()),
        _ => {
            let v: Vec<EnvironmentSetting> = Vec::new();
            proof {
                assert(env_models(v@) =~= Seq::<EnvironmentSettingModel>::empty());
            }
            (v, default_engine_spec())
        },
    }
}

/// Law: the matrix row of every supported platform is not the no-op row —
/// it enables real-time media capture and forces hardware acceleration,
/// and it carries at least one environment variable.
pub proof fn lemma_supported_profile_settings(profile: PlatformProfile)
    requires
        profile_supported(profile),
    ensures
        spec_engine_settings_for(profile).realtime_capture,
        spec_engine_settings_for(profile).hardware_acceleration
            == HardwareAccelerationPolicy::Always,
        spec_engine_settings_for(profile) != engine_defaults(),
        spec_environment_settings_for(profile).len() > 0,
{
}

/// Law: an unsupported or unknown platform maps to the empty environment
/// list and exactly the engine-default specification.
pub proof fn lemma_unsupported_profile_settings(profile: PlatformProfile)
    requires
        !profile_supported(profile),
    ensures
        spec_environment_settings_for(profile) == Seq::<EnvironmentSettingModel>::empty(),
        spec_engine_settings_for(profile) == engine_defaults(),
{
}

} // verus!
