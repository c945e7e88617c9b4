//! How a browser that is driven is disguised as one that is not.
use vstd::prelude::*;
use serde_json::Value;
use spider_fingerprint::configs;
use spider_fingerprint::spoof_viewport;

use crate::page::script_texts::{
    adapter_end, adapter_middle, adapter_start, canvas_format_end, canvas_format_start,
    disable_dialogs_text, graphics_card_end, hide_chrome_text, hide_console_text,
    hide_permissions_text, hide_webdriver_text, hide_webgl_text, navigator_text, plugins_text,
    processors_end, processors_start, remove_chrome_text, worker_end, worker_processors_end,
    worker_processors_middle, worker_processors_start,
};
use crate::text::begins_with;

verus! {

// ---------------------------------------------------------------------------
// What is chosen

/// How much of a browser is disguised.
#[derive(Debug, Clone, Copy, PartialEq, Eq, Structural)]
pub enum StealthTier {
    Basic,
    BasicWithConsole,
    BasicNoWebgl,
    BasicNoWebglWithGPU,
    BasicNoWebglWithGPUcWithConsole,
    BasicNoWorker,
    HideOnly,
    HideOnlyWithConsole,
    HideOnlyChrome,
    Low,
    LowWithPlugins,
    LowWithNavigator,
    Mid,
    Full,
    BasicNoExtra,
    BasicNoWebglWithGPUNoExtra,
    Extra,
    /// Nothing is disguised.
    Off,
}

/// The system that a browser claims to run on.
#[derive(Debug, Clone, Copy, PartialEq, Eq, Structural)]
pub enum StealthOs {
    Linux,
    Mac,
    IPhone,
    IPad,
    Windows,
    Android,
    ChromeOS,
    Unknown,
}

/// What is changed of the fingerprint of a browser.
#[derive(Debug, Clone, Copy, PartialEq, Eq, Structural)]
pub enum StealthFingerprint {
    Basic,
    NativeGPU,
    /// Nothing is changed.
    Off,
}

/// How a browser is emulated.
#[derive(Debug, Clone, Copy, PartialEq, Eq, Structural)]
pub struct EmulationSettings {
    pub tier: StealthTier,
    pub fingerprint: StealthFingerprint,
    pub agent_os: StealthOs,
    pub firefox_agent: bool,
    pub user_agent_data: Option<bool>,
    pub touch_screen: bool,
    pub hardware_concurrency: bool,
    pub dismiss_dialogs: bool,
    pub disable_notifications: bool,
    pub disable_permissions: bool,
    pub disable_media_codecs: bool,
    pub disable_speech_syntheses: bool,
    pub disable_media_labels: bool,
    pub disable_history_length: bool,
    pub disable_user_agent_data: bool,
    pub disable_screen: bool,
    pub disable_touch_screen: bool,
    pub disable_plugins: bool,
    pub disable_stealth: bool,
    pub enable_device_memory: bool,
    pub enable_cdp_marker_cleanup: bool,
    pub enable_selenium_marker_cleanup: bool,
}

/// The viewport of an emulated browser.
#[derive(Debug)]
pub struct EmulatedViewport {
    /// The width, in pixels.
    pub width: u32,
    /// The height, in pixels.
    pub height: u32,
    /// The scale, as a number in JSON.
    pub device_scale_factor: Option<Value>,
    /// Is it a mobile device?
    pub emulating_mobile: bool,
    /// Is it held sideways?
    pub is_landscape: bool,
    /// Has it a touch screen?
    pub has_touch: bool,
}

/// The digits of the floating-point number that `serde_json::Value::as_f64` reads a value
/// as, if it is a number.
pub uninterp spec fn scale_text(value: Value) -> Option<Seq<char>>;

/// The view of [`EmulatedViewport`], with the scale in digits.
pub struct ViewportShape {
    pub width: u32,
    pub height: u32,
    pub scale: Option<Seq<char>>,
    pub emulating_mobile: bool,
    pub is_landscape: bool,
    pub has_touch: bool,
}

impl EmulatedViewport {
    /// The viewport, with the scale in digits.
    pub open spec fn shape(self) -> ViewportShape {
        ViewportShape {
            width: self.width,
            height: self.height,
            scale: match self.device_scale_factor {
                Some(value) => scale_text(value),
                None => None,
            },
            emulating_mobile: self.emulating_mobile,
            is_landscape: self.is_landscape,
            has_touch: self.has_touch,
        }
    }
}

// ---------------------------------------------------------------------------
// The same as values of the generator

/// The tier of the generator of scripts. Verus carries it as a value and sees nothing
/// inside.
#[verifier::external_type_specification]
#[verifier::external_body]
pub struct ExTier(configs::Tier);

/// The system of the generator of scripts. Verus carries it as a value and sees
/// nothing inside.
#[verifier::external_type_specification]
#[verifier::external_body]
pub struct ExAgentOs(configs::AgentOs);

/// The fingerprint of the generator of scripts. Verus carries it as a value and sees
/// nothing inside.
#[verifier::external_type_specification]
#[verifier::external_body]
pub struct ExFingerprint(spider_fingerprint::Fingerprint);

/// The configuration of the generator of scripts. Verus carries it as a value and sees
/// nothing inside.
#[verifier::external_type_specification]
#[verifier::external_body]
pub struct ExEmulationConfiguration(spider_fingerprint::EmulationConfiguration);

/// The viewport of the generator of scripts. Verus carries it as a value and sees
/// nothing inside.
#[verifier::external_type_specification]
#[verifier::external_body]
pub struct ExViewport(spoof_viewport::Viewport);

/// The tier that a value of the generator is.
pub uninterp spec fn tier_of(tier: configs::Tier) -> StealthTier;

/// The system that a value of the generator is.
pub uninterp spec fn os_of(os: configs::AgentOs) -> StealthOs;

/// The fingerprint that a value of the generator is.
pub uninterp spec fn fingerprint_of(fingerprint: spider_fingerprint::Fingerprint) -> StealthFingerprint;

/// The configuration that a value of the generator is.
pub uninterp spec fn config_of(config: spider_fingerprint::EmulationConfiguration) -> EmulationSettings;

/// The viewport that a value of the generator is, with the scale in digits.
pub uninterp spec fn shape_of(viewport: spoof_viewport::Viewport) -> ViewportShape;

/// Makes a `spider_fingerprint::configs::Tier`.
///
/// Trusted: it is the tier of the same name. `Off` is its `None`.
#[verifier::external_body]
pub(crate) fn generator_tier(tier: StealthTier) -> (made: configs::Tier)
    ensures
        tier_of(made) == tier,
{
    match tier {
        StealthTier::Basic => configs::Tier::Basic, StealthTier::BasicWithConsole => configs::Tier::BasicWithConsole,
        StealthTier::BasicNoWebgl => configs::Tier::BasicNoWebgl, StealthTier::BasicNoWebglWithGPU => configs::Tier::BasicNoWebglWithGPU,
        StealthTier::BasicNoWebglWithGPUcWithConsole => configs::Tier::BasicNoWebglWithGPUcWithConsole, StealthTier::BasicNoWorker => configs::Tier::BasicNoWorker,
        StealthTier::HideOnly => configs::Tier::HideOnly, StealthTier::HideOnlyWithConsole => configs::Tier::HideOnlyWithConsole,
        StealthTier::HideOnlyChrome => configs::Tier::HideOnlyChrome, StealthTier::Low => configs::Tier::Low,
        StealthTier::LowWithPlugins => configs::Tier::LowWithPlugins, StealthTier::LowWithNavigator => configs::Tier::LowWithNavigator,
        StealthTier::Mid => configs::Tier::Mid, StealthTier::Full => configs::Tier::Full,
        StealthTier::BasicNoExtra => configs::Tier::BasicNoExtra, StealthTier::BasicNoWebglWithGPUNoExtra => configs::Tier::BasicNoWebglWithGPUNoExtra,
        StealthTier::Extra => configs::Tier::Extra, StealthTier::Off => configs::Tier::None,
    }
}

/// Makes a `spider_fingerprint::configs::AgentOs`.
///
/// Trusted: it is the system of the same name.
#[verifier::external_body]
pub(crate) fn generator_os(os: StealthOs) -> (made: configs::AgentOs)
    ensures
        os_of(made) == os,
{
    match os {
        StealthOs::Linux => configs::AgentOs::Linux,
        StealthOs::Mac => configs::AgentOs::Mac,
        StealthOs::IPhone => configs::AgentOs::IPhone,
        StealthOs::IPad => configs::AgentOs::IPad,
        StealthOs::Windows => configs::AgentOs::Windows,
        StealthOs::Android => configs::AgentOs::Android,
        StealthOs::ChromeOS => configs::AgentOs::ChromeOS,
        StealthOs::Unknown => configs::AgentOs::Unknown,
    }
}

/// Makes a `spider_fingerprint::Fingerprint`.
///
/// Trusted: it is the one of the same name. `Off` is its `None`.
#[verifier::external_body]
pub(crate) fn generator_fingerprint(fingerprint: StealthFingerprint) -> (made: spider_fingerprint::Fingerprint)
    ensures
        fingerprint_of(made) == fingerprint,
{
    match fingerprint {
        StealthFingerprint::Basic => spider_fingerprint::Fingerprint::Basic,
        StealthFingerprint::NativeGPU => spider_fingerprint::Fingerprint::NativeGPU,
        StealthFingerprint::Off => spider_fingerprint::Fingerprint::None,
    }
}

/// Makes a `spider_fingerprint::EmulationConfiguration`.
///
/// Trusted: each of its fields is the one of the same name.
#[verifier::external_body]
pub(crate) fn generator_config(
    c: &EmulationSettings,
    tier: configs::Tier,
    fingerprint: spider_fingerprint::Fingerprint,
    agent_os: configs::AgentOs,
) -> (made: spider_fingerprint::EmulationConfiguration)
    requires
        tier_of(tier) == c.tier,
        fingerprint_of(fingerprint) == c.fingerprint,
        os_of(agent_os) == c.agent_os,
    ensures
        config_of(made) == *c,
{
    spider_fingerprint::EmulationConfiguration {
        tier, fingerprint, agent_os, firefox_agent: c.firefox_agent,
        user_agent_data: c.user_agent_data, touch_screen: c.touch_screen,
        hardware_concurrency: c.hardware_concurrency, dismiss_dialogs: c.dismiss_dialogs,
        disable_notifications: c.disable_notifications, disable_permissions: c.disable_permissions,
        disable_media_codecs: c.disable_media_codecs, disable_speech_syntheses: c.disable_speech_syntheses,
        disable_media_labels: c.disable_media_labels, disable_history_length: c.disable_history_length,
        disable_user_agent_data: c.disable_user_agent_data, disable_screen: c.disable_screen,
        disable_touch_screen: c.disable_touch_screen, disable_plugins: c.disable_plugins,
        disable_stealth: c.disable_stealth, enable_device_memory: c.enable_device_memory,
        enable_cdp_marker_cleanup: c.enable_cdp_marker_cleanup,
        enable_selenium_marker_cleanup: c.enable_selenium_marker_cleanup,
    }
}

/// Makes a `spider_fingerprint::spoof_viewport::Viewport`.
///
/// Trusted: each of its fields is the one of the same name. The scale is the number
/// that `serde_json` reads it as, and there is none where it reads no number.
#[verifier::external_body]
pub(crate) fn generator_viewport(v: &EmulatedViewport) -> (made: spoof_viewport::Viewport)
    ensures
        shape_of(made) == v.shape(),
        shape_of(made).scale == (match v.device_scale_factor {
            Some(value) => scale_text(value),
            None => None,
        }),
{
    spoof_viewport::Viewport {
        width: v.width,
        height: v.height,
        device_scale_factor: v.device_scale_factor.as_ref().and_then(|scale| scale.as_f64()),
        emulating_mobile: v.emulating_mobile,
        is_landscape: v.is_landscape,
        has_touch: v.has_touch,
    }
}

// ---------------------------------------------------------------------------
// Fixed scripts

/// Takes `spider_fingerprint::spoofs::HIDE_CHROME`.
///
/// Trusted: it is the text that is stated.
#[verifier::external_body]
pub(crate) fn hide_chrome_script() -> (script: String)
    ensures
        script@ == hide_chrome_text(),
{
    spider_fingerprint::spoofs::HIDE_CHROME.to_string()
}

/// Takes `spider_fingerprint::spoofs::HIDE_WEBGL`.
///
/// Trusted: it is the text that is stated.
#[verifier::external_body]
pub(crate) fn hide_webgl_script() -> (script: String)
    ensures
        script@ == hide_webgl_text(),
{
    spider_fingerprint::spoofs::HIDE_WEBGL.to_string()
}

/// Takes `spider_fingerprint::spoofs::HIDE_PERMISSIONS`.
///
/// Trusted: it is the text that is stated.
#[verifier::external_body]
pub(crate) fn hide_permissions_script() -> (script: String)
    ensures
        script@ == hide_permissions_text(),
{
    spider_fingerprint::spoofs::HIDE_PERMISSIONS.to_string()
}

/// Takes `spider_fingerprint::spoofs::HIDE_WEBDRIVER`.
///
/// Trusted: it is the text that is stated.
#[verifier::external_body]
pub(crate) fn hide_webdriver_script() -> (script: String)
    ensures
        script@ == hide_webdriver_text(),
{
    spider_fingerprint::spoofs::HIDE_WEBDRIVER.to_string()
}

/// Takes `spider_fingerprint::spoofs::DISABLE_DIALOGS`.
///
/// Trusted: it is the text that is stated.
#[verifier::external_body]
pub(crate) fn disable_dialogs_script() -> (script: String)
    ensures
        script@ == disable_dialogs_text(),
{
    spider_fingerprint::spoofs::DISABLE_DIALOGS.to_string()
}

/// The script that hides that there are no plugins.
pub open spec fn hide_plugins_text() -> Seq<char> {
    navigator_text() + plugins_text()
}

/// Calls `spider_fingerprint::generate_hide_plugins`.
///
/// Trusted: it is the text that is stated.
#[verifier::external_body]
pub(crate) fn hide_plugins_script() -> (script: String)
    ensures
        script@ == hide_plugins_text(),
{
    spider_fingerprint::generate_hide_plugins()
}

/// A script as the body of a function that is called at once.
pub open spec fn wrapped_script(source: Seq<char>) -> Seq<char> {
    "(()=>{"@ + source + "})();"@
}

/// Calls `spider_fingerprint::wrap_eval_script`.
///
/// Trusted: the result is the script as the body of a function that is called at
/// once.
#[verifier::external_body]
pub(crate) fn wrap_eval_script(source: &str) -> (script: String)
    ensures
        script@ == wrapped_script(source@),
{
    spider_fingerprint::wrap_eval_script(source)
}

// ---------------------------------------------------------------------------
// Stealth

/// A number in decimal.
pub open spec fn decimal(number: nat) -> Seq<char>
    decreases number,
{
    let last = seq![('0' as u32 + number % 10) as char];
    if number < 10 {
        last
    } else {
        decimal(number / 10) + last
    }
}

/// A graphics card, and the number of processors beside it.
pub struct GpuProfile {
    pub webgl_vendor: Seq<char>,
    pub webgl_renderer: Seq<char>,
    pub webgpu_vendor: Seq<char>,
    pub webgpu_architecture: Seq<char>,
    pub canvas_format: Seq<char>,
    pub hardware_concurrency: nat,
}

/// The profiles that `spider_fingerprint::profiles::gpu::select_random_gpu_profile` draws
/// from for a system. An iPad has the list of an iPhone, and Chrome OS and a system that
/// is not known have that of Linux.
pub uninterp spec fn gpu_profiles(os: StealthOs) -> Set<GpuProfile>;

/// What the profiles of a system have in common.
pub open spec fn profile_fits(os: StealthOs, profile: GpuProfile) -> bool {
    match os {
        StealthOs::Mac => {
            &&& begins_with(profile.webgl_vendor, "Google Inc. ("@)
            &&& begins_with(profile.webgl_renderer, "ANGLE ("@)
            &&& profile.canvas_format == "bgra8unorm"@
            &&& 4 <= profile.hardware_concurrency <= 32
        },
        StealthOs::IPhone | StealthOs::IPad => {
            &&& profile.webgl_vendor == "Apple Inc."@
            &&& begins_with(profile.webgl_renderer, "Apple A1"@)
            &&& profile.webgpu_vendor == "apple"@
            &&& begins_with(profile.webgpu_architecture, "metal-"@)
            &&& profile.canvas_format == "bgra8unorm"@
            &&& profile.hardware_concurrency == 6
        },
        StealthOs::Windows => {
            &&& begins_with(profile.webgl_vendor, "Google Inc. ("@)
            &&& begins_with(profile.webgl_renderer, "ANGLE ("@)
            &&& begins_with(profile.webgpu_architecture, "d3d1"@)
            &&& profile.canvas_format == "rgba8unorm"@
            &&& 4 <= profile.hardware_concurrency <= 24
        },
        StealthOs::Linux | StealthOs::Unknown | StealthOs::ChromeOS => {
            &&& profile.webgpu_architecture == "vulkan"@
            &&& profile.canvas_format == "rgba8unorm"@
            &&& 4 <= profile.hardware_concurrency <= 32
        },
        StealthOs::Android => {
            &&& profile.webgl_vendor == "ARM"@ || profile.webgl_vendor == "Qualcomm"@
            &&& profile.canvas_format == "rgba8unorm"@
            &&& profile.hardware_concurrency == 8
        },
    }
}

/// The script on the graphics card.
pub open spec fn graphics_card_text(profile: GpuProfile) -> Seq<char> {
    "try{const v='"@ + profile.webgl_vendor + "',r='"@ + profile.webgl_renderer + "'"@
        + graphics_card_end()
}

/// The script of a worker on the number of processors.
pub open spec fn worker_processors_text(profile: GpuProfile) -> Seq<char> {
    let number = decimal(profile.hardware_concurrency);
    worker_processors_start() + number + worker_processors_middle() + number
        + worker_processors_end()
}

/// The script on workers. With `processors` they claim a number of processors, and with
/// `graphics` a graphics card.
pub open spec fn workers_text(profile: GpuProfile, processors: bool, graphics: bool) -> Seq<char> {
    let card = graphics_card_text(profile);
    let number = worker_processors_text(profile);
    let first = if !processors {
        card
    } else if graphics {
        number + ";"@ + card
    } else {
        number
    };
    let page = if graphics {
        card + ";"@
    } else {
        Seq::empty()
    };
    "(()=>{try{"@ + page + "const P=\""@ + first + worker_end()
}

/// The script on the number of processors.
pub open spec fn processors_text(profile: GpuProfile) -> Seq<char> {
    processors_start() + decimal(profile.hardware_concurrency) + processors_end()
}

/// A limit of a graphics adapter: its name, the least that it is on macOS and on other
/// systems, and by how much more it may be drawn.
pub struct AdapterLimit {
    pub name: Seq<char>,
    pub mac: nat,
    pub other: nat,
    pub drawn: nat,
}

pub open spec fn limit(name: Seq<char>, mac: nat, other: nat, drawn: nat) -> AdapterLimit {
    AdapterLimit { name, mac, other, drawn }
}

/// The limits of a graphics adapter.
pub open spec fn adapter_limits() -> Seq<AdapterLimit> {
    seq![
        limit("maxTextureDimension1D"@, 16384, 16384, 0),
        limit("maxTextureDimension2D"@, 16384, 16384, 0),
        limit("maxTextureDimension3D"@, 2048, 2048, 0),
        limit("maxTextureArrayLayers"@, 2048, 2048, 0),
        limit("maxBindGroups"@, 4, 4, 0),
        limit("maxBindGroupsPlusVertexBuffers"@, 24, 32, 3),
        limit("maxBindingsPerBindGroup"@, 1000, 1000, 30),
        limit("maxDynamicUniformBuffersPerPipelineLayout"@, 10, 12, 3),
        limit("maxDynamicStorageBuffersPerPipelineLayout"@, 8, 16, 3),
        limit("maxSampledTexturesPerShaderStage"@, 16, 32, 6),
        limit("maxSamplersPerShaderStage"@, 16, 32, 6),
        limit("maxStorageBuffersPerShaderStage"@, 10, 12, 3),
        limit("maxStorageTexturesPerShaderStage"@, 8, 12, 3),
        limit("maxUniformBuffersPerShaderStage"@, 12, 16, 3),
        limit("maxUniformBufferBindingSize"@, 65536, 131072, 6144),
        limit("maxStorageBufferBindingSize"@, 4294967292, 1073741824, 98304),
        limit("minUniformBufferOffsetAlignment"@, 256, 256, 0),
        limit("minStorageBufferOffsetAlignment"@, 256, 256, 0),
        limit("maxVertexBuffers"@, 8, 16, 0),
        limit("maxBufferSize"@, 4294967296, 4294967296, 0),
        limit("maxVertexAttributes"@, 30, 16, 6),
        limit("maxVertexBufferArrayStride"@, 2048, 2048, 0),
        limit("maxInterStageShaderVariables"@, 28, 32, 3),
        limit("maxColorAttachments"@, 8, 8, 0),
        limit("maxColorAttachmentBytesPerSample"@, 128, 256, 24),
        limit("maxComputeWorkgroupStorageSize"@, 32768, 65536, 6144),
        limit("maxComputeInvocationsPerWorkgroup"@, 1024, 2048, 192),
        limit("maxComputeWorkgroupSizeX"@, 1024, 256, 48),
        limit("maxComputeWorkgroupSizeY"@, 1024, 256, 48),
        limit("maxComputeWorkgroupSizeZ"@, 64, 64, 12),
        limit("maxComputeWorkgroupsPerDimension"@, 65535, 131072, 1536),
    ]
}

/// The numbers are limits of a graphics adapter of a system.
pub open spec fn is_gpu_limits(os: StealthOs, limits: Seq<nat>) -> bool {
    &&& limits.len() == adapter_limits().len()
    &&& forall|i: int|
        0 <= i < limits.len() ==> {
            let row = adapter_limits()[i];
            let least = if os == StealthOs::Mac {
                row.mac
            } else {
                row.other
            };
            least <= #[trigger] limits[i] <= least + row.drawn
        }
}

/// The first limits of a graphics adapter, as a script has them.
pub open spec fn limits_text(limits: Seq<nat>, count: nat) -> Seq<char>
    decreases count,
{
    if count == 0 {
        Seq::empty()
    } else {
        let i = count - 1;
        let entry = adapter_limits()[i].name + ":"@ + decimal(limits[i]);
        if count == 1 {
            entry
        } else {
            limits_text(limits, i as nat) + ","@ + entry
        }
    }
}

/// The script on the graphics adapter.
pub open spec fn adapter_text(profile: GpuProfile, limits: Seq<nat>) -> Seq<char> {
    adapter_start() + "vendor:'"@ + profile.webgpu_vendor + "',architecture:'"@
        + profile.webgpu_architecture + "',device:'',description:''"@ + adapter_middle()
        + limits_text(limits, limits.len()) + adapter_end()
}

/// The script on the format of drawings.
pub open spec fn canvas_format_text(profile: GpuProfile) -> Seq<char> {
    canvas_format_start() + profile.canvas_format + canvas_format_end()
}

/// Two scripts, one after the other.
pub open spec fn then_run(first: Seq<char>, second: Seq<char>) -> Seq<char> {
    first + ";"@ + second
}

/// Do the workers of a tier claim a graphics card?
pub open spec fn workers_claim_graphics(tier: StealthTier) -> bool {
    match tier {
        StealthTier::BasicNoWebglWithGPU => false,
        StealthTier::BasicNoWebglWithGPUNoExtra => false,
        StealthTier::BasicNoWebglWithGPUcWithConsole => false,
        _ => true,
    }
}

/// The stealth script of a tier, with this script on `window.chrome` in it, for a profile
/// and the limits of an adapter. With `processors` it claims a number of processors.
pub open spec fn stealth_text(
    tier: StealthTier,
    chrome: Seq<char>,
    processors: bool,
    profile: GpuProfile,
    limits: Seq<nat>,
) -> Seq<char> {
    let quiet = then_run(chrome, hide_console_text());
    let workers = if tier == StealthTier::BasicNoWorker {
        Seq::empty()
    } else {
        workers_text(profile, processors, !processors || workers_claim_graphics(tier))
    };
    let number = if processors {
        processors_text(profile)
    } else {
        Seq::empty()
    };
    let adapter = adapter_text(profile, limits);
    let all = then_run(then_run(then_run(quiet, workers), number), adapter);
    match tier {
        StealthTier::Basic | StealthTier::BasicNoWorker | StealthTier::BasicNoExtra => then_run(
            then_run(then_run(quiet, workers), adapter),
            navigator_text(),
        ),
        StealthTier::BasicWithConsole => then_run(
            then_run(then_run(then_run(chrome, workers), number), adapter),
            navigator_text(),
        ),
        StealthTier::BasicNoWebgl
        | StealthTier::BasicNoWebglWithGPU
        | StealthTier::BasicNoWebglWithGPUNoExtra => then_run(
            then_run(then_run(quiet, workers), number),
            navigator_text(),
        ),
        StealthTier::BasicNoWebglWithGPUcWithConsole => then_run(
            then_run(then_run(chrome, workers), number),
            navigator_text(),
        ),
        StealthTier::HideOnly => then_run(quiet, hide_webdriver_text()),
        StealthTier::HideOnlyWithConsole => then_run(chrome, hide_webdriver_text()),
        StealthTier::HideOnlyChrome => chrome,
        StealthTier::Low | StealthTier::LowWithPlugins => then_run(all, hide_webdriver_text()),
        StealthTier::LowWithNavigator => then_run(
            then_run(all, hide_webdriver_text()),
            navigator_text(),
        ),
        StealthTier::Mid => then_run(then_run(all, navigator_text()), hide_webdriver_text()),
        StealthTier::Full => then_run(
            then_run(then_run(all, hide_webdriver_text()), navigator_text()),
            canvas_format_text(profile),
        ),
        StealthTier::Extra | StealthTier::Off => Seq::empty(),
    }
}

/// The script is the stealth script of the tier for one of the profiles, and for limits
/// of the system.
pub open spec fn is_stealth_script(
    tier: StealthTier,
    os: StealthOs,
    profiles: Set<GpuProfile>,
    chrome: Seq<char>,
    processors: bool,
    script: Seq<char>,
) -> bool {
    exists|profile: GpuProfile, limits: Seq<nat>|
        {
            &&& profiles.contains(profile)
            &&& profile_fits(os, profile)
            &&& is_gpu_limits(os, limits)
            &&& script == #[trigger] stealth_text(tier, chrome, processors, profile, limits)
        }
}

/// Calls `spider_fingerprint::build_stealth_script`.
///
/// Trusted: the script is that of the tier, takes `window.chrome` away and claims a
/// number of processors. Which profile of the system it is for is drawn at random, and
/// so are some of the limits of the adapter.
#[verifier::external_body]
fn build_stealth_script(tier: configs::Tier, os: configs::AgentOs) -> (script: String)
    ensures
        is_stealth_script(
            tier_of(tier),
            os_of(os),
            gpu_profiles(os_of(os)),
            remove_chrome_text(),
            true,
            script@,
        ),
{
    spider_fingerprint::build_stealth_script(tier, os)
}

/// A script that disguises the browser.
pub fn stealth_script(tier: StealthTier, os: StealthOs) -> (script: String)
    ensures
        is_stealth_script(tier, os, gpu_profiles(os), remove_chrome_text(), true, script@),
{
    build_stealth_script(generator_tier(tier), generator_os(os))
}

} // verus!
