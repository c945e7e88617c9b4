//! The emulation of a browser by a user agent, settings and a viewport.
use vstd::prelude::*;
use spider_fingerprint::spoof_viewport;

use crate::matcher::{ascii_folded, folded_chars};
use crate::page::call::UserAgentMetadataView;
use crate::page::disguise::{
    config_of, decimal, generator_config, generator_fingerprint, generator_os, generator_tier,
    generator_viewport, gpu_profiles, is_gpu_limits, profile_fits, shape_of, stealth_text,
    wrapped_script, EmulatedViewport, EmulationSettings, GpuProfile, StealthFingerprint, StealthOs,
    StealthTier, ViewportShape,
};
use crate::page::script_texts::{
    agent_data_end, agent_data_middle, agent_data_start, cdp_markers_text, chrome_plugins_text,
    codecs_text, disable_dialogs_text, graphics_text, hide_chrome_text, history_end, history_start,
    labels_end, labels_start, linux_canvas_text, mac_canvas_text, memory_end, memory_start,
    no_touch_text, notifications_text, permissions_query_text, plugins_text, remove_chrome_text,
    screen_end, selenium_markers_text, speech_text, touch_text, windows_canvas_text,
};
use crate::page::user_agent::{fits_user_agent, text_before};
use crate::text::{chars_of, find_from, is_digit, occurs};
use crate::url::{lemma_place_of, place_of};

verus! {

// ---------------------------------------------------------------------------
// What a user agent names

/// Does a text stand in a user agent, whatever the case of letters?
pub open spec fn names(user_agent: Seq<char>, text: Seq<char>) -> bool {
    occurs(ascii_folded(user_agent), text)
}

/// The system that the user agent of a browser of the Chrome family names.
pub open spec fn system_named(user_agent: Seq<char>) -> StealthOs {
    if !names(user_agent, "chrome"@) && !names(user_agent, "crios"@) {
        StealthOs::Unknown
    } else if names(user_agent, "android"@) {
        StealthOs::Android
    } else if names(user_agent, "iphone"@) {
        StealthOs::IPhone
    } else if names(user_agent, "ipad"@) {
        StealthOs::IPad
    } else if names(user_agent, "ios"@) {
        StealthOs::IPhone
    } else if names(user_agent, "windows"@) || names(user_agent, "win64"@) {
        StealthOs::Windows
    } else if names(user_agent, "mac"@) {
        StealthOs::Mac
    } else if names(user_agent, "cros"@) || names(user_agent, "linux"@) {
        StealthOs::Linux
    } else {
        StealthOs::Unknown
    }
}

/// The system that is emulated: the one that is set, or else the one that the user agent
/// names.
pub open spec fn system_of(user_agent: Seq<char>, config: EmulationSettings) -> StealthOs {
    if config.agent_os == StealthOs::Unknown {
        system_named(user_agent)
    } else {
        config.agent_os
    }
}

/// A kind of browser.
pub enum BrowserKind {
    Chrome,
    Brave,
    Firefox,
    Safari,
    Edge,
    Opera,
    Other,
}

/// The browser that a user agent names.
pub open spec fn browser_named(user_agent: Seq<char>) -> BrowserKind {
    let edge = names(user_agent, "edg/"@) || names(user_agent, "edgios"@) || names(
        user_agent,
        "edge/"@,
    );
    let opera = names(user_agent, "opr/"@) || names(user_agent, "opera"@) || names(
        user_agent,
        "opios"@,
    );
    let firefox = names(user_agent, "firefox"@) || names(user_agent, "fxios"@);
    let chrome = names(user_agent, "chrome/"@) || names(user_agent, "crios"@) || names(
        user_agent,
        "chromium"@,
    );
    if chrome && !edge && !opera {
        if names(user_agent, "brave"@) {
            BrowserKind::Brave
        } else {
            BrowserKind::Chrome
        }
    } else if names(user_agent, "safari"@) && !chrome && !edge && !opera && !firefox {
        BrowserKind::Safari
    } else if edge {
        BrowserKind::Edge
    } else if firefox {
        BrowserKind::Firefox
    } else if opera {
        BrowserKind::Opera
    } else {
        BrowserKind::Other
    }
}

/// The kind of browser fits a user agent: it is the one that is named. Nothing is said
/// where two names of browsers share a letter.
pub open spec fn is_browser_of(user_agent: Seq<char>, browser: BrowserKind) -> bool {
    !names(user_agent, "bravedg"@) && !names(user_agent, "iosafari"@) ==> browser
        == browser_named(user_agent)
}

/// Is the browser one of the Chromium family?
pub open spec fn is_chromium(browser: BrowserKind) -> bool {
    browser is Chrome || browser is Opera || browser is Brave || browser is Edge
}

/// The digits that a text begins with.
pub open spec fn leading_digits(text: Seq<char>) -> Seq<char>
    decreases text.len(),
{
    if text.len() == 0 || !is_digit(text[0]) {
        Seq::empty()
    } else {
        seq![text[0]] + leading_digits(text.skip(1))
    }
}

/// The number that digits count up to. One that is too large on the way counts as the
/// largest of 32 bits, and there is none where a digit then goes beyond that.
pub open spec fn counted(digits: Seq<char>) -> Option<nat>
    decreases digits.len(),
{
    if digits.len() == 0 {
        Some(0)
    } else {
        match counted(digits.drop_last()) {
            Some(number) => {
                let tens = if number * 10 <= u32::MAX {
                    number * 10
                } else {
                    u32::MAX as nat
                };
                let sum = tens + (digits.last() as nat - '0' as nat) as nat;
                if sum <= u32::MAX {
                    Some(sum)
                } else {
                    None
                }
            },
            None => None,
        }
    }
}

/// The digits that stand behind the first place of a name in a user agent.
pub open spec fn version_after(user_agent: Seq<char>, name: Seq<char>) -> Seq<char> {
    match place_of(ascii_folded(user_agent), name, 0) {
        Some(at) => leading_digits(user_agent.skip(at + name.len())),
        None => Seq::empty(),
    }
}

/// Is there a number behind the first place of a name that is at least this?
pub open spec fn version_at_least(user_agent: Seq<char>, name: Seq<char>, least: nat) -> bool {
    let digits = version_after(user_agent, name);
    digits.len() > 0 && (counted(digits) matches Some(version) && version >= least)
}

/// Is Edge on Android named?
pub open spec fn edge_on_android(user_agent: Seq<char>) -> bool {
    names(user_agent, "edg/"@) && names(user_agent, "android"@)
}

/// The name whose version decides whether pages get the data of a user agent.
pub open spec fn deciding_name(user_agent: Seq<char>) -> Seq<char> {
    if names(user_agent, "edg/"@) {
        "edg/"@
    } else if names(user_agent, "opr/"@) {
        "opr/"@
    } else {
        "chrome/"@
    }
}

/// Does the browser that a user agent names give pages the data of its user agent?
pub open spec fn gives_agent_data(user_agent: Seq<char>) -> bool {
    let least = if names(user_agent, "edg/"@) || !names(user_agent, "opr/"@) {
        90nat
    } else if names(user_agent, "android"@) {
        64
    } else {
        76
    };
    !edge_on_android(user_agent) && version_at_least(user_agent, deciding_name(user_agent), least)
}

// ---------------------------------------------------------------------------
// Emulation

/// The viewport is one for which a screen can be made up: its width leaves room for
/// that of a window, which is 1920 at most, its height leaves room for a menu bar, and
/// both leave room for the place of the window.
pub open spec fn screen_fits(viewport: ViewportShape) -> bool {
    &&& viewport.width <= 2744
    &&& 60 <= viewport.height
    &&& if viewport.emulating_mobile {
        viewport.height <= u32::MAX - 90
    } else {
        viewport.height <= i32::MAX - 100
    }
}

/// The version that decides, if one does, is a number that can be counted up to.
pub open spec fn versions_fit(user_agent: Seq<char>) -> bool {
    edge_on_android(user_agent) || counted(
        version_after(user_agent, deciding_name(user_agent)),
    ) is Some
}

/// Does a configuration have the data of a user agent made up?
pub open spec fn makes_up_agent_data(config: EmulationSettings) -> bool {
    config.tier != StealthTier::Off && config.user_agent_data != Some(false)
}

/// A browser can be emulated.
pub open spec fn can_emulate(
    user_agent: Seq<char>,
    config: EmulationSettings,
    viewport: Option<ViewportShape>,
) -> bool {
    &&& viewport is Some ==> screen_fits(viewport->0)
    &&& makes_up_agent_data(config) ==> versions_fit(user_agent)
}

/// Is there a script that emulates a browser?
pub open spec fn has_emulation(config: EmulationSettings, custom: Option<Seq<char>>) -> bool {
    config.tier != StealthTier::Off || config.fingerprint != StealthFingerprint::Off || custom
        is Some
}

/// The text, if it is in force.
pub open spec fn when(in_force: bool, text: Seq<char>) -> Seq<char> {
    if in_force {
        text
    } else {
        Seq::empty()
    }
}

/// The script on the fingerprint of a browser on a system.
pub open spec fn fingerprint_text(os: StealthOs, fingerprint: StealthFingerprint) -> Seq<char> {
    let canvas = match os {
        StealthOs::Mac => mac_canvas_text(),
        StealthOs::Windows => windows_canvas_text(),
        _ => linux_canvas_text(),
    };
    match fingerprint {
        StealthFingerprint::Basic => canvas + graphics_text(),
        StealthFingerprint::NativeGPU => canvas,
        StealthFingerprint::Off => Seq::empty(),
    }
}

/// The script is one on the fingerprint of a browser on a system. On a system other than
/// the three it is the whole script of one of them, which goes by the machine that the
/// generator was built for.
pub open spec fn is_fingerprint_script(
    os: StealthOs,
    fingerprint: StealthFingerprint,
    script: Seq<char>,
) -> bool {
    if fingerprint == StealthFingerprint::Off || os == StealthOs::Linux || os == StealthOs::Mac
        || os == StealthOs::Windows {
        script == fingerprint_text(os, fingerprint)
    } else {
        ||| script == fingerprint_text(StealthOs::Linux, StealthFingerprint::Basic)
        ||| script == fingerprint_text(StealthOs::Mac, StealthFingerprint::Basic)
        ||| script == fingerprint_text(StealthOs::Windows, StealthFingerprint::Basic)
    }
}

/// A list of brands and versions.
pub open spec fn brands_text(brands: Seq<(Seq<char>, Seq<char>)>) -> Seq<char>
    decreases brands.len(),
{
    if brands.len() == 0 {
        Seq::empty()
    } else {
        let last = brands.last();
        let entry = "{brand:'"@ + last.0 + "',version:'"@ + last.1 + "'}"@;
        if brands.len() == 1 {
            entry
        } else {
            brands_text(brands.drop_last()) + ","@ + entry
        }
    }
}

/// The brands with the first number of their versions.
pub open spec fn major_brands(brands: Seq<(Seq<char>, Seq<char>)>) -> Seq<(Seq<char>, Seq<char>)> {
    brands.map_values(|b: (Seq<char>, Seq<char>)| (b.0, text_before(b.1, "."@)))
}

/// The script on the data of a user agent.
pub open spec fn agent_data_text(data: UserAgentMetadataView) -> Seq<char> {
    agent_data_start() + data.architecture + "',bitness:'"@ + data.bitness + "',model:'"@
        + data.model + "',platformVersion:'"@ + data.platform_version + "',fullVersionList:["@
        + brands_text(data.full_version_list) + "],brands:["@ + brands_text(
        major_brands(data.full_version_list),
    ) + "],mobile:!1,platform:'"@ + data.platform + agent_data_middle()
        + data.full_version_list[0].1 + agent_data_end()
}

/// The window of a page, as far as it is drawn at random: the size that pages fill, what
/// stands around that, the height of menu bars and the place on the screen. The depth of
/// colours goes by the scale of the viewport.
pub struct WindowDraws {
    pub inner_width: nat,
    pub inner_height: nat,
    pub border: nat,
    pub bars: nat,
    pub menu: nat,
    pub left: Seq<char>,
    pub top: Seq<char>,
    pub depth: nat,
}

/// The window fits the screen of a viewport.
pub open spec fn window_fits(os: StealthOs, viewport: ViewportShape, window: WindowDraws) -> bool {
    let small = os == StealthOs::Android || os == StealthOs::IPhone || os == StealthOs::IPad;
    &&& window.inner_width <= viewport.width
    &&& window.inner_width <= 1920
    &&& window.inner_height <= viewport.height
    &&& window.border <= 20
    &&& 70 <= window.bars <= 90
    &&& 30 <= window.menu <= 60
    &&& viewport.emulating_mobile ==> window.left == "0"@ && window.top == "0"@
    &&& window.depth == 24 || window.depth == 30 && !small && viewport.width >= 2560
    &&& viewport.scale is None ==> (window.depth == 30 <==> !small && viewport.width >= 2560
        && viewport.emulating_mobile)
}

/// The ratio of pixels of a viewport: its scale, or what is usual.
pub open spec fn ratio_text(os: StealthOs, viewport: ViewportShape) -> Seq<char> {
    match viewport.scale {
        Some(scale) => scale,
        None => if viewport.emulating_mobile {
            "2"@
        } else {
            match os {
                StealthOs::Android | StealthOs::IPhone | StealthOs::IPad => "2"@,
                StealthOs::ChromeOS => "1.6"@,
                _ => "1"@,
            }
        },
    }
}

/// A number that a page gets to see of the screen.
pub open spec fn screen_number(name: Seq<char>, number: nat) -> Seq<char> {
    name + "=new Function('return "@ + decimal(number) + "'),"@
}

/// The script on the screen of a viewport.
pub open spec fn screen_text(
    os: StealthOs,
    viewport: ViewportShape,
    window: WindowDraws,
) -> Seq<char> {
    let width = viewport.width as nat;
    let height = viewport.height as nat;
    "(()=>{const "@ + screen_number("iw"@, window.inner_width) + screen_number(
        "ih"@,
        window.inner_height,
    ) + screen_number("ow"@, window.inner_width + window.border) + screen_number(
        "oh"@,
        window.inner_height + window.bars,
    ) + screen_number("sw"@, width) + screen_number("sh"@, height) + screen_number("aw"@, width)
        + screen_number("ah"@, (height - window.menu) as nat) + "sx=new Function('return "@
        + window.left + "'),sy=new Function('return "@ + window.top + "'),"@ + screen_number(
        "cd"@,
        window.depth,
    ) + screen_number("pd"@, window.depth) + "dpr=new Function('return "@ + ratio_text(
        os,
        viewport,
    ) + screen_end()
}

/// The script on the labels of cameras.
pub open spec fn labels_text(os: StealthOs) -> Seq<char> {
    let label = match os {
        StealthOs::Mac => "FaceTime HD Camera"@,
        StealthOs::Windows => "Integrated Webcam"@,
        StealthOs::Linux | StealthOs::Unknown | StealthOs::ChromeOS => "Integrated Camera"@,
        StealthOs::Android | StealthOs::IPhone | StealthOs::IPad => "Front Camera"@,
    };
    labels_start() + label + labels_end()
}

/// What is drawn at random, or not said here, of a script that emulates a browser.
pub struct Draws {
    pub fingerprint: Seq<char>,
    pub browser: BrowserKind,
    pub agent_data: UserAgentMetadataView,
    pub window: WindowDraws,
    pub history: nat,
    pub memory: nat,
    pub profile: GpuProfile,
    pub limits: Seq<nat>,
}

/// The draws fit the user agent, the settings and the viewport.
pub open spec fn draws_fit(
    user_agent: Seq<char>,
    config: EmulationSettings,
    viewport: Option<ViewportShape>,
    draws: Draws,
) -> bool {
    let system = system_of(user_agent, config);
    let small = system == StealthOs::Android || system == StealthOs::IPhone || system
        == StealthOs::IPad;
    &&& is_fingerprint_script(system, config.fingerprint, draws.fingerprint)
    &&& is_browser_of(user_agent, draws.browser)
    &&& fits_user_agent(draws.agent_data, user_agent)
    &&& viewport is Some ==> window_fits(system, viewport->0, draws.window)
    &&& 1 <= draws.history <= 6
    &&& if small {
        2 <= draws.memory <= 4
    } else {
        draws.memory == 4 || draws.memory == 8
    }
    &&& gpu_profiles(system).contains(draws.profile)
    &&& profile_fits(system, draws.profile)
    &&& is_gpu_limits(system, draws.limits)
}

/// Does a tier leave out all but its stealth script and what keeps dialogs away?
pub open spec fn no_extra(tier: StealthTier) -> bool {
    tier == StealthTier::BasicNoExtra || tier == StealthTier::BasicNoWebglWithGPUNoExtra
}

/// What the switches of a tier that is on put before its stealth script.
pub open spec fn extras_text(
    user_agent: Seq<char>,
    config: EmulationSettings,
    viewport: Option<ViewportShape>,
    draws: Draws,
) -> Seq<char> {
    let system = system_of(user_agent, config);
    let extra = !no_extra(config.tier);
    let mobile = viewport is Some && viewport->0.emulating_mobile;
    when(
        extra && !config.disable_speech_syntheses && system != StealthOs::Unknown,
        speech_text(),
    ) + when(
        extra && !config.disable_user_agent_data && makes_up_agent_data(config)
            && gives_agent_data(user_agent),
        agent_data_text(draws.agent_data),
    ) + when(
        !extra || config.dismiss_dialogs,
        disable_dialogs_text(),
    ) + when(
        extra && !config.disable_screen && viewport is Some,
        screen_text(system, viewport->0, draws.window),
    ) + when(
        extra && !config.disable_notifications,
        notifications_text(),
    ) + when(extra && !config.disable_permissions, permissions_query_text()) + when(
        extra && !config.disable_media_codecs,
        codecs_text(),
    ) + when(
        extra && !config.disable_touch_screen && config.touch_screen,
        if mobile {
            touch_text()
        } else {
            no_touch_text()
        },
    ) + when(extra && !config.disable_media_labels, labels_text(system)) + when(
        extra && !config.disable_history_length,
        history_start() + decimal(draws.history) + history_end(),
    ) + when(
        extra && (!config.disable_plugins || config.tier == StealthTier::LowWithPlugins),
        if draws.browser is Chrome {
            chrome_plugins_text()
        } else {
            plugins_text()
        },
    ) + when(
        config.enable_device_memory,
        memory_start() + decimal(draws.memory) + memory_end(),
    ) + when(config.enable_cdp_marker_cleanup, cdp_markers_text()) + when(
        config.enable_selenium_marker_cleanup,
        selenium_markers_text(),
    )
}

/// The script that emulates a browser: the one on its fingerprint, the extras and the
/// stealth script of the tier, if that is on, and the user's script.
pub open spec fn emulation_text(
    user_agent: Seq<char>,
    config: EmulationSettings,
    viewport: Option<ViewportShape>,
    custom: Option<Seq<char>>,
    draws: Draws,
) -> Seq<char> {
    let chrome = if is_chromium(draws.browser) {
        hide_chrome_text()
    } else {
        remove_chrome_text()
    };
    let stealth = stealth_text(
        config.tier,
        chrome,
        config.hardware_concurrency,
        draws.profile,
        draws.limits,
    );
    draws.fingerprint + when(
        config.tier != StealthTier::Off,
        extras_text(user_agent, config, viewport, draws) + when(!config.disable_stealth, stealth),
    ) + (match custom {
        Some(script) => wrapped_script(script),
        None => Seq::empty(),
    })
}

/// The script emulates a browser of this user agent, these settings and this viewport,
/// and runs the user's script last.
pub open spec fn is_emulation_script(
    user_agent: Seq<char>,
    config: EmulationSettings,
    viewport: Option<ViewportShape>,
    custom: Option<Seq<char>>,
    script: Seq<char>,
) -> bool {
    exists|draws: Draws|
        {
            &&& draws_fit(user_agent, config, viewport, draws)
            &&& script == #[trigger] emulation_text(user_agent, config, viewport, custom, draws)
        }
}

/// The shape of an optional viewport of the generator.
pub open spec fn opt_shape(viewport: Option<&spoof_viewport::Viewport>) -> Option<ViewportShape> {
    match viewport {
        Some(v) => Some(shape_of(*v)),
        None => None,
    }
}

/// The text of an optional string slice.
pub open spec fn opt_str(text: Option<&str>) -> Option<Seq<char>> {
    match text {
        Some(t) => Some(t@),
        None => None,
    }
}

/// Calls `spider_fingerprint::emulate`.
///
/// Trusted: there is a script if and only if a tier or a fingerprint is on or the user
/// has a script, and it is made of the parts that are stated, in their order. Drawn at
/// random are the profile of the graphics card and some of the limits of its adapter,
/// the size and the place of the window, the version of the browser, the length of the
/// history and the size of the memory. Left out is what the call panics on: a viewport
/// for which no screen can be made up, and a version that can not be counted up to.
#[verifier::external_body]
fn emulate(
    user_agent: &str,
    config: &spider_fingerprint::EmulationConfiguration,
    viewport: &Option<&spoof_viewport::Viewport>,
    custom_script: &Option<&str>,
) -> (script: Option<String>)
    requires
        can_emulate(user_agent@, config_of(*config), opt_shape(*viewport)),
    ensures
        script is Some <==> has_emulation(config_of(*config), opt_str(*custom_script)),
        script matches Some(s) ==> is_emulation_script(
            user_agent@,
            config_of(*config),
            opt_shape(*viewport),
            opt_str(*custom_script),
            s@,
        ),
{
    let custom = custom_script.map(|script| Box::new(script.to_string()));
    spider_fingerprint::emulate(user_agent, config, viewport, &custom)
}

/// The shape of an optional viewport.
pub open spec fn opt_viewport(viewport: Option<&EmulatedViewport>) -> Option<ViewportShape> {
    match viewport {
        Some(v) => Some(v.shape()),
        None => None,
    }
}

/// A script that emulates a browser, if there is one.
pub fn emulation_script(
    user_agent: &str,
    config: &EmulationSettings,
    viewport: Option<&EmulatedViewport>,
    custom_script: Option<&str>,
) -> (script: Option<String>)
    requires
        can_emulate(user_agent@, *config, opt_viewport(viewport)),
    ensures
        script is Some <==> has_emulation(*config, opt_str(custom_script)),
        script matches Some(s) ==> is_emulation_script(
            user_agent@,
            *config,
            opt_viewport(viewport),
            opt_str(custom_script),
            s@,
        ),
{
    let made = generator_config(
        config,
        generator_tier(config.tier),
        generator_fingerprint(config.fingerprint),
        generator_os(config.agent_os),
    );
    match viewport {
        Some(v) => {
            let screen = generator_viewport(v);
            emulate(user_agent, &made, &Some(&screen), &custom_script)
        },
        None => emulate(user_agent, &made, &None, &custom_script),
    }
}

/// The digits that a text begins with are the longest beginning that holds nothing else.
proof fn lemma_leading_digits(text: Seq<char>, length: int)
    requires
        0 <= length <= text.len(),
        forall|i: int| 0 <= i < length ==> is_digit(#[trigger] text[i]),
        length < text.len() ==> !is_digit(text[length]),
    ensures
        leading_digits(text) == text.take(length),
    decreases length,
{
    if length == 0 {
        assert(text.take(0) =~= Seq::empty());
    } else {
        let rest = text.skip(1);
        assert forall|i: int| 0 <= i < length - 1 implies is_digit(#[trigger] rest[i]) by {
            assert(rest[i] == text[i + 1]);
        }
        lemma_leading_digits(rest, length - 1);
        assert(seq![text[0]] + rest.take(length - 1) =~= text.take(length));
    }
}

/// Can the digits that a row of characters holds from a place on be counted up to?
fn can_count(chars: &Vec<char>, from: usize) -> (fits: bool)
    requires
        from <= chars.len(),
    ensures
        fits == (counted(leading_digits(chars@.skip(from as int))) is Some),
{
    let ghost text = chars@.skip(from as int);
    let mut fits = true;
    let mut value: u64 = 0;
    let mut i: usize = from;
    proof {
        assert(text.take(0) =~= Seq::empty());
    }
    while i < chars.len() && '0' <= chars[i] && chars[i] <= '9'
        invariant
            from <= i <= chars.len(),
            text == chars@.skip(from as int),
            forall|k: int| 0 <= k < i - from ==> is_digit(#[trigger] text[k]),
            value <= u32::MAX,
            fits ==> counted(text.take(i - from)) == Some(value as nat),
            !fits ==> counted(text.take(i - from)) is None,
        decreases chars.len() - i,
    {
        proof {
            assert(text[i - from] == chars@[i as int]);
            assert(text.take(i - from + 1).drop_last() =~= text.take(i - from));
            assert(text.take(i - from + 1).last() == chars@[i as int]);
        }
        let digit: u64 = (chars[i] as u32 - '0' as u32) as u64;
        let tens: u64 = if value * 10 <= u32::MAX as u64 {
            value * 10
        } else {
            u32::MAX as u64
        };
        if tens + digit <= u32::MAX as u64 {
            value = tens + digit;
        } else {
            fits = false;
        }
        i = i + 1;
    }
    proof {
        if i < chars.len() {
            assert(text[i - from] == chars@[i as int]);
        }
        lemma_leading_digits(text, i - from);
    }
    fits
}

/// Can the version behind the first place of a name be counted up to?
fn version_counts(user_agent: &Vec<char>, folded: &Vec<char>, name: &str) -> (fits: bool)
    requires
        folded@ == ascii_folded(user_agent@),
    ensures
        fits == (counted(version_after(user_agent@, name@)) is Some),
{
    let needle = chars_of(name);
    match find_from(folded, &needle, 0) {
        Some(at) => {
            proof {
                lemma_place_of(folded@, name@, 0, at as int);
                assert(at + needle.len() <= folded.len());
            }
            can_count(user_agent, at + needle.len())
        },
        None => true,
    }
}

/// Does a text stand in a row of characters?
fn has_text(chars: &Vec<char>, text: &str) -> (found: bool)
    ensures
        found == occurs(chars@, text@),
{
    find_from(chars, &chars_of(text), 0).is_some()
}

/// Can a browser be emulated?
pub fn emulation_possible(
    user_agent: &str,
    config: &EmulationSettings,
    viewport: Option<&EmulatedViewport>,
) -> (yes: bool)
    ensures
        yes == can_emulate(user_agent@, *config, opt_viewport(viewport)),
{
    let screen = match viewport {
        Some(v) => v.width <= 2744 && 60 <= v.height && (if v.emulating_mobile {
            v.height <= u32::MAX - 90
        } else {
            v.height <= 2_147_483_547
        }),
        None => true,
    };
    if config.tier == StealthTier::Off || config.user_agent_data == Some(false) {
        return screen;
    }
    let chars = chars_of(user_agent);
    let folded = folded_chars(user_agent);
    let edge = has_text(&folded, "edg/");
    screen && ((edge && has_text(&folded, "android")) || (if edge {
        version_counts(&chars, &folded, "edg/")
    } else if has_text(&folded, "opr/") {
        version_counts(&chars, &folded, "opr/")
    } else {
        version_counts(&chars, &folded, "chrome/")
    }))
}

} // verus!
