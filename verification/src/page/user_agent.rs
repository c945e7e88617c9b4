//! The user agent of a page, and what goes with it.
use vstd::prelude::*;
use spider_fingerprint::spoof_user_agent::build_high_entropy_data;

use crate::matcher::{any_occurs, ascii_folded, find_leftmost_folded, leftmost_folded, modest, texts};
use crate::page::call::{
    and_then, brand_texts, call, copy_brands, no_steps, step_views, Call, CallView, Page, Param,
    ParamView, Step, StepView, UserAgentBrandVersion, UserAgentMetadata, UserAgentMetadataView,
};
use crate::protocol::{copy_opt, opt_text};
use crate::text::{
    begins_with, digits_of, digits_value, is_blank, is_u64_text, occurs, occurs_at, same_text,
    trims_to,
};
use crate::url::place_of;

verus! {

// ---------------------------------------------------------------------------
// The platform

/// What a user agent calls the systems, without regard to case.
pub open spec fn platform_patterns() -> Seq<Seq<char>> {
    seq![
        "ipad"@,
        "ipod"@,
        "iphone"@,
        "android"@,
        "macintosh"@,
        "mac os x"@,
        "windows"@,
        "linux"@,
    ]
}

/// The platform of each of the systems.
pub open spec fn platform_name(pattern: int) -> Seq<char> {
    if pattern == 0 {
        "iPad"@
    } else if pattern == 1 {
        "iPod"@
    } else if pattern == 2 {
        "iPhone"@
    } else if pattern == 3 {
        "Linux armv8l"@
    } else if pattern == 4 || pattern == 5 {
        "MacIntel"@
    } else if pattern == 6 {
        "Win32"@
    } else if pattern == 7 {
        "Linux x86_64"@
    } else {
        ""@
    }
}

/// The platform of a user agent: that of the system that it names first, and the
/// empty text if it names none.
pub open spec fn platform_of(user_agent: Seq<char>) -> Seq<char> {
    if exists|p: int| leftmost_folded(platform_patterns(), user_agent, p) {
        platform_name(choose|p: int| leftmost_folded(platform_patterns(), user_agent, p))
    } else {
        ""@
    }
}

/// There is one leftmost match.
proof fn lemma_leftmost_once(patterns: Seq<Seq<char>>, text: Seq<char>, p: int, q: int)
    requires
        leftmost_folded(patterns, text, p),
        leftmost_folded(patterns, text, q),
    ensures
        p == q,
{
    let hay = ascii_folded(text);
    let at_p = choose|at: int|
        {
            &&& #[trigger] occurs_at(hay, ascii_folded(patterns[p]), at)
            &&& forall|r: int, j: int|
                0 <= r < patterns.len() && (j < at || j == at && r < p) ==> !#[trigger] occurs_at(
                    hay,
                    ascii_folded(patterns[r]),
                    j,
                )
        };
    let at_q = choose|at: int|
        {
            &&& #[trigger] occurs_at(hay, ascii_folded(patterns[q]), at)
            &&& forall|r: int, j: int|
                0 <= r < patterns.len() && (j < at || j == at && r < q) ==> !#[trigger] occurs_at(
                    hay,
                    ascii_folded(patterns[r]),
                    j,
                )
        };
    assert(occurs_at(hay, ascii_folded(patterns[p]), at_p));
    assert(occurs_at(hay, ascii_folded(patterns[q]), at_q));
    assert(at_p == at_q);
}

/// The platform of a user agent.
pub fn platform_from_user_agent(user_agent: &str) -> (platform: &'static str)
    ensures
        platform@ == platform_of(user_agent@),
{
    let patterns: Vec<String> = vec![
        "ipad".to_owned(),
        "ipod".to_owned(),
        "iphone".to_owned(),
        "android".to_owned(),
        "macintosh".to_owned(),
        "mac os x".to_owned(),
        "windows".to_owned(),
        "linux".to_owned(),
    ];
    proof {
        assert(texts(patterns@) =~= platform_patterns());
        reveal_strlit("ipad");
        reveal_strlit("ipod");
        reveal_strlit("iphone");
        reveal_strlit("android");
        reveal_strlit("macintosh");
        reveal_strlit("mac os x");
        reveal_strlit("windows");
        reveal_strlit("linux");
        assert(modest(platform_patterns()));
    }
    let found = find_leftmost_folded(&patterns, user_agent);
    proof {
        match found {
            Some(p) => {
                assert forall|q: int| leftmost_folded(
                    platform_patterns(),
                    user_agent@,
                    q,
                ) implies q == p by {
                    lemma_leftmost_once(platform_patterns(), user_agent@, p as int, q);
                }
            },
            None => {
                assert forall|q: int| !leftmost_folded(platform_patterns(), user_agent@, q) by {
                    if leftmost_folded(platform_patterns(), user_agent@, q) {
                        assert(occurs(
                            ascii_folded(user_agent@),
                            ascii_folded(platform_patterns()[q]),
                        ));
                    }
                }
            },
        }
    }
    match found {
        Some(0) => "iPad",
        Some(1) => "iPod",
        Some(2) => "iPhone",
        Some(3) => "Linux armv8l",
        Some(4) | Some(5) => "MacIntel",
        Some(6) => "Win32",
        Some(7) => "Linux x86_64",
        _ => "",
    }
}

// ---------------------------------------------------------------------------
// The metadata

/// What is made up about the browser behind a user agent.
#[derive(Debug)]
pub struct HighEntropyUaData {
    /// The architecture.
    pub architecture: String,
    /// The model of the device.
    pub model: String,
    /// The width of a word.
    pub bitness: String,
    /// The platform.
    pub platform: String,
    /// The version of the platform.
    pub platform_version: String,
    /// The brands with their full versions.
    pub full_version_list: Vec<UserAgentBrandVersion>,
    /// Is it a mobile device?
    pub mobile: bool,
    /// Is a 32-bit program run by a 64-bit Windows?
    pub wow64_ness: bool,
}

/// The family of systems that a user agent names.
pub open spec fn platform_family(user_agent: Seq<char>) -> Seq<char> {
    if occurs(user_agent, "Android"@) {
        "Android"@
    } else if occurs(user_agent, "Windows NT"@) {
        "Windows"@
    } else if occurs(user_agent, "Mac OS X"@) {
        "macOS"@
    } else if occurs(user_agent, "Linux"@) {
        "Linux"@
    } else {
        "Unknown"@
    }
}

/// The architecture of a family of systems.
pub open spec fn architecture_of(user_agent: Seq<char>) -> Seq<char> {
    let family = platform_family(user_agent);
    if family == "Android"@ || family == "macOS"@ {
        "arm"@
    } else {
        "x86"@
    }
}

/// The width of a word that a user agent names, in the words of its system.
pub open spec fn bitness_of(user_agent: Seq<char>) -> Seq<char> {
    let wide = if occurs(user_agent, "Android"@) {
        occurs(user_agent, "arm64"@) || occurs(user_agent, "aarch64"@)
    } else if occurs(user_agent, "Windows NT"@) {
        occurs(user_agent, "Win64"@) || occurs(user_agent, "x64"@) || occurs(
            user_agent,
            "WOW64"@,
        )
    } else if occurs(user_agent, "Mac OS X"@) {
        true
    } else if occurs(user_agent, "Linux"@) {
        occurs(user_agent, "x86_64"@) || occurs(user_agent, "amd64"@) || occurs(
            user_agent,
            "arm64"@,
        )
    } else {
        true
    };
    if wide {
        "64"@
    } else {
        "32"@
    }
}

/// What mobile devices and their browsers are called.
pub open spec fn mobile_patterns() -> Seq<Seq<char>> {
    seq![
        "iphone"@,
        "ipad"@,
        "ipod"@,
        "android"@,
        "mobi"@,
        "mobile"@,
        "touch"@,
        "silk"@,
        "nexus"@,
        "pixel"@,
        "huawei"@,
        "honor"@,
        "xiaomi"@,
        "miui"@,
        "redmi"@,
        "oneplus"@,
        "samsung"@,
        "galaxy"@,
        "lenovo"@,
        "oppo"@,
        "vivo"@,
        "realme"@,
        "opera mini"@,
        "opera mobi"@,
        "ucbrowser"@,
        "ucweb"@,
        "baidubrowser"@,
        "qqbrowser"@,
        "dolfin"@,
        "crmo"@,
        "fennec"@,
        "iemobile"@,
        "webos"@,
        "blackberry"@,
        "bb10"@,
        "playbook"@,
        "palm"@,
        "nokia"@,
    ]
}

/// Does a user agent name a mobile device, whatever the case of letters?
pub open spec fn is_mobile_agent(user_agent: Seq<char>) -> bool {
    any_occurs(mobile_patterns(), ascii_folded(user_agent))
}

/// The pattern stands at a place of a user agent, no other one ends before it, and
/// none that ends with it is longer.
pub open spec fn ends_first(user_agent: Seq<char>, pattern: int, at: int) -> bool {
    let text = ascii_folded(user_agent);
    let patterns = mobile_patterns();
    let end = at + patterns[pattern].len();
    &&& 0 <= pattern < patterns.len()
    &&& occurs_at(text, patterns[pattern], at)
    &&& forall|q: int, j: int|
        0 <= q < patterns.len() && #[trigger] occurs_at(text, patterns[q], j) ==> {
            ||| end < j + patterns[q].len()
            ||| end == j + patterns[q].len() && patterns[q].len() <= patterns[pattern].len()
        }
}

/// The model of the device that a user agent names: what it is called by the pattern
/// that ends first, and nothing if it is no mobile device.
pub open spec fn is_model_of(model: Seq<char>, user_agent: Seq<char>) -> bool {
    if is_mobile_agent(user_agent) {
        exists|p: int, at: int|
            #[trigger] ends_first(user_agent, p, at) && model == mobile_patterns()[p]
    } else {
        model.len() == 0
    }
}

/// A text up to a mark, or all of it if the mark is not in it.
pub open spec fn text_before(text: Seq<char>, mark: Seq<char>) -> Seq<char> {
    match place_of(text, mark, 0) {
        Some(at) => text.take(at),
        None => text,
    }
}

/// The version of Windows that a user agent names: what stands behind "Windows NT ", up
/// to a semicolon.
pub open spec fn windows_version(user_agent: Seq<char>) -> Seq<char> {
    match place_of(user_agent, "Windows NT "@, 0) {
        Some(at) => text_before(
            text_before(user_agent.skip(at + 11), "Windows NT "@),
            ";"@,
        ),
        None => "10.0"@,
    }
}

/// A text without the white space at both ends.
pub open spec fn trimmed(text: Seq<char>) -> Seq<char> {
    choose|core: Seq<char>| trims_to(text, core)
}

/// The version of Android that a user agent names: what stands behind "Android " in the
/// first of its parts between semicolons that begins so.
pub open spec fn android_version(user_agent: Seq<char>) -> Seq<char>
    decreases user_agent.len(),
{
    let part = trimmed(text_before(user_agent, ";"@));
    if begins_with(part, "Android "@) {
        part.skip(8)
    } else {
        match place_of(user_agent, ";"@, 0) {
            Some(at) => if 0 <= at < user_agent.len() {
                android_version(user_agent.skip(at + 1))
            } else {
                "13"@
            },
            None => "13"@,
        }
    }
}

/// Does a word that names a version of Chrome begin at a place of a user agent?
pub open spec fn names_chrome_at(user_agent: Seq<char>, at: int) -> bool {
    occurs_at(user_agent, "Chrome/"@, at) && (at == 0 || is_blank(user_agent[at - 1]))
}

/// A text up to white space, or all of it if there is none in it.
pub open spec fn first_word(text: Seq<char>) -> Seq<char>
    decreases text.len(),
{
    if text.len() == 0 || is_blank(text[0]) {
        Seq::empty()
    } else {
        seq![text[0]] + first_word(text.skip(1))
    }
}

/// The version of Chrome that the user agent names first, if it names one.
pub open spec fn chrome_version(user_agent: Seq<char>) -> Option<Seq<char>> {
    if exists|at: int| names_chrome_at(user_agent, at) {
        let at = choose|at: int| #[trigger]
            names_chrome_at(user_agent, at) && (forall|j: int|
                j < at ==> !#[trigger] names_chrome_at(user_agent, j));
        Some(first_word(user_agent.skip(at + 7)))
    } else {
        None
    }
}

/// The first parts of a text between dots, as many as are asked for, with the dots
/// between them.
pub open spec fn first_parts(text: Seq<char>, count: nat) -> Seq<char>
    decreases count,
{
    match place_of(text, "."@, 0) {
        Some(at) => if count <= 1 {
            text.take(at)
        } else {
            text.take(at + 1) + first_parts(text.skip(at + 1), (count - 1) as nat)
        },
        None => text,
    }
}

/// The number that a text is, if it is one that 32 bits can hold.
pub open spec fn number_of(text: Seq<char>) -> Option<nat> {
    if is_u64_text(text) && digits_value(digits_of(text)) <= u32::MAX {
        Some(digits_value(digits_of(text)))
    } else {
        None
    }
}

/// The first number of the version of Chrome that a user agent names.
pub open spec fn chrome_major(user_agent: Seq<char>) -> Option<nat> {
    match chrome_version(user_agent) {
        Some(version) => number_of(first_parts(version, 1)),
        None => None,
    }
}

/// The version of the system is one that fits the user agent. That of macOS goes by the
/// version of Chrome, and that of Linux is made of it. Where the user agent names none,
/// they go by the one that the generator was set up with.
pub open spec fn is_platform_version(version: Seq<char>, user_agent: Seq<char>) -> bool {
    let family = platform_family(user_agent);
    if family == "Android"@ {
        version == android_version(user_agent)
    } else if family == "Windows"@ {
        version == windows_version(user_agent)
    } else if family == "macOS"@ {
        match chrome_major(user_agent) {
            Some(major) => version == if major <= 138 {
                "14.6.1"@
            } else {
                "15.5.0"@
            },
            None => version == "14.6.1"@ || version == "15.5.0"@,
        }
    } else if family == "Linux"@ {
        chrome_version(user_agent) matches Some(named) ==> version == first_parts(named, 3)
    } else {
        version == "1.0.0"@
    }
}

/// The number that the brands go by: on macOS the first number of the version of Chrome,
/// elsewhere the version of the system, where that is a number. There is none where the
/// version of Chrome is the one that the generator was set up with.
pub open spec fn brands_number(user_agent: Seq<char>, platform_version: Seq<char>) -> Option<nat> {
    if platform_family(user_agent) == "macOS"@ {
        chrome_major(user_agent)
    } else {
        match number_of(platform_version) {
            Some(number) => Some(number),
            None => Some(0),
        }
    }
}

/// The brands are those of the two browsers, both of one version, and a third that is
/// none. Order and third brand go by a number.
pub open spec fn are_brands_of(number: nat, brands: Seq<(Seq<char>, Seq<char>)>) -> bool {
    let chrome_first = number == 143 || number == 141;
    &&& brands.len() == 3
    &&& brands[0].1 == brands[1].1
    &&& brands[0].0 == if chrome_first {
        "Google Chrome"@
    } else {
        "Chromium"@
    }
    &&& brands[1].0 == if chrome_first {
        "Chromium"@
    } else {
        "Google Chrome"@
    }
    &&& if number == 143 {
        brands[2] == ("Not A(Brand"@, "24.0.0.0"@)
    } else if number == 142 {
        brands[2] == ("Not_A Brand"@, "99.0.0.0"@)
    } else if number == 141 {
        brands[2].0 == "Not?A_Brand"@
    } else {
        brands[2].0 == "Not-A.Brand"@
    }
}

/// The brands fit the user agent and the version of the system.
pub open spec fn brands_fit(
    brands: Seq<(Seq<char>, Seq<char>)>,
    user_agent: Seq<char>,
    platform_version: Seq<char>,
) -> bool {
    match brands_number(user_agent, platform_version) {
        Some(number) => are_brands_of(number, brands),
        None => exists|number: nat| are_brands_of(number, brands),
    }
}

/// The data is made up for this user agent.
pub open spec fn made_up_for(data: HighEntropyUaData, user_agent: Seq<char>) -> bool {
    &&& data.platform@ == platform_family(user_agent)
    &&& data.architecture@ == architecture_of(user_agent)
    &&& data.bitness@ == bitness_of(user_agent)
    &&& data.mobile == is_mobile_agent(user_agent)
    &&& is_model_of(data.model@, user_agent)
    &&& is_platform_version(data.platform_version@, user_agent)
    &&& brands_fit(brand_texts(data.full_version_list@), user_agent, data.platform_version@)
    &&& !data.wow64_ness
}

/// Calls `spider_fingerprint::spoof_user_agent::build_high_entropy_data`, and takes
/// its fields over.
///
/// Trusted: platform, architecture, bitness, model and whether the device is mobile
/// are those that the user agent names, the version of the platform and the brands are
/// those that fit it, and a 32-bit program on a 64-bit Windows is never claimed. The
/// version of the browsers is drawn at random, and nothing is stated of it, nor of the
/// version of a third brand that goes by the set-up of the generator.
#[verifier::external_body]
fn high_entropy_data(user_agent: &str) -> (data: HighEntropyUaData)
    ensures
        made_up_for(data, user_agent@),
{
    let data = build_high_entropy_data(&Some(user_agent));
    HighEntropyUaData {
        architecture: data.architecture,
        model: data.model,
        bitness: data.bitness,
        platform: data.platform,
        platform_version: data.platform_version,
        full_version_list: data
            .full_version_list
            .into_iter()
            .map(|b| UserAgentBrandVersion { brand: b.brand, version: b.version })
            .collect(),
        mobile: data.mobile,
        wow64_ness: data.wow64_ness,
    }
}

/// The metadata that is made up about a browser. The brands have their full
/// versions, and the word width of programs is said of Windows only.
pub open spec fn metadata_of(data: HighEntropyUaData) -> UserAgentMetadataView {
    UserAgentMetadataView {
        brands: brand_texts(data.full_version_list@),
        full_version_list: brand_texts(data.full_version_list@),
        platform: data.platform@,
        platform_version: data.platform_version@,
        architecture: data.architecture@,
        model: data.model@,
        bitness: data.bitness@,
        mobile: data.mobile,
        wow64: if data.platform@ == "Windows"@ {
            Some(data.wow64_ness)
        } else {
            None
        },
    }
}

/// The metadata that is made up about a browser.
pub fn user_agent_metadata(data: HighEntropyUaData) -> (metadata: UserAgentMetadata)
    ensures
        metadata@ == metadata_of(data),
{
    let windows = same_text(data.platform.as_str(), "Windows");
    let brands = copy_brands(&data.full_version_list);
    UserAgentMetadata {
        brands,
        full_version_list: data.full_version_list,
        platform: data.platform,
        platform_version: data.platform_version,
        architecture: data.architecture,
        model: data.model,
        bitness: data.bitness,
        mobile: data.mobile,
        wow64: if windows {
            Some(data.wow64_ness)
        } else {
            None
        },
    }
}

/// The metadata is made up for this user agent.
pub open spec fn fits_user_agent(metadata: UserAgentMetadataView, user_agent: Seq<char>) -> bool {
    exists|data: HighEntropyUaData| #[trigger]
        metadata_of(data) == metadata && made_up_for(data, user_agent)
}

/// A user agent and what goes with it.
#[derive(Debug)]
pub struct SetUserAgentOverrideParams {
    /// The user agent.
    pub user_agent: String,
    /// The languages that the browser says it accepts.
    pub accept_language: Option<String>,
    /// The platform.
    pub platform: Option<String>,
    /// The metadata.
    pub user_agent_metadata: Option<UserAgentMetadata>,
}

/// The view of [`SetUserAgentOverrideParams`].
pub struct UserAgentOverrideView {
    pub user_agent: Seq<char>,
    pub accept_language: Option<Seq<char>>,
    pub platform: Option<Seq<char>>,
    pub user_agent_metadata: Option<UserAgentMetadataView>,
}

/// The view of optional metadata.
pub open spec fn opt_metadata(metadata: Option<UserAgentMetadata>) -> Option<
    UserAgentMetadataView,
> {
    match metadata {
        Some(m) => Some(m@),
        None => None,
    }
}

impl View for SetUserAgentOverrideParams {
    type V = UserAgentOverrideView;

    open spec fn view(&self) -> UserAgentOverrideView {
        UserAgentOverrideView {
            user_agent: self.user_agent@,
            accept_language: opt_text(self.accept_language),
            platform: opt_text(self.platform),
            user_agent_metadata: opt_metadata(self.user_agent_metadata),
        }
    }
}

/// A user agent with which nothing is given.
pub open spec fn plain_agent(user_agent: Seq<char>) -> UserAgentOverrideView {
    UserAgentOverrideView {
        user_agent,
        accept_language: None,
        platform: None,
        user_agent_metadata: None,
    }
}

impl SetUserAgentOverrideParams {
    /// A user agent with which nothing is given.
    pub fn new(user_agent: &str) -> (params: SetUserAgentOverrideParams)
        ensures
            params@ == plain_agent(user_agent@),
            params.user_agent@ == user_agent@,
            params.user_agent_metadata is None,
    {
        SetUserAgentOverrideParams {
            user_agent: user_agent.to_owned(),
            accept_language: None,
            platform: None,
            user_agent_metadata: None,
        }
    }
}

/// What is set: a platform and metadata that are given stay, and are filled in
/// where they are not. The languages are those that are asked for.
pub open spec fn filled_in(
    params: UserAgentOverrideView,
    accept_language: Option<Seq<char>>,
    generated: Option<UserAgentMetadataView>,
) -> UserAgentOverrideView {
    UserAgentOverrideView {
        user_agent: params.user_agent,
        accept_language,
        platform: if params.platform is None && platform_of(params.user_agent).len() > 0 {
            Some(platform_of(params.user_agent))
        } else {
            params.platform
        },
        user_agent_metadata: if params.user_agent_metadata is None {
            generated
        } else {
            params.user_agent_metadata
        },
    }
}

/// The command that sets a user agent, of the network or of the emulation.
pub open spec fn override_call(method: Seq<char>, params: UserAgentOverrideView) -> CallView {
    let base = call(method).with("userAgent"@, ParamView::Text(params.user_agent)).with_text(
        "acceptLanguage"@,
        params.accept_language,
    ).with_text("platform"@, params.platform);
    match params.user_agent_metadata {
        Some(metadata) => base.with("userAgentMetadata"@, ParamView::Metadata(metadata)),
        None => base,
    }
}

/// The steps that set a user agent: for the network, and on request for the
/// emulation too.
pub open spec fn override_steps(params: UserAgentOverrideView, emulate: bool) -> Seq<StepView> {
    let network = StepView::Execute(override_call("Network.setUserAgentOverride"@, params));
    if emulate {
        seq![
            network,
            StepView::Execute(override_call("Emulation.setUserAgentOverride"@, params)),
        ]
    } else {
        seq![network]
    }
}

/// The command that sets a user agent.
fn user_agent_call(method: &str, params: &SetUserAgentOverrideParams) -> (c: Call)
    ensures
        c@ == override_call(method@, params@),
{
    let base = Call::new(method).with("userAgent", Param::Text(params.user_agent.clone())).with_text(
        "acceptLanguage",
        copy_opt(&params.accept_language),
    ).with_text("platform", copy_opt(&params.platform));
    match &params.user_agent_metadata {
        Some(metadata) => base.with("userAgentMetadata", Param::Metadata(metadata.clone())),
        None => base,
    }
}

/// The steps that set a user agent. `generated` is the metadata that is filled in
/// where none is given.
pub fn user_agent_steps(
    params: SetUserAgentOverrideParams,
    emulate: bool,
    accept_language: Option<String>,
    generated: Option<UserAgentMetadata>,
) -> (steps: Vec<Step>)
    ensures
        step_views(steps@) == override_steps(
            filled_in(params@, opt_text(accept_language), opt_metadata(generated)),
            emulate,
        ),
{
    let mut filled = params;
    if filled.platform.is_none() {
        let platform = platform_from_user_agent(filled.user_agent.as_str());
        if !platform.is_empty() {
            filled.platform = Some(platform.to_owned());
        }
    }
    filled.accept_language = accept_language;
    if filled.user_agent_metadata.is_none() {
        filled.user_agent_metadata = generated;
    }
    let network = Step::Execute(user_agent_call("Network.setUserAgentOverride", &filled));
    let steps = and_then(no_steps(), network);
    if emulate {
        let emulation = Step::Execute(user_agent_call("Emulation.setUserAgentOverride", &filled));
        let both = and_then(steps, emulation);
        proof {
            assert(step_views(both@) =~= override_steps(filled@, emulate));
        }
        both
    } else {
        proof {
            assert(step_views(steps@) =~= override_steps(filled@, emulate));
        }
        steps
    }
}

impl Page {
    /// Makes metadata up for a user agent.
    pub fn generate_user_agent_metadata(user_agent: &str) -> (metadata: Option<UserAgentMetadata>)
        ensures
            metadata matches Some(m) && fits_user_agent(m@, user_agent@),
    {
        let data = high_entropy_data(user_agent);
        let metadata = user_agent_metadata(data);
        proof {
            assert(metadata_of(data) == metadata@);
        }
        Some(metadata)
    }

    /// Sets the user agent of the network, and on request of the emulation. With
    /// `metadata`, metadata is made up where none is given.
    fn set_user_agent_base(
        &self,
        params: SetUserAgentOverrideParams,
        metadata: bool,
        emulate: bool,
        accept_language: Option<String>,
    ) -> (steps: Vec<Step>)
        ensures
            exists|generated: Option<UserAgentMetadataView>|
                {
                    &&& step_views(steps@) == #[trigger] override_steps(
                        filled_in(params@, opt_text(accept_language), generated),
                        emulate,
                    )
                    &&& generated is Some <==> metadata && params.user_agent_metadata is None
                    &&& generated is Some ==> fits_user_agent(generated->0, params.user_agent@)
                },
    {
        let generated = if metadata && params.user_agent_metadata.is_none() {
            Page::generate_user_agent_metadata(params.user_agent.as_str())
        } else {
            None
        };
        let steps = user_agent_steps(params, emulate, accept_language, generated);
        proof {
            let view = opt_metadata(generated);
            assert(step_views(steps@) == override_steps(
                filled_in(params@, opt_text(accept_language), view),
                emulate,
            ));
        }
        steps
    }

    /// Sets the user agent everywhere, with metadata that is made up where none is
    /// given.
    pub fn set_user_agent(&self, params: SetUserAgentOverrideParams) -> (steps: Vec<Step>)
        ensures
            exists|generated: Option<UserAgentMetadataView>|
                {
                    &&& step_views(steps@) == #[trigger] override_steps(
                        filled_in(params@, None, generated),
                        true,
                    )
                    &&& generated is Some <==> params.user_agent_metadata is None
                    &&& generated is Some ==> fits_user_agent(generated->0, params.user_agent@)
                },
    {
        self.set_user_agent_base(params, true, true, None)
    }

    /// Sets the user agent of the network, and on request of the emulation. With
    /// `metadata`, metadata is made up where none is given.
    pub fn set_user_agent_advanced(
        &self,
        params: SetUserAgentOverrideParams,
        metadata: bool,
        emulate: bool,
        accept_language: Option<String>,
    ) -> (steps: Vec<Step>)
        ensures
            exists|generated: Option<UserAgentMetadataView>|
                {
                    &&& step_views(steps@) == #[trigger] override_steps(
                        filled_in(params@, opt_text(accept_language), generated),
                        emulate,
                    )
                    &&& generated is Some <==> metadata && params.user_agent_metadata is None
                    &&& generated is Some ==> fits_user_agent(generated->0, params.user_agent@)
                },
    {
        self.set_user_agent_base(params, metadata, emulate, accept_language)
    }
}

} // verus!
