//! The block lists that the network layer asks.
use vstd::prelude::*;
use vstd::string::*;
use adblock::lists::{FilterSet, ParseOptions, RuleTypes};
use adblock::request::Request;
use adblock::Engine;
use case_insensitive_string::CaseInsensitiveString;
use spider_network_blocker::adblock::ADBLOCK_PATTERNS;
use spider_network_blocker::intercept_manager::NetworkInterceptManager;
use spider_network_blocker::scripts::{
    URL_IGNORE_SCRIPT_BASE_PATHS, URL_IGNORE_SCRIPT_STYLES_PATHS, URL_IGNORE_TRIE,
    URL_IGNORE_TRIE_PATHS,
};

use crate::matcher::{ascii_folded, texts};
use crate::protocol::ResourceType;
use crate::text::{begins_with, head_to, occurs, occurs_at, tail_from};

verus! {

/// Is the pattern one of `URL_IGNORE_TRIE`?
pub uninterp spec fn ignored_url_pattern(pattern: Seq<char>) -> bool;

/// The text begins with a pattern of `URL_IGNORE_TRIE`.
pub open spec fn ignored_url(text: Seq<char>) -> bool {
    exists|p: Seq<char>| #[trigger] ignored_url_pattern(p) && p.len() > 0 && begins_with(text, p)
}

/// The paths of scripts for tracking and advertisements.
pub open spec fn tracking_path_patterns() -> Seq<Seq<char>> {
    seq![
        "privacy-notice.js"@,
        "tracking.js"@,
        "track.js"@,
        "ads.js"@,
        "analytics.js"@,
        "privacy-notice.min.js"@,
        "tracking.min.js"@,
        "track.min.js"@,
        "ads.min.js"@,
        "analytics.min.js"@,
        "otSDKStub.js"@,
        "otBannerSdk.js"@,
        "_vercel/insights/script.js"@,
        "analytics."@,
    ]
}

/// The paths of scripts that a page does without.
pub open spec fn base_path_patterns() -> Seq<Seq<char>> {
    seq![
        "wp-content/plugins/cookie-law-info"@,
        "wp-content/plugins/borlabs-cookie/"@,
        "wp-content/js/rlt-proxy.js"@,
        "wp-admin/rest-proxy/"@,
        "wp-content/mu-plugins/a8c-analytics/"@,
        "analytics/"@,
        "cookie-tracking"@,
    ]
}

/// The paths of scripts that only serve looks.
pub open spec fn style_path_patterns() -> Seq<Seq<char>> {
    seq![
        "wp-content/themes/"@,
        "wp-content/plugins/dizo-image-hover/"@,
        "wp-content/plugins/supreme-modules-pro-for-divi/"@,
        "wp-content/plugins/page-builder-pmc/"@,
        "wp-content/plugins/contact-form-7/"@,
        "wp-content/plugins/responsive-lightbox/"@,
        "wp-content/cache/breeze-minification/"@,
        "wp-includes/js/mediaelement"@,
        "wp-content/plugins/gravityforms/"@,
        "wp-content/plugins/wp-rocket/assets/js/lazyload/"@,
        "wp-content/plugins/w3-total-cache/"@,
        "wp-content/js/bilmur.min.js"@,
        "npm/bootstrap@"@,
    ]
}

/// The text begins with one of the patterns.
pub open spec fn begins_with_one_of(text: Seq<char>, patterns: Seq<Seq<char>>) -> bool {
    exists|i: int| 0 <= i < patterns.len() && begins_with(text, #[trigger] patterns[i])
}

/// The text begins with the path of a script for tracking or advertisements.
pub open spec fn ignored_path(text: Seq<char>) -> bool {
    begins_with_one_of(text, tracking_path_patterns())
}

/// The text begins with the path of a script that a page does without.
pub open spec fn ignored_base(text: Seq<char>) -> bool {
    begins_with_one_of(text, base_path_patterns())
}

/// The text begins with the path of a script that only serves looks.
pub open spec fn ignored_style(text: Seq<char>) -> bool {
    begins_with_one_of(text, style_path_patterns())
}

/// Calls `Trie::contains_prefix` on `spider_network_blocker::scripts::URL_IGNORE_TRIE`.
///
/// Trusted: the answer is yes if and only if the text begins with a pattern of
/// the trie that is not empty. The trie is the same in every process.
#[verifier::external_body]
pub(crate) fn url_trie_contains_prefix(text: &str) -> (found: bool)
    ensures
        found == (exists|p: Seq<char>|
            #[trigger] ignored_url_pattern(p) && p.len() > 0 && begins_with(text@, p)),
{
    URL_IGNORE_TRIE.contains_prefix(text)
}

/// Calls `Trie::contains_prefix` on `spider_network_blocker::scripts::URL_IGNORE_TRIE_PATHS`.
///
/// Trusted: the patterns of the trie are those of the list, and the answer is yes if
/// and only if the text begins with one of them.
#[verifier::external_body]
pub(crate) fn path_trie_contains_prefix(text: &str) -> (found: bool)
    ensures
        found == ignored_path(text@),
{
    URL_IGNORE_TRIE_PATHS.contains_prefix(text)
}

/// Calls `Trie::contains_prefix` on
/// `spider_network_blocker::scripts::URL_IGNORE_SCRIPT_BASE_PATHS`.
///
/// Trusted: the patterns of the trie are those of the list, and the answer is yes if
/// and only if the text begins with one of them.
#[verifier::external_body]
pub(crate) fn base_trie_contains_prefix(text: &str) -> (found: bool)
    ensures
        found == ignored_base(text@),
{
    URL_IGNORE_SCRIPT_BASE_PATHS.contains_prefix(text)
}

/// Calls `Trie::contains_prefix` on
/// `spider_network_blocker::scripts::URL_IGNORE_SCRIPT_STYLES_PATHS`.
///
/// Trusted: the patterns of the trie are those of the list, and the answer is yes if
/// and only if the text begins with one of them.
#[verifier::external_body]
pub(crate) fn style_trie_contains_prefix(text: &str) -> (found: bool)
    ensures
        found == ignored_style(text@),
{
    URL_IGNORE_SCRIPT_STYLES_PATHS.contains_prefix(text)
}

/// The site whose own rules apply. Verus carries it as a value and sees nothing
/// inside.
#[verifier::external_type_specification]
#[verifier::external_body]
pub struct ExNetworkInterceptManager(NetworkInterceptManager);

/// Do the rules of a site block this URL?
pub uninterp spec fn site_blocks(
    site: NetworkInterceptManager,
    url: Seq<char>,
    ignore_visuals: bool,
    is_xhr: bool,
) -> bool;

/// Calls `NetworkInterceptManager::intercept_detection`.
///
/// Trusted: the answer depends on the site and the arguments alone. What the
/// rules of each site are is not stated.
#[verifier::external_body]
pub(crate) fn intercept_detection(
    site: &NetworkInterceptManager,
    url: &str,
    ignore_visuals: bool,
    is_xhr: bool,
) -> (blocked: bool)
    ensures
        blocked == site_blocks(*site, url@, ignore_visuals, is_xhr),
{
    site.intercept_detection(url, ignore_visuals, is_xhr)
}

/// Takes `NetworkInterceptManager::Unknown`.
///
/// Trusted: its rules block nothing.
#[verifier::external_body]
pub(crate) fn unknown_site() -> (site: NetworkInterceptManager)
    ensures
        forall|url: Seq<char>, visuals: bool, xhr: bool| !site_blocks(site, url, visuals, xhr),
{
    NetworkInterceptManager::Unknown
}

/// The ad blocker. Verus carries it as a value and sees nothing inside.
#[verifier::external_type_specification]
#[verifier::external_body]
pub struct ExEngine(Engine);

/// Which kinds of filter rules an ad blocker takes.
#[derive(Debug, Clone, Copy, PartialEq, Eq, Structural)]
pub enum RuleKinds {
    /// All rules.
    All,
    /// Rules on requests.
    NetworkOnly,
    /// Rules on looks.
    CosmeticOnly,
}

/// The filter rules that an ad blocker was made from.
pub uninterp spec fn engine_rules(engine: Engine) -> Seq<Seq<char>>;

/// The kinds of filter rules that an ad blocker was made to take.
pub uninterp spec fn engine_kinds(engine: Engine) -> RuleKinds;

/// Does a list of filter rules, of which these kinds are taken, match a request of
/// this URL, this type and this relation to the page, with one host on both sides?
pub uninterp spec fn rules_match(
    rules: Seq<Seq<char>>,
    kinds: RuleKinds,
    host: Seq<char>,
    url: Seq<char>,
    request_type: Seq<char>,
    third_party: bool,
) -> bool;

/// The host that a request and its page are said to have. Whether the request stays
/// on the site of the page is said beside it.
pub open spec fn ad_host() -> Seq<char> {
    "example.com"@
}

/// The filter rules that ship with the ad blocker.
pub open spec fn standard_rules() -> Seq<Seq<char>> {
    seq![
        "-advertisement."@,
        "-advertisement-icon."@,
        "-advertisement-management/"@,
        "-advertisement/script."@,
        "-ads."@,
        "-ads/script."@,
        "-ad."@,
        "ads.js"@,
        "gtm.js?"@,
        "googletagmanager.com"@,
        "ssl.google-analytics.com"@,
        "-tracking."@,
        "-tracking/script."@,
        ".tracking"@,
        ".snowplowanalytics.snowplow"@,
        ".mountain.com"@,
        "tracking.js"@,
        "track.js"@,
        "/upi/jslogger"@,
        "otBannerSdk.js"@,
        "analytics.js"@,
        "analytics.min.js"@,
        "ob.cityrobotflower.com"@,
        "siteintercept.qualtrics.com"@,
        "iesnare.com"@,
        "iovation.com"@,
        "googletagmanager.com"@,
        "forter.com"@,
        "/first.iovation.com"@,
        "/simpleads/impression"@,
        "googlesyndication.com"@,
        ".googlesyndication.com/safeframe/"@,
        "adsafeprotected.com"@,
        "cxense.com/"@,
        ".sharethis.com"@,
        "amazon-adsystem.com"@,
        "g.doubleclick.net"@,
        "privacy-notice.js"@,
        "insight.min.js"@,
    ]
}

/// Takes the filter rules `spider_network_blocker::adblock::ADBLOCK_PATTERNS`.
///
/// Trusted: they are those of the list.
#[verifier::external_body]
fn ad_patterns() -> (rules: Vec<String>)
    ensures
        texts(rules@) == standard_rules(),
{
    ADBLOCK_PATTERNS.iter().map(|rule| rule.to_string()).collect()
}

/// Calls `FilterSet::add_filters` with the kinds of rules, and
/// `Engine::from_filter_set`.
///
/// Trusted: the engine is made from the given rules, to take the given kinds.
#[verifier::external_body]
fn build_engine(rules: &Vec<String>, kinds: RuleKinds) -> (engine: Engine)
    ensures
        engine_rules(engine) == texts(rules@),
        engine_kinds(engine) == kinds,
{
    let mut filters = FilterSet::new(false);
    let mut options = ParseOptions::default();
    options.rule_types = match kinds {
        RuleKinds::All => RuleTypes::All,
        RuleKinds::NetworkOnly => RuleTypes::NetworkOnly,
        RuleKinds::CosmeticOnly => RuleTypes::CosmeticOnly,
    };
    filters.add_filters(rules, options);
    Engine::from_filter_set(filters, true)
}

/// Calls `Engine::check_network_request` on a request that `Request::preparsed`
/// made.
///
/// Trusted: whether the request is matched depends on the engine's rules and the
/// arguments alone. How rules match is not stated. Only the rules that ship with the
/// ad blocker are admitted: none of them is anchored at a host, and a rule that is can
/// make the call panic on a URL shorter than its host.
#[verifier::external_body]
fn check_network_request(
    engine: &Engine,
    host: &str,
    url: &str,
    request_type: &str,
    third_party: bool,
) -> (matched: bool)
    requires
        engine_rules(*engine) == standard_rules(),
    ensures
        matched == rules_match(
            engine_rules(*engine),
            engine_kinds(*engine),
            host@,
            url@,
            request_type@,
            third_party,
        ),
{
    let request = Request::preparsed(url, host, host, request_type, third_party);
    engine.check_network_request(&request).matched
}

/// The ad blocker, with the filter rules that ship with it. Its view is the list of
/// its filter rules.
pub struct AdBlocker {
    engine: Engine,
}

impl View for AdBlocker {
    type V = Seq<Seq<char>>;

    closed spec fn view(&self) -> Seq<Seq<char>> {
        engine_rules(self.engine)
    }
}

/// Do the filter rules that ship with the ad blocker match the request?
pub open spec fn standard_match(
    url: Seq<char>,
    request_type: Seq<char>,
    third_party: bool,
) -> bool {
    rules_match(
        standard_rules(),
        RuleKinds::All,
        ad_host(),
        url,
        request_type,
        third_party,
    )
}

impl AdBlocker {
    #[verifier::type_invariant]
    closed spec fn has_standard_rules(self) -> bool {
        engine_rules(self.engine) == standard_rules() && engine_kinds(self.engine)
            == RuleKinds::All
    }

    /// An ad blocker with the filter rules that ship with it, of all kinds.
    pub fn standard() -> (blocker: AdBlocker)
        ensures
            blocker@ == standard_rules(),
    {
        AdBlocker { engine: build_engine(&ad_patterns(), RuleKinds::All) }
    }

    /// Do the rules match the request?
    pub fn matches(&self, url: &str, request_type: &str, third_party: bool) -> (matched: bool)
        ensures
            matched == standard_match(url@, request_type@, third_party),
    {
        proof {
            use_type_invariant(self);
        }
        check_network_request(&self.engine, "example.com", url, request_type, third_party)
    }
}

/// Compares two values of `case_insensitive_string::CaseInsensitiveString`.
///
/// Trusted: they are equal if and only if the texts are, without regard to the
/// case of ASCII letters.
#[verifier::external_body]
fn same_folded(a: &str, b: &str) -> (same: bool)
    ensures
        same == (ascii_folded(a@) == ascii_folded(b@)),
{
    CaseInsensitiveString::from(a) == CaseInsensitiveString::from(b)
}

/// Does "css" stand in the text, whatever the case of its letters?
pub fn contains_css(text: &str) -> (found: bool)
    ensures
        found == occurs(ascii_folded(text@), "css"@),
{
    proof {
        reveal_strlit("css");
        assert(ascii_folded("css"@) =~= "css"@);
    }
    let length: usize = text.unicode_len();
    let mut at: usize = 0;
    while at < length && length - at >= 3
        invariant
            at <= length == text@.len(),
            "css"@.len() == 3,
            ascii_folded("css"@) == "css"@,
            forall|j: int| 0 <= j < at ==> !occurs_at(ascii_folded(text@), "css"@, j),
        decreases length - at,
    {
        let window = head_to(tail_from(text, at), 3);
        proof {
            assert(window@ =~= text@.subrange(at as int, at + 3));
            assert(ascii_folded(window@) =~= ascii_folded(text@).subrange(at as int, at + 3));
        }
        if same_folded(window, "css") {
            proof {
                assert(occurs_at(ascii_folded(text@), "css"@, at as int));
            }
            return true;
        }
        at = at + 1;
    }
    false
}

/// Images, media and fonts: what a page shows but does not say.
pub open spec fn is_visual(resource: ResourceType) -> bool {
    resource == ResourceType::Image || resource == ResourceType::Media || resource
        == ResourceType::Font
}

/// Is the resource ignored together with the visuals?
pub fn ignore_visual_resource(resource: ResourceType) -> (yes: bool)
    ensures
        yes == is_visual(resource),
{
    matches!(resource, ResourceType::Image | ResourceType::Media | ResourceType::Font)
}

/// Reports and pings, which a page does without.
pub open spec fn is_report(resource: ResourceType) -> bool {
    resource == ResourceType::CspViolationReport || resource == ResourceType::Ping
}

/// Is the resource ignored in any case?
pub fn ignore_networking_resource(resource: ResourceType) -> (yes: bool)
    ensures
        yes == is_report(resource),
{
    matches!(resource, ResourceType::CspViolationReport | ResourceType::Ping)
}

/// The name that the ad blocker has for a type of resource, where it is asked
/// about that type.
pub open spec fn ad_type(resource: ResourceType) -> Option<Seq<char>> {
    match resource {
        ResourceType::Image => Some("image"@),
        ResourceType::Media => Some("media"@),
        ResourceType::Stylesheet => Some("stylesheet"@),
        ResourceType::Document => Some("document"@),
        ResourceType::Fetch => Some("fetch"@),
        ResourceType::Xhr => Some("xhr"@),
        _ => None,
    }
}

/// The name of a type of resource that can be an ad.
pub fn ad_type_name(resource: ResourceType) -> (name: Option<&'static str>)
    ensures
        match name {
            Some(n) => ad_type(resource) == Some(n@),
            None => ad_type(resource) is None,
        },
{
    match resource {
        ResourceType::Image => Some("image"),
        ResourceType::Media => Some("media"),
        ResourceType::Stylesheet => Some("stylesheet"),
        ResourceType::Document => Some("document"),
        ResourceType::Fetch => Some("fetch"),
        ResourceType::Xhr => Some("xhr"),
        _ => None,
    }
}

} // verus!
