//! Which of the paused requests the browser may send.
use vstd::prelude::*;

use crate::base64_text::base64_of;
use crate::blocklists::{
    ad_type, ignored_base, ignored_path, ignored_style, ignored_url, is_report, is_visual,
    site_blocks, standard_match,
};
use crate::command::{pair_texts, CdpCommandView, ErrorReason};
use crate::matcher::{any_occurs, ascii_folded};
use crate::network::state::{commanded, matcher_hits, paused_noted, NetworkState, Switch};
use crate::protocol::{EventRequestPausedView, ResourceType};
use crate::text::{begins_with, finishes_with, occurs, replaced_once};
use crate::url::{bare_path, base_name, extension_of, path_of, unslashed_start};

verus! {

// ---------------------------------------------------------------------------
// Documents

/// A URL with `http` in place of `https` at its beginning, or the other way
/// round.
pub open spec fn other_scheme(url: Seq<char>) -> Seq<char> {
    if begins_with(url, "http://"@) {
        replaced_once(url, "http://"@, "https://"@)
    } else {
        replaced_once(url, "https://"@, "http://"@)
    }
}

/// A URL whose scheme has lost its colon.
pub open spec fn broken_scheme(url: Seq<char>) -> Seq<char> {
    if begins_with(url, "http://"@) {
        replaced_once(url, "http://"@, "http//"@)
    } else {
        replaced_once(url, "https://"@, "https//"@)
    }
}

/// A text without a slash at its end.
pub open spec fn unslashed_end(text: Seq<char>) -> Seq<char> {
    if text.len() > 0 && text.last() == '/' {
        text.drop_last()
    } else {
        text
    }
}

/// The URL that a document is masked with when a redirect to the other scheme
/// goes wrong: the other scheme's URL without up to two slashes at its end, and
/// behind it the URL with a broken scheme.
pub open spec fn redirect_mask(target: Seq<char>) -> Seq<char> {
    unslashed_end(unslashed_end(other_scheme(target))) + broken_scheme(target)
}

/// The URL that a masked document stands for: that of the other scheme, with at
/// most one slash at its end.
pub open spec fn unmasked(target: Seq<char>) -> Seq<char> {
    let other = other_scheme(target);
    if other.len() > 0 && other.last() == '/' {
        unslashed_end(unslashed_end(other)).push('/')
    } else {
        other
    }
}

/// Is the request a redirected document under the mask of the one before it?
pub open spec fn is_masked(s: NetworkState, event: EventRequestPausedView) -> bool {
    &&& event.resource_type == ResourceType::Document
    &&& s.document_target_url.len() > 0
    &&& s.document_target_url != event.url
    &&& event.redirected_request_id is Some
    &&& event.url == redirect_mask(s.document_target_url)
}

/// The URL that is decided on, and sent.
pub open spec fn effective_url(s: NetworkState, event: EventRequestPausedView) -> Seq<char> {
    if is_masked(s, event) {
        unmasked(s.document_target_url)
    } else {
        event.url
    }
}

/// Does the document ask for the URL of the document before it?
pub open spec fn reloads(s: NetworkState, event: EventRequestPausedView) -> bool {
    event.resource_type == ResourceType::Document && s.document_target_url == event.url
}

/// A document is followed: reloads are counted, a first document in XML is
/// noted, and its URL is the target from here on.
pub open spec fn document_tracked(
    s: NetworkState,
    event: EventRequestPausedView,
    domain: Seq<char>,
) -> NetworkState {
    if event.resource_type == ResourceType::Document {
        NetworkState {
            document_reload_tracker: if reloads(s, event) {
                (s.document_reload_tracker + 1) as u8
            } else {
                s.document_reload_tracker
            },
            xml_document: Switch {
                on: s.xml_document.on || s.document_target_url.len() == 0 && finishes_with(
                    event.url,
                    ".xml"@,
                ),
            },
            document_target_url: event.url,
            document_target_domain: domain,
            ..s
        }
    } else {
        s
    }
}

// ---------------------------------------------------------------------------
// The first step

/// What a paused request is before it is decided on.
#[derive(Debug)]
pub struct PausedRequest {
    /// The URL that is decided on.
    pub current_url: String,
    /// Does that URL replace the one that the browser has?
    pub had_replacer: bool,
    /// Is the request to be skipped whatever its URL is?
    pub skip_networking: bool,
}

/// The view of [`PausedRequest`].
pub struct PausedRequestView {
    pub current_url: Seq<char>,
    pub had_replacer: bool,
    pub skip_networking: bool,
}

impl View for PausedRequest {
    type V = PausedRequestView;

    open spec fn view(&self) -> PausedRequestView {
        PausedRequestView {
            current_url: self.current_url@,
            had_replacer: self.had_replacer,
            skip_networking: self.skip_networking,
        }
    }
}

/// The view of an optional paused request.
pub open spec fn opt_paused(paused: Option<PausedRequest>) -> Option<PausedRequestView> {
    match paused {
        Some(p) => Some(p@),
        None => None,
    }
}

/// Skipped whatever the URL is: reports and pings, prefetching if that is
/// blocked, and everything once the document has been reloaded three times.
pub open spec fn skipped_at_once(s: NetworkState, event: EventRequestPausedView) -> bool {
    ||| is_report(event.resource_type)
    ||| event.resource_type == ResourceType::Prefetch && s.block_prefetch.on
    ||| s.document_reload_tracker >= 3
}

/// Is the request left to the user, who intercepts requests too?
pub open spec fn left_to_user(s: NetworkState) -> bool {
    s.user_request_interception_enabled.on && s.protocol_request_interception_enabled.on
}

/// The answer while all requests are blocked.
pub open spec fn fail_blocked(id: Seq<char>) -> CdpCommandView {
    CdpCommandView::FailRequest { request_id: id, error_reason: ErrorReason::BlockedByClient }
}

/// The state after a request has been paused.
pub open spec fn paused_state(
    s: NetworkState,
    event: EventRequestPausedView,
    domain: Seq<char>,
) -> NetworkState {
    if left_to_user(s) {
        s
    } else if s.block_all.on {
        commanded(s, fail_blocked(event.request_id))
    } else {
        document_tracked(paused_noted(s, event), event, domain)
    }
}

/// What is left to decide of a paused request.
pub open spec fn paused_open(s: NetworkState, event: EventRequestPausedView) -> Option<
    PausedRequestView,
> {
    if left_to_user(s) || s.block_all.on {
        None
    } else {
        Some(
            PausedRequestView {
                current_url: effective_url(s, event),
                had_replacer: is_masked(s, event),
                skip_networking: skipped_at_once(s, event),
            },
        )
    }
}

// ---------------------------------------------------------------------------
// The second step

/// What the block lists of the owner say of a paused request.
#[derive(Debug, Clone, Copy, PartialEq, Eq, Structural)]
pub struct Verdicts {
    /// Is the type of the resource one that carries data?
    pub data_resource: bool,
    /// Is the URL that the browser has on the list of ads?
    pub ad: bool,
    /// Is the URL that is decided on among the embedded scripts?
    pub embedded_script: bool,
    /// Is the URL that is decided on among the blocked websites?
    pub website: bool,
    /// Is the URL that the browser has one of a script's data requests?
    pub xhr_script: bool,
    /// Is the URL that the browser has among the blocked data requests?
    pub xhr: bool,
    /// Is the URL that the browser has among the media data requests?
    pub xhr_media: bool,
    /// Is the extension of the URL that the browser has one of an ignored asset?
    pub xhr_asset: bool,
}

/// An explicit block list has the script.
///
/// A path is looked up with its leading slash, without it, and by its last part.
pub open spec fn script_listed(s: NetworkState, url: Seq<char>, website: bool) -> bool {
    ||| s.block_analytics.on && ignored_url(url)
    ||| website
    ||| match path_of(url) {
        Some(path) => {
            let slashed = bare_path(path);
            let plain = unslashed_start(slashed);
            ||| s.block_analytics.on && (ignored_path(slashed) || ignored_path(plain) || ignored_path(
                base_name(slashed),
            ))
            ||| ignored_base(plain)
            ||| s.ignore_visuals.on && ignored_style(plain)
        },
        None => false,
    }
}

/// The extension of a URL is that of something to look at.
pub open spec fn extension_listed(s: NetworkState, url: Seq<char>, asset: bool) -> bool {
    match extension_of(url) {
        Some(extension) => {
            ||| s.ignore_visuals.on && asset
            ||| s.block_stylesheets.on && occurs(ascii_folded(extension), "css"@)
        },
        None => false,
    }
}

/// A block list has the data request.
pub open spec fn xhr_listed(s: NetworkState, url: Seq<char>, v: Verdicts) -> bool {
    ||| s.block_analytics.on && (v.xhr_script || v.xhr)
    ||| (s.block_stylesheets.on || s.ignore_visuals.on) && (extension_listed(s, url, v.xhr_asset)
        || v.xhr_media)
}

/// The type of the resource is one that is not loaded.
pub open spec fn type_skipped(s: NetworkState, resource: ResourceType) -> bool {
    ||| s.ignore_visuals.on && is_visual(resource)
    ||| s.block_stylesheets.on && resource == ResourceType::Stylesheet
}

/// The ad blocker matches the request.
pub open spec fn is_ad(s: NetworkState, event: EventRequestPausedView) -> bool {
    match ad_type(event.resource_type) {
        Some(name) => s.block_ads.on && standard_match(
            event.url,
            name,
            event.is_same_site != Some(true),
        ),
        None => false,
    }
}

/// Something speaks against the request.
pub open spec fn objected(
    s: NetworkState,
    event: EventRequestPausedView,
    paused: PausedRequestView,
    v: Verdicts,
) -> bool {
    let url = paused.current_url;
    let script = event.resource_type == ResourceType::Script;
    let document = event.resource_type == ResourceType::Document;
    let data = !document && v.data_resource;
    ||| paused.skip_networking
    ||| !s.blacklist_strict.on && matcher_hits(s.blacklist_matcher, url)
    ||| type_skipped(s, event.resource_type) && !(s.xml_document.on && finishes_with(url, ".xsl"@))
    ||| v.ad
    ||| is_ad(s, event)
    ||| s.block_javascript.on && (s.only_html.on || s.ignore_visuals.on) && (script || document)
        && v.embedded_script
    ||| script && script_listed(s, url, v.website)
    ||| data && xhr_listed(s, event.url, v)
    ||| (script || data || document) && site_blocks(
        s.intercept_manager,
        url,
        s.ignore_visuals.on,
        data,
    )
    ||| (script || data) && v.website
}

/// The request is let through whatever speaks against it.
pub open spec fn excused(
    s: NetworkState,
    event: EventRequestPausedView,
    paused: PausedRequestView,
) -> bool {
    ||| event.resource_type == ResourceType::Script && any_occurs(
        s.allowed_3rd_party,
        paused.current_url,
    )
    ||| matcher_hits(s.whitelist_matcher, paused.current_url)
}

/// Is the request blocked? A strict black list always wins.
pub open spec fn blocked(
    s: NetworkState,
    event: EventRequestPausedView,
    paused: PausedRequestView,
    v: Verdicts,
) -> bool {
    ||| s.blacklist_strict.on && matcher_hits(s.blacklist_matcher, paused.current_url)
    ||| objected(s, event, paused, v) && !excused(s, event, paused)
}

/// The answer to a blocked request: an empty response of status 200.
pub open spec fn fulfill_empty(id: Seq<char>) -> CdpCommandView {
    CdpCommandView::FulfillRequest {
        request_id: id,
        response_code: 200,
        response_headers: None,
        body: None,
    }
}

/// The answer to a request that may be sent. A URL that replaces the browser's
/// is given, and then the response is not intercepted.
pub open spec fn continued(id: Seq<char>, paused: PausedRequestView) -> CdpCommandView {
    CdpCommandView::ContinueRequest {
        request_id: id,
        url: if paused.had_replacer {
            Some(paused.current_url)
        } else {
            None
        },
        intercept_response: if paused.had_replacer {
            Some(false)
        } else {
            None
        },
    }
}

/// Where a cached response is looked up.
#[derive(Debug)]
pub struct CacheLookup {
    /// The site.
    pub site_key: String,
    /// The method and the URL, with a colon between them.
    pub key: String,
}

/// The view of [`CacheLookup`].
pub struct CacheLookupView {
    pub site_key: Seq<char>,
    pub key: Seq<char>,
}

impl View for CacheLookup {
    type V = CacheLookupView;

    open spec fn view(&self) -> CacheLookupView {
        CacheLookupView { site_key: self.site_key@, key: self.key@ }
    }
}

/// The view of an optional lookup.
pub open spec fn opt_lookup(lookup: Option<CacheLookup>) -> Option<CacheLookupView> {
    match lookup {
        Some(l) => Some(l@),
        None => None,
    }
}

/// Where the response to a request may be cached, if responses are.
pub open spec fn lookup_of(
    s: NetworkState,
    event: EventRequestPausedView,
    paused: PausedRequestView,
) -> Option<CacheLookupView> {
    match (s.cache_policy, s.cache_site_key) {
        (Some(policy), Some(site_key)) => Some(
            CacheLookupView { site_key, key: event.method + seq![':'] + paused.current_url },
        ),
        _ => None,
    }
}

/// The state after a paused request has been decided on, but for the cache.
pub open spec fn settled_state(
    s: NetworkState,
    event: EventRequestPausedView,
    paused: PausedRequestView,
    v: Verdicts,
) -> NetworkState {
    if blocked(s, event, paused, v) {
        commanded(s, fulfill_empty(event.request_id))
    } else if lookup_of(s, event, paused) is Some {
        s
    } else {
        commanded(s, continued(event.request_id, paused))
    }
}

/// Where the cache is to be asked before a paused request is answered.
pub open spec fn settled_lookup(
    s: NetworkState,
    event: EventRequestPausedView,
    paused: PausedRequestView,
    v: Verdicts,
) -> Option<CacheLookupView> {
    if blocked(s, event, paused, v) {
        None
    } else {
        lookup_of(s, event, paused)
    }
}

// ---------------------------------------------------------------------------
// The third step

/// A response from the cache.
#[derive(Debug)]
pub struct CachedResponse {
    /// The body.
    pub body: Vec<u8>,
    /// The headers.
    pub headers: Vec<(String, String)>,
    /// The status.
    pub status: u16,
    /// Does the cache policy allow to use it?
    pub allowed: bool,
}

/// The answer to a request whose response is taken from the cache.
pub open spec fn fulfill_cached(
    id: Seq<char>,
    body: Seq<u8>,
    headers: Seq<(Seq<char>, Seq<char>)>,
    status: i64,
) -> CdpCommandView {
    CdpCommandView::FulfillRequest {
        request_id: id,
        response_code: status,
        response_headers: Some(headers),
        body: Some(base64_of(body)),
    }
}

/// The answer to a request that may be sent, once the cache has been asked.
pub open spec fn cache_answer(
    id: Seq<char>,
    paused: PausedRequestView,
    cached: Option<CachedResponse>,
) -> CdpCommandView {
    match cached {
        Some(c) => if c.allowed {
            fulfill_cached(id, c.body@, pair_texts(c.headers@), c.status as i64)
        } else {
            continued(id, paused)
        },
        None => continued(id, paused),
    }
}

} // verus!
