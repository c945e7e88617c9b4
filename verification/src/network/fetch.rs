//! Paused requests: each of them is failed, fulfilled or continued.
//!
//! A pause is settled in up to three steps. The first one follows the request and
//! says which URL is to be decided on; the second one takes what the block lists of
//! the owner say of that URL; the third one takes what the owner's cache holds.
use vstd::prelude::*;
use vstd::string::*;

use crate::base64_text::{base64_encode, base64_fits};
use crate::blocklists::{
    ad_type_name, base_trie_contains_prefix, contains_css, ignore_networking_resource,
    ignore_visual_resource, intercept_detection, path_trie_contains_prefix,
    style_trie_contains_prefix, url_trie_contains_prefix,
};
use crate::command::{pair_texts, CdpCommand, CdpCommandView, ErrorReason};
use crate::network::decision::{
    blocked, broken_scheme, cache_answer, continued, document_tracked, effective_url, fail_blocked,
    fulfill_cached, fulfill_empty, is_ad, is_masked, left_to_user, lookup_of, objected, opt_lookup, opt_paused,
    other_scheme, paused_open, paused_state, redirect_mask, reloads, script_listed, settled_lookup,
    settled_state, type_skipped, unmasked, unslashed_end, xhr_listed, CacheLookup, CachedResponse,
    PausedRequest, Verdicts,
};
use crate::network::manager::NetworkManager;
use crate::network::state::{commanded, paused_noted, Switch};
use crate::protocol::{EventRequestPaused, ResourceType};
use crate::text::{ends_with, head_to, replace_once, same_text, starts_with};
use crate::url::{
    strip_leading_slash, strip_query_fragment, url_base_name, url_extension,
    url_path_with_leading_slash,
};

verus! {

/// A URL under the other scheme.
fn swap_scheme(url: &str) -> (other: String)
    ensures
        other@ == other_scheme(url@),
{
    if starts_with(url, "http://") {
        replace_once(url, "http://", "https://")
    } else {
        replace_once(url, "https://", "http://")
    }
}

/// A URL whose scheme has lost its colon.
fn break_scheme(url: &str) -> (broken: String)
    ensures
        broken@ == broken_scheme(url@),
{
    if starts_with(url, "http://") {
        replace_once(url, "http://", "http//")
    } else {
        replace_once(url, "https://", "https//")
    }
}

/// Does the text end in a slash?
fn ends_in_slash(text: &str) -> (yes: bool)
    ensures
        yes == (text@.len() > 0 && text@.last() == '/'),
{
    let length: usize = text.unicode_len();
    length > 0 && text.get_char(length - 1) == '/'
}

/// The text without a slash at its end.
fn strip_trailing_slash<'a>(text: &'a str) -> (rest: &'a str)
    ensures
        rest@ == unslashed_end(text@),
{
    if ends_in_slash(text) {
        let length: usize = text.unicode_len();
        let rest = head_to(text, length - 1);
        proof {
            assert(rest@ =~= text@.drop_last());
        }
        rest
    } else {
        text
    }
}

/// The URL that a document stands for, if it comes under the mask of the target.
pub fn unmask(target: &str, url: &str) -> (replacement: Option<String>)
    ensures
        match replacement {
            Some(r) => url@ == redirect_mask(target@) && r@ == unmasked(target@),
            None => url@ != redirect_mask(target@),
        },
{
    let other = swap_scheme(target);
    let trailing = ends_in_slash(other.as_str());
    let core = strip_trailing_slash(strip_trailing_slash(other.as_str()));
    let mut mask = core.to_owned();
    mask.append(break_scheme(target).as_str());
    if !same_text(url, mask.as_str()) {
        return None;
    }
    let mut replacement = core.to_owned();
    if trailing {
        proof {
            reveal_strlit("/");
        }
        replacement.append("/");
        proof {
            assert(replacement@ =~= unmasked(target@));
        }
    }
    Some(replacement)
}

/// A second copy of a list of pairs.
fn copy_pairs(pairs: &Vec<(String, String)>) -> (copy: Vec<(String, String)>)
    ensures
        pair_texts(copy@) == pair_texts(pairs@),
{
    let mut copy: Vec<(String, String)> = Vec::new();
    let mut i: usize = 0;
    while i < pairs.len()
        invariant
            i <= pairs.len(),
            copy.len() == i,
            forall|j: int|
                0 <= j < i ==> (#[trigger] copy@[j]).0@ == pairs@[j].0@ && copy@[j].1@
                    == pairs@[j].1@,
        decreases pairs.len() - i,
    {
        copy.push((pairs[i].0.clone(), pairs[i].1.clone()));
        i = i + 1;
    }
    proof {
        assert(pair_texts(copy@) =~= pair_texts(pairs@));
    }
    copy
}

impl NetworkManager {
    /// Has an explicit block list the script? `website_blocked` says whether the
    /// URL is among the blocked websites.
    pub fn should_block_script_blocklist_only(&self, url: &str, website_blocked: bool) -> (listed:
        bool)
        ensures
            listed == script_listed(self@, url@, website_blocked),
    {
        let block_analytics = self.block_analytics.on;
        if block_analytics && url_trie_contains_prefix(url) {
            return true;
        }
        if website_blocked {
            return true;
        }
        if let Some(path) = url_path_with_leading_slash(url) {
            let slashed = strip_query_fragment(path);
            let plain = strip_leading_slash(slashed);
            let base = url_base_name(slashed);
            if block_analytics && path_trie_contains_prefix(slashed) {
                return true;
            }
            if block_analytics && path_trie_contains_prefix(plain) {
                return true;
            }
            if block_analytics && path_trie_contains_prefix(base) {
                return true;
            }
            if base_trie_contains_prefix(plain) {
                return true;
            }
            if self.ignore_visuals.on && style_trie_contains_prefix(plain) {
                return true;
            }
        }
        false
    }

    /// Is the data request to be skipped?
    pub fn skip_xhr(
        &self,
        skip_networking: bool,
        event: &EventRequestPaused,
        network_event: bool,
        verdicts: &Verdicts,
    ) -> (skip: bool)
        ensures
            skip == (skip_networking || network_event && xhr_listed(self@, event.url@, *verdicts)),
    {
        if skip_networking || !network_event {
            return skip_networking;
        }
        if self.block_analytics.on && (verdicts.xhr_script || verdicts.xhr) {
            return true;
        }
        if !self.block_stylesheets.on && !self.ignore_visuals.on {
            return false;
        }
        if let Some(extension) = url_extension(event.url.as_str()) {
            if self.ignore_visuals.on && verdicts.xhr_asset {
                return true;
            }
            if self.block_stylesheets.on && contains_css(extension) {
                return true;
            }
        }
        verdicts.xhr_media
    }

    /// Does the ad blocker match the request?
    pub fn detect_ad(&self, event: &EventRequestPaused) -> (matched: bool)
        ensures
            matched == is_ad(self@, event@),
    {
        let third_party = match event.is_same_site {
            Some(same) => !same,
            None => true,
        };
        match (&self.ad_blocker, ad_type_name(event.resource_type)) {
            (Some(blocker), Some(name)) => blocker.matches(event.url.as_str(), name, third_party),
            _ => false,
        }
    }

    /// Is the request to be skipped, as before or as an ad? `listed` says whether
    /// the URL is on the list of ads.
    fn detect_ad_if_enabled(
        &self,
        event: &EventRequestPaused,
        skip_networking: bool,
        listed: bool,
    ) -> (skip: bool)
        ensures
            skip == (skip_networking || listed || is_ad(self@, event@)),
    {
        if skip_networking {
            true
        } else {
            listed || self.detect_ad(event)
        }
    }

    /// Is the type of the resource one that is not loaded? Scripts always are.
    pub fn should_skip_for_visuals_and_basic(&self, resource_type: &ResourceType) -> (skip: bool)
        ensures
            skip == type_skipped(self@, *resource_type),
    {
        (self.ignore_visuals.on && ignore_visual_resource(*resource_type))
            || (self.block_stylesheets.on && *resource_type == ResourceType::Stylesheet)
    }

    /// Fails a paused request as blocked by the client.
    fn fail_request_blocked(&mut self, request_id: &String)
        ensures
            final(self)@ == commanded(old(self)@, fail_blocked(request_id@)),
    {
        self.push_cdp_request(
            CdpCommand::FailRequest {
                request_id: request_id.clone(),
                error_reason: ErrorReason::BlockedByClient,
            },
        );
    }

    /// Fulfills a paused request with an empty response of status 200.
    fn fulfill_request_empty_200(&mut self, request_id: &String)
        ensures
            final(self)@ == commanded(old(self)@, fulfill_empty(request_id@)),
    {
        self.push_cdp_request(
            CdpCommand::FulfillRequest {
                request_id: request_id.clone(),
                response_code: 200,
                response_headers: None,
                body: None,
            },
        );
    }

    /// Fulfills a paused request with a body and response headers from a cache.
    pub fn fulfill_request_from_cache(
        &mut self,
        request_id: &String,
        body: &Vec<u8>,
        headers: &Vec<(String, String)>,
        status: i64,
    )
        requires
            base64_fits(body@.len()),
        ensures
            final(self)@ == commanded(
                old(self)@,
                fulfill_cached(request_id@, body@, pair_texts(headers@), status),
            ),
    {
        let entries = copy_pairs(headers);
        self.push_cdp_request(
            CdpCommand::FulfillRequest {
                request_id: request_id.clone(),
                response_code: status,
                response_headers: Some(entries),
                body: Some(base64_encode(body)),
            },
        );
    }

    /// Continues a paused request. Under another URL, `intercept_response` says
    /// whether the response is intercepted too.
    fn continue_request_with_url(
        &mut self,
        request_id: &String,
        url: Option<&str>,
        intercept_response: bool,
    )
        ensures
            final(self)@ == commanded(
                old(self)@,
                (CdpCommandView::ContinueRequest {
                    request_id: request_id@,
                    url: match url {
                        Some(u) => Some(u@),
                        None => None,
                    },
                    intercept_response: match url {
                        Some(u) => Some(intercept_response),
                        None => None,
                    },
                }),
            ),
    {
        let request_id = request_id.clone();
        match url {
            Some(url) => self.push_cdp_request(
                CdpCommand::ContinueRequest {
                    request_id,
                    url: Some(url.to_owned()),
                    intercept_response: Some(intercept_response),
                },
            ),
            None => self.push_cdp_request(
                CdpCommand::ContinueRequest { request_id, url: None, intercept_response: None },
            ),
        }
    }

    /// Continues a paused request, under another URL if one replaces it.
    fn continue_paused(&mut self, request_id: &String, paused: &PausedRequest)
        ensures
            final(self)@ == commanded(old(self)@, continued(request_id@, paused@)),
    {
        let url = if paused.had_replacer {
            Some(paused.current_url.as_str())
        } else {
            None
        };
        self.continue_request_with_url(request_id, url, !paused.had_replacer);
    }

    /// Follows a document: counts reloads, notes a first document in XML, and
    /// takes its URL, with the domain that is given, as the target. The result is
    /// the URL to decide on, and whether it replaces that of the request.
    ///
    /// The count of reloads goes to 255.
    pub fn handle_document_replacement_and_tracking(
        &mut self,
        event: &EventRequestPaused,
        domain: &str,
    ) -> (found: (String, bool))
        requires
            reloads(old(self)@, event@) ==> old(self)@.document_reload_tracker < 255,
        ensures
            final(self)@ == document_tracked(old(self)@, event@, domain@),
            found.0@ == effective_url(old(self)@, event@),
            found.1 == is_masked(old(self)@, event@),
    {
        if event.resource_type != ResourceType::Document {
            return (event.url.clone(), false);
        }
        let target = self.document_target_url.clone();
        let mut replacer: Option<String> = None;
        if same_text(target.as_str(), event.url.as_str()) {
            self.document_reload_tracker = self.document_reload_tracker + 1;
        } else if !target.as_str().is_empty() && event.redirected_request_id.is_some() {
            replacer = unmask(target.as_str(), event.url.as_str());
        }
        let first_xml = target.as_str().is_empty() && ends_with(event.url.as_str(), ".xml");
        self.xml_document = Switch { on: self.xml_document.on || first_xml };
        self.document_target_url = event.url.clone();
        self.document_target_domain = domain.to_owned();
        match replacer {
            Some(url) => (url, true),
            None => (event.url.clone(), false),
        }
    }

    /// Joins the pause of a request to its announcement, or keeps it until that
    /// comes.
    fn note_pause(&mut self, event: &EventRequestPaused)
        ensures
            final(self)@ == paused_noted(old(self)@, event@),
    {
        if let Some(network_id) = &event.network_id {
            if let Some(announcement) = self.requests_will_be_sent.remove(network_id.as_str()) {
                self.on_request(&announcement, Some(event.request_id.clone()));
            } else {
                proof {
                    assert(self@.requests_will_be_sent =~= old(self)@.requests_will_be_sent);
                }
                self.request_id_to_interception_id.insert(
                    network_id.clone(),
                    event.request_id.clone(),
                );
            }
        }
    }

    /// The first step of a pause. `domain` is the domain of the request's URL.
    ///
    /// Nothing is left to decide if the user intercepts requests too, or if all
    /// requests are blocked. The count of reloads goes to 255.
    pub fn on_fetch_request_paused(&mut self, event: &EventRequestPaused, domain: &str) -> (paused:
        Option<PausedRequest>)
        requires
            !left_to_user(old(self)@) && !old(self)@.block_all.on && reloads(
                old(self)@,
                event@,
            ) ==> old(self)@.document_reload_tracker < 255,
        ensures
            final(self)@ == paused_state(old(self)@, event@, domain@),
            opt_paused(paused) == paused_open(old(self)@, event@),
    {
        if self.user_request_interception_enabled.on
            && self.protocol_request_interception_enabled.on {
            return None;
        }
        if self.block_all.on {
            self.fail_request_blocked(&event.request_id);
            return None;
        }
        let prefetching = event.resource_type == ResourceType::Prefetch;
        let skip_networking = ignore_networking_resource(event.resource_type) || (prefetching
            && self.block_prefetch.on) || self.document_reload_tracker >= 3;
        let ghost s = self@;
        self.note_pause(event);
        proof {
            assert(self@.document_target_url == s.document_target_url);
            assert(self@.document_reload_tracker == s.document_reload_tracker);
        }
        let (current_url, had_replacer) = self.handle_document_replacement_and_tracking(
            event,
            domain,
        );
        Some(PausedRequest { current_url, had_replacer, skip_networking })
    }

    /// Is the paused request blocked, by what is known of it and by what the block
    /// lists of the owner say?
    pub fn is_blocked(
        &self,
        event: &EventRequestPaused,
        paused: &PausedRequest,
        verdicts: &Verdicts,
    ) -> (yes: bool)
        ensures
            yes == blocked(self@, event@, paused@, *verdicts),
    {
        let current_url = paused.current_url.as_str();
        let javascript_resource = event.resource_type == ResourceType::Script;
        let document_resource = event.resource_type == ResourceType::Document;
        let network_resource = !document_resource && verdicts.data_resource;
        let blacklisted = self.is_blacklisted(current_url);
        let mut skip_networking = paused.skip_networking;
        if !self.blacklist_strict.on && blacklisted {
            skip_networking = true;
        }
        if !skip_networking && !(self.xml_document.on && ends_with(current_url, ".xsl")) {
            skip_networking = self.should_skip_for_visuals_and_basic(&event.resource_type);
        }
        skip_networking = self.detect_ad_if_enabled(event, skip_networking, verdicts.ad);
        if !skip_networking && self.block_javascript.on && (self.only_html.on
            || self.ignore_visuals.on) && (javascript_resource || document_resource) {
            skip_networking = verdicts.embedded_script;
        }
        if !skip_networking && javascript_resource {
            skip_networking = self.should_block_script_blocklist_only(
                current_url,
                verdicts.website,
            );
        }
        skip_networking = self.skip_xhr(skip_networking, event, network_resource, verdicts);
        if !skip_networking && (javascript_resource || network_resource || document_resource) {
            skip_networking = intercept_detection(
                &self.intercept_manager,
                current_url,
                self.ignore_visuals.on,
                network_resource,
            );
        }
        if !skip_networking && (javascript_resource || network_resource) {
            skip_networking = verdicts.website;
        }
        proof {
            assert(skip_networking == objected(self@, event@, paused@, *verdicts));
        }
        if skip_networking && javascript_resource && self.allowed_3rd_party.is_match(current_url) {
            skip_networking = false;
        }
        if skip_networking && self.is_whitelisted(current_url) {
            skip_networking = false;
        }
        if self.blacklist_strict.on && blacklisted {
            skip_networking = true;
        }
        skip_networking
    }

    /// Where the response to a paused request may be cached.
    fn cache_lookup(&self, event: &EventRequestPaused, paused: &PausedRequest) -> (lookup: Option<
        CacheLookup,
    >)
        ensures
            opt_lookup(lookup) == lookup_of(self@, event@, paused@),
    {
        match (&self.cache_policy, &self.cache_site_key) {
            (Some(_), Some(site_key)) => {
                proof {
                    reveal_strlit(":");
                }
                let mut key = event.method.clone();
                key.append(":");
                key.append(paused.current_url.as_str());
                proof {
                    assert(key@ =~= event.method@ + seq![':'] + paused.current_url@);
                }
                Some(CacheLookup { site_key: site_key.clone(), key })
            },
            _ => None,
        }
    }

    /// The second step of a pause: the request is fulfilled as blocked, or
    /// continued, or the cache is to be asked first.
    pub fn settle_paused_request(
        &mut self,
        event: &EventRequestPaused,
        paused: &PausedRequest,
        verdicts: &Verdicts,
    ) -> (lookup: Option<CacheLookup>)
        ensures
            final(self)@ == settled_state(old(self)@, event@, paused@, *verdicts),
            opt_lookup(lookup) == settled_lookup(old(self)@, event@, paused@, *verdicts),
    {
        if self.is_blocked(event, paused, verdicts) {
            self.fulfill_request_empty_200(&event.request_id);
            return None;
        }
        let lookup = self.cache_lookup(event, paused);
        if lookup.is_none() {
            self.continue_paused(&event.request_id, paused);
        }
        lookup
    }

    /// The third step of a pause: the request is fulfilled from the cache, if that
    /// has a response that may be used, and continued otherwise.
    pub fn settle_cached_request(
        &mut self,
        event: &EventRequestPaused,
        paused: &PausedRequest,
        cached: Option<CachedResponse>,
    )
        requires
            cached matches Some(c) ==> base64_fits(c.body@.len()),
        ensures
            final(self)@ == commanded(
                old(self)@,
                cache_answer(event.request_id@, paused@, cached),
            ),
    {
        if let Some(response) = cached {
            if response.allowed {
                self.fulfill_request_from_cache(
                    &event.request_id,
                    &response.body,
                    &response.headers,
                    response.status as i64,
                );
                return;
            }
        }
        self.continue_paused(&event.request_id, paused);
    }
}

} // verus!
