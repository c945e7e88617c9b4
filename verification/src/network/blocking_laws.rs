//! What is blocked, and what is not: for each reason to block a request, that it does,
//! and that there are no other reasons.
use vstd::prelude::*;

use crate::blocklists::{
    base_path_patterns, begins_with_one_of, ignored_base, ignored_path, ignored_style, ignored_url,
    ignored_url_pattern, rules_match, site_blocks, standard_rules, style_path_patterns,
    tracking_path_patterns, RuleKinds,
};
use crate::command::{CdpCommandView, ErrorReason, NetworkEventView};
use crate::matcher::{a_list_has_what_a_pattern_is_part_of, ascii_folded};
use crate::network::decision::{
    blocked, cache_answer, document_tracked, effective_url, excused, is_masked, paused_open, paused_state, script_listed,
    settled_lookup, settled_state, CachedResponse, PausedRequestView, Verdicts,
};
use crate::network::manager::fresh_state;
use crate::network::state::{matcher_hits, paused_noted, NetworkState, Switch};
use crate::protocol::{EventRequestPausedView, ResourceType};
use crate::text::{
    a_beginning_is_followed, an_end_is_preceded, begins_with, closes_with, holds_part, last_char,
    made_of, opens_with, what_occurs_is_a_part,
};
use crate::url::{
    bare_path, base_name, extension_of, is_wide, one_slash_is_taken_off_the_beginning, path_of,
    query_and_fragment_are_taken_off, the_extension_follows_the_last_dot,
    the_last_part_follows_the_last_slash, the_path_follows_the_host, unslashed_start,
};
use spider_network_blocker::intercept_manager::NetworkInterceptManager;
use std::time::Duration;

verus! {

// ---------------------------------------------------------------------------
// Lists

/// One of the patterns of a compiled list is a part of the URL.
pub open spec fn on_list(list: Option<Seq<Seq<char>>>, url: Seq<char>) -> bool {
    list matches Some(patterns) && exists|i: int|
        0 <= i < patterns.len() && holds_part(url, #[trigger] patterns[i])
}

/// The white list has the URL, or it is that of a script of an allowed third party.
pub open spec fn let_through(
    s: NetworkState,
    event: EventRequestPausedView,
    url: Seq<char>,
) -> bool {
    ||| on_list(s.whitelist_matcher, url)
    ||| event.resource_type == ResourceType::Script && exists|i: int|
        0 <= i < s.allowed_3rd_party.len() && holds_part(url, #[trigger] s.allowed_3rd_party[i])
}

/// A compiled list has a URL exactly if one of its patterns is a part of it. A list that
/// has not been compiled has none.
pub proof fn a_url_is_on_a_list_by_a_part(list: Option<Seq<Seq<char>>>, url: Seq<char>)
    ensures
        matcher_hits(list, url) <==> on_list(list, url),
{
    match list {
        Some(patterns) => a_list_has_what_a_pattern_is_part_of(patterns, url),
        None => {},
    }
}

/// A request is let through exactly if the white list has its URL, or if it is a script
/// of an allowed third party.
pub proof fn what_is_let_through(
    s: NetworkState,
    event: EventRequestPausedView,
    paused: PausedRequestView,
)
    ensures
        excused(s, event, paused) <==> let_through(s, event, paused.current_url),
{
    a_url_is_on_a_list_by_a_part(s.whitelist_matcher, paused.current_url);
    a_list_has_what_a_pattern_is_part_of(s.allowed_3rd_party, paused.current_url);
}

/// A URL on the black list is blocked whatever lets it through if the list is strict,
/// and unless something lets it through if it is not.
pub proof fn the_blacklist_blocks(
    s: NetworkState,
    event: EventRequestPausedView,
    paused: PausedRequestView,
    v: Verdicts,
)
    requires
        on_list(s.blacklist_matcher, paused.current_url),
    ensures
        s.blacklist_strict.on ==> blocked(s, event, paused, v),
        !s.blacklist_strict.on ==> (blocked(s, event, paused, v) <==> !let_through(
            s,
            event,
            paused.current_url,
        )),
{
    a_url_is_on_a_list_by_a_part(s.blacklist_matcher, paused.current_url);
    what_is_let_through(s, event, paused);
}

/// What is let through is not blocked, but for a strict black list.
pub proof fn what_is_let_through_is_not_blocked(
    s: NetworkState,
    event: EventRequestPausedView,
    paused: PausedRequestView,
    v: Verdicts,
)
    requires
        let_through(s, event, paused.current_url),
    ensures
        blocked(s, event, paused, v) <==> s.blacklist_strict.on && on_list(
            s.blacklist_matcher,
            paused.current_url,
        ),
{
    a_url_is_on_a_list_by_a_part(s.blacklist_matcher, paused.current_url);
    what_is_let_through(s, event, paused);
}

// ---------------------------------------------------------------------------
// Types of resources

/// While visuals are ignored, an image, a medium or a font that nothing lets through is
/// blocked, whatever else is known of it. The one exception is the style sheet of a
/// document in XML.
pub proof fn ignored_visuals_are_blocked(
    s: NetworkState,
    event: EventRequestPausedView,
    paused: PausedRequestView,
    v: Verdicts,
)
    requires
        s.ignore_visuals.on,
        event.resource_type == ResourceType::Image || event.resource_type == ResourceType::Media
            || event.resource_type == ResourceType::Font,
        !let_through(s, event, paused.current_url),
        !(s.xml_document.on && closes_with(paused.current_url, ".xsl"@)),
    ensures
        blocked(s, event, paused, v),
{
    what_is_let_through(s, event, paused);
    an_end_is_preceded(paused.current_url, ".xsl"@);
}

/// While style sheets are blocked, one that nothing lets through is blocked, but for the
/// style sheet of a document in XML.
pub proof fn style_sheets_are_blocked(
    s: NetworkState,
    event: EventRequestPausedView,
    paused: PausedRequestView,
    v: Verdicts,
)
    requires
        s.block_stylesheets.on,
        event.resource_type == ResourceType::Stylesheet,
        !let_through(s, event, paused.current_url),
        !(s.xml_document.on && closes_with(paused.current_url, ".xsl"@)),
    ensures
        blocked(s, event, paused, v),
{
    what_is_let_through(s, event, paused);
    an_end_is_preceded(paused.current_url, ".xsl"@);
}

/// The transformation of a document in XML is loaded though visuals are ignored and
/// style sheets are blocked.
pub proof fn an_xml_document_keeps_its_style_sheet(
    s: NetworkState,
    event: EventRequestPausedView,
    paused: PausedRequestView,
    v: Verdicts,
)
    requires
        s.xml_document.on,
        closes_with(paused.current_url, ".xsl"@),
        event.resource_type == ResourceType::Image || event.resource_type == ResourceType::Media
            || event.resource_type == ResourceType::Font || event.resource_type
            == ResourceType::Stylesheet,
        !paused.skip_networking,
        !on_list(s.blacklist_matcher, paused.current_url),
        !v.ad,
        !s.block_ads.on,
        !v.data_resource,
    ensures
        !blocked(s, event, paused, v),
{
    an_end_is_preceded(paused.current_url, ".xsl"@);
    a_url_is_on_a_list_by_a_part(s.blacklist_matcher, paused.current_url);
}

/// What is skipped whatever its URL is, and what the list of ads has, is blocked unless
/// something lets it through.
pub proof fn what_is_skipped_and_ads_are_blocked(
    s: NetworkState,
    event: EventRequestPausedView,
    paused: PausedRequestView,
    v: Verdicts,
)
    requires
        paused.skip_networking || v.ad,
        !let_through(s, event, paused.current_url),
    ensures
        blocked(s, event, paused, v),
{
    what_is_let_through(s, event, paused);
}

/// The ad blocker decides on the URL that the browser has, by the name of the type of
/// resource, and takes a request for one to another site unless it is known to stay on
/// the site. What it matches is blocked.
pub proof fn what_the_ad_blocker_matches_is_blocked(
    s: NetworkState,
    event: EventRequestPausedView,
    paused: PausedRequestView,
    v: Verdicts,
    name: Seq<char>,
)
    requires
        s.block_ads.on,
        event.resource_type == ResourceType::Image && name == "image"@ || event.resource_type
            == ResourceType::Media && name == "media"@ || event.resource_type
            == ResourceType::Stylesheet && name == "stylesheet"@ || event.resource_type
            == ResourceType::Document && name == "document"@ || event.resource_type
            == ResourceType::Fetch && name == "fetch"@ || event.resource_type == ResourceType::Xhr
            && name == "xhr"@,
        rules_match(
            standard_rules(),
            RuleKinds::All,
            "example.com"@,
            event.url,
            name,
            event.is_same_site != Some(true),
        ),
        !let_through(s, event, paused.current_url),
    ensures
        blocked(s, event, paused, v),
{
    what_is_let_through(s, event, paused);
}

/// With nothing but HTML wanted or visuals ignored, embedded scripts that rendering does
/// not need are blocked.
pub proof fn embedded_scripts_are_blocked(
    s: NetworkState,
    event: EventRequestPausedView,
    paused: PausedRequestView,
    v: Verdicts,
)
    requires
        s.block_javascript.on,
        s.only_html.on || s.ignore_visuals.on,
        event.resource_type == ResourceType::Script || event.resource_type
            == ResourceType::Document,
        v.embedded_script,
        !let_through(s, event, paused.current_url),
    ensures
        blocked(s, event, paused, v),
{
    what_is_let_through(s, event, paused);
}

/// A script or a data request to a blocked website is blocked.
pub proof fn blocked_websites_are_blocked(
    s: NetworkState,
    event: EventRequestPausedView,
    paused: PausedRequestView,
    v: Verdicts,
)
    requires
        v.website,
        event.resource_type == ResourceType::Script || event.resource_type
            != ResourceType::Document && v.data_resource,
        !let_through(s, event, paused.current_url),
    ensures
        blocked(s, event, paused, v),
{
    what_is_let_through(s, event, paused);
}

/// What the rules of the site block is blocked, of scripts, documents and data requests.
/// The rules are asked about the URL that is decided on.
pub proof fn the_rules_of_the_site_block(
    s: NetworkState,
    event: EventRequestPausedView,
    paused: PausedRequestView,
    v: Verdicts,
)
    requires
        event.resource_type == ResourceType::Script || event.resource_type
            == ResourceType::Document || v.data_resource,
        site_blocks(
            s.intercept_manager,
            paused.current_url,
            s.ignore_visuals.on,
            event.resource_type != ResourceType::Document && v.data_resource,
        ),
        !let_through(s, event, paused.current_url),
    ensures
        blocked(s, event, paused, v),
{
    what_is_let_through(s, event, paused);
}

// ---------------------------------------------------------------------------
// Scripts by their URL

/// While analytics are blocked, a script whose URL opens with a pattern of the list is
/// blocked.
pub proof fn listed_scripts_are_blocked(
    s: NetworkState,
    event: EventRequestPausedView,
    paused: PausedRequestView,
    v: Verdicts,
    pattern: Seq<char>,
)
    requires
        event.resource_type == ResourceType::Script,
        s.block_analytics.on,
        ignored_url_pattern(pattern),
        pattern.len() > 0,
        opens_with(paused.current_url, pattern),
        !let_through(s, event, paused.current_url),
    ensures
        blocked(s, event, paused, v),
{
    what_is_let_through(s, event, paused);
    a_beginning_is_followed(paused.current_url, pattern);
    assert(ignored_url(paused.current_url));
}

/// A URL of a scheme, a host, a path, and a query or fragment or neither.
pub open spec fn url_of(
    scheme: Seq<char>,
    host: Seq<char>,
    path: Seq<char>,
    tail: Seq<char>,
) -> Seq<char> {
    scheme + seq!['/', '/'] + host + seq!['/'] + (path + tail)
}

/// The parts are those of a URL: only the path has slashes, and the tail is empty or is
/// set off by a question mark or a number sign.
pub open spec fn are_url_parts(
    scheme: Seq<char>,
    host: Seq<char>,
    path: Seq<char>,
    tail: Seq<char>,
) -> bool {
    &&& !scheme.contains('/')
    &&& !host.contains('/')
    &&& !path.contains('?')
    &&& !path.contains('#')
    &&& tail.len() == 0 || tail[0] == '?' || tail[0] == '#'
}

proof fn lemma_url_parts(scheme: Seq<char>, host: Seq<char>, path: Seq<char>, tail: Seq<char>)
    requires
        are_url_parts(scheme, host, path, tail),
    ensures
        path_of(url_of(scheme, host, path, tail)) == Some(seq!['/'] + (path + tail)),
        bare_path(seq!['/'] + (path + tail)) == seq!['/'] + path,
        unslashed_start(seq!['/'] + path) == path,
{
    the_path_follows_the_host(scheme, host, path + tail);
    one_slash_is_taken_off_the_beginning(path);
    let slashed = seq!['/'] + path;
    assert(!slashed.contains('?')) by {
        if slashed.contains('?') {
            let i = choose|i: int| 0 <= i < slashed.len() && slashed[i] == '?';
            assert(path[i - 1] == '?');
        }
    }
    assert(!slashed.contains('#')) by {
        if slashed.contains('#') {
            let i = choose|i: int| 0 <= i < slashed.len() && slashed[i] == '#';
            assert(path[i - 1] == '#');
        }
    }
    if tail.len() == 0 {
        assert(seq!['/'] + (path + tail) =~= slashed);
        query_and_fragment_are_taken_off(slashed, '?', tail);
    } else {
        assert(seq!['/'] + (path + tail) =~= slashed + seq![tail[0]] + tail.skip(1));
        query_and_fragment_are_taken_off(slashed, tail[0], tail.skip(1));
    }
}

/// While analytics are blocked, a script is blocked whose path, or whose file name, opens
/// with the path of a script for tracking or advertisements. Query and fragment do not
/// matter.
pub proof fn tracking_scripts_are_blocked(
    s: NetworkState,
    event: EventRequestPausedView,
    paused: PausedRequestView,
    v: Verdicts,
    scheme: Seq<char>,
    host: Seq<char>,
    folder: Seq<char>,
    name: Seq<char>,
    tail: Seq<char>,
    i: int,
)
    requires
        event.resource_type == ResourceType::Script,
        s.block_analytics.on,
        are_url_parts(scheme, host, folder + seq!['/'] + name, tail),
        !name.contains('/'),
        paused.current_url == url_of(scheme, host, folder + seq!['/'] + name, tail),
        0 <= i < tracking_path_patterns().len(),
        opens_with(folder + seq!['/'] + name, tracking_path_patterns()[i]) || opens_with(
            name,
            tracking_path_patterns()[i],
        ),
        !let_through(s, event, paused.current_url),
    ensures
        blocked(s, event, paused, v),
{
    let path = folder + seq!['/'] + name;
    let pattern = tracking_path_patterns()[i];
    what_is_let_through(s, event, paused);
    lemma_url_parts(scheme, host, path, tail);
    a_beginning_is_followed(path, pattern);
    a_beginning_is_followed(name, pattern);
    the_last_part_follows_the_last_slash(seq!['/'] + folder, name);
    assert(seq!['/'] + folder + seq!['/'] + name =~= seq!['/'] + path);
    if opens_with(path, pattern) {
        assert(begins_with(path, tracking_path_patterns()[i]));
        assert(ignored_path(path));
    } else {
        assert(begins_with(name, tracking_path_patterns()[i]));
        assert(ignored_path(base_name(seq!['/'] + path)));
    }
    assert(script_listed(s, paused.current_url, v.website));
}

/// A script is blocked whose path opens with that of a script that a page does without,
/// and while visuals are ignored one whose path opens with that of a script that only
/// serves looks.
pub proof fn scripts_that_a_page_does_without_are_blocked(
    s: NetworkState,
    event: EventRequestPausedView,
    paused: PausedRequestView,
    v: Verdicts,
    scheme: Seq<char>,
    host: Seq<char>,
    path: Seq<char>,
    tail: Seq<char>,
    i: int,
)
    requires
        event.resource_type == ResourceType::Script,
        are_url_parts(scheme, host, path, tail),
        paused.current_url == url_of(scheme, host, path, tail),
        0 <= i < base_path_patterns().len() && opens_with(path, base_path_patterns()[i])
            || s.ignore_visuals.on && 0 <= i < style_path_patterns().len() && opens_with(
            path,
            style_path_patterns()[i],
        ),
        !let_through(s, event, paused.current_url),
    ensures
        blocked(s, event, paused, v),
{
    what_is_let_through(s, event, paused);
    lemma_url_parts(scheme, host, path, tail);
    if 0 <= i < base_path_patterns().len() && opens_with(path, base_path_patterns()[i]) {
        a_beginning_is_followed(path, base_path_patterns()[i]);
        assert(begins_with(path, base_path_patterns()[i]));
        assert(ignored_base(path));
    } else {
        a_beginning_is_followed(path, style_path_patterns()[i]);
        assert(begins_with(path, style_path_patterns()[i]));
        assert(ignored_style(path));
    }
    assert(script_listed(s, paused.current_url, v.website));
}

// ---------------------------------------------------------------------------
// Data requests

/// While analytics are blocked, a data request that is a script's or on the list of data
/// requests is blocked. While visuals are ignored or style sheets are blocked, one for
/// media is.
pub proof fn listed_data_requests_are_blocked(
    s: NetworkState,
    event: EventRequestPausedView,
    paused: PausedRequestView,
    v: Verdicts,
)
    requires
        event.resource_type != ResourceType::Document,
        v.data_resource,
        s.block_analytics.on && (v.xhr_script || v.xhr) || (s.block_stylesheets.on
            || s.ignore_visuals.on) && v.xhr_media,
        !let_through(s, event, paused.current_url),
    ensures
        blocked(s, event, paused, v),
{
    what_is_let_through(s, event, paused);
}

/// A data request whose URL has the extension of an ignored asset is blocked while
/// visuals are ignored, and one whose extension names a style sheet while these are
/// blocked, whatever the case of its letters.
pub proof fn data_requests_are_blocked_by_extension(
    s: NetworkState,
    event: EventRequestPausedView,
    paused: PausedRequestView,
    v: Verdicts,
    stem: Seq<char>,
    extension: Seq<char>,
)
    requires
        event.resource_type != ResourceType::Document,
        v.data_resource,
        event.url == stem + seq!['.'] + extension,
        !extension.contains('.'),
        extension.len() >= 2,
        s.ignore_visuals.on && v.xhr_asset || s.block_stylesheets.on && holds_part(
            ascii_folded(extension),
            "css"@,
        ),
        !let_through(s, event, paused.current_url),
    ensures
        blocked(s, event, paused, v),
{
    what_is_let_through(s, event, paused);
    the_extension_follows_the_last_dot(stem, extension);
    what_occurs_is_a_part(ascii_folded(extension), "css"@);
}

// ---------------------------------------------------------------------------
// What is not blocked

/// Whatever is blocked is so for a reason: it is skipped, on the black list, an ad, of a
/// type that is not loaded, an embedded script, a script or a data request of a kind that
/// is blocked, or against the rules of the site. The reasons of one type of resource are
/// none for another.
pub proof fn what_is_blocked_has_a_reason(
    s: NetworkState,
    event: EventRequestPausedView,
    paused: PausedRequestView,
    v: Verdicts,
)
    requires
        blocked(s, event, paused, v),
        !paused.skip_networking,
        !on_list(s.blacklist_matcher, paused.current_url),
        !v.ad,
        !s.block_ads.on,
        forall|url: Seq<char>, visuals: bool, xhr: bool|
            !site_blocks(s.intercept_manager, url, visuals, xhr),
    ensures
        match event.resource_type {
            ResourceType::Image | ResourceType::Media | ResourceType::Font => s.ignore_visuals.on
                || v.data_resource,
            ResourceType::Stylesheet => s.block_stylesheets.on || v.data_resource,
            ResourceType::Document => s.block_javascript.on && (s.only_html.on
                || s.ignore_visuals.on) && v.embedded_script,
            ResourceType::Script => s.block_javascript.on && v.embedded_script || v.website
                || v.data_resource || s.block_analytics.on || path_of(paused.current_url) is Some,
            _ => v.data_resource,
        },
        v.data_resource && event.resource_type != ResourceType::Document && event.resource_type
            != ResourceType::Script && !s.ignore_visuals.on && !s.block_stylesheets.on
            ==> v.website || s.block_analytics.on && (v.xhr_script || v.xhr),
        !let_through(s, event, paused.current_url),
{
    a_url_is_on_a_list_by_a_part(s.blacklist_matcher, paused.current_url);
    what_is_let_through(s, event, paused);
}

/// A script is loaded that no list and nothing of the owner names: whose URL opens with
/// no pattern of the list, and whose path and file name open with none of those that are
/// blocked. Its query and fragment do not matter, and neither do switches that are off.
pub proof fn other_scripts_are_loaded(
    s: NetworkState,
    event: EventRequestPausedView,
    paused: PausedRequestView,
    v: Verdicts,
    scheme: Seq<char>,
    host: Seq<char>,
    path: Seq<char>,
    folder: Seq<char>,
    name: Seq<char>,
    tail: Seq<char>,
)
    requires
        event.resource_type == ResourceType::Script,
        !paused.skip_networking,
        !on_list(s.blacklist_matcher, paused.current_url),
        !v.ad,
        !v.website,
        !v.data_resource,
        !(s.block_javascript.on && (s.only_html.on || s.ignore_visuals.on) && v.embedded_script),
        !site_blocks(s.intercept_manager, paused.current_url, s.ignore_visuals.on, false),
        are_url_parts(scheme, host, path, tail),
        paused.current_url == url_of(scheme, host, path, tail),
        seq!['/'] + path == folder + seq!['/'] + name,
        !name.contains('/'),
        s.block_analytics.on ==> {
            &&& forall|p: Seq<char>| #[trigger]
                ignored_url_pattern(p) && p.len() > 0 ==> !opens_with(paused.current_url, p)
            &&& forall|i: int|
                0 <= i < tracking_path_patterns().len() ==> !opens_with(
                    path,
                    #[trigger] tracking_path_patterns()[i],
                ) && !opens_with(seq!['/'] + path, tracking_path_patterns()[i]) && !opens_with(
                    name,
                    tracking_path_patterns()[i],
                )
        },
        forall|i: int|
            0 <= i < base_path_patterns().len() ==> !opens_with(
                path,
                #[trigger] base_path_patterns()[i],
            ),
        s.ignore_visuals.on ==> forall|i: int|
            0 <= i < style_path_patterns().len() ==> !opens_with(
                path,
                #[trigger] style_path_patterns()[i],
            ),
    ensures
        !blocked(s, event, paused, v),
{
    let url = paused.current_url;
    a_url_is_on_a_list_by_a_part(s.blacklist_matcher, url);
    lemma_url_parts(scheme, host, path, tail);
    the_last_part_follows_the_last_slash(folder, name);
    lemma_opens_with_none(path, base_path_patterns());
    lemma_opens_with_none(path, style_path_patterns());
    lemma_opens_with_none(path, tracking_path_patterns());
    lemma_opens_with_none(seq!['/'] + path, tracking_path_patterns());
    lemma_opens_with_none(name, tracking_path_patterns());
    if s.block_analytics.on {
        assert(!ignored_url(url)) by {
            if ignored_url(url) {
                let p = choose|p: Seq<char>| #[trigger]
                    ignored_url_pattern(p) && p.len() > 0 && begins_with(url, p);
                a_beginning_is_followed(url, p);
            }
        }
    }
}

proof fn lemma_opens_with_none(text: Seq<char>, patterns: Seq<Seq<char>>)
    ensures
        (forall|i: int| 0 <= i < patterns.len() ==> !opens_with(text, #[trigger] patterns[i]))
            ==> !begins_with_one_of(text, patterns),
{
    if begins_with_one_of(text, patterns) {
        let i = choose|i: int| 0 <= i < patterns.len() && begins_with(text, #[trigger] patterns[i]);
        a_beginning_is_followed(text, patterns[i]);
    }
}

/// A script whose URL has no path is not blocked for its path.
pub proof fn a_script_without_a_path_is_loaded(
    s: NetworkState,
    event: EventRequestPausedView,
    paused: PausedRequestView,
    v: Verdicts,
    scheme: Seq<char>,
    host: Seq<char>,
)
    requires
        event.resource_type == ResourceType::Script,
        !paused.skip_networking,
        !on_list(s.blacklist_matcher, paused.current_url),
        !v.ad,
        !v.website,
        !v.data_resource,
        !s.block_analytics.on,
        !(s.block_javascript.on && v.embedded_script),
        !site_blocks(s.intercept_manager, paused.current_url, s.ignore_visuals.on, false),
        !scheme.contains('/'),
        !host.contains('/'),
        paused.current_url == scheme + seq!['/', '/'] + host || paused.current_url == scheme,
    ensures
        !blocked(s, event, paused, v),
{
    a_url_is_on_a_list_by_a_part(s.blacklist_matcher, paused.current_url);
    the_path_follows_the_host(scheme, host, Seq::empty());
}

/// A data request that no list and nothing of the owner names, and that is no style
/// sheet, is loaded though visuals are ignored, unless it is one of them.
pub proof fn other_data_requests_are_loaded(
    s: NetworkState,
    event: EventRequestPausedView,
    paused: PausedRequestView,
    v: Verdicts,
)
    requires
        !(event.resource_type == ResourceType::Script || event.resource_type
            == ResourceType::Document || event.resource_type == ResourceType::Stylesheet),
        !s.ignore_visuals.on || !(event.resource_type == ResourceType::Image || event.resource_type
            == ResourceType::Media || event.resource_type == ResourceType::Font),
        !paused.skip_networking,
        !on_list(s.blacklist_matcher, paused.current_url),
        !v.ad,
        !s.block_ads.on,
        !v.website,
        !v.xhr_script,
        !v.xhr,
        !v.xhr_media,
        !v.xhr_asset,
        !s.block_stylesheets.on || !holds_part(ascii_folded(event.url), "css"@),
        !site_blocks(
            s.intercept_manager,
            paused.current_url,
            s.ignore_visuals.on,
            v.data_resource,
        ),
    ensures
        !blocked(s, event, paused, v),
{
    a_url_is_on_a_list_by_a_part(s.blacklist_matcher, paused.current_url);
    match extension_of(event.url) {
        Some(extension) => {
            let dot = choose|dot: int|
                last_char(event.url, '.', dot) && is_wide(event.url.skip(dot + 1));
            let stem = event.url.take(dot + 1);
            assert(event.url =~= stem + extension);
            assert(ascii_folded(event.url) =~= ascii_folded(stem) + ascii_folded(extension));
            what_occurs_is_a_part(ascii_folded(extension), "css"@);
            if holds_part(ascii_folded(extension), "css"@) {
                let (before, after) = choose|before: Seq<char>, after: Seq<char>|
                    made_of(ascii_folded(extension), before, "css"@, after);
                assert(ascii_folded(event.url) =~= (ascii_folded(stem) + before) + "css"@ + after);
                assert(made_of(
                    ascii_folded(event.url),
                    ascii_folded(stem) + before,
                    "css"@,
                    after,
                ));
            }
        },
        None => {},
    }
}

/// The ad blocker makes a difference to nothing but what it matches: a request of another
/// type, and one that its rules do not match, is decided on as without it.
pub proof fn the_ad_blocker_makes_no_other_difference(
    s: NetworkState,
    event: EventRequestPausedView,
    paused: PausedRequestView,
    v: Verdicts,
)
    requires
        !(event.resource_type == ResourceType::Image || event.resource_type == ResourceType::Media
            || event.resource_type == ResourceType::Stylesheet || event.resource_type
            == ResourceType::Document || event.resource_type == ResourceType::Fetch
            || event.resource_type == ResourceType::Xhr) || forall|name: Seq<char>, third_party: bool|
            third_party == (event.is_same_site != Some(true)) ==> !#[trigger] rules_match(
                standard_rules(),
                RuleKinds::All,
                "example.com"@,
                event.url,
                name,
                third_party,
            ),
    ensures
        blocked(s, event, paused, v) == blocked(
            NetworkState { block_ads: Switch { on: false }, ..s },
            event,
            paused,
            v,
        ),
{
}

/// The rules of the site make no difference to what is neither a script nor a document
/// nor a data request.
pub proof fn the_rules_of_the_site_make_no_other_difference(
    s: NetworkState,
    site: NetworkInterceptManager,
    event: EventRequestPausedView,
    paused: PausedRequestView,
    v: Verdicts,
)
    requires
        event.resource_type != ResourceType::Script,
        event.resource_type != ResourceType::Document,
        !v.data_resource,
    ensures
        blocked(s, event, paused, v) == blocked(
            NetworkState { intercept_manager: site, ..s },
            event,
            paused,
            v,
        ),
{
}

/// What has nothing to do with a decision makes no difference to it: neither the queue
/// nor the requests that are known, the credentials, the budget, the headers or the cache.
pub proof fn decisions_depend_on_what_is_blocked_only(
    s: NetworkState,
    t: NetworkState,
    event: EventRequestPausedView,
    paused: PausedRequestView,
    v: Verdicts,
)
    requires
        t.ignore_visuals == s.ignore_visuals,
        t.block_stylesheets == s.block_stylesheets,
        t.block_javascript == s.block_javascript,
        t.block_analytics == s.block_analytics,
        t.only_html == s.only_html,
        t.xml_document == s.xml_document,
        t.intercept_manager == s.intercept_manager,
        t.whitelist_matcher == s.whitelist_matcher,
        t.blacklist_matcher == s.blacklist_matcher,
        t.blacklist_strict == s.blacklist_strict,
        t.allowed_3rd_party == s.allowed_3rd_party,
        t.block_ads == s.block_ads,
    ensures
        blocked(s, event, paused, v) == blocked(t, event, paused, v),
{
}

/// A new manager loads all images, media, fonts, style sheets and documents that nothing
/// of the owner names.
pub proof fn a_new_manager_ignores_nothing(
    ignore_httpserrors: bool,
    timeout: Duration,
    site: NetworkInterceptManager,
    event: EventRequestPausedView,
    paused: PausedRequestView,
    v: Verdicts,
)
    requires
        forall|url: Seq<char>, visuals: bool, xhr: bool| !site_blocks(site, url, visuals, xhr),
        !paused.skip_networking,
        !v.ad,
        !v.data_resource,
        event.resource_type != ResourceType::Script,
    ensures
        !blocked(fresh_state(ignore_httpserrors, timeout, site), event, paused, v),
{
}

// ---------------------------------------------------------------------------
// The first step

/// A request that the user intercepts too is left alone; while all is blocked every
/// other one is failed; and any other one is open.
pub proof fn the_first_step_decides_by_two_switches(
    s: NetworkState,
    event: EventRequestPausedView,
    domain: Seq<char>,
)
    ensures
        s.user_request_interception_enabled.on && s.protocol_request_interception_enabled.on ==> {
            &&& paused_state(s, event, domain) == s
            &&& paused_open(s, event) is None
        },
        !(s.user_request_interception_enabled.on && s.protocol_request_interception_enabled.on)
            && s.block_all.on ==> {
            &&& paused_state(s, event, domain) == (NetworkState {
                queued_events: s.queued_events.push(
                    NetworkEventView::SendCdpRequest(
                        CdpCommandView::FailRequest {
                            request_id: event.request_id,
                            error_reason: ErrorReason::BlockedByClient,
                        },
                    ),
                ),
                ..s
            })
            &&& paused_open(s, event) is None
        },
        !(s.user_request_interception_enabled.on && s.protocol_request_interception_enabled.on)
            && !s.block_all.on ==> {
            &&& paused_open(s, event) matches Some(open) && open.current_url == effective_url(s, event)
                && open.had_replacer == is_masked(s, event)
            &&& paused_state(s, event, domain) == document_tracked(
                paused_noted(s, event),
                event,
                domain,
            )
        },
{
}

/// Reports and pings are skipped, prefetching while that is blocked, and everything once
/// the document has been reloaded three times. Nothing else is skipped.
pub proof fn what_is_skipped_at_once(s: NetworkState, event: EventRequestPausedView)
    requires
        paused_open(s, event) is Some,
    ensures
        (paused_open(s, event)->0).skip_networking <==> {
            ||| event.resource_type == ResourceType::CspViolationReport
            ||| event.resource_type == ResourceType::Ping
            ||| event.resource_type == ResourceType::Prefetch && s.block_prefetch.on
            ||| s.document_reload_tracker >= 3
        },
{
}

/// The URL of a request that is no document, that was not redirected, that is the first
/// one, or that asks for the same URL again, is decided on and sent as it is.
pub proof fn an_ordinary_url_is_kept(s: NetworkState, event: EventRequestPausedView)
    requires
        paused_open(s, event) is Some,
        event.resource_type != ResourceType::Document || event.redirected_request_id is None
            || s.document_target_url.len() == 0 || s.document_target_url == event.url,
    ensures
        (paused_open(s, event)->0).current_url == event.url,
        !(paused_open(s, event)->0).had_replacer,
{
}

/// What replaces a URL is never that URL by the browser's own account: a URL that is not
/// replaced is the one that the browser has, and only a redirected document's is.
pub proof fn only_redirected_documents_are_replaced(
    s: NetworkState,
    event: EventRequestPausedView,
)
    requires
        paused_open(s, event) is Some,
    ensures
        ({
            let paused = paused_open(s, event)->0;
            &&& !paused.had_replacer ==> paused.current_url == event.url
            &&& paused.had_replacer ==> event.resource_type == ResourceType::Document
                && event.redirected_request_id is Some && event.url != s.document_target_url
        }),
{
}

/// A document is the target from here on; asking for the target again counts as a
/// reload; a first document whose URL ends in `.xml` is noted as XML, for good. Nothing
/// else of the manager changes by following it.
pub proof fn documents_are_followed(
    s: NetworkState,
    event: EventRequestPausedView,
    domain: Seq<char>,
)
    requires
        event.resource_type == ResourceType::Document,
    ensures
        ({
            let after = document_tracked(s, event, domain);
            &&& after.document_target_url == event.url
            &&& after.document_target_domain == domain
            &&& event.url == s.document_target_url && s.document_reload_tracker < 255
                ==> after.document_reload_tracker == s.document_reload_tracker + 1
            &&& event.url != s.document_target_url ==> after.document_reload_tracker
                == s.document_reload_tracker
            &&& after.xml_document.on <==> s.xml_document.on || s.document_target_url.len() == 0
                && closes_with(event.url, ".xml"@)
            &&& after == (NetworkState {
                document_target_url: after.document_target_url,
                document_target_domain: after.document_target_domain,
                document_reload_tracker: after.document_reload_tracker,
                xml_document: after.xml_document,
                ..s
            })
        }),
{
    an_end_is_preceded(event.url, ".xml"@);
}

/// What is no document leaves the target as it is.
pub proof fn only_documents_are_followed(
    s: NetworkState,
    event: EventRequestPausedView,
    domain: Seq<char>,
)
    requires
        event.resource_type != ResourceType::Document,
    ensures
        document_tracked(s, event, domain) == s,
{
}

// ---------------------------------------------------------------------------
// The answers

/// A blocked request gets an empty response of status 200 under its own number, and
/// nothing else happens. The cache is not asked.
pub proof fn a_blocked_request_gets_an_empty_response(
    s: NetworkState,
    event: EventRequestPausedView,
    paused: PausedRequestView,
    v: Verdicts,
)
    requires
        blocked(s, event, paused, v),
    ensures
        settled_state(s, event, paused, v) == (NetworkState {
            queued_events: s.queued_events.push(
                NetworkEventView::SendCdpRequest(
                    CdpCommandView::FulfillRequest {
                        request_id: event.request_id,
                        response_code: 200,
                        response_headers: None,
                        body: None,
                    },
                ),
            ),
            ..s
        }),
        settled_lookup(s, event, paused, v) is None,
{
}

/// A request that is not blocked is continued under its own number, as it is or under
/// the URL that replaces its own, unless responses are cached.
pub proof fn other_requests_are_continued(
    s: NetworkState,
    event: EventRequestPausedView,
    paused: PausedRequestView,
    v: Verdicts,
)
    requires
        !blocked(s, event, paused, v),
        s.cache_policy is None || s.cache_site_key is None,
    ensures
        ({
            let after = settled_state(s, event, paused, v);
            &&& after == (NetworkState { queued_events: after.queued_events, ..s })
            &&& after.queued_events.len() == s.queued_events.len() + 1
            &&& after.queued_events.drop_last() == s.queued_events
            &&& after.queued_events.last() matches NetworkEventView::SendCdpRequest(
                CdpCommandView::ContinueRequest { request_id, url, intercept_response },
            ) && {
                &&& request_id == event.request_id
                &&& url == if paused.had_replacer {
                    Some(paused.current_url)
                } else {
                    None
                }
                &&& intercept_response == if paused.had_replacer {
                    Some(false)
                } else {
                    None
                }
            }
        }),
        settled_lookup(s, event, paused, v) is None,
{
    let after = settled_state(s, event, paused, v);
    assert(after.queued_events.drop_last() =~= s.queued_events);
}

/// While responses are cached, a request that is not blocked is looked up first: under
/// the site, by its method, a colon, and its URL. Nothing is sent before that.
pub proof fn the_cache_is_asked_by_method_and_url(
    s: NetworkState,
    event: EventRequestPausedView,
    paused: PausedRequestView,
    v: Verdicts,
)
    requires
        !blocked(s, event, paused, v),
        s.cache_policy is Some,
        s.cache_site_key is Some,
    ensures
        settled_state(s, event, paused, v) == s,
        settled_lookup(s, event, paused, v) matches Some(lookup) && {
            &&& lookup.site_key == s.cache_site_key->0
            &&& made_of(lookup.key, event.method, seq![':'], paused.current_url)
        },
{
}

/// A cached response that may be used is handed out as it is: its status, its headers in
/// their order, and its body. Without one the request is continued.
pub proof fn a_cached_response_is_handed_out_as_it_is(
    id: Seq<char>,
    paused: PausedRequestView,
    cached: Option<CachedResponse>,
)
    ensures
        match cached {
            Some(c) if c.allowed => {
                &&& cache_answer(id, paused, cached) matches CdpCommandView::FulfillRequest {
                    request_id,
                    response_code,
                    response_headers,
                    body,
                }
                &&& request_id == id
                &&& response_code == c.status
                &&& response_headers matches Some(headers) && headers.len() == c.headers@.len()
                    && forall|i: int|
                    0 <= i < headers.len() ==> (#[trigger] headers[i]).0 == c.headers@[i].0@
                        && headers[i].1 == c.headers@[i].1@
                &&& body == Some(crate::base64_text::base64_of(c.body@))
            },
            _ => {
                &&& cache_answer(id, paused, cached) matches CdpCommandView::ContinueRequest {
                    request_id,
                    url,
                    intercept_response,
                }
                &&& request_id == id
                &&& paused.had_replacer ==> url == Some(paused.current_url)
                &&& !paused.had_replacer ==> url is None
            },
        },
{
}

} // verus!
