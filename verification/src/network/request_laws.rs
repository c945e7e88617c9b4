//! What becomes of requests: how they are announced, redirected and ended, what they
//! cost, and how challenges are answered.
use vstd::prelude::*;

use crate::command::{
    AuthChallengeResponseResponse, CdpCommandView, NetworkEventView, RequestStage,
};
use crate::network::decision::{
    broken_scheme, effective_url, is_masked, other_scheme, redirect_mask, unslashed_end,
};
use crate::network::manager::fresh_state;
use crate::network::state::{
    announced, cache_told, chain_of, challenged, charged, declared_length, first_commands,
    hop_response, interception_updated, loading_failed, loading_finished, paused_noted, queued,
    request_sent, responded, served_from_cache, with_blacklist, with_cache, with_credentials,
    with_document, with_headers, with_offline, with_service_workers, with_user_interception,
    with_whitelist, without_document, NetworkState,
};
use crate::protocol::{
    header_text, CredentialsView, EventRequestPausedView, EventRequestWillBeSentView, EventResponseReceivedView,
    HeaderValueView, HttpRequestView, ResourceType, ResponseView,
};
use crate::text::{
    a_beginning_is_followed, a_middle_is_taken_out, a_number_has_nothing_but_digits, begins_with, digits_value, is_blank,
    is_u64_text, lemma_trims_once, numbers_are_rows_of_digits, occurs_at, opens_with,
    replaced_once, replacing_exchanges_the_first_occurrence, trims_to, what_does_not_occur_is_not_taken_out, white_space_is_not_written,
    white_space_is_trimmed_at_both_ends,
};
use spider_network_blocker::intercept_manager::NetworkInterceptManager;
use std::time::Duration;

verus! {

// ---------------------------------------------------------------------------
// The byte budget

/// A header that is not there, and one that is no text, have no text.
pub proof fn the_text_of_a_header(
    headers: Map<Seq<char>, HeaderValueView>,
    name: Seq<char>,
    text: Seq<char>,
)
    ensures
        header_text(headers, name) == Some(text) <==> headers.contains_pair(
            name,
            HeaderValueView::Text(text),
        ),
        !headers.dom().contains(name) ==> header_text(headers, name) is None,
{
}

/// Without a header on its length, a response declares none.
pub proof fn no_header_declares_no_length(response: ResponseView)
    requires
        !response.headers.dom().contains("content-length"@),
    ensures
        declared_length(response) is None,
{
}

/// The length that a response declares is the number in its header, with white space
/// around it or not.
pub proof fn the_header_declares_the_length(
    response: ResponseView,
    before: Seq<char>,
    digits: Seq<char>,
    after: Seq<char>,
)
    requires
        response.headers.contains_pair(
            "content-length"@,
            HeaderValueView::Text(before + digits + after),
        ),
        forall|i: int| 0 <= i < before.len() ==> is_blank(#[trigger] before[i]),
        forall|i: int| 0 <= i < after.len() ==> is_blank(#[trigger] after[i]),
        digits.len() > 0,
        forall|i: int| 0 <= i < digits.len() ==> '0' <= #[trigger] digits[i] <= '9',
        digits_value(digits) <= u64::MAX,
    ensures
        declared_length(response) == Some(digits_value(digits)),
{
    let text = before + digits + after;
    assert('0' <= digits[0] <= '9');
    assert('0' <= digits[digits.len() - 1] <= '9');
    white_space_is_not_written(digits[0]);
    white_space_is_not_written(digits.last());
    white_space_is_trimmed_at_both_ends(before, digits, after);
    numbers_are_rows_of_digits(digits);
    assert(trims_to(text, digits) && is_u64_text(digits));
    assert forall|core: Seq<char>| #[trigger] trims_to(text, core) implies core == digits by {
        lemma_trims_once(text, core, digits);
    }
}

/// A length is declared by the header alone: by a text of digits and of white space
/// around them.
pub proof fn nothing_else_declares_a_length(response: ResponseView)
    requires
        declared_length(response) is Some,
    ensures
        exists|text: Seq<char>, digits: Seq<char>|
            {
                &&& response.headers.contains_pair("content-length"@, HeaderValueView::Text(text))
                &&& #[trigger] trims_to(text, digits)
                &&& digits.len() > 0
                &&& forall|i: int| 0 < i < digits.len() ==> '0' <= #[trigger] digits[i] <= '9'
                &&& '0' <= digits[0] <= '9' || digits[0] == '+' && digits.len() > 1
            },
{
    let text = header_text(response.headers, "content-length"@)->0;
    let core = choose|core: Seq<char>| trims_to(text, core) && is_u64_text(core);
    a_number_has_nothing_but_digits(core);
}

/// A response costs what was received of it, whatever its status and whatever it is a
/// response to: where it declares no length, and where the declared length fits in the
/// rest, the budget is less by exactly that, and not below nothing.
pub proof fn a_response_costs_what_was_received(
    s: NetworkState,
    event: EventResponseReceivedView,
    budget: u64,
)
    requires
        s.max_bytes_allowed == Some(budget),
        declared_length(event.response) matches Some(length) ==> length
            + event.response.encoded_data_length <= budget,
    ensures
        responded(s, event).max_bytes_allowed == Some(
            if budget >= event.response.encoded_data_length {
                (budget - event.response.encoded_data_length) as u64
            } else {
                0
            },
        ),
{
}

/// A response that declares more than is left after it ends the budget at once.
pub proof fn a_response_that_does_not_fit_ends_the_budget(
    s: NetworkState,
    event: EventResponseReceivedView,
    budget: u64,
    length: nat,
)
    requires
        s.max_bytes_allowed == Some(budget),
        declared_length(event.response) == Some(length),
        length + event.response.encoded_data_length > budget,
    ensures
        responded(s, event).max_bytes_allowed == Some(0u64),
        responded(s, event).block_all.on,
{
}

/// What a response took off the budget is reported, right behind what was queued, unless
/// that is nothing; the response is reported next. All is blocked once nothing is left,
/// and a budget that is not used up blocks nothing.
pub proof fn what_a_response_costs_is_reported(s: NetworkState, event: EventResponseReceivedView)
    ensures
        ({
            let after = responded(s, event);
            let before = s.queued_events.len() as int;
            let told = after.queued_events;
            match (s.max_bytes_allowed, after.max_bytes_allowed) {
                (Some(budget), Some(rest)) => {
                    &&& rest <= budget
                    &&& rest < budget ==> told[before] == NetworkEventView::BytesConsumed(
                        (budget - rest) as nat,
                    ) && told[before + 1] == NetworkEventView::Response(event)
                    &&& rest == budget ==> told[before] == NetworkEventView::Response(event)
                    &&& after.block_all.on <==> s.block_all.on || rest == 0
                },
                (None, None) => {
                    &&& told[before] == NetworkEventView::Response(event)
                    &&& after.block_all == s.block_all
                },
                _ => false,
            }
        }),
        responded(s, event).queued_events.take(s.queued_events.len() as int) == s.queued_events,
{
    let after = responded(s, event);
    assert(after.queued_events.take(s.queued_events.len() as int) =~= s.queued_events);
}

/// A response ends the request that it answers, and no other, and is handed out with it.
/// All else that is known of the request stays. It has failed if nothing is left of a
/// budget, and is finished otherwise.
pub proof fn a_response_is_handed_out_with_its_request(
    s: NetworkState,
    event: EventResponseReceivedView,
)
    ensures
        ({
            let after = responded(s, event);
            let id = event.request_id;
            &&& forall|other: Seq<char>|
                other != id ==> (#[trigger] after.requests.dom().contains(other)
                    <==> s.requests.dom().contains(other))
            &&& forall|other: Seq<char>|
                other != id && s.requests.dom().contains(other)
                    ==> #[trigger] after.requests[other] == s.requests[other]
            &&& !after.requests.dom().contains(id)
            &&& s.requests.dom().contains(id) ==> {
                let request = HttpRequestView { response: Some(event.response), ..s.requests[id] };
                after.queued_events.last() == if after.max_bytes_allowed == Some(0u64) {
                    NetworkEventView::RequestFailed(request)
                } else {
                    NetworkEventView::RequestFinished(request)
                }
            }
            &&& !s.requests.dom().contains(id) ==> after.queued_events.last()
                == NetworkEventView::Response(event)
        }),
{
}

/// A response changes nothing but the queue, the budget, the block and the table of
/// requests.
pub proof fn a_response_leaves_the_settings(s: NetworkState, event: EventResponseReceivedView)
    ensures
        ({
            let after = responded(s, event);
            after == (NetworkState {
                queued_events: after.queued_events,
                max_bytes_allowed: after.max_bytes_allowed,
                block_all: after.block_all,
                requests: after.requests,
                ..s
            })
        }),
{
    let paid = charged(s, event.response);
    assert(paid == (NetworkState {
        queued_events: paid.queued_events,
        max_bytes_allowed: paid.max_bytes_allowed,
        block_all: paid.block_all,
        ..s
    }));
    let told = queued(paid, NetworkEventView::Response(event));
    let after = responded(s, event);
    assert(after == (NetworkState {
        queued_events: after.queued_events,
        requests: after.requests,
        ..told
    }));
}

// ---------------------------------------------------------------------------
// Challenges

/// A challenge is answered under its own number, with the user name and the password of
/// the credentials, each in its place. The first challenge of a pause takes them; one
/// that comes back is given up.
pub proof fn a_challenge_gets_name_and_password(
    s: NetworkState,
    id: Seq<char>,
    username: Seq<char>,
    password: Seq<char>,
)
    requires
        s.credentials matches Some(c) && c.username == username && c.password == password,
    ensures
        ({
            let after = challenged(s, id);
            &&& after.queued_events.len() == s.queued_events.len() + 1
            &&& after.queued_events.drop_last() == s.queued_events
            &&& after.queued_events.last() matches NetworkEventView::SendCdpRequest(
                CdpCommandView::ContinueWithAuth {
                    request_id,
                    response,
                    username: name,
                    password: word,
                },
            ) && {
                &&& request_id == id
                &&& name == Some(username)
                &&& word == Some(password)
                &&& response == if s.attempted_authentications.contains(id) {
                    AuthChallengeResponseResponse::CancelAuth
                } else {
                    AuthChallengeResponseResponse::ProvideCredentials
                }
            }
            &&& after.attempted_authentications == s.attempted_authentications.insert(id)
            &&& after.credentials == s.credentials
        }),
{
    let after = challenged(s, id);
    assert(after.queued_events.drop_last() =~= s.queued_events);
}

/// Without credentials a challenge is left to the browser, and neither a name nor a
/// password is given.
pub proof fn without_credentials_the_browser_answers(s: NetworkState, id: Seq<char>)
    requires
        s.credentials is None,
    ensures
        ({
            let after = challenged(s, id);
            &&& after.queued_events.last() matches NetworkEventView::SendCdpRequest(
                CdpCommandView::ContinueWithAuth { request_id, response, username, password },
            ) && {
                &&& request_id == id
                &&& username is None
                &&& password is None
                &&& !s.attempted_authentications.contains(id) ==> response
                    == AuthChallengeResponseResponse::Default
            }
            &&& after == (NetworkState { queued_events: after.queued_events, ..s })
        }),
{
}

// ---------------------------------------------------------------------------
// Interception

/// Interception is turned on by a command for every URL and for challenges, before
/// requests are sent, and off by its counterpart. Nothing is sent where it is already as
/// it should be.
pub proof fn interception_is_turned_on_for_all(s: NetworkState)
    ensures
        ({
            let after = interception_updated(s);
            let needed = s.user_request_interception_enabled.on || s.credentials is Some;
            let was = s.protocol_request_interception_enabled.on;
            &&& after.protocol_request_interception_enabled.on == needed
            &&& needed == was ==> after == s
            &&& needed && !was ==> after.queued_events == s.queued_events.push(
                NetworkEventView::SendCdpRequest(
                    CdpCommandView::FetchEnable {
                        handle_auth_requests: true,
                        url_pattern: "*"@,
                        request_stage: RequestStage::Request,
                    },
                ),
            )
            &&& !needed && was ==> after.queued_events == s.queued_events.push(
                NetworkEventView::SendCdpRequest(CdpCommandView::FetchDisable),
            )
            &&& after == (NetworkState {
                queued_events: after.queued_events,
                protocol_request_interception_enabled:
                    after.protocol_request_interception_enabled,
                ..s
            })
        }),
{
}

// ---------------------------------------------------------------------------
// Settings

/// Headers go with each request as they were given, but for those that authorise at a
/// proxy, in either spelling. The browser is told of them, unless none is left.
pub proof fn headers_are_kept_as_they_were_given(
    s: NetworkState,
    headers: Map<Seq<char>, HeaderValueView>,
    name: Seq<char>,
    value: HeaderValueView,
)
    ensures
        ({
            let after = with_headers(s, headers);
            let kept = after.extra_headers;
            &&& kept.contains_pair(name, value) <==> headers.contains_pair(name, value) && name
                != "proxy-authorization"@ && name != "Proxy-Authorization"@
            &&& kept.dom().contains(name) ==> after.queued_events == s.queued_events.push(
                NetworkEventView::SendCdpRequest(
                    CdpCommandView::SetExtraHttpHeaders { headers: kept },
                ),
            )
            &&& (forall|other: Seq<char>| !#[trigger] kept.dom().contains(other))
                ==> after.queued_events == s.queued_events
            &&& after == (NetworkState {
                extra_headers: after.extra_headers,
                queued_events: after.queued_events,
                ..s
            })
        }),
{
    let kept = with_headers(s, headers).extra_headers;
    let none = Map::<Seq<char>, HeaderValueView>::empty();
    if kept.dom().contains(name) {
        assert(!none.dom().contains(name));
    }
    if forall|other: Seq<char>| !#[trigger] kept.dom().contains(other) {
        assert(kept =~= none);
    }
}

/// Credentials are those that were given, and with them challenges are intercepted from
/// then on.
pub proof fn credentials_are_kept_as_they_were_given(s: NetworkState, credentials: CredentialsView)
    ensures
        ({
            let after = with_credentials(s, credentials);
            &&& after.credentials matches Some(c) && c.username == credentials.username
                && c.password == credentials.password
            &&& after.protocol_request_interception_enabled.on
            &&& s.protocol_request_interception_enabled.on ==> after.queued_events
                == s.queued_events
            &&& !s.protocol_request_interception_enabled.on ==> after.queued_events
                == s.queued_events.push(
                NetworkEventView::SendCdpRequest(
                    CdpCommandView::FetchEnable {
                        handle_auth_requests: true,
                        url_pattern: "*"@,
                        request_stage: RequestStage::Request,
                    },
                ),
            )
            &&& after.user_request_interception_enabled == s.user_request_interception_enabled
        }),
{
}

/// The user's wish to intercept requests is noted, and interception is turned on with it,
/// and off with it unless there are credentials.
pub proof fn the_user_decides_on_interception(s: NetworkState, enabled: bool)
    ensures
        ({
            let after = with_user_interception(s, enabled);
            &&& after.user_request_interception_enabled.on == enabled
            &&& enabled ==> after.protocol_request_interception_enabled.on
            &&& !enabled ==> (after.protocol_request_interception_enabled.on <==> s.credentials
                is Some)
            &&& after.credentials == s.credentials
        }),
{
}

/// The browser's cache is on or off as the user says, and the browser is told exactly of
/// changes.
pub proof fn the_cache_is_on_or_off_as_the_user_says(s: NetworkState, enabled: bool)
    ensures
        ({
            let after = with_cache(s, enabled);
            &&& after.user_cache_disabled.on == !enabled
            &&& s.user_cache_disabled.on == !enabled ==> after == s
            &&& s.user_cache_disabled.on == enabled ==> after.queued_events
                == s.queued_events.push(
                NetworkEventView::SendCdpRequest(
                    CdpCommandView::SetCacheDisabled { cache_disabled: !enabled },
                ),
            )
        }),
        cache_told(s).queued_events == s.queued_events.push(
            NetworkEventView::SendCdpRequest(
                CdpCommandView::SetCacheDisabled { cache_disabled: s.user_cache_disabled.on },
            ),
        ),
{
}

/// The network is offline as the user says, without any other limit, and the browser is
/// told exactly of changes. Going offline and online again is told twice.
pub proof fn the_network_is_offline_as_the_user_says(s: NetworkState, value: bool)
    ensures
        ({
            let after = with_offline(s, value);
            &&& after.offline.on == value
            &&& s.offline.on == value ==> after == s
            &&& s.offline.on != value ==> {
                &&& after.queued_events.len() == s.queued_events.len() + 1
                &&& after.queued_events.last() matches NetworkEventView::SendCdpRequest(
                    CdpCommandView::EmulateNetworkConditionsByRule {
                        offline,
                        url_pattern,
                        latency,
                        download_throughput,
                        upload_throughput,
                    },
                ) && offline == value && url_pattern.len() == 0 && latency == 0
                    && download_throughput == -1 && upload_throughput == -1
            }
        }),
{
    reveal_strlit("");
}

/// Service workers are bypassed as the user says, the document to follow is the one that
/// is given, and a session begins with the events of the network, and with errors of
/// certificates ignored exactly if that is set.
pub proof fn other_settings_are_as_the_user_says(
    s: NetworkState,
    bypass: bool,
    url: Seq<char>,
    domain: Seq<char>,
)
    ensures
        with_service_workers(s, bypass).queued_events == s.queued_events.push(
            NetworkEventView::SendCdpRequest(CdpCommandView::SetBypassServiceWorker { bypass }),
        ),
        with_document(s, url, domain).document_target_url == url,
        with_document(s, url, domain).document_target_domain == domain,
        with_document(s, url, domain).document_reload_tracker == s.document_reload_tracker,
        without_document(s).document_target_url.len() == 0,
        without_document(s).document_target_domain.len() == 0,
        without_document(s).document_reload_tracker == 0,
        first_commands(s)[0] == CdpCommandView::NetworkEnable,
        s.ignore_httpserrors.on ==> first_commands(s).len() == 2 && first_commands(s)[1] == (
        CdpCommandView::SetIgnoreCertificateErrors { ignore: true }),
        !s.ignore_httpserrors.on ==> first_commands(s).len() == 1,
{
}

/// A list holds the patterns that it was set to, and is compiled from them where that is
/// possible. Nothing else of the manager changes.
pub proof fn a_list_is_set_and_nothing_else(s: NetworkState, patterns: Seq<Seq<char>>)
    ensures
        ({
            let black = with_blacklist(s, patterns);
            let white = with_whitelist(s, patterns);
            &&& black.blacklist_patterns == patterns && white.whitelist_patterns == patterns
            &&& black.blacklist_matcher matches Some(p) ==> p == patterns && p.len() > 0
            &&& white.whitelist_matcher matches Some(p) ==> p == patterns && p.len() > 0
            &&& black.blacklist_matcher is Some <==> white.whitelist_matcher is Some
            &&& patterns.len() > 0 && crate::matcher::can_build(patterns)
                ==> black.blacklist_matcher == Some(patterns)
            &&& black == (NetworkState {
                blacklist_patterns: black.blacklist_patterns,
                blacklist_matcher: black.blacklist_matcher,
                ..s
            })
            &&& white == (NetworkState {
                whitelist_patterns: white.whitelist_patterns,
                whitelist_matcher: white.whitelist_matcher,
                ..s
            })
        }),
{
}

/// A new manager knows nothing and blocks nothing but analytics and prefetching. Its
/// black list is strict, and it has no budget, no credentials and no cache.
pub proof fn a_new_manager_is_empty(
    ignore_httpserrors: bool,
    timeout: Duration,
    site: NetworkInterceptManager,
)
    ensures
        ({
            let s = fresh_state(ignore_httpserrors, timeout, site);
            &&& s.ignore_httpserrors.on == ignore_httpserrors
            &&& s.request_timeout == timeout
            &&& s.queued_events.len() == 0
            &&& forall|id: Seq<char>| !#[trigger] s.requests.dom().contains(id)
            &&& forall|id: Seq<char>| !#[trigger] s.requests_will_be_sent.dom().contains(id)
            &&& forall|id: Seq<char>| !#[trigger]
                s.request_id_to_interception_id.dom().contains(id)
            &&& forall|id: Seq<char>| !#[trigger] s.attempted_authentications.contains(id)
            &&& forall|name: Seq<char>| !#[trigger] s.extra_headers.dom().contains(name)
            &&& s.block_analytics.on && s.block_prefetch.on && s.blacklist_strict.on
            &&& !s.block_all.on && !s.ignore_visuals.on && !s.block_stylesheets.on
            &&& !s.block_javascript.on && !s.only_html.on && !s.xml_document.on
            &&& !s.block_ads.on && !s.offline.on && !s.user_cache_disabled.on
            &&& !s.user_request_interception_enabled.on
            &&& !s.protocol_request_interception_enabled.on
            &&& s.max_bytes_allowed is None && s.credentials is None
            &&& s.cache_policy is None && s.cache_site_key is None
            &&& s.whitelist_matcher is None && s.blacklist_matcher is None
            &&& s.whitelist_patterns.len() == 0 && s.blacklist_patterns.len() == 0
            &&& s.document_target_url.len() == 0 && s.document_target_domain.len() == 0
            &&& s.document_reload_tracker == 0
        }),
{
}

// ---------------------------------------------------------------------------
// The life of a request

/// A request that is sent is known under its number, in its frame and with its pause,
/// and nothing has become of it yet. The owner hears of it last. Other requests stay as
/// they are.
pub proof fn a_request_is_known_once_it_is_sent(
    s: NetworkState,
    event: EventRequestWillBeSentView,
    interception_id: Option<Seq<char>>,
)
    ensures
        ({
            let after = request_sent(s, event, interception_id);
            let id = event.request_id;
            &&& after.requests.dom().contains(id)
            &&& after.requests[id].request_id == id
            &&& after.requests[id].frame == event.frame_id
            &&& after.requests[id].interception_id == interception_id
            &&& after.requests[id].allow_interception == s.user_request_interception_enabled.on
            &&& !after.requests[id].from_memory_cache
            &&& after.requests[id].failure_text is None
            &&& after.requests[id].response is None
            &&& forall|other: Seq<char>|
                other != id ==> (#[trigger] after.requests.dom().contains(other)
                    <==> s.requests.dom().contains(other))
            &&& forall|other: Seq<char>|
                other != id && s.requests.dom().contains(other)
                    ==> #[trigger] after.requests[other] == s.requests[other]
            &&& after.queued_events == s.queued_events.push(NetworkEventView::Request(event))
            &&& after == (NetworkState {
                queued_events: after.queued_events,
                requests: after.requests,
                attempted_authentications: after.attempted_authentications,
                ..s
            })
        }),
{
}

/// A request that follows a redirect has the requests before it in its chain, the last
/// one with the response that redirected it; any other one has an empty chain.
pub proof fn a_redirect_goes_to_the_chain(
    s: NetworkState,
    event: EventRequestWillBeSentView,
    interception_id: Option<Seq<char>>,
)
    ensures
        ({
            let chain = request_sent(
                s,
                event,
                interception_id,
            ).requests[event.request_id].redirect_chain;
            match event.redirect_response {
                Some(response) if s.requests.dom().contains(event.request_id) => {
                    let before = s.requests[event.request_id];
                    &&& chain.len() == before.redirect_chain.len() + 1
                    &&& chain.drop_last() == before.redirect_chain
                    &&& chain.last().redirect_chain.len() == 0
                    &&& chain.last().request_id == before.request_id
                    &&& chain.last().frame == before.frame
                    &&& chain.last().interception_id == before.interception_id
                    &&& chain.last().allow_interception == before.allow_interception
                    &&& chain.last().from_memory_cache == before.from_memory_cache
                    &&& chain.last().failure_text == before.failure_text
                    &&& chain.last().response matches Some(kept) && kept.status == response.status
                        && kept.url == response.url && kept.encoded_data_length
                        == response.encoded_data_length
                },
                _ => chain.len() == 0,
            }
        }),
{
    let chain = chain_of(s, event);
    if s.requests.dom().contains(event.request_id) {
        assert(event.redirect_response is Some ==> chain.drop_last()
            =~= s.requests[event.request_id].redirect_chain);
    }
}

/// The response of a redirect is kept as it came, but for where it leads.
pub proof fn only_the_location_of_a_redirect_is_changed(response: ResponseView, name: Seq<char>)
    requires
        name != "Location"@,
    ensures
        ({
            let kept = hop_response(response);
            &&& kept.url == response.url
            &&& kept.status == response.status
            &&& kept.encoded_data_length == response.encoded_data_length
            &&& kept.headers.dom().contains(name) <==> response.headers.dom().contains(name)
            &&& response.headers.dom().contains(name) ==> kept.headers[name]
                == response.headers[name]
            &&& kept.headers.dom().contains("Location"@) <==> response.headers.dom().contains(
                "Location"@,
            )
        }),
{
}

/// Where a redirect leads to a URL that holds its own, what is kept is what goes before
/// that and what follows it, for each of the statuses that redirect.
pub proof fn a_redirect_keeps_what_is_not_its_own_url(
    response: ResponseView,
    before: Seq<char>,
    rest: Seq<char>,
)
    requires
        response.status == 301 || response.status == 302 || response.status == 303
            || response.status == 307 || response.status == 308,
        response.url.len() > 0,
        before.len() + rest.len() > 0,
        forall|j: int|
            0 <= j < before.len() ==> !occurs_at(before + response.url + rest, response.url, j),
        forall|j: int| !occurs_at(rest, response.url, j),
        response.headers.contains_pair(
            "Location"@,
            HeaderValueView::Text(before + response.url + rest),
        ),
    ensures
        hop_response(response).headers["Location"@] == HeaderValueView::Text(before + rest),
{
    a_middle_is_taken_out(before, response.url, rest);
    what_does_not_occur_is_not_taken_out(rest, response.url);
    assert((before + response.url + rest).len() > response.url.len());
}

/// A redirect to itself, a location that does not name the URL, and a response that does
/// not redirect, are kept as they are.
pub proof fn other_locations_are_kept(response: ResponseView, location: Seq<char>)
    requires
        response.headers.contains_pair("Location"@, HeaderValueView::Text(location)),
        location == response.url || (forall|j: int| !occurs_at(location, response.url, j))
            || !(response.status == 301 || response.status == 302 || response.status == 303
            || response.status == 307 || response.status == 308),
    ensures
        hop_response(response).headers["Location"@] == HeaderValueView::Text(location),
{
    if forall|j: int| !occurs_at(location, response.url, j) {
        what_does_not_occur_is_not_taken_out(location, response.url);
    }
}

/// A redirect forgets that credentials were given for the pause of the request before
/// it, so that the next one may get them. Any other request forgets nothing.
pub proof fn a_redirect_may_get_credentials_again(
    s: NetworkState,
    event: EventRequestWillBeSentView,
    interception_id: Option<Seq<char>>,
    id: Seq<char>,
)
    ensures
        ({
            let after = request_sent(s, event, interception_id).attempted_authentications;
            let redirected = event.redirect_response is Some && s.requests.dom().contains(
                event.request_id,
            ) && s.requests[event.request_id].interception_id == Some(id);
            after.contains(id) <==> s.attempted_authentications.contains(id) && !redirected
        }),
{
}

/// Without interception, and for data URLs, a request is known as soon as it is
/// announced, without a pause.
pub proof fn an_announcement_without_interception_is_enough(
    s: NetworkState,
    event: EventRequestWillBeSentView,
)
    requires
        !s.protocol_request_interception_enabled.on || opens_with(event.url, "data:"@),
    ensures
        announced(s, event) == request_sent(s, event, None),
{
    a_beginning_is_followed(event.url, "data:"@);
}

/// While interception is on, a request is known once both its announcement and its pause
/// have come, and goes under that pause; until then what has come is kept.
pub proof fn a_pause_waits_for_its_announcement(
    s: NetworkState,
    event: EventRequestWillBeSentView,
)
    requires
        s.protocol_request_interception_enabled.on,
        !opens_with(event.url, "data:"@),
    ensures
        ({
            let after = announced(s, event);
            let id = event.request_id;
            if s.request_id_to_interception_id.dom().contains(id) {
                &&& after.requests.dom().contains(id)
                &&& after.requests[id].interception_id == Some(
                    s.request_id_to_interception_id[id],
                )
                &&& !after.request_id_to_interception_id.dom().contains(id)
                &&& after.queued_events == s.queued_events.push(NetworkEventView::Request(event))
            } else {
                &&& after.requests == s.requests
                &&& after.queued_events == s.queued_events
                &&& after.requests_will_be_sent == s.requests_will_be_sent.insert(id, event)
            }
        }),
{
    a_beginning_is_followed(event.url, "data:"@);
}

/// A pause joins the announcement of its request where that has come, and is kept for it
/// where not. A pause of no known request changes nothing.
pub proof fn an_announcement_waits_for_its_pause(s: NetworkState, event: EventRequestPausedView)
    ensures
        ({
            let after = paused_noted(s, event);
            match event.network_id {
                Some(id) if s.requests_will_be_sent.dom().contains(id) => {
                    let sent = s.requests_will_be_sent[id];
                    &&& after.requests.dom().contains(sent.request_id)
                    &&& after.requests[sent.request_id].interception_id == Some(event.request_id)
                    &&& !after.requests_will_be_sent.dom().contains(id)
                    &&& after.queued_events == s.queued_events.push(
                        NetworkEventView::Request(sent),
                    )
                },
                Some(id) => {
                    &&& after.requests == s.requests
                    &&& after.queued_events == s.queued_events
                    &&& after.request_id_to_interception_id
                        == s.request_id_to_interception_id.insert(id, event.request_id)
                },
                None => after == s,
            }
        }),
{
}

/// A response from the browser's cache is noted with its request, and nothing else
/// changes.
pub proof fn the_cache_of_the_browser_is_noted(s: NetworkState, id: Seq<char>, other: Seq<char>)
    ensures
        ({
            let after = served_from_cache(s, id);
            &&& after == (NetworkState { requests: after.requests, ..s })
            &&& after.requests.dom().contains(other) <==> s.requests.dom().contains(other)
            &&& other != id && s.requests.dom().contains(other) ==> after.requests[other]
                == s.requests[other]
            &&& s.requests.dom().contains(id) ==> {
                let now = after.requests[id];
                &&& now.from_memory_cache
                &&& now == (HttpRequestView { from_memory_cache: true, ..s.requests[id] })
            }
        }),
{
}

/// The end of loading hands the request out as it is known, and its failure hands it out
/// with the reason. Either way it is no longer known; other requests stay, and an
/// unknown one changes nothing.
pub proof fn the_end_of_loading_hands_the_request_out(
    s: NetworkState,
    id: Seq<char>,
    error: Seq<char>,
    other: Seq<char>,
)
    ensures
        ({
            let finished = loading_finished(s, id);
            let failed = loading_failed(s, id, error);
            if s.requests.dom().contains(id) {
                let request = s.requests[id];
                &&& finished.queued_events == s.queued_events.push(
                    NetworkEventView::RequestFinished(request),
                )
                &&& failed.queued_events == s.queued_events.push(
                    NetworkEventView::RequestFailed(
                        HttpRequestView { failure_text: Some(error), ..request },
                    ),
                )
                &&& !finished.requests.dom().contains(id) && !failed.requests.dom().contains(id)
                &&& finished.requests == failed.requests
                &&& other != id ==> (finished.requests.dom().contains(other)
                    <==> s.requests.dom().contains(other))
                &&& other != id && s.requests.dom().contains(other) ==> finished.requests[other]
                    == s.requests[other]
                &&& finished == (NetworkState {
                    queued_events: finished.queued_events,
                    requests: finished.requests,
                    attempted_authentications: finished.attempted_authentications,
                    ..s
                })
            } else {
                finished == s && failed == s
            }
        }),
{
}

// ---------------------------------------------------------------------------
// What stays

/// But for what the browser's events are about, nothing changes: announcements and pauses
/// touch the queue, the requests, what is kept of either, and the pauses with credentials;
/// ends of loading the queue, the requests and those pauses; challenges the queue and
/// those pauses.
pub proof fn events_leave_the_settings(
    s: NetworkState,
    sent: EventRequestWillBeSentView,
    pause: EventRequestPausedView,
    id: Seq<char>,
    error: Seq<char>,
)
    ensures
        ({
            let after = announced(s, sent);
            after == (NetworkState {
                queued_events: after.queued_events,
                requests: after.requests,
                requests_will_be_sent: after.requests_will_be_sent,
                request_id_to_interception_id: after.request_id_to_interception_id,
                attempted_authentications: after.attempted_authentications,
                ..s
            })
        }),
        ({
            let after = paused_noted(s, pause);
            after == (NetworkState {
                queued_events: after.queued_events,
                requests: after.requests,
                requests_will_be_sent: after.requests_will_be_sent,
                request_id_to_interception_id: after.request_id_to_interception_id,
                attempted_authentications: after.attempted_authentications,
                ..s
            })
        }),
        ({
            let after = loading_failed(s, id, error);
            after == (NetworkState {
                queued_events: after.queued_events,
                requests: after.requests,
                attempted_authentications: after.attempted_authentications,
                ..s
            })
        }),
        ({
            let after = challenged(s, id);
            after == (NetworkState {
                queued_events: after.queued_events,
                attempted_authentications: after.attempted_authentications,
                ..s
            })
        }),
{
}

/// A setting changes itself and what the browser is told, and no other setting.
pub proof fn settings_leave_each_other(
    s: NetworkState,
    on: bool,
    credentials: CredentialsView,
    url: Seq<char>,
    domain: Seq<char>,
)
    ensures
        ({
            let after = with_cache(s, on);
            after == (NetworkState {
                queued_events: after.queued_events,
                user_cache_disabled: after.user_cache_disabled,
                ..s
            })
        }),
        ({
            let after = with_offline(s, on);
            after == (NetworkState {
                queued_events: after.queued_events,
                offline: after.offline,
                ..s
            })
        }),
        ({
            let after = with_credentials(s, credentials);
            after == (NetworkState {
                queued_events: after.queued_events,
                credentials: after.credentials,
                protocol_request_interception_enabled:
                    after.protocol_request_interception_enabled,
                ..s
            })
        }),
        ({
            let after = with_user_interception(s, on);
            after == (NetworkState {
                queued_events: after.queued_events,
                user_request_interception_enabled: after.user_request_interception_enabled,
                protocol_request_interception_enabled:
                    after.protocol_request_interception_enabled,
                ..s
            })
        }),
        ({
            let after = with_service_workers(s, on);
            after == (NetworkState { queued_events: after.queued_events, ..s })
        }),
        ({
            let after = with_document(s, url, domain);
            after == (NetworkState {
                document_target_url: url,
                document_target_domain: domain,
                ..s
            })
        }),
        ({
            let after = without_document(s);
            after == (NetworkState {
                document_target_url: after.document_target_url,
                document_target_domain: after.document_target_domain,
                document_reload_tracker: after.document_reload_tracker,
                ..s
            })
        }),
{
}

// ---------------------------------------------------------------------------
// Masked documents

proof fn lemma_scheme_swapped(rest: Seq<char>)
    ensures
        replaced_once("http://"@ + rest, "http://"@, "https://"@) == "https://"@ + rest,
        replaced_once("http://"@ + rest, "http://"@, "http//"@) == "http//"@ + rest,
        replaced_once("https://"@ + rest, "https://"@, "http://"@) == "http://"@ + rest,
        replaced_once("https://"@ + rest, "https://"@, "https//"@) == "https//"@ + rest,
        begins_with("http://"@ + rest, "http://"@),
        !begins_with("https://"@ + rest, "http://"@),
{
    reveal_strlit("http://");
    reveal_strlit("https://");
    let none = Seq::<char>::empty();
    let plain = "http://"@;
    let secure = "https://"@;
    assert(none + plain + rest =~= plain + rest);
    assert(none + secure + rest =~= secure + rest);
    assert(none + "https://"@ + rest =~= "https://"@ + rest);
    assert(none + "http://"@ + rest =~= "http://"@ + rest);
    assert(none + "http//"@ + rest =~= "http//"@ + rest);
    assert(none + "https//"@ + rest =~= "https//"@ + rest);
    replacing_exchanges_the_first_occurrence(none, plain, rest, "https://"@);
    replacing_exchanges_the_first_occurrence(none, plain, rest, "http//"@);
    replacing_exchanges_the_first_occurrence(none, secure, rest, "http://"@);
    replacing_exchanges_the_first_occurrence(none, secure, rest, "https//"@);
    assert((plain + rest).subrange(0, 7) =~= plain);
    assert((secure + rest)[4] == 's');
    if begins_with(secure + rest, plain) {
        assert((secure + rest).subrange(0, 7)[4] == plain[4]);
    }
}

/// The slashes at the end of a URL: none, one, or two and more before them.
pub open spec fn is_end(rest: Seq<char>, end: Seq<char>) -> bool {
    &&& rest.len() > 0
    &&& {
        ||| end.len() == 0 && rest.last() != '/'
        ||| end == seq!['/'] && rest.last() != '/'
        ||| end == seq!['/', '/']
    }
}

/// A URL of a scheme, in which the scheme goes by its name.
pub open spec fn schemed(secure: bool, rest: Seq<char>) -> Seq<char> {
    if secure {
        "https://"@ + rest
    } else {
        "http://"@ + rest
    }
}

/// The same with a scheme that has lost its colon.
pub open spec fn unschemed(secure: bool, rest: Seq<char>) -> Seq<char> {
    if secure {
        "https//"@ + rest
    } else {
        "http//"@ + rest
    }
}

/// A document whose redirect to the other scheme went wrong comes under a URL that is the
/// right one, without up to two slashes at its end, with the old one behind it, whose
/// scheme has lost its colon. It is decided on, and sent, under the right one, with at
/// most one slash at its end. Under any other URL it is decided on as it is.
pub proof fn a_masked_document_is_sent_where_it_belongs(
    s: NetworkState,
    event: EventRequestPausedView,
    rest: Seq<char>,
    end: Seq<char>,
    secure: bool,
)
    requires
        event.resource_type == ResourceType::Document,
        event.redirected_request_id is Some,
        is_end(rest, end),
        s.document_target_url == schemed(secure, rest + end),
    ensures
        ({
            let mask = schemed(!secure, rest) + unschemed(secure, rest + end);
            &&& is_masked(s, event) <==> event.url == mask
            &&& event.url == mask ==> effective_url(s, event) == schemed(
                !secure,
                if end.len() == 0 {
                    rest
                } else {
                    rest.push('/')
                },
            )
            &&& event.url != mask ==> effective_url(s, event) == event.url
        }),
{
    let whole = rest + end;
    lemma_scheme_swapped(whole);
    reveal_strlit("http://");
    reveal_strlit("https://");
    reveal_strlit("http//");
    reveal_strlit("https//");
    let plain = schemed(!secure, rest);
    let other = schemed(!secure, whole);
    assert(other_scheme(s.document_target_url) == other);
    assert(broken_scheme(s.document_target_url) == unschemed(secure, whole));
    assert(plain.last() == rest.last());
    if end.len() == 0 {
        assert(whole =~= rest);
        assert(unslashed_end(unslashed_end(other)) == plain);
    } else if end.len() == 1 {
        assert(other =~= plain.push('/'));
        assert(other.drop_last() =~= plain);
        assert(unslashed_end(unslashed_end(other)) == plain);
    } else {
        assert(other =~= plain.push('/').push('/'));
        assert(other.drop_last() =~= plain.push('/'));
        assert(plain.push('/').drop_last() =~= plain);
        assert(unslashed_end(unslashed_end(other)) == plain);
    }
    assert(redirect_mask(s.document_target_url) == plain + unschemed(secure, whole));
    assert(schemed(!secure, rest.push('/')) =~= plain.push('/'));
    assert(s.document_target_url.len() < (plain + unschemed(secure, whole)).len());
}

} // verus!
