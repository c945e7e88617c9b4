//! What the network manager knows, and what each of its steps makes of that.
use vstd::prelude::*;
use spider_network_blocker::intercept_manager::NetworkInterceptManager;
use std::time::Duration;

use crate::command::{
    AuthChallengeResponseResponse, CdpCommandView, NetworkEventView, RequestStage,
};
use crate::matcher::{any_occurs, can_build, modest};
use crate::protocol::{
    header_text, CredentialsView, EventRequestPausedView, EventRequestWillBeSentView,
    EventResponseReceivedView, HeaderValueView, HttpRequestView, ResponseView,
};
use crate::text::{begins_with, digits_of, digits_value, is_u64_text, trims_to, without};

verus! {

/// Something that is on or off.
#[derive(Debug, Clone, Copy, PartialEq, Eq, Structural)]
pub struct Switch {
    /// Is it on?
    pub on: bool,
}

/// How long a cached response may be used.
#[derive(Debug, Clone, Copy, PartialEq, Eq, Structural)]
pub enum BasicCachePolicy {
    /// Stale responses may be used.
    AllowStale,
    /// Responses may be used up to a moment, in milliseconds since the epoch.
    Period(u64),
    /// The headers of the response decide.
    Normal,
}

/// The state of a [`NetworkManager`](crate::network::manager::NetworkManager).
pub struct NetworkState {
    pub queued_events: Seq<NetworkEventView>,
    pub ignore_httpserrors: Switch,
    pub requests: Map<Seq<char>, HttpRequestView>,
    pub requests_will_be_sent: Map<Seq<char>, EventRequestWillBeSentView>,
    pub extra_headers: Map<Seq<char>, HeaderValueView>,
    pub request_id_to_interception_id: Map<Seq<char>, Seq<char>>,
    pub user_cache_disabled: Switch,
    pub attempted_authentications: Set<Seq<char>>,
    pub credentials: Option<CredentialsView>,
    pub user_request_interception_enabled: Switch,
    pub block_all: Switch,
    pub protocol_request_interception_enabled: Switch,
    pub offline: Switch,
    pub request_timeout: Duration,
    pub ignore_visuals: Switch,
    pub block_stylesheets: Switch,
    pub block_javascript: Switch,
    pub block_analytics: Switch,
    pub block_prefetch: Switch,
    pub only_html: Switch,
    pub xml_document: Switch,
    pub intercept_manager: NetworkInterceptManager,
    pub document_reload_tracker: u8,
    pub document_target_url: Seq<char>,
    pub document_target_domain: Seq<char>,
    pub max_bytes_allowed: Option<u64>,
    pub cache_site_key: Option<Seq<char>>,
    pub cache_policy: Option<BasicCachePolicy>,
    pub whitelist_patterns: Seq<Seq<char>>,
    pub whitelist_matcher: Option<Seq<Seq<char>>>,
    pub blacklist_patterns: Seq<Seq<char>>,
    pub blacklist_matcher: Option<Seq<Seq<char>>>,
    pub blacklist_strict: Switch,
    pub allowed_3rd_party: Seq<Seq<char>>,
    pub block_ads: Switch,
}

// ---------------------------------------------------------------------------
// Events and commands

/// The state with one more event at the end of the queue.
pub open spec fn queued(s: NetworkState, event: NetworkEventView) -> NetworkState {
    NetworkState { queued_events: s.queued_events.push(event), ..s }
}

/// The state with a command at the end of the queue.
pub open spec fn commanded(s: NetworkState, command: CdpCommandView) -> NetworkState {
    queued(s, NetworkEventView::SendCdpRequest(command))
}

// ---------------------------------------------------------------------------
// Pattern lists

/// The patterns of the matcher that a list of patterns is compiled to. There is
/// none for the empty list, nor for one that cannot be compiled.
pub open spec fn compiled(patterns: Seq<Seq<char>>) -> Option<Seq<Seq<char>>> {
    if patterns.len() > 0 && can_build(patterns) {
        Some(patterns)
    } else {
        None
    }
}

/// A list of a modest number of patterns of a modest size always compiles.
pub open spec fn compiles_if_modest(
    matcher: Option<Seq<Seq<char>>>,
    patterns: Seq<Seq<char>>,
) -> bool {
    modest(patterns) && patterns.len() > 0 ==> matcher == Some(patterns)
}

/// A matcher has one of its patterns in the URL.
pub open spec fn matcher_hits(matcher: Option<Seq<Seq<char>>>, url: Seq<char>) -> bool {
    match matcher {
        Some(patterns) => any_occurs(patterns, url),
        None => false,
    }
}

/// The state with another white list.
pub open spec fn with_whitelist(s: NetworkState, patterns: Seq<Seq<char>>) -> NetworkState {
    NetworkState { whitelist_patterns: patterns, whitelist_matcher: compiled(patterns), ..s }
}

/// The state with another black list.
pub open spec fn with_blacklist(s: NetworkState, patterns: Seq<Seq<char>>) -> NetworkState {
    NetworkState { blacklist_patterns: patterns, blacklist_matcher: compiled(patterns), ..s }
}

// ---------------------------------------------------------------------------
// Interception

/// The command that turns interception on, for every URL and for challenges.
pub open spec fn fetch_enable() -> CdpCommandView {
    CdpCommandView::FetchEnable {
        handle_auth_requests: true,
        url_pattern: "*"@,
        request_stage: RequestStage::Request,
    }
}

/// Is interception needed: does the user ask for it, or are there credentials?
pub open spec fn interception_wanted(s: NetworkState) -> bool {
    s.user_request_interception_enabled.on || s.credentials is Some
}

/// Interception is turned on or off where it is not as it should be.
pub open spec fn interception_updated(s: NetworkState) -> NetworkState {
    let wanted = interception_wanted(s);
    if wanted == s.protocol_request_interception_enabled.on {
        s
    } else {
        commanded(
            NetworkState { protocol_request_interception_enabled: Switch { on: wanted }, ..s },
            if wanted {
                fetch_enable()
            } else {
                CdpCommandView::FetchDisable
            },
        )
    }
}

// ---------------------------------------------------------------------------
// Settings

/// The headers that go with each request: those that are given, without the ones that
/// authorise at a proxy.
pub open spec fn headers_kept(headers: Map<Seq<char>, HeaderValueView>) -> Map<
    Seq<char>,
    HeaderValueView,
> {
    headers.remove("proxy-authorization"@).remove("Proxy-Authorization"@)
}

/// The state with other headers that go with each request. The browser is told, unless
/// there are none.
pub open spec fn with_headers(
    s: NetworkState,
    headers: Map<Seq<char>, HeaderValueView>,
) -> NetworkState {
    let kept = headers_kept(headers);
    let after = NetworkState { extra_headers: kept, ..s };
    if kept == Map::<Seq<char>, HeaderValueView>::empty() {
        after
    } else {
        commanded(after, CdpCommandView::SetExtraHttpHeaders { headers: kept })
    }
}

/// The state with the user's wish to intercept requests.
pub open spec fn with_user_interception(s: NetworkState, enabled: bool) -> NetworkState {
    interception_updated(
        NetworkState { user_request_interception_enabled: Switch { on: enabled }, ..s },
    )
}

/// The state with credentials for challenges.
pub open spec fn with_credentials(s: NetworkState, credentials: CredentialsView) -> NetworkState {
    interception_updated(NetworkState { credentials: Some(credentials), ..s })
}

/// The browser is told whether its cache is off.
pub open spec fn cache_told(s: NetworkState) -> NetworkState {
    commanded(s, CdpCommandView::SetCacheDisabled { cache_disabled: s.user_cache_disabled.on })
}

/// The state with the browser's cache on or off. The browser is told of a change.
pub open spec fn with_cache(s: NetworkState, enabled: bool) -> NetworkState {
    if s.user_cache_disabled.on == enabled {
        cache_told(NetworkState { user_cache_disabled: Switch { on: !enabled }, ..s })
    } else {
        s
    }
}

/// The state with the network offline, or online. The browser is told of a change.
pub open spec fn with_offline(s: NetworkState, value: bool) -> NetworkState {
    if s.offline.on == value {
        s
    } else {
        commanded(
            NetworkState { offline: Switch { on: value }, ..s },
            CdpCommandView::EmulateNetworkConditionsByRule {
                offline: value,
                url_pattern: ""@,
                latency: 0,
                download_throughput: -1,
                upload_throughput: -1,
            },
        )
    }
}

/// The state with service workers bypassed, or not.
pub open spec fn with_service_workers(s: NetworkState, bypass: bool) -> NetworkState {
    commanded(s, CdpCommandView::SetBypassServiceWorker { bypass })
}

/// The state with another document to follow.
pub open spec fn with_document(s: NetworkState, url: Seq<char>, domain: Seq<char>) -> NetworkState {
    NetworkState { document_target_url: url, document_target_domain: domain, ..s }
}

/// The state with no document to follow.
pub open spec fn without_document(s: NetworkState) -> NetworkState {
    NetworkState {
        document_reload_tracker: 0,
        document_target_url: Seq::empty(),
        document_target_domain: Seq::empty(),
        ..s
    }
}

/// The commands that begin a session.
pub open spec fn first_commands(s: NetworkState) -> Seq<CdpCommandView> {
    if s.ignore_httpserrors.on {
        seq![
            CdpCommandView::NetworkEnable,
            CdpCommandView::SetIgnoreCertificateErrors { ignore: true },
        ]
    } else {
        seq![CdpCommandView::NetworkEnable]
    }
}

// ---------------------------------------------------------------------------
// Requests

/// The statuses that redirect.
pub open spec fn is_redirect(status: int) -> bool {
    status == 301 || status == 302 || status == 303 || status == 307 || status == 308
}

/// Where a redirecting response leads, without the URL that it came from. There
/// is nothing if the response does not redirect, or leads back to itself.
pub open spec fn redirect_target(response: ResponseView) -> Option<Seq<char>> {
    match header_text(response.headers, "Location"@) {
        Some(location) => if is_redirect(response.status as int) && location != response.url {
            Some(without(location, response.url))
        } else {
            None
        },
        None => None,
    }
}

/// The response as the redirect chain keeps it.
pub open spec fn hop_response(response: ResponseView) -> ResponseView {
    match redirect_target(response) {
        Some(target) => if target.len() > 0 {
            ResponseView {
                headers: response.headers.insert("Location"@, HeaderValueView::Text(target)),
                ..response
            }
        } else {
            response
        },
        None => response,
    }
}

/// A set without an identifier, if there is one.
pub open spec fn forgotten(ids: Set<Seq<char>>, id: Option<Seq<char>>) -> Set<Seq<char>> {
    match id {
        Some(i) => ids.remove(i),
        None => ids,
    }
}

/// A request that has been redirected, as the chain keeps it.
pub open spec fn hop(request: HttpRequestView, response: ResponseView) -> HttpRequestView {
    HttpRequestView {
        response: Some(hop_response(response)),
        redirect_chain: Seq::empty(),
        ..request
    }
}

/// Does the event follow a redirect of a request that is known?
pub open spec fn follows_redirect(s: NetworkState, event: EventRequestWillBeSentView) -> bool {
    event.redirect_response is Some && s.requests.dom().contains(event.request_id)
}

/// The redirects that led to the request of an event.
pub open spec fn chain_of(s: NetworkState, event: EventRequestWillBeSentView) -> Seq<
    HttpRequestView,
> {
    if follows_redirect(s, event) {
        let before = s.requests[event.request_id];
        before.redirect_chain.push(hop(before, event.redirect_response->0))
    } else {
        Seq::empty()
    }
}

/// A request is sent: it is known from here on, and the owner hears of it. A
/// redirect ends the request before it, which goes to the chain.
pub open spec fn request_sent(
    s: NetworkState,
    event: EventRequestWillBeSentView,
    interception_id: Option<Seq<char>>,
) -> NetworkState {
    queued(
        NetworkState {
            requests: s.requests.insert(
                event.request_id,
                HttpRequestView {
                    request_id: event.request_id,
                    frame: event.frame_id,
                    interception_id,
                    allow_interception: s.user_request_interception_enabled.on,
                    from_memory_cache: false,
                    failure_text: None,
                    response: None,
                    redirect_chain: chain_of(s, event),
                },
            ),
            attempted_authentications: if follows_redirect(s, event) {
                forgotten(
                    s.attempted_authentications,
                    s.requests[event.request_id].interception_id,
                )
            } else {
                s.attempted_authentications
            },
            ..s
        },
        NetworkEventView::Request(event),
    )
}

/// The browser announces a request. While interception is on, the request is
/// known once its pause is known too, whichever comes first.
pub open spec fn announced(s: NetworkState, event: EventRequestWillBeSentView) -> NetworkState {
    if s.protocol_request_interception_enabled.on && !begins_with(event.url, "data:"@) {
        if s.request_id_to_interception_id.dom().contains(event.request_id) {
            request_sent(
                NetworkState {
                    request_id_to_interception_id: s.request_id_to_interception_id.remove(
                        event.request_id,
                    ),
                    ..s
                },
                event,
                Some(s.request_id_to_interception_id[event.request_id]),
            )
        } else {
            NetworkState {
                requests_will_be_sent: s.requests_will_be_sent.insert(event.request_id, event),
                ..s
            }
        }
    } else {
        request_sent(s, event, None)
    }
}

/// The pause of a request is joined to its announcement, or kept until that comes.
pub open spec fn paused_noted(s: NetworkState, event: EventRequestPausedView) -> NetworkState {
    match event.network_id {
        Some(id) => if s.requests_will_be_sent.dom().contains(id) {
            request_sent(
                NetworkState { requests_will_be_sent: s.requests_will_be_sent.remove(id), ..s },
                s.requests_will_be_sent[id],
                Some(event.request_id),
            )
        } else {
            NetworkState {
                request_id_to_interception_id: s.request_id_to_interception_id.insert(
                    id,
                    event.request_id,
                ),
                ..s
            }
        },
        None => s,
    }
}

/// A request was answered from the browser's cache.
pub open spec fn served_from_cache(s: NetworkState, id: Seq<char>) -> NetworkState {
    if s.requests.dom().contains(id) {
        NetworkState {
            requests: s.requests.insert(
                id,
                HttpRequestView { from_memory_cache: true, ..s.requests[id] },
            ),
            ..s
        }
    } else {
        s
    }
}

/// All of a response has arrived: a request that is still known is finished.
pub open spec fn loading_finished(s: NetworkState, id: Seq<char>) -> NetworkState {
    if s.requests.dom().contains(id) {
        let request = s.requests[id];
        queued(
            NetworkState {
                requests: s.requests.remove(id),
                attempted_authentications: forgotten(
                    s.attempted_authentications,
                    request.interception_id,
                ),
                ..s
            },
            NetworkEventView::RequestFinished(request),
        )
    } else {
        s
    }
}

/// Loading failed: a request that is still known has failed.
pub open spec fn loading_failed(s: NetworkState, id: Seq<char>, error: Seq<char>) -> NetworkState {
    if s.requests.dom().contains(id) {
        let request = s.requests[id];
        queued(
            NetworkState {
                requests: s.requests.remove(id),
                attempted_authentications: forgotten(
                    s.attempted_authentications,
                    request.interception_id,
                ),
                ..s
            },
            NetworkEventView::RequestFailed(
                HttpRequestView { failure_text: Some(error), ..request },
            ),
        )
    } else {
        s
    }
}

// ---------------------------------------------------------------------------
// The byte budget

/// The length that a response declares, if it declares one.
pub open spec fn declared_length(response: ResponseView) -> Option<nat> {
    match header_text(response.headers, "content-length"@) {
        Some(text) => if exists|core: Seq<char>| trims_to(text, core) && is_u64_text(core) {
            let core = choose|core: Seq<char>| trims_to(text, core) && is_u64_text(core);
            Some(digits_value(digits_of(core)))
        } else {
            None
        },
        None => None,
    }
}

/// What is left of a budget after a response: less what was received, and nothing
/// if what is declared does not fit in the rest.
pub open spec fn budget_after(budget: nat, response: ResponseView) -> nat {
    let rest: nat = if budget >= response.encoded_data_length {
        (budget - response.encoded_data_length) as nat
    } else {
        0
    };
    match declared_length(response) {
        Some(length) => if length > rest {
            0
        } else {
            rest
        },
        None => rest,
    }
}

/// The budget is charged for a response. What was taken off is reported, and an
/// empty budget blocks all further requests.
pub open spec fn charged(s: NetworkState, response: ResponseView) -> NetworkState {
    match s.max_bytes_allowed {
        Some(budget) => {
            let rest = budget_after(budget as nat, response);
            let after = NetworkState {
                max_bytes_allowed: Some(rest as u64),
                block_all: Switch { on: s.block_all.on || rest == 0 },
                ..s
            };
            if rest < budget {
                queued(after, NetworkEventView::BytesConsumed((budget - rest) as nat))
            } else {
                after
            }
        },
        None => s,
    }
}

/// Is there a budget, and nothing left of it?
pub open spec fn budget_spent(s: NetworkState) -> bool {
    s.max_bytes_allowed == Some(0u64)
}

/// A response has arrived. Its request is over: failed if the budget is spent,
/// finished otherwise.
pub open spec fn responded(s: NetworkState, event: EventResponseReceivedView) -> NetworkState {
    let told = queued(charged(s, event.response), NetworkEventView::Response(event));
    if s.requests.dom().contains(event.request_id) {
        let request = HttpRequestView {
            response: Some(event.response),
            ..s.requests[event.request_id]
        };
        queued(
            NetworkState { requests: told.requests.remove(event.request_id), ..told },
            if budget_spent(told) {
                NetworkEventView::RequestFailed(request)
            } else {
                NetworkEventView::RequestFinished(request)
            },
        )
    } else {
        told
    }
}

// ---------------------------------------------------------------------------
// Authentication

/// The answer to a challenge: a second challenge of one pause is given up.
pub open spec fn challenge_answer(s: NetworkState, id: Seq<char>) -> AuthChallengeResponseResponse {
    if s.attempted_authentications.contains(id) {
        AuthChallengeResponseResponse::CancelAuth
    } else if s.credentials is Some {
        AuthChallengeResponseResponse::ProvideCredentials
    } else {
        AuthChallengeResponseResponse::Default
    }
}

/// A challenge is answered.
pub open spec fn challenged(s: NetworkState, id: Seq<char>) -> NetworkState {
    commanded(
        NetworkState {
            attempted_authentications: if s.credentials is Some {
                s.attempted_authentications.insert(id)
            } else {
                s.attempted_authentications
            },
            ..s
        },
        CdpCommandView::ContinueWithAuth {
            request_id: id,
            response: challenge_answer(s, id),
            username: match s.credentials {
                Some(c) => Some(c.username),
                None => None,
            },
            password: match s.credentials {
                Some(c) => Some(c.password),
                None => None,
            },
        },
    )
}

} // verus!
