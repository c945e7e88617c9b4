//! What holds of the network manager as a whole.
use vstd::prelude::*;
use spider_network_blocker::intercept_manager::NetworkInterceptManager;
use std::time::Duration;

use crate::blocklists::site_blocks;
use crate::command::{AuthChallengeResponseResponse, CdpCommandView, NetworkEventView};
use crate::matcher::{any_occurs, can_build, lemma_beginning_builds, lemma_order_builds};
use crate::network::decision::{
    blocked, cache_answer, excused, fail_blocked, fulfill_empty, left_to_user, paused_open,
    paused_state, script_listed, settled_lookup, settled_state, CachedResponse, PausedRequestView,
    Verdicts,
};
use crate::network::manager::fresh_state;
use crate::network::state::{
    announced, budget_after, budget_spent, chain_of, challenge_answer, challenged, charged,
    commanded, compiled, follows_redirect, hop, interception_updated, interception_wanted,
    loading_failed, loading_finished, matcher_hits, paused_noted, queued, request_sent, responded,
    served_from_cache, with_blacklist, with_whitelist, NetworkState,
};
use crate::protocol::{
    EventRequestPausedView, EventRequestWillBeSentView, EventResponseReceivedView, ResourceType,
    ResponseView,
};
use crate::text::{begins_with, occurs};

verus! {

// ---------------------------------------------------------------------------
// Black list and white list

/// A strict black list always wins: a URL that it has is blocked, whatever lets
/// it through, and the browser gets an empty response.
pub proof fn strict_blacklist_always_wins(
    s: NetworkState,
    event: EventRequestPausedView,
    paused: PausedRequestView,
    v: Verdicts,
)
    requires
        s.blacklist_strict.on,
        matcher_hits(s.blacklist_matcher, paused.current_url),
    ensures
        blocked(s, event, paused, v),
        settled_state(s, event, paused, v) == commanded(s, fulfill_empty(event.request_id)),
        settled_lookup(s, event, paused, v) is None,
{
}

/// The white list lets a URL through, whatever speaks against it, but for a strict
/// black list that has it.
pub proof fn whitelist_overrides(
    s: NetworkState,
    event: EventRequestPausedView,
    paused: PausedRequestView,
    v: Verdicts,
)
    requires
        matcher_hits(s.whitelist_matcher, paused.current_url),
        !(s.blacklist_strict.on && matcher_hits(s.blacklist_matcher, paused.current_url)),
    ensures
        !blocked(s, event, paused, v),
{
}

/// A URL on a black list that is not strict is blocked unless something lets it
/// through.
pub proof fn lenient_blacklist_blocks_what_nothing_excuses(
    s: NetworkState,
    event: EventRequestPausedView,
    paused: PausedRequestView,
    v: Verdicts,
)
    requires
        !s.blacklist_strict.on,
        matcher_hits(s.blacklist_matcher, paused.current_url),
    ensures
        blocked(s, event, paused, v) == !excused(s, event, paused),
{
}

/// Scripts are allowed by default: one that is blocked is so by a list that has it
/// or by what was decided before its URL was looked at, and never for what is
/// ignored as visual or as a style sheet.
pub proof fn scripts_are_allowed_by_default(
    s: NetworkState,
    event: EventRequestPausedView,
    paused: PausedRequestView,
    v: Verdicts,
)
    requires
        event.resource_type == ResourceType::Script,
        !v.data_resource,
        blocked(s, event, paused, v),
    ensures
        paused.skip_networking || matcher_hits(s.blacklist_matcher, paused.current_url) || v.ad
            || s.block_javascript.on && v.embedded_script || script_listed(
            s,
            paused.current_url,
            v.website,
        ) || site_blocks(s.intercept_manager, paused.current_url, s.ignore_visuals.on, false),
{
}

/// The compiled lists are those of the patterns.
pub open spec fn lists_in_step(s: NetworkState) -> bool {
    &&& s.whitelist_matcher == compiled(s.whitelist_patterns)
    &&& s.blacklist_matcher == compiled(s.blacklist_patterns)
}

/// The compiled lists are always those of the patterns: a new manager has none,
/// every change of a list compiles it, and nothing else touches either.
pub proof fn lists_stay_in_step(
    s: NetworkState,
    patterns: Seq<Seq<char>>,
    sent: EventRequestWillBeSentView,
    received: EventResponseReceivedView,
    event: EventRequestPausedView,
    domain: Seq<char>,
    paused: PausedRequestView,
    v: Verdicts,
    id: Seq<char>,
    error: Seq<char>,
)
    requires
        lists_in_step(s),
    ensures
        lists_in_step(with_whitelist(s, patterns)),
        lists_in_step(with_blacklist(s, patterns)),
        lists_in_step(announced(s, sent)),
        lists_in_step(responded(s, received)),
        lists_in_step(paused_state(s, event, domain)),
        lists_in_step(settled_state(s, event, paused, v)),
        lists_in_step(challenged(s, id)),
        lists_in_step(served_from_cache(s, id)),
        lists_in_step(loading_finished(s, id)),
        lists_in_step(loading_failed(s, id, error)),
        lists_in_step(interception_updated(s)),
{
}

/// A new manager has its lists in step.
pub proof fn lists_begin_in_step(
    ignore_httpserrors: bool,
    timeout: Duration,
    site: NetworkInterceptManager,
)
    ensures
        lists_in_step(fresh_state(ignore_httpserrors, timeout, site)),
{
}

/// Where the lists are in step, a URL is on a list that has been compiled exactly if one
/// of its patterns stands in the URL.
pub proof fn listed_means_a_pattern_occurs(s: NetworkState, url: Seq<char>)
    requires
        lists_in_step(s),
    ensures
        s.blacklist_matcher is Some || s.blacklist_patterns.len() == 0 ==> matcher_hits(
            s.blacklist_matcher,
            url,
        ) == any_occurs(s.blacklist_patterns, url),
        s.whitelist_matcher is Some || s.whitelist_patterns.len() == 0 ==> matcher_hits(
            s.whitelist_matcher,
            url,
        ) == any_occurs(s.whitelist_patterns, url),
{
}

/// A list that can be compiled with more patterns can be compiled without them, and
/// with them it has what one of all the patterns occurs in.
proof fn lemma_longer_list(patterns: Seq<Seq<char>>, added: Seq<Seq<char>>, url: Seq<char>)
    requires
        can_build(patterns + added),
    ensures
        matcher_hits(compiled(patterns + added), url) == (matcher_hits(compiled(patterns), url)
            || any_occurs(added, url)),
{
    lemma_beginning_builds(patterns, added);
    lemma_any_occurs_sum(patterns, added, url);
}

/// Patterns that are added widen the black list by what they occur in, and by nothing
/// else: a URL is on the longer list if it was on the list, or if one of the new patterns
/// stands in it. The white list and the rule which of them wins stay as they are. All
/// that is asked is that the longer list can be compiled.
pub proof fn added_patterns_widen_the_blacklist(
    s: NetworkState,
    added: Seq<Seq<char>>,
    url: Seq<char>,
)
    requires
        s.blacklist_matcher == compiled(s.blacklist_patterns),
        can_build(s.blacklist_patterns + added),
    ensures
        ({
            let after = with_blacklist(s, s.blacklist_patterns + added);
            &&& matcher_hits(after.blacklist_matcher, url) == (matcher_hits(
                s.blacklist_matcher,
                url,
            ) || any_occurs(added, url))
            &&& matcher_hits(after.whitelist_matcher, url) == matcher_hits(
                s.whitelist_matcher,
                url,
            )
            &&& after.blacklist_strict == s.blacklist_strict
        }),
{
    lemma_longer_list(s.blacklist_patterns, added, url);
}

/// Patterns that are added widen the white list by what they occur in, and by nothing
/// else. The black list and the rule which of them wins stay as they are.
pub proof fn added_patterns_widen_the_whitelist(
    s: NetworkState,
    added: Seq<Seq<char>>,
    url: Seq<char>,
)
    requires
        s.whitelist_matcher == compiled(s.whitelist_patterns),
        can_build(s.whitelist_patterns + added),
    ensures
        ({
            let after = with_whitelist(s, s.whitelist_patterns + added);
            &&& matcher_hits(after.whitelist_matcher, url) == (matcher_hits(
                s.whitelist_matcher,
                url,
            ) || any_occurs(added, url))
            &&& matcher_hits(after.blacklist_matcher, url) == matcher_hits(
                s.blacklist_matcher,
                url,
            )
            &&& after.blacklist_strict == s.blacklist_strict
        }),
{
    lemma_longer_list(s.whitelist_patterns, added, url);
}

proof fn lemma_any_occurs_sum(a: Seq<Seq<char>>, b: Seq<Seq<char>>, url: Seq<char>)
    ensures
        any_occurs(a + b, url) == (any_occurs(a, url) || any_occurs(b, url)),
{
    let all = a + b;
    if any_occurs(all, url) {
        let i = choose|i: int| 0 <= i < all.len() && occurs(url, #[trigger] all[i]);
        if i < a.len() {
            assert(occurs(url, a[i]));
        } else {
            assert(occurs(url, b[i - a.len()]));
        }
    }
    if any_occurs(a, url) {
        let i = choose|i: int| 0 <= i < a.len() && occurs(url, #[trigger] a[i]);
        assert(all[i] == a[i]);
    }
    if any_occurs(b, url) {
        let i = choose|i: int| 0 <= i < b.len() && occurs(url, #[trigger] b[i]);
        assert(all[a.len() + i] == b[i]);
    }
}

/// The state after patterns have been added to the black list one by one.
pub open spec fn blacklisted_one_by_one(s: NetworkState, added: Seq<Seq<char>>) -> NetworkState
    decreases added.len(),
{
    if added.len() == 0 {
        s
    } else {
        let before = blacklisted_one_by_one(s, added.drop_last());
        with_blacklist(before, before.blacklist_patterns.push(added.last()))
    }
}

/// Adding patterns at once is adding them one by one.
pub proof fn patterns_may_be_added_one_by_one(s: NetworkState, added: Seq<Seq<char>>)
    requires
        lists_in_step(s),
    ensures
        blacklisted_one_by_one(s, added) == with_blacklist(s, s.blacklist_patterns + added),
    decreases added.len(),
{
    if added.len() == 0 {
        assert(s.blacklist_patterns + added =~= s.blacklist_patterns);
    } else {
        patterns_may_be_added_one_by_one(s, added.drop_last());
        assert((s.blacklist_patterns + added.drop_last()).push(added.last())
            =~= s.blacklist_patterns + added);
    }
}

/// The order in which patterns are added makes no difference to what is on a list: in
/// every order, one by one, the list gets what the patterns occur in. All that is asked
/// is that the longer list can be compiled in one order.
pub proof fn order_of_patterns_makes_no_difference(
    s: NetworkState,
    added: Seq<Seq<char>>,
    shuffled: Seq<Seq<char>>,
    url: Seq<char>,
)
    requires
        lists_in_step(s),
        added.to_multiset() == shuffled.to_multiset(),
        can_build(s.blacklist_patterns + added),
    ensures
        matcher_hits(blacklisted_one_by_one(s, shuffled).blacklist_matcher, url) == (matcher_hits(
            s.blacklist_matcher,
            url,
        ) || any_occurs(added, url)),
        matcher_hits(blacklisted_one_by_one(s, shuffled).blacklist_matcher, url) == matcher_hits(
            with_blacklist(s, s.blacklist_patterns + added).blacklist_matcher,
            url,
        ),
{
    let patterns = s.blacklist_patterns;
    patterns_may_be_added_one_by_one(s, shuffled);
    vstd::seq_lib::lemma_multiset_commutative(patterns, added);
    vstd::seq_lib::lemma_multiset_commutative(patterns, shuffled);
    lemma_order_builds(patterns + added, patterns + shuffled);
    lemma_longer_list(patterns, added, url);
    lemma_longer_list(patterns, shuffled, url);
    lemma_any_occurs_shuffled(added, shuffled, url);
    lemma_any_occurs_shuffled(shuffled, added, url);
}

proof fn lemma_any_occurs_shuffled(a: Seq<Seq<char>>, b: Seq<Seq<char>>, url: Seq<char>)
    requires
        a.to_multiset() == b.to_multiset(),
    ensures
        any_occurs(a, url) ==> any_occurs(b, url),
{
    broadcast use vstd::seq_lib::group_to_multiset_ensures;

    if any_occurs(a, url) {
        let i = choose|i: int| 0 <= i < a.len() && occurs(url, #[trigger] a[i]);
        assert(a.contains(a[i]));
        assert(a.to_multiset().count(a[i]) > 0);
        assert(b.to_multiset().count(a[i]) > 0);
        assert(b.contains(a[i]));
        let k = choose|k: int| 0 <= k < b.len() && b[k] == a[i];
        assert(occurs(url, b[k]));
    }
}

// ---------------------------------------------------------------------------
// Blocking everything

/// While all requests are blocked, every request that is not left to the user is
/// failed as blocked by the client, and nothing of it is left to decide.
pub proof fn block_all_fails_every_request(
    s: NetworkState,
    event: EventRequestPausedView,
    domain: Seq<char>,
)
    requires
        s.block_all.on,
        !left_to_user(s),
    ensures
        paused_state(s, event, domain) == commanded(s, fail_blocked(event.request_id)),
        paused_open(s, event) is None,
{
}

/// Once all requests are blocked they stay blocked: no event of the browser ends that.
pub proof fn blocking_stays_on(
    s: NetworkState,
    sent: EventRequestWillBeSentView,
    received: EventResponseReceivedView,
    event: EventRequestPausedView,
    domain: Seq<char>,
    paused: PausedRequestView,
    v: Verdicts,
    id: Seq<char>,
    error: Seq<char>,
)
    requires
        s.block_all.on,
    ensures
        announced(s, sent).block_all.on,
        responded(s, received).block_all.on,
        paused_state(s, event, domain).block_all.on,
        settled_state(s, event, paused, v).block_all.on,
        challenged(s, id).block_all.on,
        served_from_cache(s, id).block_all.on,
        loading_finished(s, id).block_all.on,
        loading_failed(s, id, error).block_all.on,
{
}

/// The byte budget only shrinks, what it shrinks by is what is reported, and once
/// it is spent every further request is failed.
pub proof fn budget_is_accounted_for(s: NetworkState, response: ResponseView)
    requires
        s.max_bytes_allowed is Some,
    ensures
        ({
            let after = charged(s, response);
            let before = s.max_bytes_allowed->0;
            &&& after.max_bytes_allowed is Some
            &&& after.max_bytes_allowed->0 <= before
            &&& after.max_bytes_allowed->0 == budget_after(before as nat, response)
            &&& after.queued_events == if after.max_bytes_allowed->0 < before {
                s.queued_events.push(
                    NetworkEventView::BytesConsumed(
                        (before - after.max_bytes_allowed->0) as nat,
                    ),
                )
            } else {
                s.queued_events
            }
            &&& budget_spent(after) ==> after.block_all.on
            &&& s.block_all.on ==> after.block_all.on
        }),
{
}

/// The state after a row of responses.
pub open spec fn responded_all(
    s: NetworkState,
    row: Seq<EventResponseReceivedView>,
) -> NetworkState
    decreases row.len(),
{
    if row.len() == 0 {
        s
    } else {
        responded(responded_all(s, row.drop_last()), row.last())
    }
}

/// What is left of a budget after a row of responses.
pub open spec fn budget_after_all(budget: nat, row: Seq<EventResponseReceivedView>) -> nat
    decreases row.len(),
{
    if row.len() == 0 {
        budget
    } else {
        budget_after(budget_after_all(budget, row.drop_last()), row.last().response)
    }
}

/// How many bytes the events of a queue report as taken off the budget.
pub open spec fn reported(events: Seq<NetworkEventView>) -> nat
    decreases events.len(),
{
    if events.len() == 0 {
        0
    } else {
        reported(events.drop_last()) + match events.last() {
            NetworkEventView::BytesConsumed(bytes) => bytes,
            _ => 0,
        }
    }
}

proof fn lemma_reported_push(events: Seq<NetworkEventView>, event: NetworkEventView)
    ensures
        reported(events.push(event)) == reported(events) + match event {
            NetworkEventView::BytesConsumed(bytes) => bytes,
            _ => 0,
        },
{
    assert(events.push(event).drop_last() =~= events);
}

/// One response reports what it takes off the budget.
proof fn lemma_response_reports(s: NetworkState, event: EventResponseReceivedView)
    requires
        s.max_bytes_allowed is Some,
    ensures
        ({
            let after = responded(s, event);
            &&& after.max_bytes_allowed is Some
            &&& after.max_bytes_allowed->0 == budget_after(
                s.max_bytes_allowed->0 as nat,
                event.response,
            )
            &&& after.max_bytes_allowed->0 <= s.max_bytes_allowed->0
            &&& reported(after.queued_events) == reported(s.queued_events) + (
            s.max_bytes_allowed->0 - after.max_bytes_allowed->0)
            &&& s.block_all.on || budget_spent(after) ==> after.block_all.on
        }),
{
    let paid = charged(s, event.response);
    let budget = s.max_bytes_allowed->0;
    let rest = budget_after(budget as nat, event.response);
    if rest < budget {
        lemma_reported_push(
            s.queued_events,
            NetworkEventView::BytesConsumed((budget - rest) as nat),
        );
    }
    let told = queued(paid, NetworkEventView::Response(event));
    lemma_reported_push(paid.queued_events, NetworkEventView::Response(event));
    if s.requests.dom().contains(event.request_id) {
        let after = responded(s, event);
        lemma_reported_push(told.queued_events, after.queued_events.last());
        assert(after.queued_events =~= told.queued_events.push(after.queued_events.last()));
    }
}

/// Over any row of responses the budget is charged for each of them in turn, never
/// grows, and shrinks by exactly what the events report. A row that spends it blocks
/// everything.
pub proof fn a_row_of_responses_is_accounted_for(
    s: NetworkState,
    row: Seq<EventResponseReceivedView>,
)
    requires
        s.max_bytes_allowed is Some,
    ensures
        ({
            let after = responded_all(s, row);
            &&& after.max_bytes_allowed is Some
            &&& after.max_bytes_allowed->0 == budget_after_all(
                s.max_bytes_allowed->0 as nat,
                row,
            )
            &&& after.max_bytes_allowed->0 <= s.max_bytes_allowed->0
            &&& reported(after.queued_events) == reported(s.queued_events) + (
            s.max_bytes_allowed->0 - after.max_bytes_allowed->0)
            &&& row.len() > 0 && budget_spent(after) ==> after.block_all.on
            &&& s.block_all.on ==> after.block_all.on
        }),
    decreases row.len(),
{
    if row.len() > 0 {
        let before = responded_all(s, row.drop_last());
        a_row_of_responses_is_accounted_for(s, row.drop_last());
        lemma_response_reports(before, row.last());
    }
}

/// A response of a spent budget ends its request as failed; any other response
/// ends it as finished. Either way the request is over.
pub proof fn a_response_ends_its_request(s: NetworkState, event: EventResponseReceivedView)
    requires
        s.requests.dom().contains(event.request_id),
    ensures
        ({
            let after = responded(s, event);
            &&& !after.requests.dom().contains(event.request_id)
            &&& budget_spent(after) ==> after.queued_events.last() is RequestFailed
            &&& !budget_spent(after) ==> after.queued_events.last() is RequestFinished
        }),
{
}

/// A request ends once: what comes of it after its end changes nothing.
pub proof fn a_request_ends_once(s: NetworkState, event: EventResponseReceivedView, error: Seq<char>)
    ensures
        ({
            let id = event.request_id;
            let over = responded(s, event);
            let finished = loading_finished(s, id);
            let failed = loading_failed(s, id, error);
            &&& loading_finished(over, id) == over && loading_failed(over, id, error) == over
            &&& loading_finished(finished, id) == finished && loading_failed(finished, id, error)
                == finished
            &&& loading_finished(failed, id) == failed && loading_failed(failed, id, error)
                == failed
        }),
{
}

// ---------------------------------------------------------------------------
// The queue

/// Events come out in the order in which they went in: an event is at the front
/// once all that were before it are gone.
pub proof fn events_are_first_in_first_out(s: NetworkState, event: NetworkEventView)
    ensures
        ({
            let queue = queued(s, event).queued_events;
            &&& queue.len() == s.queued_events.len() + 1
            &&& forall|n: int|
                0 <= n < s.queued_events.len() ==> #[trigger] queue.skip(n)[0]
                    == s.queued_events[n]
            &&& queue.skip(s.queued_events.len() as int)[0] == event
        }),
{
}

// ---------------------------------------------------------------------------
// Credentials

/// Credentials are given at most once for a pause: the first challenge takes
/// them, and as long as the pause is remembered every further one is given up.
/// Challenges of other pauses do not make it forgotten.
pub proof fn credentials_are_given_once(s: NetworkState, id: Seq<char>, other: Seq<char>)
    requires
        s.credentials is Some,
    ensures
        ({
            let first = challenged(s, id);
            &&& challenge_answer(s, id) == AuthChallengeResponseResponse::ProvideCredentials
                || challenge_answer(s, id) == AuthChallengeResponseResponse::CancelAuth
            &&& challenge_answer(first, id) == AuthChallengeResponseResponse::CancelAuth
            &&& challenge_answer(challenged(first, other), id)
                == AuthChallengeResponseResponse::CancelAuth
        }),
{
}

/// That a pause got credentials is remembered until its request ends or is
/// redirected: the end of another request, an announcement that does not redirect it,
/// and every other step leave it remembered.
pub proof fn a_pause_is_remembered_until_its_request_ends(
    s: NetworkState,
    id: Seq<char>,
    sent: EventRequestWillBeSentView,
    received: EventResponseReceivedView,
    event: EventRequestPausedView,
    paused: PausedRequestView,
    v: Verdicts,
    other: Seq<char>,
    error: Seq<char>,
)
    requires
        s.attempted_authentications.contains(id),
        s.requests.dom().contains(other) ==> s.requests[other].interception_id != Some(id),
        sent.request_id == other || sent.redirect_response is None,
    ensures
        request_sent(s, sent, None).attempted_authentications.contains(id),
        request_sent(s, sent, Some(id)).attempted_authentications.contains(id),
        announced(s, sent).attempted_authentications.contains(id),
        responded(s, received).attempted_authentications.contains(id),
        settled_state(s, event, paused, v).attempted_authentications.contains(id),
        challenged(s, other).attempted_authentications.contains(id),
        served_from_cache(s, other).attempted_authentications.contains(id),
        loading_finished(s, other).attempted_authentications.contains(id),
        loading_failed(s, other, error).attempted_authentications.contains(id),
{
}

/// The end of a request forgets that its pause got credentials.
pub proof fn the_end_of_a_request_forgets_its_pause(
    s: NetworkState,
    request: Seq<char>,
    id: Seq<char>,
    error: Seq<char>,
)
    requires
        s.requests.dom().contains(request),
        s.requests[request].interception_id == Some(id),
    ensures
        !loading_finished(s, request).attempted_authentications.contains(id),
        !loading_failed(s, request, error).attempted_authentications.contains(id),
{
}

/// Without credentials every challenge of a pause that got none is left to the
/// browser.
pub proof fn no_credentials_no_answer(s: NetworkState, id: Seq<char>)
    requires
        s.credentials is None,
        !s.attempted_authentications.contains(id),
    ensures
        challenge_answer(s, id) == AuthChallengeResponseResponse::Default,
        challenged(s, id).attempted_authentications == s.attempted_authentications,
{
}

// ---------------------------------------------------------------------------
// Interception

/// After an update interception is on exactly if the user asks for it or there are
/// credentials, and a second update has nothing to do.
pub proof fn interception_follows_the_need(s: NetworkState)
    ensures
        interception_updated(s).protocol_request_interception_enabled.on == interception_wanted(s),
        interception_updated(interception_updated(s)) == interception_updated(s),
{
}

/// The announcement of a request and its pause may come in either order: the
/// outcome is the same.
pub proof fn pause_and_announcement_commute(
    s: NetworkState,
    sent: EventRequestWillBeSentView,
    pause: EventRequestPausedView,
)
    requires
        s.protocol_request_interception_enabled.on,
        !begins_with(sent.url, "data:"@),
        pause.network_id == Some(sent.request_id),
        !s.requests_will_be_sent.dom().contains(sent.request_id),
        !s.request_id_to_interception_id.dom().contains(sent.request_id),
    ensures
        paused_noted(announced(s, sent), pause) == request_sent(s, sent, Some(pause.request_id)),
        announced(paused_noted(s, pause), sent) == request_sent(s, sent, Some(pause.request_id)),
{
    let id = sent.request_id;
    assert(s.requests_will_be_sent.insert(id, sent).remove(id) =~= s.requests_will_be_sent);
    assert(s.request_id_to_interception_id.insert(id, pause.request_id).remove(id)
        =~= s.request_id_to_interception_id);
    let kept = NetworkState {
        requests_will_be_sent: s.requests_will_be_sent.insert(id, sent).remove(id),
        ..s
    };
    assert(kept == s);
    let held = NetworkState {
        request_id_to_interception_id: s.request_id_to_interception_id.insert(
            id,
            pause.request_id,
        ).remove(id),
        ..s
    };
    assert(held == s);
}

/// Does the event answer the pause?
pub open spec fn answers(event: NetworkEventView, id: Seq<char>) -> bool {
    match event {
        NetworkEventView::SendCdpRequest(command) => match command {
            CdpCommandView::FailRequest { request_id, error_reason } => request_id == id,
            CdpCommandView::FulfillRequest {
                request_id,
                response_code,
                response_headers,
                body,
            } => request_id == id,
            CdpCommandView::ContinueRequest { request_id, url, intercept_response } => request_id
                == id,
            _ => false,
        },
        _ => false,
    }
}

/// How many events of a queue answer the pause.
pub open spec fn answer_count(events: Seq<NetworkEventView>, id: Seq<char>) -> nat
    decreases events.len(),
{
    if events.len() == 0 {
        0
    } else if answers(events.last(), id) {
        answer_count(events.drop_last(), id) + 1
    } else {
        answer_count(events.drop_last(), id)
    }
}

proof fn lemma_answer_count_push(
    events: Seq<NetworkEventView>,
    event: NetworkEventView,
    id: Seq<char>,
)
    ensures
        answer_count(events.push(event), id) == answer_count(events, id) + if answers(event, id) {
            1nat
        } else {
            0nat
        },
{
    assert(events.push(event).drop_last() =~= events);
}

/// The first step of a pause answers it exactly if nothing is left to decide and
/// it is not left to the user.
pub proof fn first_step_answers_or_leaves_open(
    s: NetworkState,
    event: EventRequestPausedView,
    domain: Seq<char>,
)
    ensures
        answer_count(paused_state(s, event, domain).queued_events, event.request_id)
            == answer_count(s.queued_events, event.request_id) + if paused_open(s, event) is None
            && !left_to_user(s) {
            1nat
        } else {
            0nat
        },
{
    let id = event.request_id;
    if !left_to_user(s) {
        if s.block_all.on {
            lemma_answer_count_push(
                s.queued_events,
                NetworkEventView::SendCdpRequest(fail_blocked(id)),
                id,
            );
        } else {
            match event.network_id {
                Some(network) => {
                    if s.requests_will_be_sent.dom().contains(network) {
                        lemma_answer_count_push(
                            s.queued_events,
                            NetworkEventView::Request(s.requests_will_be_sent[network]),
                            id,
                        );
                    }
                },
                None => {},
            }
        }
    }
}

/// The second step answers the pause once, unless the cache is to be asked; then
/// the third step answers it once.
pub proof fn later_steps_answer_once(
    s: NetworkState,
    event: EventRequestPausedView,
    paused: PausedRequestView,
    v: Verdicts,
    cached: Option<CachedResponse>,
)
    ensures
        ({
            let id = event.request_id;
            let settled = settled_state(s, event, paused, v);
            let fetched = commanded(settled, cache_answer(id, paused, cached));
            let before = answer_count(s.queued_events, id);
            if settled_lookup(s, event, paused, v) is None {
                answer_count(settled.queued_events, id) == before + 1
            } else {
                answer_count(settled.queued_events, id) == before && answer_count(
                    fetched.queued_events,
                    id,
                ) == before + 1
            }
        }),
{
    let id = event.request_id;
    let settled = settled_state(s, event, paused, v);
    if settled_lookup(s, event, paused, v) is None {
        lemma_answer_count_push(s.queued_events, settled.queued_events.last(), id);
        assert(settled.queued_events =~= s.queued_events.push(settled.queued_events.last()));
    } else {
        lemma_answer_count_push(
            s.queued_events,
            NetworkEventView::SendCdpRequest(cache_answer(id, paused, cached)),
            id,
        );
    }
}

/// Once the document has been reloaded three times, every request is blocked that
/// nothing lets through.
pub proof fn three_reloads_stop_everything(
    s: NetworkState,
    t: NetworkState,
    event: EventRequestPausedView,
    v: Verdicts,
)
    requires
        s.document_reload_tracker >= 3,
        paused_open(s, event) is Some,
    ensures
        ({
            let paused = paused_open(s, event)->0;
            !excused(t, event, paused) ==> blocked(t, event, paused, v)
        }),
{
}

// ---------------------------------------------------------------------------
// Redirects

/// Every redirect that is known is one more request at the end of the chain; the
/// ones before it stay as they are.
pub proof fn redirect_chain_grows_by_one(s: NetworkState, event: EventRequestWillBeSentView)
    requires
        follows_redirect(s, event),
    ensures
        ({
            let before = s.requests[event.request_id];
            let chain = chain_of(s, event);
            &&& chain.len() == before.redirect_chain.len() + 1
            &&& chain.drop_last() == before.redirect_chain
            &&& chain.last() == hop(before, event.redirect_response->0)
            &&& chain.last().redirect_chain.len() == 0
        }),
{
    let before = s.requests[event.request_id];
    assert(chain_of(s, event).drop_last() =~= before.redirect_chain);
}

} // verus!
