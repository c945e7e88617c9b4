//! What values are seen as: nothing of what goes to the browser or comes from it is left
//! out, and nothing is seen in another's place.
use vstd::prelude::*;

use crate::command::{CdpCommand, CdpCommandView, NetworkEvent, NetworkEventView};
use crate::error::{CdpError, CdpErrorView};
use crate::matcher::texts;
use crate::network::decision::{opt_lookup, opt_paused, CacheLookup, PausedRequest};
use crate::network::manager::{command_views, event_views, opt_credentials, NetworkManager};
use crate::page::call::{
    cookie_views, step_views, Argument, ArgumentView, Call, CookieParam, Param, ParamView, Step,
    StepView, UserAgentMetadata,
};
use crate::page::cookies::{delete_views, fails_with, DeleteCookiesParams};
use crate::page::dom::{shadow_result, ShadowAction, ShadowActionView};
use crate::page::emulation::opt_str;
use crate::page::evaluation::{CallFunctionOnParams, EvaluateParams};
use crate::page::input::{mouse_views, MouseAction, MouseActionView};
use crate::page::messages::{TargetMessage, TargetMessageView};
use crate::page::navigation::{
    result_view, CachePlan, HttpAction, HttpActionView, NavigationAction, NavigationActionView,
};
use crate::page::user_agent::{opt_metadata, SetUserAgentOverrideParams};
use crate::protocol::{
    entries_map, opt_text, request_view, request_views, Credentials, EventRequestPaused, EventRequestWillBeSent, EventResponseReceived,
    HeaderValue, HeaderValueView, HttpRequest, Response,
};

verus! {

/// An optional text is seen as it is.
pub open spec fn seen(view: Option<Seq<char>>, text: Option<String>) -> bool {
    match text {
        Some(t) => view == Some(t@),
        None => view is None,
    }
}

// ---------------------------------------------------------------------------
// Events and requests

/// What the browser reports is seen field by field.
pub proof fn reports_are_seen_whole(
    header: HeaderValue,
    response: Response,
    sent: EventRequestWillBeSent,
    received: EventResponseReceived,
    paused: EventRequestPaused,
)
    ensures
        match header {
            HeaderValue::Text(t) => header@ == HeaderValueView::Text(t@),
            HeaderValue::Json(t) => header@ == HeaderValueView::Json(t@),
        },
        response@.url == response.url@,
        response@.status == response.status,
        response@.headers == response.headers@,
        response@.encoded_data_length == response.encoded_data_length,
        sent@.request_id == sent.request_id@,
        seen(sent@.frame_id, sent.frame_id),
        sent@.url == sent.url@,
        sent@.raw == sent.raw@,
        sent.redirect_response matches Some(r) ==> sent@.redirect_response == Some(r@),
        sent.redirect_response is None ==> sent@.redirect_response is None,
        received@.request_id == received.request_id@,
        received@.response == received.response@,
        received@.raw == received.raw@,
        paused@.request_id == paused.request_id@,
        seen(paused@.network_id, paused.network_id),
        paused@.resource_type == paused.resource_type,
        paused@.url == paused.url@,
        paused@.method == paused.method@,
        paused@.is_same_site == paused.is_same_site,
        seen(paused@.redirected_request_id, paused.redirected_request_id),
{
}

/// Credentials are seen as a name and a password, and a request with all that has become
/// of it.
pub proof fn credentials_and_requests_are_seen_whole(credentials: Credentials, request: HttpRequest)
    ensures
        credentials@.username == credentials.username@,
        credentials@.password == credentials.password@,
        request@.request_id == request.request_id@,
        seen(request@.frame, request.frame),
        seen(request@.interception_id, request.interception_id),
        request@.allow_interception == request.allow_interception,
        request@.from_memory_cache == request.from_memory_cache,
        seen(request@.failure_text, request.failure_text),
        request.response matches Some(r) ==> request@.response == Some(r@),
        request.response is None ==> request@.response is None,
        request@.redirect_chain.len() == request.redirect_chain@.len(),
        forall|i: int|
            0 <= i < request.redirect_chain@.len() ==> #[trigger] request@.redirect_chain[i]
                == request.redirect_chain@[i]@,
{
    reveal(request_view);
}

/// Errors are seen with their texts.
pub proof fn errors_are_seen_whole(error: CdpError)
    ensures
        match error {
            CdpError::Serde(e) => error@ == CdpErrorView::Serde(e),
            CdpError::ChromeMessage(text) => error@ == CdpErrorView::ChromeMessage(text@),
            CdpError::Msg(text) => error@ == CdpErrorView::Msg(text@),
            CdpError::JavascriptException(e) => error@ == CdpErrorView::JavascriptException(e),
            CdpError::Timeout => error@ == CdpErrorView::Timeout,
            CdpError::Decode => error@ == CdpErrorView::Decode,
            CdpError::Connection => error@ == CdpErrorView::Connection,
        },
{
}

// ---------------------------------------------------------------------------
// The network manager

/// Commands of the network layer are seen with all that they carry.
pub proof fn network_commands_are_seen_whole(command: CdpCommand)
    ensures
        match command {
            CdpCommand::NetworkEnable => command@ == CdpCommandView::NetworkEnable,
            CdpCommand::SetIgnoreCertificateErrors { ignore } => command@ == (
            CdpCommandView::SetIgnoreCertificateErrors { ignore }),
            CdpCommand::SetExtraHttpHeaders { headers } => command@ == (
            CdpCommandView::SetExtraHttpHeaders { headers: headers@ }),
            CdpCommand::SetBypassServiceWorker { bypass } => command@ == (
            CdpCommandView::SetBypassServiceWorker { bypass }),
            CdpCommand::SetCacheDisabled { cache_disabled } => command@ == (
            CdpCommandView::SetCacheDisabled { cache_disabled }),
            CdpCommand::FetchEnable { handle_auth_requests, url_pattern, request_stage } => {
                command@ == (CdpCommandView::FetchEnable {
                    handle_auth_requests,
                    url_pattern: url_pattern@,
                    request_stage,
                })
            },
            CdpCommand::FetchDisable => command@ == CdpCommandView::FetchDisable,
            CdpCommand::FailRequest { request_id, error_reason } => command@ == (
            CdpCommandView::FailRequest { request_id: request_id@, error_reason }),
            CdpCommand::FulfillRequest { request_id, response_code, response_headers, body } => {
                command@ matches CdpCommandView::FulfillRequest {
                    request_id: id,
                    response_code: code,
                    response_headers: headers,
                    body: bytes,
                } && {
                    &&& id == request_id@
                    &&& code == response_code
                    &&& seen(bytes, body)
                    &&& response_headers is None ==> headers is None
                    &&& response_headers matches Some(list) ==> (headers matches Some(h) && h.len()
                        == list@.len() && forall|i: int|
                        0 <= i < h.len() ==> (#[trigger] h[i]).0 == list@[i].0@ && h[i].1
                            == list@[i].1@)
                }
            },
            CdpCommand::ContinueRequest { request_id, url, intercept_response } => {
                command@ matches CdpCommandView::ContinueRequest {
                    request_id: id,
                    url: other,
                    intercept_response: intercepted,
                } && id == request_id@ && seen(other, url) && intercepted == intercept_response
            },
            CdpCommand::ContinueWithAuth { request_id, response, username, password } => {
                command@ matches CdpCommandView::ContinueWithAuth {
                    request_id: id,
                    response: answer,
                    username: name,
                    password: word,
                } && id == request_id@ && answer == response && seen(name, username) && seen(
                    word,
                    password,
                )
            },
            CdpCommand::EmulateNetworkConditionsByRule {
                offline,
                url_pattern,
                latency,
                download_throughput,
                upload_throughput,
            } => command@ == (CdpCommandView::EmulateNetworkConditionsByRule {
                offline,
                url_pattern: url_pattern@,
                latency: latency as int,
                download_throughput: download_throughput as int,
                upload_throughput: upload_throughput as int,
            }),
        },
{
}

/// Events for the owner are seen with what they are about.
pub proof fn network_events_are_seen_whole(event: NetworkEvent)
    ensures
        match event {
            NetworkEvent::SendCdpRequest(command) => event@ == NetworkEventView::SendCdpRequest(
                command@,
            ),
            NetworkEvent::Request(sent) => event@ == NetworkEventView::Request(sent@),
            NetworkEvent::Response(received) => event@ == NetworkEventView::Response(received@),
            NetworkEvent::RequestFailed(request) => event@ == NetworkEventView::RequestFailed(
                request@,
            ),
            NetworkEvent::RequestFinished(request) => event@ == NetworkEventView::RequestFinished(
                request@,
            ),
            NetworkEvent::BytesConsumed(bytes) => event@ == NetworkEventView::BytesConsumed(
                bytes as nat,
            ),
        },
{
}

/// What is decided on a paused request, and where its response is looked up, is seen
/// field by field.
pub proof fn paused_requests_are_seen_whole(paused: PausedRequest, lookup: CacheLookup)
    ensures
        paused@.current_url == paused.current_url@,
        paused@.had_replacer == paused.had_replacer,
        paused@.skip_networking == paused.skip_networking,
        lookup@.site_key == lookup.site_key@,
        lookup@.key == lookup.key@,
{
}

/// The state of a manager is that of its fields.
pub(crate) proof fn a_manager_is_seen_whole(m: NetworkManager)
    ensures
        m@.queued_events.len() == m.queued_events@.len(),
        forall|i: int|
            0 <= i < m.queued_events@.len() ==> #[trigger] m@.queued_events[i]
                == m.queued_events@[i]@,
        m.credentials matches Some(c) ==> m@.credentials == Some(c@),
        m.credentials is None ==> m@.credentials is None,
        m@.max_bytes_allowed == m.max_bytes_allowed,
        m@.block_all == m.block_all,
        m@.ignore_visuals == m.ignore_visuals,
        m@.block_stylesheets == m.block_stylesheets,
        m@.block_javascript == m.block_javascript,
        m@.block_analytics == m.block_analytics,
        m@.block_prefetch == m.block_prefetch,
        m@.only_html == m.only_html,
        m@.xml_document == m.xml_document,
        m@.intercept_manager == m.intercept_manager,
        m@.ignore_httpserrors == m.ignore_httpserrors,
        m@.user_cache_disabled == m.user_cache_disabled,
        m@.user_request_interception_enabled == m.user_request_interception_enabled,
        m@.protocol_request_interception_enabled == m.protocol_request_interception_enabled,
        m@.offline == m.offline,
        m@.request_timeout == m.request_timeout,
        m@.document_reload_tracker == m.document_reload_tracker,
        m@.document_target_url == m.document_target_url@,
        m@.document_target_domain == m.document_target_domain@,
        seen(m@.cache_site_key, m.cache_site_key),
        m@.cache_policy == m.cache_policy,
        m@.blacklist_strict == m.blacklist_strict,
        m@.requests == m.requests@,
        m@.requests_will_be_sent == m.requests_will_be_sent@,
        m@.request_id_to_interception_id == m.request_id_to_interception_id@,
        m@.attempted_authentications == m.attempted_authentications@,
        m@.extra_headers == m.extra_headers@,
        m@.block_ads.on <==> m.ad_blocker is Some,
        m.blacklist_matcher matches Some(list) ==> m@.blacklist_matcher == Some(list@),
        m.blacklist_matcher is None ==> m@.blacklist_matcher is None,
        m.whitelist_matcher matches Some(list) ==> m@.whitelist_matcher == Some(list@),
        m.whitelist_matcher is None ==> m@.whitelist_matcher is None,
        m@.allowed_3rd_party == m.allowed_3rd_party@,
        m@.blacklist_patterns.len() == m.blacklist_patterns@.len(),
        m@.whitelist_patterns.len() == m.whitelist_patterns@.len(),
        forall|i: int|
            0 <= i < m.blacklist_patterns@.len() ==> #[trigger] m@.blacklist_patterns[i]
                == m.blacklist_patterns@[i]@,
        forall|i: int|
            0 <= i < m.whitelist_patterns@.len() ==> #[trigger] m@.whitelist_patterns[i]
                == m.whitelist_patterns@[i]@,
{
}

// ---------------------------------------------------------------------------
// Pages

/// Cookies are seen field by field, those to be set and those to be deleted.
pub proof fn cookies_are_seen_whole(cookie: CookieParam, deletion: DeleteCookiesParams)
    ensures
        cookie@.name == cookie.name@,
        cookie@.value == cookie.value@,
        seen(cookie@.url, cookie.url),
        seen(cookie@.domain, cookie.domain),
        seen(cookie@.path, cookie.path),
        cookie@.rest == cookie.rest,
        deletion@.name == deletion.name@,
        seen(deletion@.url, deletion.url),
        seen(deletion@.domain, deletion.domain),
        seen(deletion@.path, deletion.path),
{
}

/// A command of a page is seen by its method and its parameters, in their order, and a
/// step by its command.
pub proof fn page_commands_are_seen_whole(c: Call, step: Step)
    ensures
        c@.method == c.method@,
        c@.params.len() == c.params@.len(),
        forall|i: int|
            0 <= i < c.params@.len() ==> (#[trigger] c@.params[i]).0 == c.params@[i].0@
                && c@.params[i].1 == c.params@[i].1@,
        match step {
            Step::Send(command) => step@ == StepView::Send(command@),
            Step::Execute(command) => step@ == StepView::Execute(command@),
        },
{
}

/// Parameters and arguments are seen with their values.
pub proof fn parameters_are_seen_whole(param: Param, argument: Argument)
    ensures
        match param {
            Param::Bool(yes) => param@ == ParamView::Bool(yes),
            Param::Int(number) => param@ == ParamView::Int(number as int),
            Param::Number(bits) => param@ == ParamView::Number(bits),
            Param::Text(text) => param@ == ParamView::Text(text@),
            Param::Texts(list) => param@ matches ParamView::Texts(texts) && texts.len()
                == list@.len() && forall|i: int|
                0 <= i < texts.len() ==> #[trigger] texts[i] == list@[i]@,
            Param::Named(list) => param@ matches ParamView::Named(pairs) && pairs.len()
                == list@.len() && forall|i: int|
                0 <= i < pairs.len() ==> (#[trigger] pairs[i]).0 == list@[i].0@ && pairs[i].1
                    == list@[i].1@,
            Param::Patterns(list) => param@ matches ParamView::Patterns(patterns)
                && patterns.len() == list@.len() && forall|i: int|
                0 <= i < patterns.len() ==> (#[trigger] patterns[i]).0 == list@[i].0@
                    && patterns[i].1 == list@[i].1,
            Param::Headers(headers) => param@ == ParamView::Headers(headers@),
            Param::Metadata(metadata) => param@ == ParamView::Metadata(metadata@),
            Param::Cookies(list) => param@ matches ParamView::Cookies(cookies) && cookies.len()
                == list@.len() && forall|i: int|
                0 <= i < cookies.len() ==> #[trigger] cookies[i] == list@[i]@,
            Param::Json(value) => param@ == ParamView::Json(value),
            Param::Arguments(list) => param@ matches ParamView::Arguments(arguments)
                && arguments.len() == list@.len() && forall|i: int|
                0 <= i < arguments.len() ==> #[trigger] arguments[i] == list@[i]@,
            Param::Color(color) => param@ == ParamView::Color(color),
        },
        match argument {
            Argument::Text(text) => argument@ == ArgumentView::Text(text@),
            Argument::Json(value) => argument@ == ArgumentView::Json(value),
        },
{
}

/// Expressions and functions are seen field by field.
pub proof fn evaluations_are_seen_whole(e: EvaluateParams, f: CallFunctionOnParams)
    ensures
        e@.expression == e.expression@,
        e@.context_id == e.context_id,
        e@.await_promise == e.await_promise,
        e@.return_by_value == e.return_by_value,
        e@.user_gesture == e.user_gesture,
        e@.eval_as_function_fallback == e.eval_as_function_fallback,
        f@.function_declaration == f.function_declaration@,
        f@.arguments.len() == f.arguments@.len(),
        forall|i: int|
            0 <= i < f.arguments@.len() ==> #[trigger] f@.arguments[i] == f.arguments@[i]@,
        f@.execution_context_id == f.execution_context_id,
        f@.await_promise == f.await_promise,
        f@.return_by_value == f.return_by_value,
        f@.user_gesture == f.user_gesture,
{
}

/// A user agent and its metadata are seen field by field.
pub proof fn user_agents_are_seen_whole(a: SetUserAgentOverrideParams, m: UserAgentMetadata)
    ensures
        a@.user_agent == a.user_agent@,
        seen(a@.accept_language, a.accept_language),
        seen(a@.platform, a.platform),
        a.user_agent_metadata matches Some(metadata) ==> a@.user_agent_metadata == Some(metadata@),
        a.user_agent_metadata is None ==> a@.user_agent_metadata is None,
        m@.platform == m.platform@,
        m@.platform_version == m.platform_version@,
        m@.architecture == m.architecture@,
        m@.model == m.model@,
        m@.bitness == m.bitness@,
        m@.mobile == m.mobile,
        m@.wow64 == m.wow64,
        m@.brands.len() == m.brands@.len(),
        forall|i: int|
            0 <= i < m.brands@.len() ==> (#[trigger] m@.brands[i]).0 == m.brands@[i].brand@
                && m@.brands[i].1 == m.brands@[i].version@,
        m@.full_version_list.len() == m.full_version_list@.len(),
        forall|i: int|
            0 <= i < m.full_version_list@.len() ==> (#[trigger] m@.full_version_list[i]).0
                == m.full_version_list@[i].brand@ && m@.full_version_list[i].1
                == m.full_version_list@[i].version@,
{
}

/// What is to be done of a navigation, with the mouse, and around a navigation, is seen
/// with all that it is about.
pub proof fn actions_are_seen_whole(
    n: NavigationAction,
    h: HttpAction,
    mouse: MouseAction,
    plan: CachePlan,
)
    ensures
        match n {
            NavigationAction::Prepare { source, url } => n@ == (NavigationActionView::Prepare {
                source: source@,
                url: url@,
            }),
            NavigationAction::SetContent(c) => n@ == NavigationActionView::SetContent(c@),
            NavigationAction::Navigate(c) => n@ == NavigationActionView::Navigate(c@),
            NavigationAction::Done => n@ == NavigationActionView::Done,
            NavigationAction::Fail(error) => n@ == NavigationActionView::Fail(error@),
            NavigationAction::Ignore => n@ == NavigationActionView::Ignore,
        },
        match h {
            HttpAction::Prepare { source, url } => h@ == (HttpActionView::Prepare {
                source: source@,
                url: url@,
            }),
            HttpAction::SetContent(c) => h@ == HttpActionView::SetContent(c@),
            HttpAction::Navigate(c) => h@ == HttpActionView::Navigate(c@),
            HttpAction::Done(request) => h@ == HttpActionView::Done(request@),
            HttpAction::Fail(error) => h@ == HttpActionView::Fail(error@),
            HttpAction::Ignore => h@ == HttpActionView::Ignore,
        },
        match mouse {
            MouseAction::Move(point) => mouse@ == MouseActionView::Move(point),
            MouseAction::Click(point) => mouse@ == MouseActionView::Click(point),
            MouseAction::Run(step) => mouse@ == MouseActionView::Run(step@),
        },
        plan@.cache_site == plan.cache_site@,
        plan@.cache_policy == plan.cache_policy,
        seen(plan@.auth, plan.auth),
        seen(plan@.cache_strategy, plan.cache_strategy),
        seen(plan@.listener, plan.listener),
        plan@.intercept == plan.intercept,
        seen(plan@.seed_from, plan.seed_from),
        plan@.at_once == plan.at_once,
        plan@.navigation == plan.navigation,
        plan@.outcome == plan.outcome,
{
}

/// Messages to the handler of a target are seen with all that they say.
pub proof fn target_messages_are_seen_whole(message: TargetMessage)
    ensures
        match message {
            TargetMessage::Name { frame_id } => message@ matches TargetMessageView::Name {
                frame_id: id,
            } && seen(id, frame_id),
            TargetMessage::Url { frame_id } => message@ matches TargetMessageView::Url {
                frame_id: id,
            } && seen(id, frame_id),
            TargetMessage::Parent { frame_id } => message@ == (TargetMessageView::Parent {
                frame_id: frame_id@,
            }),
            TargetMessage::MainFrame => message@ == TargetMessageView::MainFrame,
            TargetMessage::AllFrames => message@ == TargetMessageView::AllFrames,
            TargetMessage::Authenticate(c) => message@ == TargetMessageView::Authenticate(c@),
            TargetMessage::BlockNetwork(yes) => message@ == TargetMessageView::BlockNetwork(yes),
            TargetMessage::EnableInterception(yes) => message@
                == TargetMessageView::EnableInterception(yes),
            TargetMessage::CacheKey { site, policy } => message@
                matches TargetMessageView::CacheKey { site: key, policy: kept } && seen(key, site)
                && kept == policy,
        },
{
}

// ---------------------------------------------------------------------------
// Lists and what may be missing

/// Lists are seen item by item, in their order: nothing is left out and nothing is added.
pub proof fn lists_are_seen_item_by_item(
    steps: Seq<Step>,
    cookies: Seq<CookieParam>,
    deletions: Seq<DeleteCookiesParams>,
    requests: Seq<HttpRequest>,
    events: Seq<NetworkEvent>,
    commands: Seq<CdpCommand>,
    actions: Seq<MouseAction>,
    strings: Seq<String>,
    i: int,
)
    ensures
        step_views(steps).len() == steps.len(),
        0 <= i < steps.len() ==> step_views(steps)[i] == steps[i]@,
        cookie_views(cookies).len() == cookies.len(),
        0 <= i < cookies.len() ==> cookie_views(cookies)[i] == cookies[i]@,
        delete_views(deletions).len() == deletions.len(),
        0 <= i < deletions.len() ==> delete_views(deletions)[i] == deletions[i]@,
        request_views(requests).len() == requests.len(),
        0 <= i < requests.len() ==> request_views(requests)[i] == requests[i]@,
        event_views(events).len() == events.len(),
        0 <= i < events.len() ==> event_views(events)[i] == events[i]@,
        command_views(commands).len() == commands.len(),
        0 <= i < commands.len() ==> command_views(commands)[i] == commands[i]@,
        mouse_views(actions).len() == actions.len(),
        0 <= i < actions.len() ==> mouse_views(actions)[i] == actions[i]@,
        texts(strings).len() == strings.len(),
        0 <= i < strings.len() ==> texts(strings)[i] == strings[i]@,
{
}

/// What may be missing is seen exactly if it is there.
pub proof fn what_is_there_is_seen(
    text: Option<String>,
    slice: Option<&str>,
    paused: Option<PausedRequest>,
    lookup: Option<CacheLookup>,
    metadata: Option<UserAgentMetadata>,
    credentials: Option<Credentials>,
)
    ensures
        seen(opt_text(text), text),
        slice matches Some(s) ==> opt_str(slice) == Some(s@),
        slice is None ==> opt_str(slice) is None,
        paused matches Some(p) ==> opt_paused(paused) == Some(p@),
        paused is None ==> opt_paused(paused) is None,
        lookup matches Some(l) ==> opt_lookup(lookup) == Some(l@),
        lookup is None ==> opt_lookup(lookup) is None,
        metadata matches Some(m) ==> opt_metadata(metadata) == Some(m@),
        metadata is None ==> opt_metadata(metadata) is None,
        credentials matches Some(c) ==> opt_credentials(credentials) == Some(c@),
        credentials is None ==> opt_credentials(credentials) is None,
{
}

/// Of two headers of one name the later one counts, and headers of other names stay.
pub proof fn the_later_header_counts(
    entries: Seq<(String, HeaderValue)>,
    entry: (String, HeaderValue),
    name: Seq<char>,
)
    ensures
        ({
            let all = entries_map(entries.push(entry));
            &&& all.contains_pair(entry.0@, entry.1@)
            &&& name != entry.0@ ==> (all.dom().contains(name) <==> entries_map(
                entries,
            ).dom().contains(name))
            &&& name != entry.0@ && all.dom().contains(name) ==> all[name] == entries_map(
                entries,
            )[name]
        }),
        !entries_map(Seq::empty()).dom().contains(name),
{
    assert(entries.push(entry).drop_last() =~= entries);
}

/// What a result fails with is its message.
pub proof fn a_failure_has_its_message(result: Result<(), CdpError>, message: Seq<char>)
    ensures
        fails_with(result, message) <==> (result matches Err(error) && (error matches CdpError::Msg(
            text,
        ) && text@ == message)),
{
}

/// What comes of a navigation, and of a search in a shadow root, is seen with its request,
/// its action or its error.
pub proof fn results_are_seen_whole(
    navigated: Result<Option<HttpRequest>, CdpError>,
    searched: Result<ShadowAction, CdpError>,
)
    ensures
        match navigated {
            Ok(Some(request)) => result_view(navigated) matches Ok(Some(r)) && r == request@,
            Ok(None) => result_view(navigated) matches Ok(r) && r is None,
            Err(error) => result_view(navigated) matches Err(e) && e == error@,
        },
        match searched {
            Ok(action) => shadow_result(searched) matches Ok(a) && a == action@,
            Err(error) => shadow_result(searched) matches Err(e) && e == error@,
        },
        searched matches Ok(ShadowAction::Find { selector, node_id }) ==> (shadow_result(searched)
            matches Ok(ShadowActionView::Find { selector: s, node_id: n }) && s == selector@ && n
            == node_id),
        searched matches Ok(ShadowAction::Done(id)) ==> (shadow_result(searched) matches Ok(
            ShadowActionView::Done(n),
        ) && n == id),
        searched matches Ok(ShadowAction::Ask(c)) ==> (shadow_result(searched) matches Ok(
            ShadowActionView::Ask(v),
        ) && v == c@),
{
}

} // verus!
