//! Where a page goes: a navigation leads to the URL that it was given, or shows the
//! cached document of it.
use vstd::prelude::*;

use crate::error::CdpErrorView;
use crate::network::state::BasicCachePolicy;
use crate::page::call::{call, CallView, ParamView};
use crate::page::laws::{a_parameter_is_added, one_if, param, text_param};
use crate::page::navigation::{
    concluded, http_navigated, navigate_call, navigated, remote_plan, seed_plan,
    set_document_call, HttpActionView, HttpEvent, NavigateParams, NavigationActionView,
    NavigationEvent, NavigationStage, PlanOutcome,
};
use crate::protocol::{opt_text, HttpRequestView};

verus! {

/// The command navigates as it is asked to: to the URL, and with the referrer, the kind
/// of transition and the frame where these are given. It says nothing else.
pub open spec fn leads_to(c: CallView, params: NavigateParams) -> bool {
    &&& c.method == "Page.navigate"@
    &&& param(c, "url"@) == Some(ParamView::Text(params.url@))
    &&& param(c, "referrer"@) == text_param(opt_text(params.referrer))
    &&& param(c, "transitionType"@) == text_param(opt_text(params.transition_type))
    &&& param(c, "frameId"@) == text_param(opt_text(params.frame_id))
    &&& c.params.len() == 1 + one_if(params.referrer is Some) + one_if(
        params.transition_type is Some,
    ) + one_if(params.frame_id is Some)
}

/// A navigation is told to the browser as it was given.
pub proof fn a_navigation_leads_where_it_is_asked_to(params: NavigateParams)
    ensures
        leads_to(navigate_call(params), params),
{
    broadcast use a_parameter_is_added;

    reveal_strlit("url");
    reveal_strlit("referrer");
    reveal_strlit("transitionType");
    reveal_strlit("frameId");
    assert("url"@.len() == 3 && "referrer"@.len() == 8);
    assert("transitionType"@.len() == 14 && "frameId"@.len() == 7);
    let none = call("Page.navigate"@);
    assert(forall|name: Seq<char>| #[trigger] param(none, name) is None);
    let base = none.with(
        "url"@,
        ParamView::Text(params.url@),
    );
    let with_referrer = base.with_text("referrer"@, opt_text(params.referrer));
    let with_type = with_referrer.with_text(
        "transitionType"@,
        opt_text(params.transition_type),
    );
    assert(param(base, "url"@) == Some(ParamView::Text(params.url@)));
    assert(param(base, "referrer"@) is None);
    assert(param(base, "transitionType"@) is None);
    assert(param(base, "frameId"@) is None);
    assert(param(with_referrer, "url"@) == Some(ParamView::Text(params.url@)));
    assert(param(with_referrer, "transitionType"@) is None);
    assert(param(with_referrer, "frameId"@) is None);
    assert(param(with_type, "referrer"@) == text_param(opt_text(params.referrer)));
    assert(param(with_type, "frameId"@) is None);
}

/// The command sets this document in a frame, which is named by the empty text where it
/// is not known.
pub open spec fn shows(c: CallView, frame: Option<Seq<char>>, html: Seq<char>) -> bool {
    &&& c.method == "Page.setDocumentContent"@
    &&& param(c, "html"@) == Some(ParamView::Text(html))
    &&& param(c, "frameId"@) == Some(
        ParamView::Text(
            if frame is Some {
                frame->0
            } else {
                Seq::empty()
            },
        ),
    )
    &&& c.params.len() == 2
}

/// A document is set as it was given, in the frame that it was given for.
pub proof fn a_document_is_set_as_it_is(frame: Option<Seq<char>>, html: Seq<char>)
    ensures
        shows(set_document_call(frame, html), frame, html),
{
    broadcast use a_parameter_is_added;

    reveal_strlit("html");
    reveal_strlit("frameId");
    reveal_strlit("");
    assert("html"@.len() == 4 && "frameId"@.len() == 7);
    assert(""@ =~= Seq::empty());
    let first = call("Page.setDocumentContent"@).with(
        "frameId"@,
        ParamView::Text(
            match frame {
                Some(id) => id,
                None => ""@,
            },
        ),
    );
    assert(set_document_call(frame, html) == first.with("html"@, ParamView::Text(html)));
    assert(param(first.with("html"@, ParamView::Text(html)), "frameId"@) == param(
        first,
        "frameId"@,
    ));
}

// ---------------------------------------------------------------------------
// Navigation that asks a cache first

/// Whatever makes the page navigate, it goes where it was asked to go; whatever document
/// is prepared is the cached one, for that URL; and whatever document is set is the one
/// that was prepared, in the main frame.
pub proof fn every_way_leads_to_the_url(
    params: NavigateParams,
    stage: NavigationStage,
    event: NavigationEvent,
)
    ensures
        match navigated(params, stage, event).1 {
            NavigationActionView::Navigate(c) => leads_to(c, params),
            NavigationActionView::Prepare { source, url } => {
                &&& url == params.url@
                &&& event matches NavigationEvent::Cached(Some(cached)) && source == cached@
            },
            NavigationActionView::SetContent(c) => event matches NavigationEvent::Prepared {
                html,
                main_frame: Some(frame),
            } && shows(c, opt_text(frame), html@),
            NavigationActionView::Fail(error) => {
                ||| event matches NavigationEvent::Navigated(Some(text)) && error
                    == CdpErrorView::ChromeMessage(text@)
                ||| event matches NavigationEvent::NavigateFailed(reason) && error == reason@
            },
            _ => true,
        },
{
    a_navigation_leads_where_it_is_asked_to(params);
    match event {
        NavigationEvent::Prepared { html, main_frame: Some(frame) } => a_document_is_set_as_it_is(
            opt_text(frame),
            html@,
        ),
        _ => {},
    }
}

/// Without a cached document the browser navigates, and what comes of the navigation is
/// what the browser says of it.
pub proof fn without_a_cached_document_the_browser_navigates(
    params: NavigateParams,
    error_text: Option<String>,
)
    ensures
        ({
            let (asked, action) = navigated(
                params,
                NavigationStage::Cache,
                NavigationEvent::Cached(None),
            );
            let (over, result) = navigated(params, asked, NavigationEvent::Navigated(error_text));
            &&& action matches NavigationActionView::Navigate(c) && leads_to(c, params)
            &&& over == NavigationStage::Done
            &&& match error_text {
                Some(text) => result == NavigationActionView::Fail(
                    CdpErrorView::ChromeMessage(text@),
                ),
                None => result == NavigationActionView::Done,
            }
        }),
{
    a_navigation_leads_where_it_is_asked_to(params);
}

/// A cached document is prepared, set, and then the page is there, without a navigation.
pub proof fn a_cached_document_is_shown(
    params: NavigateParams,
    source: String,
    html: String,
    frame: Option<String>,
)
    ensures
        ({
            let (found, first) = navigated(
                params,
                NavigationStage::Cache,
                NavigationEvent::Cached(Some(source)),
            );
            let (prepared, second) = navigated(
                params,
                found,
                NavigationEvent::Prepared { html, main_frame: Some(frame) },
            );
            let (over, third) = navigated(params, prepared, NavigationEvent::ContentSet);
            let (lost, fourth) = navigated(params, prepared, NavigationEvent::ContentFailed);
            &&& first == (NavigationActionView::Prepare { source: source@, url: params.url@ })
            &&& second matches NavigationActionView::SetContent(c) && shows(
                c,
                opt_text(frame),
                html@,
            )
            &&& over == NavigationStage::Done && third == NavigationActionView::Done
            &&& lost == NavigationStage::Done && fourth == NavigationActionView::Done
        }),
{
    a_document_is_set_as_it_is(opt_text(frame), html@);
}

/// A cached document that can not be set in time, or in no frame, does not stop the
/// page: it navigates.
pub proof fn a_document_that_is_not_set_in_time_is_navigated_to(
    params: NavigateParams,
    html: String,
)
    ensures
        ({
            let late = navigated(params, NavigationStage::Content, NavigationEvent::ContentTimeout);
            let lost = navigated(
                params,
                NavigationStage::Prepare,
                NavigationEvent::Prepared { html, main_frame: None },
            );
            &&& late.0 == NavigationStage::Navigate && lost.0 == NavigationStage::Navigate
            &&& late.1 matches NavigationActionView::Navigate(c) && leads_to(c, params)
            &&& lost.1 matches NavigationActionView::Navigate(c) && leads_to(c, params)
        }),
{
    a_navigation_leads_where_it_is_asked_to(params);
}

/// A navigation that the browser could not be told of fails for that reason.
pub proof fn a_navigation_that_is_not_told_fails(
    params: NavigateParams,
    error: crate::error::CdpError,
)
    ensures
        navigated(params, NavigationStage::Navigate, NavigationEvent::NavigateFailed(error)) == (
            NavigationStage::Done,
            NavigationActionView::Fail(error@),
        ),
{
}

// ---------------------------------------------------------------------------
// Navigation that hands out its request

/// Whatever makes the page navigate, it goes where it was asked to go; and the request
/// that is handed out is the one that loaded the page.
pub proof fn every_way_leads_to_the_url_by_a_request(
    params: NavigateParams,
    stage: NavigationStage,
    event: HttpEvent,
)
    ensures
        match http_navigated(params, stage, event).1 {
            HttpActionView::Navigate(c) => leads_to(c, params),
            HttpActionView::Prepare { source, url } => {
                &&& url == params.url@
                &&& event matches HttpEvent::Cached(Some(cached)) && source == cached@
            },
            HttpActionView::SetContent(c) => event matches HttpEvent::Prepared {
                html,
                main_frame: Some(frame),
            } && shows(c, opt_text(frame), html@),
            HttpActionView::Done(request) => {
                ||| event matches HttpEvent::Navigated(Some(r)) && request == r@
                    && r@.failure_text is None
                ||| event matches HttpEvent::ContentSet(Some(r)) && request == r@
            },
            HttpActionView::Fail(error) => {
                ||| event matches HttpEvent::NavigateFailed(reason) && error == reason@
                ||| event matches HttpEvent::Navigated(Some(r)) && (r@.failure_text matches Some(
                    text,
                ) && error == CdpErrorView::ChromeMessage(text))
                ||| error == CdpErrorView::ChromeMessage("failed to get navigation result"@)
            },
            HttpActionView::Ignore => true,
        },
{
    a_navigation_leads_where_it_is_asked_to(params);
    match event {
        HttpEvent::Prepared { html, main_frame: Some(frame) } => a_document_is_set_as_it_is(
            opt_text(frame),
            html@,
        ),
        _ => {},
    }
}

/// Without a cached document the browser navigates. The request that it is made by is
/// handed out; one that failed is an error, for its own reason, and none is one too.
pub proof fn a_navigation_hands_out_its_request(
    params: NavigateParams,
    request: Option<crate::protocol::HttpRequest>,
)
    ensures
        ({
            let (asked, action) = http_navigated(
                params,
                NavigationStage::Cache,
                HttpEvent::Cached(None),
            );
            let (over, result) = http_navigated(params, asked, HttpEvent::Navigated(request));
            &&& action matches HttpActionView::Navigate(c) && leads_to(c, params)
            &&& over == NavigationStage::Done
            &&& match request {
                Some(r) => match r@.failure_text {
                    Some(text) => result == HttpActionView::Fail(
                        CdpErrorView::ChromeMessage(text),
                    ),
                    None => result == HttpActionView::Done(r@),
                },
                None => result == HttpActionView::Fail(
                    CdpErrorView::ChromeMessage("failed to get navigation result"@),
                ),
            }
        }),
{
    a_navigation_leads_where_it_is_asked_to(params);
}

/// A cached document is prepared and set, and the request that set it is handed out. One
/// that could not be set is an error, and one that could not be set in time, or that the
/// browser could not be told of, is navigated to.
pub proof fn a_cached_document_hands_out_its_request(
    params: NavigateParams,
    source: String,
    html: String,
    frame: Option<String>,
    request: crate::protocol::HttpRequest,
)
    ensures
        ({
            let (found, first) = http_navigated(
                params,
                NavigationStage::Cache,
                HttpEvent::Cached(Some(source)),
            );
            let (prepared, second) = http_navigated(
                params,
                found,
                HttpEvent::Prepared { html, main_frame: Some(frame) },
            );
            let set = http_navigated(params, prepared, HttpEvent::ContentSet(Some(request)));
            let failed = http_navigated(params, prepared, HttpEvent::ContentFailed);
            let late = http_navigated(params, prepared, HttpEvent::ContentTimeout);
            let unsent = http_navigated(params, prepared, HttpEvent::ContentNotSent);
            let frameless = http_navigated(
                params,
                found,
                HttpEvent::Prepared { html, main_frame: None },
            );
            &&& first == (HttpActionView::Prepare { source: source@, url: params.url@ })
            &&& second matches HttpActionView::SetContent(c) && shows(c, opt_text(frame), html@)
            &&& set == (NavigationStage::Done, HttpActionView::Done(request@))
            &&& failed.0 == NavigationStage::Done && failed.1 is Fail
            &&& late.0 == NavigationStage::Navigate && unsent == late && frameless == late
            &&& late.1 matches HttpActionView::Navigate(c) && leads_to(c, params)
        }),
{
    a_navigation_leads_where_it_is_asked_to(params);
    a_document_is_set_as_it_is(opt_text(frame), html@);
}

// ---------------------------------------------------------------------------
// Plans with a cache

/// A plan goes where it was asked to go, under the site, the authorisation, the policy
/// and the strategy that were given. A cache that listens is seeded from the endpoint it
/// dumps to, which is the one that was given if one was.
pub proof fn a_plan_keeps_what_it_was_given(
    navigation: NavigateParams,
    site: Seq<char>,
    auth: Option<Seq<char>>,
    policy: Option<BasicCachePolicy>,
    strategy: Option<Seq<char>>,
    remote: Option<Seq<char>>,
    intercept: Option<bool>,
    outcome: PlanOutcome,
    at_once: bool,
)
    ensures
        ({
            let plan = remote_plan(
                navigation,
                site,
                auth,
                policy,
                strategy,
                remote,
                intercept,
                outcome,
            );
            let seeded = seed_plan(navigation, site, auth, policy, remote, at_once);
            &&& plan.navigation == navigation && seeded.navigation == navigation
            &&& plan.cache_site == site && seeded.cache_site == site
            &&& plan.auth == auth && seeded.auth == auth
            &&& plan.cache_policy == policy && seeded.cache_policy == policy
            &&& plan.cache_strategy == strategy && seeded.cache_strategy is None
            &&& remote is Some ==> plan.listener == remote && plan.seed_from == remote
            &&& remote is None ==> plan.listener == Some("true"@) && plan.seed_from == Some(
                "true"@,
            )
            &&& plan.intercept <==> !(intercept matches Some(yes) && !yes)
            &&& plan.outcome == outcome
            &&& !plan.at_once && seeded.at_once == at_once
            &&& seeded.listener is None && !seeded.intercept && seeded.seed_from == remote
            &&& at_once ==> seeded.outcome == PlanOutcome::Ignored
            &&& !at_once ==> seeded.outcome == PlanOutcome::HandedOn
        }),
{
}

/// A plan that ignores its navigation always succeeds; any other one fails exactly if
/// its navigation fails, with the same error; and only one that hands out the request
/// does so.
pub proof fn a_plan_fails_with_its_navigation(
    outcome: PlanOutcome,
    result: Result<Option<HttpRequestView>, CdpErrorView>,
)
    ensures
        ({
            let end = concluded(outcome, result);
            &&& outcome == PlanOutcome::Ignored ==> end is Ok
            &&& outcome != PlanOutcome::Ignored ==> (end is Err <==> result is Err)
            &&& end is Err ==> end->Err_0 == result->Err_0
            &&& end is Ok && end->Ok_0 is Some ==> outcome == PlanOutcome::Request && end == result
            &&& outcome == PlanOutcome::Request ==> end == result
        }),
{
}

} // verus!
