//! Navigation, from the network or from a cache.
use vstd::prelude::*;

use crate::error::{CdpError, CdpErrorView};
use crate::network::state::BasicCachePolicy;
use crate::page::call::{call, Call, CallView, Page, Param, ParamView};
use crate::protocol::{copy_opt, opt_text, HttpRequest, HttpRequestView};

verus! {

/// Where a page goes.
#[derive(Debug)]
pub struct NavigateParams {
    /// The URL.
    pub url: String,
    /// The URL that it comes from.
    pub referrer: Option<String>,
    /// The kind of transition.
    pub transition_type: Option<String>,
    /// The frame.
    pub frame_id: Option<String>,
}

/// The command that navigates.
pub open spec fn navigate_call(params: NavigateParams) -> CallView {
    call("Page.navigate"@).with("url"@, ParamView::Text(params.url@)).with_text(
        "referrer"@,
        opt_text(params.referrer),
    ).with_text("transitionType"@, opt_text(params.transition_type)).with_text(
        "frameId"@,
        opt_text(params.frame_id),
    )
}

impl NavigateParams {
    /// The command that navigates.
    pub fn call(&self) -> (c: Call)
        ensures
            c@ == navigate_call(*self),
    {
        Call::new("Page.navigate").with("url", Param::Text(self.url.clone())).with_text(
            "referrer",
            copy_opt(&self.referrer),
        ).with_text("transitionType", copy_opt(&self.transition_type)).with_text(
            "frameId",
            copy_opt(&self.frame_id),
        )
    }
}

/// The command that sets the document of a frame. A frame that is not known is the
/// empty text.
pub open spec fn set_document_call(frame: Option<Seq<char>>, html: Seq<char>) -> CallView {
    call("Page.setDocumentContent"@).with(
        "frameId"@,
        ParamView::Text(
            match frame {
                Some(id) => id,
                None => ""@,
            },
        ),
    ).with("html"@, ParamView::Text(html))
}

/// The command that sets the document of a frame.
pub fn set_document(frame: Option<String>, html: String) -> (c: Call)
    ensures
        c@ == set_document_call(opt_text(frame), html@),
{
    let frame_id = match frame {
        Some(id) => id,
        None => "".to_owned(),
    };
    Call::new("Page.setDocumentContent").with("frameId", Param::Text(frame_id)).with(
        "html",
        Param::Text(html),
    )
}

/// What comes of a navigation: the browser says why it failed.
pub fn navigation_result(error_text: Option<String>) -> (result: Result<(), CdpError>)
    ensures
        match error_text {
            Some(text) => result matches Err(e) && e@ == CdpErrorView::ChromeMessage(text@),
            None => result is Ok,
        },
{
    match error_text {
        Some(text) => Err(CdpError::ChromeMessage(text)),
        None => Ok(()),
    }
}

// ---------------------------------------------------------------------------
// Navigation that asks a cache first

/// How far a navigation has come.
#[derive(Debug, Clone, Copy, PartialEq, Eq, Structural)]
pub enum NavigationStage {
    /// The cache is asked.
    Cache,
    /// The cached document is prepared.
    Prepare,
    /// The cached document is set.
    Content,
    /// The browser navigates.
    Navigate,
    /// The navigation is over.
    Done,
}

/// What happened.
#[derive(Debug)]
pub enum NavigationEvent {
    /// The cache has this document, or none.
    Cached(Option<String>),
    /// The document has been prepared for its URL, the events of the page's life are
    /// on, and the main frame is known, or could not be asked for.
    Prepared { html: String, main_frame: Option<Option<String>> },
    /// The document is set.
    ContentSet,
    /// The document could not be set in time.
    ContentTimeout,
    /// The document could not be set.
    ContentFailed,
    /// The browser has navigated, or says why it has not.
    Navigated(Option<String>),
    /// The browser could not be told to navigate.
    NavigateFailed(CdpError),
}

/// What is to be done.
#[derive(Debug)]
pub enum NavigationAction {
    /// Prepare the cached document for its URL, turn the events of the page's life
    /// on, and ask for the main frame.
    Prepare { source: String, url: String },
    /// Set the document.
    SetContent(Call),
    /// Navigate.
    Navigate(Call),
    /// The page is there.
    Done,
    /// The navigation has failed.
    Fail(CdpError),
    /// Nothing: the event does not fit.
    Ignore,
}

/// The view of [`NavigationAction`].
pub enum NavigationActionView {
    Prepare { source: Seq<char>, url: Seq<char> },
    SetContent(CallView),
    Navigate(CallView),
    Done,
    Fail(CdpErrorView),
    Ignore,
}

impl View for NavigationAction {
    type V = NavigationActionView;

    open spec fn view(&self) -> NavigationActionView {
        match *self {
            NavigationAction::Prepare { source, url } => NavigationActionView::Prepare {
                source: source@,
                url: url@,
            },
            NavigationAction::SetContent(c) => NavigationActionView::SetContent(c@),
            NavigationAction::Navigate(c) => NavigationActionView::Navigate(c@),
            NavigationAction::Done => NavigationActionView::Done,
            NavigationAction::Fail(error) => NavigationActionView::Fail(error@),
            NavigationAction::Ignore => NavigationActionView::Ignore,
        }
    }
}

/// What an event makes of a navigation. A cached document is set; the browser
/// navigates if there is none, if the main frame can not be asked for, or if the
/// document could not be set in time. Any other failure to set it is the end.
pub open spec fn navigated(
    params: NavigateParams,
    stage: NavigationStage,
    event: NavigationEvent,
) -> (NavigationStage, NavigationActionView) {
    let navigate = (
        NavigationStage::Navigate,
        NavigationActionView::Navigate(navigate_call(params)),
    );
    let done = (NavigationStage::Done, NavigationActionView::Done);
    match (stage, event) {
        (NavigationStage::Cache, NavigationEvent::Cached(found)) => match found {
            Some(source) => (
                NavigationStage::Prepare,
                NavigationActionView::Prepare { source: source@, url: params.url@ },
            ),
            None => navigate,
        },
        (NavigationStage::Prepare, NavigationEvent::Prepared { html, main_frame }) => {
            match main_frame {
                Some(frame) => (
                    NavigationStage::Content,
                    NavigationActionView::SetContent(set_document_call(opt_text(frame), html@)),
                ),
                None => navigate,
            }
        },
        (NavigationStage::Content, NavigationEvent::ContentSet) => done,
        (NavigationStage::Content, NavigationEvent::ContentTimeout) => navigate,
        (NavigationStage::Content, NavigationEvent::ContentFailed) => done,
        (NavigationStage::Navigate, NavigationEvent::Navigated(error_text)) => match error_text {
            Some(text) => (
                NavigationStage::Done,
                NavigationActionView::Fail(CdpErrorView::ChromeMessage(text@)),
            ),
            None => done,
        },
        (NavigationStage::Navigate, NavigationEvent::NavigateFailed(error)) => (
            NavigationStage::Done,
            NavigationActionView::Fail(error@),
        ),
        _ => (stage, NavigationActionView::Ignore),
    }
}

/// A navigation that asks a cache first.
#[derive(Debug)]
pub struct CachedNavigation {
    /// Where the page goes.
    pub params: NavigateParams,
    /// How far it has come.
    pub stage: NavigationStage,
}

impl CachedNavigation {
    fn navigate(&mut self) -> (action: NavigationAction)
        ensures
            final(self).params == old(self).params,
            final(self).stage == NavigationStage::Navigate,
            action@ == NavigationActionView::Navigate(navigate_call(old(self).params)),
    {
        self.stage = NavigationStage::Navigate;
        NavigationAction::Navigate(self.params.call())
    }

    /// Takes an event, and says what is to be done.
    pub fn next(&mut self, event: NavigationEvent) -> (action: NavigationAction)
        ensures
            final(self).params == old(self).params,
            (final(self).stage, action@) == navigated(old(self).params, old(self).stage, event),
    {
        match (self.stage, event) {
            (NavigationStage::Cache, NavigationEvent::Cached(found)) => match found {
                Some(source) => {
                    self.stage = NavigationStage::Prepare;
                    NavigationAction::Prepare { source, url: self.params.url.clone() }
                },
                None => self.navigate(),
            },
            (NavigationStage::Prepare, NavigationEvent::Prepared { html, main_frame }) => {
                match main_frame {
                    Some(frame) => {
                        self.stage = NavigationStage::Content;
                        NavigationAction::SetContent(set_document(frame, html))
                    },
                    None => self.navigate(),
                }
            },
            (NavigationStage::Content, NavigationEvent::ContentSet) => {
                self.stage = NavigationStage::Done;
                NavigationAction::Done
            },
            (NavigationStage::Content, NavigationEvent::ContentTimeout) => self.navigate(),
            (NavigationStage::Content, NavigationEvent::ContentFailed) => {
                self.stage = NavigationStage::Done;
                NavigationAction::Done
            },
            (NavigationStage::Navigate, NavigationEvent::Navigated(error_text)) => {
                self.stage = NavigationStage::Done;
                match error_text {
                    Some(text) => NavigationAction::Fail(CdpError::ChromeMessage(text)),
                    None => NavigationAction::Done,
                }
            },
            (NavigationStage::Navigate, NavigationEvent::NavigateFailed(error)) => {
                self.stage = NavigationStage::Done;
                NavigationAction::Fail(error)
            },
            _ => NavigationAction::Ignore,
        }
    }
}

// ---------------------------------------------------------------------------
// Navigation that asks a cache first and hands out the request

/// What happened.
#[derive(Debug)]
pub enum HttpEvent {
    /// The cache has this document, or none.
    Cached(Option<String>),
    /// The document has been prepared for its URL, the events of the page's life are
    /// on, and the main frame is known, or could not be asked for.
    Prepared { html: String, main_frame: Option<Option<String>> },
    /// The browser could not be told to set the document.
    ContentNotSent,
    /// The document is set, by this request if there is one.
    ContentSet(Option<HttpRequest>),
    /// The document could not be set in time.
    ContentTimeout,
    /// The document could not be set.
    ContentFailed,
    /// The browser could not be told to navigate.
    NavigateNotSent,
    /// The browser has navigated, by this request if there is one.
    Navigated(Option<HttpRequest>),
    /// The navigation has failed.
    NavigateFailed(CdpError),
}

/// What is to be done.
#[derive(Debug)]
pub enum HttpAction {
    /// Prepare the cached document for its URL, turn the events of the page's life
    /// on, and ask for the main frame.
    Prepare { source: String, url: String },
    /// Set the document.
    SetContent(Call),
    /// Navigate.
    Navigate(Call),
    /// The page is there, by this request.
    Done(HttpRequest),
    /// The navigation has failed.
    Fail(CdpError),
    /// Nothing: the event does not fit.
    Ignore,
}

/// The view of [`HttpAction`].
pub enum HttpActionView {
    Prepare { source: Seq<char>, url: Seq<char> },
    SetContent(CallView),
    Navigate(CallView),
    Done(HttpRequestView),
    Fail(CdpErrorView),
    Ignore,
}

impl View for HttpAction {
    type V = HttpActionView;

    open spec fn view(&self) -> HttpActionView {
        match *self {
            HttpAction::Prepare { source, url } => HttpActionView::Prepare {
                source: source@,
                url: url@,
            },
            HttpAction::SetContent(c) => HttpActionView::SetContent(c@),
            HttpAction::Navigate(c) => HttpActionView::Navigate(c@),
            HttpAction::Done(request) => HttpActionView::Done(request@),
            HttpAction::Fail(error) => HttpActionView::Fail(error@),
            HttpAction::Ignore => HttpActionView::Ignore,
        }
    }
}

/// The end of a navigation: the request that it was made by, or an error if there is
/// none.
pub open spec fn ended(request: Option<HttpRequest>) -> (NavigationStage, HttpActionView) {
    (
        NavigationStage::Done,
        match request {
            Some(r) => HttpActionView::Done(r@),
            None => HttpActionView::Fail(
                CdpErrorView::ChromeMessage("failed to get navigation result"@),
            ),
        },
    )
}

/// What an event makes of a navigation that hands out its request. A cached document
/// is set; the browser navigates if there is none, if the document can not be set
/// because the main frame is not known or the browser can not be told, or if it could
/// not be set in time. A request that failed is an error, and so is a navigation
/// without a request.
pub open spec fn http_navigated(
    params: NavigateParams,
    stage: NavigationStage,
    event: HttpEvent,
) -> (NavigationStage, HttpActionView) {
    let navigate = (
        NavigationStage::Navigate,
        HttpActionView::Navigate(navigate_call(params)),
    );
    match (stage, event) {
        (NavigationStage::Cache, HttpEvent::Cached(found)) => match found {
            Some(source) => (
                NavigationStage::Prepare,
                HttpActionView::Prepare { source: source@, url: params.url@ },
            ),
            None => navigate,
        },
        (NavigationStage::Prepare, HttpEvent::Prepared { html, main_frame }) => match main_frame {
            Some(frame) => (
                NavigationStage::Content,
                HttpActionView::SetContent(set_document_call(opt_text(frame), html@)),
            ),
            None => navigate,
        },
        (NavigationStage::Content, HttpEvent::ContentNotSent) => navigate,
        (NavigationStage::Content, HttpEvent::ContentSet(request)) => ended(request),
        (NavigationStage::Content, HttpEvent::ContentTimeout) => navigate,
        (NavigationStage::Content, HttpEvent::ContentFailed) => ended(None),
        (NavigationStage::Navigate, HttpEvent::NavigateNotSent) => ended(None),
        (NavigationStage::Navigate, HttpEvent::Navigated(request)) => match request {
            Some(r) => match r@.failure_text {
                Some(text) => (
                    NavigationStage::Done,
                    HttpActionView::Fail(CdpErrorView::ChromeMessage(text)),
                ),
                None => ended(request),
            },
            None => ended(request),
        },
        (NavigationStage::Navigate, HttpEvent::NavigateFailed(error)) => (
            NavigationStage::Done,
            HttpActionView::Fail(error@),
        ),
        _ => (stage, HttpActionView::Ignore),
    }
}

/// A navigation that asks a cache first and hands out the request.
#[derive(Debug)]
pub struct HttpNavigation {
    /// Where the page goes.
    pub params: NavigateParams,
    /// How far it has come.
    pub stage: NavigationStage,
}

impl HttpNavigation {
    fn navigate(&mut self) -> (action: HttpAction)
        ensures
            final(self).params == old(self).params,
            final(self).stage == NavigationStage::Navigate,
            action@ == HttpActionView::Navigate(navigate_call(old(self).params)),
    {
        self.stage = NavigationStage::Navigate;
        HttpAction::Navigate(self.params.call())
    }

    fn end(&mut self, request: Option<HttpRequest>) -> (action: HttpAction)
        ensures
            final(self).params == old(self).params,
            (final(self).stage, action@) == ended(request),
    {
        self.stage = NavigationStage::Done;
        match request {
            Some(request) => HttpAction::Done(request),
            None => HttpAction::Fail(
                CdpError::ChromeMessage("failed to get navigation result".to_owned()),
            ),
        }
    }

    /// Takes an event, and says what is to be done.
    pub fn next(&mut self, event: HttpEvent) -> (action: HttpAction)
        ensures
            final(self).params == old(self).params,
            (final(self).stage, action@) == http_navigated(
                old(self).params,
                old(self).stage,
                event,
            ),
    {
        match (self.stage, event) {
            (NavigationStage::Cache, HttpEvent::Cached(found)) => match found {
                Some(source) => {
                    self.stage = NavigationStage::Prepare;
                    HttpAction::Prepare { source, url: self.params.url.clone() }
                },
                None => self.navigate(),
            },
            (NavigationStage::Prepare, HttpEvent::Prepared { html, main_frame }) => {
                match main_frame {
                    Some(frame) => {
                        self.stage = NavigationStage::Content;
                        HttpAction::SetContent(set_document(frame, html))
                    },
                    None => self.navigate(),
                }
            },
            (NavigationStage::Content, HttpEvent::ContentNotSent) => self.navigate(),
            (NavigationStage::Content, HttpEvent::ContentSet(request)) => self.end(request),
            (NavigationStage::Content, HttpEvent::ContentTimeout) => self.navigate(),
            (NavigationStage::Content, HttpEvent::ContentFailed) => self.end(None),
            (NavigationStage::Navigate, HttpEvent::NavigateNotSent) => self.end(None),
            (NavigationStage::Navigate, HttpEvent::Navigated(request)) => {
                match request {
                    Some(request) => match copy_opt(request.failure()) {
                        Some(text) => {
                            self.stage = NavigationStage::Done;
                            HttpAction::Fail(CdpError::ChromeMessage(text))
                        },
                        None => self.end(Some(request)),
                    },
                    None => self.end(None),
                }
            },
            (NavigationStage::Navigate, HttpEvent::NavigateFailed(error)) => {
                self.stage = NavigationStage::Done;
                HttpAction::Fail(error)
            },
            _ => HttpAction::Ignore,
        }
    }
}

// ---------------------------------------------------------------------------
// Caches

/// What becomes of the result of a navigation that a cache plans.
#[derive(Debug, Clone, Copy, PartialEq, Eq, Structural)]
pub enum PlanOutcome {
    /// It is ignored: the plan succeeds whatever comes of it.
    Ignored,
    /// An error is handed on.
    HandedOn,
    /// The request is handed out, and an error is handed on.
    Request,
}

/// What a cache does around a navigation: the key is set first, then the listener,
/// the interceptor and the seeding run side by side.
#[derive(Debug)]
pub struct CachePlan {
    /// The site under which responses are cached.
    pub cache_site: String,
    /// How long cached responses may be used.
    pub cache_policy: Option<BasicCachePolicy>,
    /// What the site asks for as authorisation.
    pub auth: Option<String>,
    /// What is cached.
    pub cache_strategy: Option<String>,
    /// Where a listener dumps the responses that it stores, if one is started.
    pub listener: Option<String>,
    /// Is an interceptor started that answers from the cache?
    pub intercept: bool,
    /// Where the cache is seeded from.
    pub seed_from: Option<String>,
    /// Does the page navigate while the cache is seeded?
    pub at_once: bool,
    /// Where the page goes. The cache is seeded for its URL.
    pub navigation: NavigateParams,
    /// What becomes of the result of the navigation.
    pub outcome: PlanOutcome,
}

/// The view of [`CachePlan`].
pub struct CachePlanView {
    pub cache_site: Seq<char>,
    pub cache_policy: Option<BasicCachePolicy>,
    pub auth: Option<Seq<char>>,
    pub cache_strategy: Option<Seq<char>>,
    pub listener: Option<Seq<char>>,
    pub intercept: bool,
    pub seed_from: Option<Seq<char>>,
    pub at_once: bool,
    pub navigation: NavigateParams,
    pub outcome: PlanOutcome,
}

impl View for CachePlan {
    type V = CachePlanView;

    open spec fn view(&self) -> CachePlanView {
        CachePlanView {
            cache_site: self.cache_site@,
            cache_policy: self.cache_policy,
            auth: opt_text(self.auth),
            cache_strategy: opt_text(self.cache_strategy),
            listener: opt_text(self.listener),
            intercept: self.intercept,
            seed_from: opt_text(self.seed_from),
            at_once: self.at_once,
            navigation: self.navigation,
            outcome: self.outcome,
        }
    }
}

/// A cache that listens and is seeded, from the default endpoint where none is
/// given, and that intercepts unless that is refused.
pub open spec fn remote_plan(
    navigation: NavigateParams,
    cache_site: Seq<char>,
    auth: Option<Seq<char>>,
    cache_policy: Option<BasicCachePolicy>,
    cache_strategy: Option<Seq<char>>,
    remote: Option<Seq<char>>,
    intercept_enabled: Option<bool>,
    outcome: PlanOutcome,
) -> CachePlanView {
    let endpoint = match remote {
        Some(r) => r,
        None => "true"@,
    };
    CachePlanView {
        cache_site,
        cache_policy,
        auth,
        cache_strategy,
        listener: Some(endpoint),
        intercept: intercept_enabled != Some(false),
        seed_from: Some(endpoint),
        at_once: false,
        navigation,
        outcome,
    }
}

/// A cache that is only seeded.
pub open spec fn seed_plan(
    navigation: NavigateParams,
    cache_site: Seq<char>,
    auth: Option<Seq<char>>,
    cache_policy: Option<BasicCachePolicy>,
    remote: Option<Seq<char>>,
    at_once: bool,
) -> CachePlanView {
    CachePlanView {
        cache_site,
        cache_policy,
        auth,
        cache_strategy: None,
        listener: None,
        intercept: false,
        seed_from: remote,
        at_once,
        navigation,
        outcome: if at_once {
            PlanOutcome::Ignored
        } else {
            PlanOutcome::HandedOn
        },
    }
}

/// The view of the result of a navigation.
pub open spec fn result_view(result: Result<Option<HttpRequest>, CdpError>) -> Result<
    Option<HttpRequestView>,
    CdpErrorView,
> {
    match result {
        Ok(Some(request)) => Ok(Some(request@)),
        Ok(None) => Ok(None),
        Err(error) => Err(error@),
    }
}

/// What a plan comes to, by what its navigation came to.
pub open spec fn concluded(
    outcome: PlanOutcome,
    navigated: Result<Option<HttpRequestView>, CdpErrorView>,
) -> Result<Option<HttpRequestView>, CdpErrorView> {
    match outcome {
        PlanOutcome::Ignored => Ok(None),
        PlanOutcome::HandedOn => match navigated {
            Ok(request) => Ok(None),
            Err(error) => Err(error),
        },
        PlanOutcome::Request => navigated,
    }
}

impl CachePlan {
    /// What the plan comes to, by what its navigation came to: the request, nothing, or
    /// an error.
    pub fn conclude(&self, navigated: Result<Option<HttpRequest>, CdpError>) -> (result: Result<
        Option<HttpRequest>,
        CdpError,
    >)
        ensures
            result_view(result) == concluded(self.outcome, result_view(navigated)),
    {
        match self.outcome {
            PlanOutcome::Ignored => Ok(None),
            PlanOutcome::HandedOn => match navigated {
                Ok(_) => Ok(None),
                Err(error) => Err(error),
            },
            PlanOutcome::Request => navigated,
        }
    }
}

/// What a cache does around a navigation, with what comes of its result.
fn plan_remote(
    params: NavigateParams,
    cache_site: String,
    auth: Option<String>,
    cache_policy: Option<BasicCachePolicy>,
    cache_strategy: Option<String>,
    remote: Option<String>,
    intercept_enabled: Option<bool>,
    outcome: PlanOutcome,
) -> (plan: CachePlan)
    ensures
        plan@ == remote_plan(
            params,
            cache_site@,
            opt_text(auth),
            cache_policy,
            opt_text(cache_strategy),
            opt_text(remote),
            intercept_enabled,
            outcome,
        ),
{
    let endpoint = match remote {
        Some(endpoint) => endpoint,
        None => "true".to_owned(),
    };
    let intercept = match intercept_enabled {
        Some(enabled) => enabled,
        None => true,
    };
    CachePlan {
        cache_site,
        cache_policy,
        auth,
        cache_strategy,
        listener: Some(endpoint.clone()),
        intercept,
        seed_from: Some(endpoint),
        at_once: false,
        navigation: params,
        outcome,
    }
}

impl Page {
    /// Goes to a URL.
    pub fn goto(&self, params: &NavigateParams) -> (c: Call)
        ensures
            c@ == navigate_call(*params),
    {
        params.call()
    }

    /// Goes to a URL, after asking a cache for its document.
    pub fn goto_with_cache(&self, params: NavigateParams) -> (navigation: CachedNavigation)
        ensures
            navigation.params == params,
            navigation.stage == NavigationStage::Cache,
    {
        CachedNavigation { params, stage: NavigationStage::Cache }
    }

    /// Goes to a URL, after asking a cache for its document, and hands out the
    /// request.
    pub fn goto_with_cache_http_future(&self, params: NavigateParams) -> (navigation:
        HttpNavigation)
        ensures
            navigation.params == params,
            navigation.stage == NavigationStage::Cache,
    {
        HttpNavigation { params, stage: NavigationStage::Cache }
    }

    /// What a cache does around a navigation, whose result is ignored. `cache_site` is
    /// the site of the URL.
    pub fn _goto_with_cache_remote(
        &self,
        params: NavigateParams,
        cache_site: String,
        auth: Option<String>,
        cache_policy: Option<BasicCachePolicy>,
        cache_strategy: Option<String>,
        remote: Option<String>,
        intercept_enabled: Option<bool>,
    ) -> (plan: CachePlan)
        ensures
            plan@ == remote_plan(
                params,
                cache_site@,
                opt_text(auth),
                cache_policy,
                opt_text(cache_strategy),
                opt_text(remote),
                intercept_enabled,
                PlanOutcome::Ignored,
            ),
    {
        plan_remote(
            params,
            cache_site,
            auth,
            cache_policy,
            cache_strategy,
            remote,
            intercept_enabled,
            PlanOutcome::Ignored,
        )
    }

    /// Goes to a URL with a cache that intercepts.
    pub fn goto_with_cache_remote(
        &self,
        params: NavigateParams,
        cache_site: String,
        auth: Option<String>,
        cache_policy: Option<BasicCachePolicy>,
        cache_strategy: Option<String>,
        remote: Option<String>,
    ) -> (plan: CachePlan)
        ensures
            plan@ == remote_plan(
                params,
                cache_site@,
                opt_text(auth),
                cache_policy,
                opt_text(cache_strategy),
                opt_text(remote),
                Some(true),
                PlanOutcome::Ignored,
            ),
    {
        self._goto_with_cache_remote(
            params,
            cache_site,
            auth,
            cache_policy,
            cache_strategy,
            remote,
            Some(true),
        )
    }

    /// Goes to a URL with a cache that leaves interception to the owner.
    pub fn goto_with_cache_remote_intercept_enabled(
        &self,
        params: NavigateParams,
        cache_site: String,
        auth: Option<String>,
        cache_policy: Option<BasicCachePolicy>,
        cache_strategy: Option<String>,
        remote: Option<String>,
    ) -> (plan: CachePlan)
        ensures
            plan@ == remote_plan(
                params,
                cache_site@,
                opt_text(auth),
                cache_policy,
                opt_text(cache_strategy),
                opt_text(remote),
                Some(false),
                PlanOutcome::Ignored,
            ),
    {
        self._goto_with_cache_remote(
            params,
            cache_site,
            auth,
            cache_policy,
            cache_strategy,
            remote,
            Some(false),
        )
    }

    /// What a cache does around a navigation that hands out its request.
    fn _http_future_with_cache(
        &self,
        params: NavigateParams,
        cache_site: String,
        auth: Option<String>,
        cache_policy: Option<BasicCachePolicy>,
        cache_strategy: Option<String>,
        remote: Option<String>,
        intercept_enabled: Option<bool>,
    ) -> (plan: CachePlan)
        ensures
            plan@ == remote_plan(
                params,
                cache_site@,
                opt_text(auth),
                cache_policy,
                opt_text(cache_strategy),
                opt_text(remote),
                intercept_enabled,
                PlanOutcome::Request,
            ),
    {
        plan_remote(
            params,
            cache_site,
            auth,
            cache_policy,
            cache_strategy,
            remote,
            intercept_enabled,
            PlanOutcome::Request,
        )
    }

    /// Goes to a URL with a cache that intercepts. The navigation hands out its request.
    pub fn http_future_with_cache(
        &self,
        params: NavigateParams,
        cache_site: String,
        auth: Option<String>,
        cache_policy: Option<BasicCachePolicy>,
        cache_strategy: Option<String>,
        remote: Option<String>,
    ) -> (plan: CachePlan)
        ensures
            plan@ == remote_plan(
                params,
                cache_site@,
                opt_text(auth),
                cache_policy,
                opt_text(cache_strategy),
                opt_text(remote),
                Some(true),
                PlanOutcome::Request,
            ),
    {
        self._http_future_with_cache(
            params,
            cache_site,
            auth,
            cache_policy,
            cache_strategy,
            remote,
            Some(true),
        )
    }

    /// Goes to a URL with a cache that leaves interception to the owner. The
    /// navigation hands out its request.
    pub fn http_future_with_cache_intercept_enabled(
        &self,
        params: NavigateParams,
        cache_site: String,
        auth: Option<String>,
        cache_policy: Option<BasicCachePolicy>,
        cache_strategy: Option<String>,
        remote: Option<String>,
    ) -> (plan: CachePlan)
        ensures
            plan@ == remote_plan(
                params,
                cache_site@,
                opt_text(auth),
                cache_policy,
                opt_text(cache_strategy),
                opt_text(remote),
                Some(false),
                PlanOutcome::Request,
            ),
    {
        self._http_future_with_cache(
            params,
            cache_site,
            auth,
            cache_policy,
            cache_strategy,
            remote,
            Some(false),
        )
    }

    /// Goes to a URL after the cache has been seeded.
    pub fn goto_with_cache_seed(
        &self,
        params: NavigateParams,
        cache_site: String,
        auth: Option<String>,
        cache_policy: Option<BasicCachePolicy>,
        remote: Option<String>,
    ) -> (plan: CachePlan)
        ensures
            plan@ == seed_plan(
                params,
                cache_site@,
                opt_text(auth),
                cache_policy,
                opt_text(remote),
                false,
            ),
    {
        CachePlan {
            cache_site,
            cache_policy,
            auth,
            cache_strategy: None,
            listener: None,
            intercept: false,
            seed_from: remote,
            at_once: false,
            navigation: params,
            outcome: PlanOutcome::HandedOn,
        }
    }

    /// Goes to a URL while the cache is seeded.
    pub fn goto_with_cache_fast_seed(
        &self,
        params: NavigateParams,
        cache_site: String,
        auth: Option<String>,
        cache_policy: Option<BasicCachePolicy>,
        remote: Option<String>,
    ) -> (plan: CachePlan)
        ensures
            plan@ == seed_plan(
                params,
                cache_site@,
                opt_text(auth),
                cache_policy,
                opt_text(remote),
                true,
            ),
    {
        CachePlan {
            cache_site,
            cache_policy,
            auth,
            cache_strategy: None,
            listener: None,
            intercept: false,
            seed_from: remote,
            at_once: true,
            navigation: params,
            outcome: PlanOutcome::Ignored,
        }
    }

    /// Sets the document, once the events of the page's life are on and the main
    /// frame is known. Nothing is set if the main frame can not be asked for.
    pub fn set_html(&self, html: String, main_frame: Option<Option<String>>) -> (c: Option<Call>)
        ensures
            match main_frame {
                Some(frame) => c matches Some(set) && set@ == set_document_call(
                    opt_text(frame),
                    html@,
                ),
                None => c is None,
            },
    {
        match main_frame {
            Some(frame) => Some(set_document(frame, html)),
            None => None,
        }
    }
}

// ---------------------------------------------------------------------------
// What holds of navigations

/// The number of steps that a navigation is from its end, at most.
pub open spec fn steps_left(stage: NavigationStage) -> nat {
    match stage {
        NavigationStage::Cache => 4,
        NavigationStage::Prepare => 3,
        NavigationStage::Content => 2,
        NavigationStage::Navigate => 1,
        NavigationStage::Done => 0,
    }
}

/// A navigation ends: every event that it waits for brings it nearer to its end, and
/// it is at its end exactly when it says so.
pub proof fn a_navigation_ends(
    params: NavigateParams,
    stage: NavigationStage,
    event: NavigationEvent,
)
    ensures
        ({
            let (next, action) = navigated(params, stage, event);
            &&& action is Ignore ==> next == stage
            &&& !(action is Ignore) ==> steps_left(next) < steps_left(stage)
            &&& action is Done || action is Fail ==> next == NavigationStage::Done
            &&& next == NavigationStage::Done && !(action is Ignore) ==> action is Done
                || action is Fail
        }),
{
}

/// A navigation that hands out its request ends in the same way.
pub proof fn an_http_navigation_ends(
    params: NavigateParams,
    stage: NavigationStage,
    event: HttpEvent,
)
    ensures
        ({
            let (next, action) = http_navigated(params, stage, event);
            &&& action is Ignore ==> next == stage
            &&& !(action is Ignore) ==> steps_left(next) < steps_left(stage)
            &&& action is Done || action is Fail ==> next == NavigationStage::Done
            &&& next == NavigationStage::Done && !(action is Ignore) ==> action is Done
                || action is Fail
        }),
{
}

} // verus!
