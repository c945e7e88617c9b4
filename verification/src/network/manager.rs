//! The network manager, its settings and its queue of events.
use vstd::prelude::*;
use reqwest::header::PROXY_AUTHORIZATION;
use spider_network_blocker::intercept_manager::NetworkInterceptManager;
use std::collections::VecDeque;
use std::time::Duration;

use crate::allowlists::{allowed_matcher_3rd_party, js_framework_allow_3rd_party};
use crate::blocklists::{site_blocks, unknown_site, AdBlocker};
use crate::command::{CdpCommand, CdpCommandView, NetworkEvent, NetworkEventView, RequestStage};
use crate::matcher::{texts, UrlMatcher};
use crate::network::decision::left_to_user;
use crate::network::state::{
    cache_told, commanded, compiles_if_modest, first_commands, interception_updated, is_redirect,
    matcher_hits, queued, with_blacklist, with_cache, with_credentials, with_document,
    with_headers, with_offline, with_service_workers, with_user_interception, with_whitelist,
    without_document, BasicCachePolicy, NetworkState, Switch,
};
use crate::protocol::{opt_text, Credentials, CredentialsView, Headers};
use crate::tables::{IdSet, PauseTable, RequestTable, SentTable};

verus! {

/// Does a response of this status redirect?
pub fn is_redirect_status(status: i64) -> (yes: bool)
    ensures
        yes == is_redirect(status as int),
{
    matches!(status, 301 | 302 | 303 | 307 | 308)
}

/// Takes `reqwest::header::PROXY_AUTHORIZATION` and calls `HeaderName::as_str`.
///
/// Trusted: the name is `proxy-authorization`.
#[verifier::external_body]
fn proxy_authorization() -> (name: &'static str)
    ensures
        name@ == "proxy-authorization"@,
{
    PROXY_AUTHORIZATION.as_str()
}

/// Follows the requests of a page and decides which of them the browser may send.
pub struct NetworkManager {
    /// The events for the owner, the oldest first.
    pub(crate) queued_events: VecDeque<NetworkEvent>,
    /// Are errors of certificates ignored?
    pub(crate) ignore_httpserrors: Switch,
    /// The requests in flight.
    pub(crate) requests: RequestTable,
    /// The announcements of requests whose pause has not come yet.
    pub(crate) requests_will_be_sent: SentTable,
    /// The headers that go with each request, without those of proxies.
    pub(crate) extra_headers: Headers,
    /// The pauses of requests whose announcement has not come yet.
    pub(crate) request_id_to_interception_id: PauseTable,
    /// Has the user turned the browser's cache off?
    pub(crate) user_cache_disabled: Switch,
    /// The pauses for which credentials have been given. A second challenge of
    /// one of them is given up.
    pub(crate) attempted_authentications: IdSet,
    /// The credentials for challenges.
    pub(crate) credentials: Option<Credentials>,
    /// Does the user ask to intercept requests?
    pub(crate) user_request_interception_enabled: Switch,
    /// Is every request blocked?
    pub(crate) block_all: Switch,
    /// Is interception turned on in the browser?
    pub(crate) protocol_request_interception_enabled: Switch,
    /// Is the network offline?
    pub(crate) offline: Switch,
    /// How long a request may take.
    pub request_timeout: Duration,
    /// Ignore what is only to look at.
    pub ignore_visuals: Switch,
    /// Block style sheets.
    pub block_stylesheets: Switch,
    /// Block embedded scripts that rendering does not need. Other scripts are
    /// allowed unless a block list has them.
    pub block_javascript: Switch,
    /// Block analytics.
    pub block_analytics: Switch,
    /// Block prefetching.
    pub block_prefetch: Switch,
    /// Load nothing but HTML.
    pub only_html: Switch,
    /// Is the document in XML?
    pub xml_document: Switch,
    /// The site whose own rules apply.
    pub intercept_manager: NetworkInterceptManager,
    /// How often the document has been reloaded.
    pub document_reload_tracker: u8,
    /// The URL of the document.
    pub document_target_url: String,
    /// The domain of the document.
    pub document_target_domain: String,
    /// How many bytes may still be received.
    pub max_bytes_allowed: Option<u64>,
    /// The site under which responses are cached.
    pub cache_site_key: Option<String>,
    /// How long cached responses may be used.
    pub cache_policy: Option<BasicCachePolicy>,
    /// Parts of URLs that are let through.
    pub(crate) whitelist_patterns: Vec<String>,
    /// The white list, compiled.
    pub(crate) whitelist_matcher: Option<UrlMatcher>,
    /// Parts of URLs that are blocked.
    pub(crate) blacklist_patterns: Vec<String>,
    /// The black list, compiled.
    pub(crate) blacklist_matcher: Option<UrlMatcher>,
    /// Does the black list win over everything that lets a request through?
    pub blacklist_strict: Switch,
    /// The third-party scripts that are let through.
    pub(crate) allowed_3rd_party: UrlMatcher,
    /// The ad blocker, if ads are blocked.
    pub(crate) ad_blocker: Option<AdBlocker>,
}

/// The views of a list of events.
pub open spec fn event_views(events: Seq<NetworkEvent>) -> Seq<NetworkEventView> {
    events.map_values(|e: NetworkEvent| e@)
}

/// The view of optional credentials.
pub open spec fn opt_credentials(credentials: Option<Credentials>) -> Option<CredentialsView> {
    match credentials {
        Some(c) => Some(c@),
        None => None,
    }
}

/// The patterns of an optional matcher.
pub open spec fn opt_matcher(matcher: Option<UrlMatcher>) -> Option<Seq<Seq<char>>> {
    match matcher {
        Some(m) => Some(m@),
        None => None,
    }
}

impl View for NetworkManager {
    type V = NetworkState;

    open(crate) spec fn view(&self) -> NetworkState {
        NetworkState {
            queued_events: event_views(self.queued_events@),
            ignore_httpserrors: self.ignore_httpserrors,
            requests: self.requests@,
            requests_will_be_sent: self.requests_will_be_sent@,
            extra_headers: self.extra_headers@,
            request_id_to_interception_id: self.request_id_to_interception_id@,
            user_cache_disabled: self.user_cache_disabled,
            attempted_authentications: self.attempted_authentications@,
            credentials: opt_credentials(self.credentials),
            user_request_interception_enabled: self.user_request_interception_enabled,
            block_all: self.block_all,
            protocol_request_interception_enabled: self.protocol_request_interception_enabled,
            offline: self.offline,
            request_timeout: self.request_timeout,
            ignore_visuals: self.ignore_visuals,
            block_stylesheets: self.block_stylesheets,
            block_javascript: self.block_javascript,
            block_analytics: self.block_analytics,
            block_prefetch: self.block_prefetch,
            only_html: self.only_html,
            xml_document: self.xml_document,
            intercept_manager: self.intercept_manager,
            document_reload_tracker: self.document_reload_tracker,
            document_target_url: self.document_target_url@,
            document_target_domain: self.document_target_domain@,
            max_bytes_allowed: self.max_bytes_allowed,
            cache_site_key: opt_text(self.cache_site_key),
            cache_policy: self.cache_policy,
            whitelist_patterns: texts(self.whitelist_patterns@),
            whitelist_matcher: opt_matcher(self.whitelist_matcher),
            blacklist_patterns: texts(self.blacklist_patterns@),
            blacklist_matcher: opt_matcher(self.blacklist_matcher),
            blacklist_strict: self.blacklist_strict,
            allowed_3rd_party: self.allowed_3rd_party@,
            block_ads: Switch { on: self.ad_blocker is Some },
        }
    }
}

/// The state of a new manager. Its site blocks nothing by rules of its own.
pub open spec fn fresh_state(
    ignore_httpserrors: bool,
    request_timeout: Duration,
    site: NetworkInterceptManager,
) -> NetworkState {
    NetworkState {
        queued_events: Seq::empty(),
        ignore_httpserrors: Switch { on: ignore_httpserrors },
        requests: Map::empty(),
        requests_will_be_sent: Map::empty(),
        extra_headers: Map::empty(),
        request_id_to_interception_id: Map::empty(),
        user_cache_disabled: Switch { on: false },
        attempted_authentications: Set::empty(),
        credentials: None,
        user_request_interception_enabled: Switch { on: false },
        block_all: Switch { on: false },
        protocol_request_interception_enabled: Switch { on: false },
        offline: Switch { on: false },
        request_timeout,
        ignore_visuals: Switch { on: false },
        block_stylesheets: Switch { on: false },
        block_javascript: Switch { on: false },
        block_analytics: Switch { on: true },
        block_prefetch: Switch { on: true },
        only_html: Switch { on: false },
        xml_document: Switch { on: false },
        intercept_manager: site,
        document_reload_tracker: 0,
        document_target_url: Seq::empty(),
        document_target_domain: Seq::empty(),
        max_bytes_allowed: None,
        cache_site_key: None,
        cache_policy: None,
        whitelist_patterns: Seq::empty(),
        whitelist_matcher: None,
        blacklist_patterns: Seq::empty(),
        blacklist_matcher: None,
        blacklist_strict: Switch { on: true },
        allowed_3rd_party: js_framework_allow_3rd_party(),
        block_ads: Switch { on: false },
    }
}

/// The commands that begin a session, and how long each may take.
#[derive(Debug)]
pub struct CommandChain {
    /// The commands, in their order.
    pub commands: Vec<CdpCommand>,
    /// How long each may take.
    pub timeout: Duration,
}

/// The views of a list of commands.
pub open spec fn command_views(commands: Seq<CdpCommand>) -> Seq<CdpCommandView> {
    commands.map_values(|c: CdpCommand| c@)
}

impl NetworkManager {
    /// A new manager.
    pub fn new(ignore_httpserrors: bool, request_timeout: Duration) -> (manager: NetworkManager)
        ensures
            manager@ == fresh_state(
                ignore_httpserrors,
                request_timeout,
                manager@.intercept_manager,
            ),
            forall|url: Seq<char>, visuals: bool, xhr: bool|
                !site_blocks(manager@.intercept_manager, url, visuals, xhr),
    {
        let manager = NetworkManager {
            queued_events: VecDeque::new(),
            ignore_httpserrors: Switch { on: ignore_httpserrors },
            requests: RequestTable::new(),
            requests_will_be_sent: SentTable::new(),
            extra_headers: Headers::new(),
            request_id_to_interception_id: PauseTable::new(),
            user_cache_disabled: Switch { on: false },
            attempted_authentications: IdSet::new(),
            credentials: None,
            user_request_interception_enabled: Switch { on: false },
            block_all: Switch { on: false },
            protocol_request_interception_enabled: Switch { on: false },
            offline: Switch { on: false },
            request_timeout,
            ignore_visuals: Switch { on: false },
            block_stylesheets: Switch { on: false },
            block_javascript: Switch { on: false },
            block_analytics: Switch { on: true },
            block_prefetch: Switch { on: true },
            only_html: Switch { on: false },
            xml_document: Switch { on: false },
            intercept_manager: unknown_site(),
            document_reload_tracker: 0,
            document_target_url: String::new(),
            document_target_domain: String::new(),
            max_bytes_allowed: None,
            cache_site_key: None,
            cache_policy: None,
            whitelist_patterns: Vec::new(),
            whitelist_matcher: None,
            blacklist_patterns: Vec::new(),
            blacklist_matcher: None,
            blacklist_strict: Switch { on: true },
            allowed_3rd_party: allowed_matcher_3rd_party(),
            ad_blocker: None,
        };
        proof {
            let fresh = fresh_state(
                ignore_httpserrors,
                request_timeout,
                manager@.intercept_manager,
            );
            assert(manager@.queued_events =~= fresh.queued_events);
            assert(manager@.requests =~= fresh.requests);
            assert(manager@.requests_will_be_sent =~= fresh.requests_will_be_sent);
            assert(manager@.request_id_to_interception_id =~= fresh.request_id_to_interception_id);
            assert(manager@.attempted_authentications =~= fresh.attempted_authentications);
            assert(manager@.document_target_url =~= fresh.document_target_url);
            assert(manager@.document_target_domain =~= fresh.document_target_domain);
            assert(manager@.whitelist_patterns =~= fresh.whitelist_patterns);
            assert(manager@.blacklist_patterns =~= fresh.blacklist_patterns);
        }
        manager
    }

    /// Puts an event at the end of the queue.
    pub(crate) fn push_event(&mut self, event: NetworkEvent)
        ensures
            final(self)@ == queued(old(self)@, event@),
    {
        self.queued_events.push_back(event);
        proof {
            assert(self@.queued_events =~= old(self)@.queued_events.push(event@));
        }
    }

    /// Puts a command at the end of the queue.
    pub fn push_cdp_request(&mut self, command: CdpCommand)
        ensures
            final(self)@ == commanded(old(self)@, command@),
    {
        self.push_event(NetworkEvent::SendCdpRequest(command));
    }

    /// Takes the oldest event out of the queue.
    pub fn poll(&mut self) -> (event: Option<NetworkEvent>)
        ensures
            match event {
                Some(e) => {
                    &&& old(self)@.queued_events.len() > 0
                    &&& e@ == old(self)@.queued_events[0]
                    &&& final(self)@ == (NetworkState {
                        queued_events: old(self)@.queued_events.skip(1),
                        ..old(self)@
                    })
                },
                None => old(self)@.queued_events.len() == 0 && final(self)@ == old(self)@,
            },
    {
        let event = self.queued_events.pop_front();
        proof {
            if event is Some {
                assert(self@.queued_events =~= old(self)@.queued_events.skip(1));
            } else {
                assert(self@.queued_events =~= old(self)@.queued_events);
            }
        }
        event
    }

    // -----------------------------------------------------------------------
    // Pattern lists

    fn rebuild_whitelist_matcher(&mut self)
        ensures
            final(self)@ == with_whitelist(old(self)@, old(self)@.whitelist_patterns),
            compiles_if_modest(final(self)@.whitelist_matcher, old(self)@.whitelist_patterns),
    {
        self.whitelist_matcher = if self.whitelist_patterns.len() == 0 {
            None
        } else {
            UrlMatcher::new(&self.whitelist_patterns)
        };
    }

    fn rebuild_blacklist_matcher(&mut self)
        ensures
            final(self)@ == with_blacklist(old(self)@, old(self)@.blacklist_patterns),
            compiles_if_modest(final(self)@.blacklist_matcher, old(self)@.blacklist_patterns),
    {
        self.blacklist_matcher = if self.blacklist_patterns.len() == 0 {
            None
        } else {
            UrlMatcher::new(&self.blacklist_patterns)
        };
    }

    /// Replaces the white list.
    pub fn set_whitelist_patterns(&mut self, patterns: Vec<String>)
        ensures
            final(self)@ == with_whitelist(old(self)@, texts(patterns@)),
            compiles_if_modest(final(self)@.whitelist_matcher, texts(patterns@)),
    {
        self.whitelist_patterns = patterns;
        self.rebuild_whitelist_matcher();
    }

    /// Replaces the black list.
    pub fn set_blacklist_patterns(&mut self, patterns: Vec<String>)
        ensures
            final(self)@ == with_blacklist(old(self)@, texts(patterns@)),
            compiles_if_modest(final(self)@.blacklist_matcher, texts(patterns@)),
    {
        self.blacklist_patterns = patterns;
        self.rebuild_blacklist_matcher();
    }

    /// Adds a pattern to the white list.
    pub fn add_whitelist_pattern(&mut self, pattern: String)
        ensures
            final(self)@ == with_whitelist(
                old(self)@,
                old(self)@.whitelist_patterns.push(pattern@),
            ),
            compiles_if_modest(
                final(self)@.whitelist_matcher,
                old(self)@.whitelist_patterns.push(pattern@),
            ),
    {
        self.whitelist_patterns.push(pattern);
        proof {
            assert(self@.whitelist_patterns =~= old(self)@.whitelist_patterns.push(pattern@));
        }
        self.rebuild_whitelist_matcher();
    }

    /// Adds a pattern to the black list.
    pub fn add_blacklist_pattern(&mut self, pattern: String)
        ensures
            final(self)@ == with_blacklist(
                old(self)@,
                old(self)@.blacklist_patterns.push(pattern@),
            ),
            compiles_if_modest(
                final(self)@.blacklist_matcher,
                old(self)@.blacklist_patterns.push(pattern@),
            ),
    {
        self.blacklist_patterns.push(pattern);
        proof {
            assert(self@.blacklist_patterns =~= old(self)@.blacklist_patterns.push(pattern@));
        }
        self.rebuild_blacklist_matcher();
    }

    /// Adds patterns to the white list.
    pub fn add_whitelist_patterns(&mut self, patterns: Vec<String>)
        ensures
            final(self)@ == with_whitelist(
                old(self)@,
                old(self)@.whitelist_patterns + texts(patterns@),
            ),
            compiles_if_modest(
                final(self)@.whitelist_matcher,
                old(self)@.whitelist_patterns + texts(patterns@),
            ),
    {
        let mut more = patterns;
        self.whitelist_patterns.append(&mut more);
        proof {
            assert(self@.whitelist_patterns =~= old(self)@.whitelist_patterns + texts(patterns@));
        }
        self.rebuild_whitelist_matcher();
    }

    /// Adds patterns to the black list.
    pub fn add_blacklist_patterns(&mut self, patterns: Vec<String>)
        ensures
            final(self)@ == with_blacklist(
                old(self)@,
                old(self)@.blacklist_patterns + texts(patterns@),
            ),
            compiles_if_modest(
                final(self)@.blacklist_matcher,
                old(self)@.blacklist_patterns + texts(patterns@),
            ),
    {
        let mut more = patterns;
        self.blacklist_patterns.append(&mut more);
        proof {
            assert(self@.blacklist_patterns =~= old(self)@.blacklist_patterns + texts(patterns@));
        }
        self.rebuild_blacklist_matcher();
    }

    /// Empties the black list.
    pub fn clear_blacklist(&mut self)
        ensures
            final(self)@ == with_blacklist(old(self)@, Seq::empty()),
    {
        self.blacklist_patterns = Vec::new();
        self.blacklist_matcher = None;
        proof {
            assert(self@.blacklist_patterns =~= Seq::empty());
        }
    }

    /// Does the black list win over everything that lets a request through?
    pub fn set_blacklist_strict(&mut self, strict: bool)
        ensures
            final(self)@ == (NetworkState { blacklist_strict: Switch { on: strict }, ..old(self)@ }),
    {
        self.blacklist_strict.on = strict;
    }

    /// Has the black list a part of this URL?
    pub fn is_blacklisted(&self, url: &str) -> (yes: bool)
        ensures
            yes == matcher_hits(self@.blacklist_matcher, url@),
    {
        match &self.blacklist_matcher {
            Some(matcher) => matcher.is_match(url),
            None => false,
        }
    }

    /// Has the white list a part of this URL?
    pub fn is_whitelisted(&self, url: &str) -> (yes: bool)
        ensures
            yes == matcher_hits(self@.whitelist_matcher, url@),
    {
        match &self.whitelist_matcher {
            Some(matcher) => matcher.is_match(url),
            None => false,
        }
    }

    // -----------------------------------------------------------------------
    // Settings

    /// The commands that begin a session.
    pub fn init_commands(&self) -> (chain: CommandChain)
        ensures
            chain.timeout == self@.request_timeout,
            command_views(chain.commands@) == first_commands(self@),
    {
        let mut commands: Vec<CdpCommand> = Vec::new();
        commands.push(CdpCommand::NetworkEnable);
        if self.ignore_httpserrors.on {
            commands.push(CdpCommand::SetIgnoreCertificateErrors { ignore: true });
        }
        proof {
            assert(command_views(commands@) =~= first_commands(self@));
        }
        CommandChain { commands, timeout: self.request_timeout }
    }

    /// The headers that go with each request.
    pub fn extra_headers(&self) -> (headers: &Headers)
        ensures
            headers@ == self@.extra_headers,
    {
        &self.extra_headers
    }

    /// Sets the headers that go with each request, without those that authorise
    /// at a proxy.
    pub fn set_extra_headers(&mut self, headers: Headers)
        ensures
            final(self)@ == with_headers(old(self)@, headers@),
            !final(self)@.extra_headers.dom().contains("proxy-authorization"@),
            !final(self)@.extra_headers.dom().contains("Proxy-Authorization"@),
    {
        let mut kept = headers;
        kept.remove(proxy_authorization());
        kept.remove("Proxy-Authorization");
        self.extra_headers = kept;
        if !self.extra_headers.is_empty() {
            let headers = self.extra_headers.clone();
            self.push_cdp_request(CdpCommand::SetExtraHttpHeaders { headers });
        }
    }

    /// Lets requests bypass service workers, or not.
    pub fn set_service_worker_enabled(&mut self, bypass: bool)
        ensures
            final(self)@ == with_service_workers(old(self)@, bypass),
    {
        self.push_cdp_request(CdpCommand::SetBypassServiceWorker { bypass });
    }

    /// Blocks every request, or no longer.
    pub fn set_block_all(&mut self, block_all: bool)
        ensures
            final(self)@ == (NetworkState { block_all: Switch { on: block_all }, ..old(self)@ }),
    {
        self.block_all.on = block_all;
    }

    /// Is every request blocked?
    pub fn blocks_all(&self) -> (yes: bool)
        ensures
            yes == self@.block_all.on,
    {
        self.block_all.on
    }

    /// Are paused requests left to the user, who intercepts requests too?
    pub fn leaves_to_user(&self) -> (yes: bool)
        ensures
            yes == left_to_user(self@),
    {
        self.user_request_interception_enabled.on && self.protocol_request_interception_enabled.on
    }

    /// Turns interception on or off in the browser, where it is not as it should be.
    fn update_protocol_request_interception(&mut self)
        ensures
            final(self)@ == interception_updated(old(self)@),
    {
        let enabled = self.user_request_interception_enabled.on || self.credentials.is_some();
        if enabled == self.protocol_request_interception_enabled.on {
            return;
        }
        self.protocol_request_interception_enabled.on = enabled;
        if enabled {
            self.push_cdp_request(
                CdpCommand::FetchEnable {
                    handle_auth_requests: true,
                    url_pattern: "*".to_owned(),
                    request_stage: RequestStage::Request,
                },
            );
        } else {
            self.push_cdp_request(CdpCommand::FetchDisable);
        }
    }

    /// Notes whether the user asks to intercept requests.
    pub fn set_request_interception(&mut self, enabled: bool)
        ensures
            final(self)@ == with_user_interception(old(self)@, enabled),
    {
        self.user_request_interception_enabled.on = enabled;
        self.update_protocol_request_interception();
    }

    /// Turns the browser's cache on or off.
    pub fn set_cache_enabled(&mut self, enabled: bool)
        ensures
            final(self)@ == with_cache(old(self)@, enabled),
    {
        let run = self.user_cache_disabled.on != !enabled;
        self.user_cache_disabled.on = !enabled;
        if run {
            self.update_protocol_cache_disabled();
        }
    }

    /// Notes that interception is on.
    pub fn enable_request_intercept(&mut self)
        ensures
            final(self)@ == (NetworkState {
                protocol_request_interception_enabled: Switch { on: true },
                ..old(self)@
            }),
    {
        self.protocol_request_interception_enabled.on = true;
    }

    /// Notes that interception is off.
    pub fn disable_request_intercept(&mut self)
        ensures
            final(self)@ == (NetworkState {
                protocol_request_interception_enabled: Switch { on: false },
                ..old(self)@
            }),
    {
        self.protocol_request_interception_enabled.on = false;
    }

    /// Sets the site under which responses are cached.
    pub fn set_cache_site_key(&mut self, cache_site_key: Option<String>)
        ensures
            final(self)@ == (NetworkState {
                cache_site_key: opt_text(cache_site_key),
                ..old(self)@
            }),
    {
        self.cache_site_key = cache_site_key;
    }

    /// Sets how long cached responses may be used.
    pub fn set_cache_policy(&mut self, cache_policy: Option<BasicCachePolicy>)
        ensures
            final(self)@ == (NetworkState { cache_policy, ..old(self)@ }),
    {
        self.cache_policy = cache_policy;
    }

    /// Tells the browser whether its cache is off.
    pub fn update_protocol_cache_disabled(&mut self)
        ensures
            final(self)@ == cache_told(old(self)@),
    {
        let cache_disabled = self.user_cache_disabled.on;
        self.push_cdp_request(CdpCommand::SetCacheDisabled { cache_disabled });
    }

    /// Sets the credentials for challenges, and sees that challenges are intercepted.
    pub fn authenticate(&mut self, credentials: Credentials)
        ensures
            final(self)@ == with_credentials(old(self)@, credentials@),
            final(self)@.protocol_request_interception_enabled.on,
    {
        self.credentials = Some(credentials);
        self.update_protocol_request_interception();
    }

    /// Takes the network offline, or online again.
    pub fn set_offline_mode(&mut self, value: bool)
        ensures
            final(self)@ == with_offline(old(self)@, value),
    {
        if self.offline.on == value {
            return;
        }
        self.offline.on = value;
        self.push_cdp_request(
            CdpCommand::EmulateNetworkConditionsByRule {
                offline: value,
                url_pattern: "".to_owned(),
                latency: 0,
                download_throughput: -1,
                upload_throughput: -1,
            },
        );
    }

    /// Blocks ads with the given blocker, or no longer.
    pub fn set_ad_blocker(&mut self, blocker: Option<AdBlocker>)
        ensures
            final(self)@ == (NetworkState {
                block_ads: Switch { on: blocker is Some },
                ..old(self)@
            }),
    {
        self.ad_blocker = blocker;
    }

    // -----------------------------------------------------------------------
    // The document

    /// Is there a document to follow?
    pub fn has_target_domain(&self) -> (yes: bool)
        ensures
            yes == (self@.document_target_url.len() > 0),
    {
        !self.document_target_url.as_str().is_empty()
    }

    /// Sets the document to follow and its domain, which is empty if the URL has
    /// no host.
    pub fn set_page_url(&mut self, page_target_url: String, domain: String)
        ensures
            final(self)@ == with_document(old(self)@, page_target_url@, domain@),
    {
        self.document_target_domain = domain;
        self.document_target_url = page_target_url;
    }

    /// Forgets the document, before each navigation.
    pub fn clear_target_domain(&mut self)
        ensures
            final(self)@ == without_document(old(self)@),
    {
        self.document_reload_tracker = 0;
        self.document_target_url = String::new();
        self.document_target_domain = String::new();
        proof {
            assert(self@.document_target_url =~= Seq::empty());
            assert(self@.document_target_domain =~= Seq::empty());
        }
    }
}

} // verus!
