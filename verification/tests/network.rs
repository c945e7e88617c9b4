use chromiumoxide::allowlists::{
    allowed_matcher, allowed_matcher_3rd_party, ignore_content_type, js_framework_path,
};
use chromiumoxide::blocklists::{contains_css, AdBlocker};
use chromiumoxide::command::{
    AuthChallengeResponseResponse, CdpCommand, ErrorReason, NetworkEvent, RequestStage,
};
use chromiumoxide::matcher::UrlMatcher;
use chromiumoxide::network::decision::{CachedResponse, PausedRequest, Verdicts};
use chromiumoxide::network::fetch::unmask;
use chromiumoxide::network::manager::{is_redirect_status, NetworkManager};
use chromiumoxide::network::requests::{content_length, redirected_response};
use chromiumoxide::network::state::BasicCachePolicy;
use chromiumoxide::protocol::{
    Credentials, EventAuthRequired, EventLoadingFailed, EventLoadingFinished, EventRequestPaused,
    EventRequestServedFromCache, EventRequestWillBeSent, EventResponseReceived, HeaderValue,
    Headers, HttpRequest, ResourceType, Response,
};
use spider_network_blocker::intercept_manager::NetworkInterceptManager;
use std::time::Duration;

fn manager() -> NetworkManager {
    NetworkManager::new(false, Duration::from_secs(30))
}

fn no_verdicts() -> Verdicts {
    Verdicts {
        data_resource: false,
        ad: false,
        embedded_script: false,
        website: false,
        xhr_script: false,
        xhr: false,
        xhr_media: false,
        xhr_asset: false,
    }
}

fn headers(entries: &[(&str, &str)]) -> Headers {
    let mut headers = Headers::new();
    for (name, value) in entries {
        headers.insert(name.to_string(), HeaderValue::Text(value.to_string()));
    }
    headers
}

fn response(url: &str, status: i64, entries: &[(&str, &str)], length: u64) -> Response {
    Response {
        url: url.to_string(),
        status,
        headers: headers(entries),
        encoded_data_length: length,
    }
}

fn sent(id: &str, url: &str, redirect: Option<Response>) -> EventRequestWillBeSent {
    EventRequestWillBeSent {
        request_id: id.to_string(),
        frame_id: Some("frame".to_string()),
        url: url.to_string(),
        redirect_response: redirect,
        raw: "{}".to_string(),
    }
}

fn received(id: &str, response: Response) -> EventResponseReceived {
    EventResponseReceived { request_id: id.to_string(), response, raw: "{}".to_string() }
}

fn paused(id: &str, network: Option<&str>, kind: ResourceType, url: &str) -> EventRequestPaused {
    EventRequestPaused {
        request_id: id.to_string(),
        network_id: network.map(|n| n.to_string()),
        resource_type: kind,
        url: url.to_string(),
        method: "GET".to_string(),
        is_same_site: None,
        redirected_request_id: None,
    }
}

fn poll_command(nm: &mut NetworkManager) -> CdpCommand {
    match nm.poll() {
        Some(NetworkEvent::SendCdpRequest(command)) => command,
        other => panic!("expected a command, got {other:?}"),
    }
}

/// Runs the first two steps of a pause, and says whether the request was blocked.
fn is_blocked(nm: &mut NetworkManager, event: &EventRequestPaused, verdicts: &Verdicts) -> bool {
    let open = nm.on_fetch_request_paused(event, "").expect("something to decide");
    let lookup = nm.settle_paused_request(event, &open, verdicts);
    assert!(lookup.is_none());
    match poll_command(nm) {
        CdpCommand::FulfillRequest { request_id, response_code, response_headers, body } => {
            assert_eq!(request_id, event.request_id);
            assert_eq!(response_code, 200);
            assert!(response_headers.is_none() && body.is_none());
            true
        }
        CdpCommand::ContinueRequest { request_id, .. } => {
            assert_eq!(request_id, event.request_id);
            false
        }
        other => panic!("expected an answer, got {other:?}"),
    }
}

#[test]
fn test_allowed_matcher_3rd_party() {
    let allowed = allowed_matcher_3rd_party();

    // Should be allowed (matches "/cdn-cgi/challenge-platform/")
    let cf_challenge = "https://www.something.com.ba/cdn-cgi/challenge-platform/h/g/orchestrate/chl_page/v1?ray=9abf7b523d90987e";
    assert!(
        allowed.is_match(cf_challenge),
        "expected Cloudflare challenge script to be allowed"
    );

    // Should NOT be allowed (not in allow-list)
    let cf_insights = "https://static.cloudflareinsights.com/beacon.min.js/vcd15cbe7772f49c399c6a5babf22c1241717689176015";
    assert!(
        !allowed.is_match(cf_insights),
        "expected Cloudflare Insights beacon to remain blocked (not in allow-list)"
    );

    // A couple sanity checks for existing allow patterns
    assert!(allowed.is_match("https://js.stripe.com/v3/"));
    assert!(allowed.is_match("https://www.google.com/recaptcha/api.js?render=explicit"));
    assert!(allowed.is_match("https://code.jquery.com/jquery-3.7.1.min.js"));
}

#[test]
fn test_script_allowed_by_default_when_not_blocklisted() {
    let mut nm = NetworkManager::new(false, Duration::from_secs(30));
    nm.set_page_url(
        "https://forum.cursor.com/t/is-2000-fast-requests-the-maximum/51085".to_string(),
        "cursor.com".to_string(),
    );

    // A random script that should not match your block tries.
    let ok = "https://cdn.example.net/assets/some-app-bundle-12345.js";
    assert!(
        !nm.should_block_script_blocklist_only(ok, false),
        "expected non-blocklisted script to be allowed"
    );
}

#[test]
fn test_script_blocked_when_matches_ignore_trie_or_blocklist() {
    let mut nm = NetworkManager::new(false, Duration::from_secs(30));
    nm.set_page_url(
        "https://forum.cursor.com/t/is-2000-fast-requests-the-maximum/51085".to_string(),
        "cursor.com".to_string(),
    );

    // This should match URL_IGNORE_TRIE_PATHS fallback ("analytics.js") logic.
    let bad = "https://cdn.example.net/js/analytics.js";
    assert!(
        nm.should_block_script_blocklist_only(bad, false),
        "expected analytics.js to be blocklisted"
    );
}

#[test]
fn test_allowed_matcher_3rd_party_sanity() {
    let allowed = allowed_matcher_3rd_party();

    // Should be allowed (matches "/cdn-cgi/challenge-platform/")
    let cf_challenge = "https://www.something.com.ba/cdn-cgi/challenge-platform/h/g/orchestrate/chl_page/v1?ray=9abf7b523d90987e";
    assert!(
        allowed.is_match(cf_challenge),
        "expected Cloudflare challenge script to be allowed"
    );

    // Should NOT be allowed (not in allow-list)
    let cf_insights = "https://static.cloudflareinsights.com/beacon.min.js/vcd15cbe7772f49c399c6a5babf22c1241717689176015";
    assert!(
        !allowed.is_match(cf_insights),
        "expected Cloudflare Insights beacon to remain blocked (not in allow-list)"
    );

    assert!(allowed.is_match("https://js.stripe.com/v3/"));
    assert!(allowed.is_match("https://www.google.com/recaptcha/api.js?render=explicit"));
    assert!(allowed.is_match("https://code.jquery.com/jquery-3.7.1.min.js"));
}

#[test]
fn test_dynamic_blacklist_blocks_url() {
    let mut nm = NetworkManager::new(false, Duration::from_secs(30));
    nm.set_page_url("https://example.com/".to_string(), "example.com".to_string());

    nm.set_blacklist_patterns(vec![
        "static.cloudflareinsights.com".to_string(),
        "googletagmanager.com".to_string(),
    ]);
    assert!(nm.is_blacklisted("https://static.cloudflareinsights.com/beacon.min.js"));
    assert!(nm.is_blacklisted("https://www.googletagmanager.com/gtm.js?id=GTM-XXXX"));

    assert!(!nm.is_blacklisted("https://cdn.example.net/assets/app.js"));
}

#[test]
fn test_blacklist_strict_wins_over_whitelist() {
    let mut nm = NetworkManager::new(false, Duration::from_secs(30));
    nm.set_page_url("https://example.com/".to_string(), "example.com".to_string());

    // Same URL in both lists.
    nm.set_blacklist_patterns(vec!["beacon.min.js".to_string()]);
    nm.set_whitelist_patterns(vec!["beacon.min.js".to_string()]);

    nm.set_blacklist_strict(true);

    let u = "https://static.cloudflareinsights.com/beacon.min.js";
    assert!(nm.is_whitelisted(u));
    assert!(nm.is_blacklisted(u));

    // In strict mode, it should still be considered blocked at decision time.
    assert!(nm.blacklist_strict.on);
    let event = paused("p", None, ResourceType::Script, u);
    assert!(is_blocked(&mut nm, &event, &no_verdicts()));
}

#[test]
fn test_blacklist_non_strict_allows_whitelist_override() {
    let mut nm = NetworkManager::new(false, Duration::from_secs(30));
    nm.set_page_url("https://example.com/".to_string(), "example.com".to_string());

    nm.set_blacklist_patterns(vec!["beacon.min.js".to_string()]);
    nm.set_whitelist_patterns(vec!["beacon.min.js".to_string()]);

    nm.set_blacklist_strict(false);

    let u = "https://static.cloudflareinsights.com/beacon.min.js";
    assert!(nm.is_blacklisted(u));
    assert!(nm.is_whitelisted(u));
    assert!(!nm.blacklist_strict.on);
    let event = paused("p", None, ResourceType::Script, u);
    assert!(!is_blocked(&mut nm, &event, &no_verdicts()));
}

#[test]
fn a_lenient_blacklist_blocks_what_is_not_whitelisted() {
    let mut nm = manager();
    nm.set_blacklist_patterns(vec!["beacon.min.js".to_string()]);
    nm.set_blacklist_strict(false);
    let event = paused("p", None, ResourceType::Script, "https://a.example/beacon.min.js");
    assert!(is_blocked(&mut nm, &event, &no_verdicts()));
}

#[test]
fn pattern_lists_are_added_to_and_cleared() {
    let mut nm = manager();
    nm.add_blacklist_pattern("one".to_string());
    nm.add_blacklist_patterns(vec!["two".to_string(), "three".to_string()]);
    assert!(nm.is_blacklisted("https://x/one"));
    assert!(nm.is_blacklisted("https://x/three"));
    nm.clear_blacklist();
    assert!(!nm.is_blacklisted("https://x/one"));
    nm.add_whitelist_pattern("four".to_string());
    nm.add_whitelist_patterns(vec!["five".to_string()]);
    assert!(nm.is_whitelisted("https://x/four"));
    assert!(nm.is_whitelisted("https://x/five"));
    nm.set_whitelist_patterns(Vec::new());
    assert!(!nm.is_whitelisted("https://x/five"));
}

#[test]
fn matchers_find_patterns_anywhere() {
    let matcher = UrlMatcher::new(&vec!["abc".to_string(), "Ünï".to_string()]).expect("builds");
    assert!(matcher.is_match("xxabcxx"));
    assert!(matcher.is_match("xÜnïx"));
    assert!(!matcher.is_match("ab c"));
    assert!(!matcher.is_match(""));
    let everything = UrlMatcher::new(&vec!["".to_string()]).expect("builds");
    assert!(everything.is_match(""));
    assert!(allowed_matcher().is_match("https://x/vendor.js"));
    assert!(!allowed_matcher().is_match("https://x/y.css"));
}

#[test]
fn named_lists_hold_their_members() {
    assert!(js_framework_path("_astro/"));
    assert!(js_framework_path("_app/immutable"));
    assert!(!js_framework_path("_astro"));
    assert!(ignore_content_type("application/pdf"));
    assert!(ignore_content_type("application/rtf"));
    assert!(!ignore_content_type("text/html"));
}

#[test]
fn redirect_statuses() {
    for status in [301, 302, 303, 307, 308] {
        assert!(is_redirect_status(status));
    }
    for status in [200, 300, 304, 305, 306, 309, 404, -1] {
        assert!(!is_redirect_status(status));
    }
}

#[test]
fn css_is_found_whatever_its_case() {
    assert!(contains_css("css"));
    assert!(contains_css("CSS?v=1"));
    assert!(contains_css("xcSsx"));
    assert!(!contains_css("cs"));
    assert!(!contains_css("c-s-s"));
    assert!(!contains_css(""));
}

#[test]
fn block_all_fails_requests() {
    let mut nm = manager();
    nm.set_block_all(true);
    let event = paused("p1", Some("n1"), ResourceType::Image, "https://a.example/x.png");
    assert!(nm.on_fetch_request_paused(&event, "").is_none());
    match poll_command(&mut nm) {
        CdpCommand::FailRequest { request_id, error_reason } => {
            assert_eq!(request_id, "p1");
            assert_eq!(error_reason, ErrorReason::BlockedByClient);
        }
        other => panic!("expected a failure, got {other:?}"),
    }
    assert!(nm.poll().is_none());
}

#[test]
fn requests_are_left_to_the_user_who_intercepts() {
    let mut nm = manager();
    nm.set_request_interception(true);
    assert!(matches!(poll_command(&mut nm), CdpCommand::FetchEnable { .. }));
    let event = paused("p1", None, ResourceType::Image, "https://a.example/x.png");
    assert!(nm.on_fetch_request_paused(&event, "").is_none());
    assert!(nm.poll().is_none());
}

#[test]
fn reports_pings_and_prefetching_are_blocked() {
    for kind in [ResourceType::Ping, ResourceType::CspViolationReport, ResourceType::Prefetch] {
        let mut nm = manager();
        let event = paused("p", None, kind, "https://a.example/r");
        assert!(is_blocked(&mut nm, &event, &no_verdicts()));
    }
    let mut nm = manager();
    nm.block_prefetch.on = false;
    let event = paused("p", None, ResourceType::Prefetch, "https://a.example/r");
    assert!(!is_blocked(&mut nm, &event, &no_verdicts()));
}

#[test]
fn visuals_and_style_sheets_are_blocked_on_request() {
    let image = paused("p", None, ResourceType::Image, "https://a.example/x.png");
    let sheet = paused("p", None, ResourceType::Stylesheet, "https://a.example/x");
    let mut nm = manager();
    assert!(!is_blocked(&mut nm, &image, &no_verdicts()));
    assert!(!is_blocked(&mut nm, &sheet, &no_verdicts()));
    nm.ignore_visuals.on = true;
    assert!(is_blocked(&mut nm, &image, &no_verdicts()));
    assert!(!is_blocked(&mut nm, &sheet, &no_verdicts()));
    nm.block_stylesheets.on = true;
    assert!(is_blocked(&mut nm, &sheet, &no_verdicts()));
}

#[test]
fn style_sheets_of_xml_documents_are_let_through() {
    let mut nm = manager();
    nm.block_stylesheets.on = true;
    let document =
        paused("d", None, ResourceType::Document, "https://a.example/sitemap.xml");
    assert!(!is_blocked(&mut nm, &document, &no_verdicts()));
    assert!(nm.xml_document.on);
    let sheet = paused("s", None, ResourceType::Stylesheet, "https://a.example/main.xsl");
    assert!(!is_blocked(&mut nm, &sheet, &no_verdicts()));
    let other = paused("s", None, ResourceType::Stylesheet, "https://a.example/main.css");
    assert!(is_blocked(&mut nm, &other, &no_verdicts()));
}

#[test]
fn data_requests_are_blocked_by_their_lists() {
    let event = paused("p", None, ResourceType::Xhr, "https://a.example/a.b/site.CSS");
    let data = Verdicts { data_resource: true, ..no_verdicts() };
    let mut nm = manager();
    assert!(!is_blocked(&mut nm, &event, &data));
    assert!(is_blocked(&mut nm, &event, &Verdicts { xhr: true, ..data }));
    assert!(is_blocked(&mut nm, &event, &Verdicts { xhr_script: true, ..data }));
    assert!(is_blocked(&mut nm, &event, &Verdicts { website: true, ..data }));
    assert!(!is_blocked(&mut nm, &event, &Verdicts { xhr_media: true, ..data }));
    nm.block_analytics.on = false;
    assert!(!is_blocked(&mut nm, &event, &Verdicts { xhr: true, ..data }));
    nm.block_stylesheets.on = true;
    assert!(is_blocked(&mut nm, &event, &data));
    nm.block_stylesheets.on = false;
    nm.ignore_visuals.on = true;
    assert!(!is_blocked(&mut nm, &event, &data));
    assert!(is_blocked(&mut nm, &event, &Verdicts { xhr_asset: true, ..data }));
    assert!(is_blocked(&mut nm, &event, &Verdicts { xhr_media: true, ..data }));
    // An extension of one byte is none.
    let short = paused("p", None, ResourceType::Xhr, "https://a.example/a.c");
    assert!(!is_blocked(&mut nm, &short, &Verdicts { xhr_asset: true, ..data }));
}

#[test]
fn scripts_are_blocked_by_explicit_lists_only() {
    let ok = paused("p", None, ResourceType::Script, "https://cdn.example.net/assets/a-1.js");
    let mut nm = manager();
    nm.ignore_visuals.on = true;
    nm.block_stylesheets.on = true;
    nm.block_javascript.on = true;
    assert!(!is_blocked(&mut nm, &ok, &no_verdicts()));
    assert!(is_blocked(&mut nm, &ok, &Verdicts { website: true, ..no_verdicts() }));
    assert!(is_blocked(&mut nm, &ok, &Verdicts { ad: true, ..no_verdicts() }));
    assert!(is_blocked(&mut nm, &ok, &Verdicts { embedded_script: true, ..no_verdicts() }));
    nm.block_javascript.on = false;
    assert!(!is_blocked(&mut nm, &ok, &Verdicts { embedded_script: true, ..no_verdicts() }));
    // A third party that is let through.
    let party = paused("p", None, ResourceType::Script, "https://js.stripe.com/v3/");
    assert!(!is_blocked(&mut nm, &party, &Verdicts { website: true, ..no_verdicts() }));
    let listed = paused("p", None, ResourceType::Script, "https://cdn.example.net/js/analytics.js");
    assert!(is_blocked(&mut nm, &listed, &no_verdicts()));
    nm.block_analytics.on = false;
    assert!(!is_blocked(&mut nm, &listed, &no_verdicts()));
}

#[test]
fn the_tries_hold_urls_paths_and_styles() {
    let mut nm = manager();
    assert!(nm.should_block_script_blocklist_only("https://www.google-analytics.com/x", false));
    assert!(!nm.should_block_script_blocklist_only("no url at all", false));
    assert!(nm.should_block_script_blocklist_only("no url at all", true));
    nm.block_analytics.on = false;
    assert!(nm.should_block_script_blocklist_only(
        "https://a.example/wp-content/plugins/cookie-law-info/x.js?y#z",
        false
    ));
    let styled = "https://a.example/wp-content/themes/x.js";
    assert!(!nm.should_block_script_blocklist_only(styled, false));
    nm.ignore_visuals.on = true;
    assert!(nm.should_block_script_blocklist_only(styled, false));
}

#[test]
fn a_site_has_rules_of_its_own() {
    let mut nm = manager();
    let mut blocked = Vec::new();
    let urls = [
        "https://www.amazon.com/gp/overlay/display.html",
        "https://m.media-amazon.com/images/G/01/csm/showads.v2.js",
        "https://www.amazon.com/1/events/com.amazon.csm.csa.prod",
    ];
    for url in urls {
        let event = paused("p", None, ResourceType::Script, url);
        let verdicts = no_verdicts();
        let plain = is_blocked(&mut nm, &event, &verdicts);
        nm.intercept_manager = NetworkInterceptManager::Amazon;
        let site = is_blocked(&mut nm, &event, &verdicts);
        nm.intercept_manager = NetworkInterceptManager::Unknown;
        assert!(!plain || site);
        blocked.push((
            NetworkInterceptManager::Amazon.intercept_detection(url, false, false),
            plain,
            site,
        ));
    }
    for (own, plain, site) in blocked {
        assert_eq!(site, plain || own);
    }
}

#[test]
fn ads_are_blocked_with_an_ad_blocker() {
    let event = paused("p", None, ResourceType::Image, "https://a.googlesyndication.com/x.png");
    let mut nm = manager();
    assert!(!nm.detect_ad(&event));
    assert!(!is_blocked(&mut nm, &event, &no_verdicts()));
    nm.set_ad_blocker(Some(AdBlocker::standard()));
    assert!(nm.detect_ad(&event));
    assert!(is_blocked(&mut nm, &event, &no_verdicts()));
    // Scripts are not asked about.
    let script = paused("p", None, ResourceType::Script, "https://a.googlesyndication.com/x.png");
    assert!(!nm.detect_ad(&script));
    let plain = paused("p", None, ResourceType::Image, "https://a.example/x.png");
    assert!(!nm.detect_ad(&plain));
    let tiny = paused("p", None, ResourceType::Image, "ws:a");
    assert!(!nm.detect_ad(&tiny));
    nm.set_ad_blocker(None);
    assert!(!nm.detect_ad(&event));
    let standard = AdBlocker::standard();
    assert!(standard.matches("https://a.example/js/analytics.min.js", "xhr", true));
    assert!(!standard.matches("https://a.example/x.png", "image", true));
}

#[test]
fn a_full_count_of_reloads_does_not_matter_where_nothing_is_counted() {
    let event = paused("d", None, ResourceType::Document, "https://a.example/");
    let mut nm = manager();
    nm.set_page_url("https://a.example/".to_string(), "a.example".to_string());
    nm.document_reload_tracker = 255;
    nm.set_block_all(true);
    assert!(nm.on_fetch_request_paused(&event, "").is_none());
    assert!(matches!(poll_command(&mut nm), CdpCommand::FailRequest { .. }));
    assert_eq!(nm.document_reload_tracker, 255);
}

#[test]
fn added_patterns_widen_a_list() {
    let urls = ["https://x/one", "https://x/two", "https://x/three", "https://x/four"];
    let mut at_once = manager();
    at_once.set_blacklist_patterns(vec!["one".to_string()]);
    at_once.set_whitelist_patterns(vec!["four".to_string()]);
    let mut one_by_one = manager();
    one_by_one.set_blacklist_patterns(vec!["one".to_string()]);
    at_once.add_blacklist_patterns(vec!["two".to_string(), "three".to_string()]);
    one_by_one.add_blacklist_pattern("three".to_string());
    one_by_one.add_blacklist_pattern("two".to_string());
    let listed: Vec<bool> = urls.iter().map(|url| at_once.is_blacklisted(url)).collect();
    assert_eq!(listed, vec![true, true, true, false]);
    for url in urls {
        assert_eq!(at_once.is_blacklisted(url), one_by_one.is_blacklisted(url));
    }
    assert!(at_once.is_whitelisted("https://x/four") && at_once.blacklist_strict.on);
}

#[test]
fn a_row_of_responses_is_accounted_for() {
    let mut nm = manager();
    nm.max_bytes_allowed = Some(100);
    let mut reported = 0;
    for length in [10, 0, 25, 70, 5] {
        nm.on_response_received(&received("z", response("u", 200, &[], length)));
        while let Some(event) = nm.poll() {
            if let NetworkEvent::BytesConsumed(bytes) = event {
                reported += bytes;
            }
        }
        assert_eq!(nm.max_bytes_allowed, Some(100 - reported));
    }
    assert_eq!(reported, 100);
}

#[test]
fn three_reloads_stop_a_document() {
    let mut nm = manager();
    let event = paused("d", None, ResourceType::Document, "https://a.example/");
    // The first one is the navigation, and the next three are reloads.
    for _ in 0..4 {
        assert!(!is_blocked(&mut nm, &event, &no_verdicts()));
    }
    assert_eq!(nm.document_reload_tracker, 3);
    assert!(is_blocked(&mut nm, &event, &no_verdicts()));
    nm.clear_target_domain();
    assert!(!nm.has_target_domain());
    assert!(!is_blocked(&mut nm, &event, &no_verdicts()));
    assert!(nm.has_target_domain());
}

#[test]
fn masked_documents_are_unmasked() {
    assert_eq!(
        unmask("http://a.example/", "https://a.examplehttp//a.example/").as_deref(),
        Some("https://a.example/")
    );
    assert_eq!(
        unmask("https://a.example/x", "http://a.example/xhttps//a.example/x").as_deref(),
        Some("http://a.example/x")
    );
    assert_eq!(
        unmask("http://a.example//", "https://a.examplehttp//a.example//").as_deref(),
        Some("https://a.example/")
    );
    assert_eq!(unmask("http://a.example/", "https://a.example/"), None);

    let mut nm = manager();
    nm.set_page_url("http://a.example/".to_string(), "a.example".to_string());
    let mut event =
        paused("d", None, ResourceType::Document, "https://a.examplehttp//a.example/");
    let open = nm.on_fetch_request_paused(&event, "").expect("something to decide");
    assert!(!open.had_replacer);
    nm.set_page_url("http://a.example/".to_string(), "a.example".to_string());
    event.redirected_request_id = Some("before".to_string());
    let open = nm.on_fetch_request_paused(&event, "examplehttp").expect("something to decide");
    assert!(open.had_replacer);
    assert_eq!(open.current_url, "https://a.example/");
    assert_eq!(nm.document_target_url, "https://a.examplehttp//a.example/");
    assert_eq!(nm.document_target_domain, "examplehttp");
    assert!(nm.settle_paused_request(&event, &open, &no_verdicts()).is_none());
    match poll_command(&mut nm) {
        CdpCommand::ContinueRequest { url, intercept_response, .. } => {
            assert_eq!(url.as_deref(), Some("https://a.example/"));
            assert_eq!(intercept_response, Some(false));
        }
        other => panic!("expected to continue, got {other:?}"),
    }
}

#[test]
fn cached_responses_fulfil_requests() {
    let mut nm = manager();
    nm.set_cache_site_key(Some("site".to_string()));
    let event = paused("p", None, ResourceType::Image, "https://a.example/x.png");
    let open = nm.on_fetch_request_paused(&event, "").expect("something to decide");
    // Without a policy the cache is not asked.
    assert!(nm.settle_paused_request(&event, &open, &no_verdicts()).is_none());
    assert!(matches!(poll_command(&mut nm), CdpCommand::ContinueRequest { url: None, .. }));

    nm.set_cache_policy(Some(BasicCachePolicy::Normal));
    let lookup =
        nm.settle_paused_request(&event, &open, &no_verdicts()).expect("the cache is asked");
    assert_eq!(lookup.site_key, "site");
    assert_eq!(lookup.key, "GET:https://a.example/x.png");
    assert!(nm.poll().is_none());
    let cached = |allowed: bool| CachedResponse {
        body: b"hello".to_vec(),
        headers: vec![("content-type".to_string(), "image/png".to_string())],
        status: 203,
        allowed,
    };
    nm.settle_cached_request(&event, &open, Some(cached(true)));
    match poll_command(&mut nm) {
        CdpCommand::FulfillRequest { request_id, response_code, response_headers, body } => {
            assert_eq!(request_id, "p");
            assert_eq!(response_code, 203);
            assert_eq!(
                response_headers,
                Some(vec![("content-type".to_string(), "image/png".to_string())])
            );
            assert_eq!(body.as_deref(), Some("aGVsbG8="));
        }
        other => panic!("expected a response, got {other:?}"),
    }
    nm.settle_cached_request(&event, &open, Some(cached(false)));
    assert!(matches!(poll_command(&mut nm), CdpCommand::ContinueRequest { .. }));
    nm.settle_cached_request(&event, &open, None);
    assert!(matches!(poll_command(&mut nm), CdpCommand::ContinueRequest { .. }));
    // A blocked request is not looked up.
    nm.set_blacklist_patterns(vec!["x.png".to_string()]);
    assert!(nm.settle_paused_request(&event, &open, &no_verdicts()).is_none());
    assert!(matches!(poll_command(&mut nm), CdpCommand::FulfillRequest { body: None, .. }));
}

#[test]
fn a_pause_says_what_is_decided_on() {
    let mut nm = manager();
    let event = paused("p", None, ResourceType::Fetch, "https://a.example/q");
    let PausedRequest { current_url, had_replacer, skip_networking } =
        nm.on_fetch_request_paused(&event, "").expect("something to decide");
    assert_eq!(current_url, "https://a.example/q");
    assert!(!had_replacer && !skip_networking);
}

fn poll_request(nm: &mut NetworkManager) -> EventRequestWillBeSent {
    match nm.poll() {
        Some(NetworkEvent::Request(event)) => event,
        other => panic!("expected a request, got {other:?}"),
    }
}

fn finish(nm: &mut NetworkManager, id: &str) -> HttpRequest {
    nm.on_network_loading_finished(&EventLoadingFinished { request_id: id.to_string() });
    match nm.poll() {
        Some(NetworkEvent::RequestFinished(request)) => request,
        other => panic!("expected a finished request, got {other:?}"),
    }
}

#[test]
fn pause_and_announcement_come_in_either_order() {
    let event = paused("pause", Some("net"), ResourceType::Image, "https://a.example/x.png");
    let announcement = sent("net", "https://a.example/x.png", None);

    let mut first = manager();
    first.enable_request_intercept();
    first.on_request_will_be_sent(&announcement);
    assert!(first.poll().is_none());
    assert!(first.on_fetch_request_paused(&event, "").is_some());
    assert_eq!(poll_request(&mut first).request_id, "net");

    let mut second = manager();
    second.enable_request_intercept();
    assert!(second.on_fetch_request_paused(&event, "").is_some());
    assert!(second.poll().is_none());
    second.on_request_will_be_sent(&announcement);
    assert_eq!(poll_request(&mut second).request_id, "net");

    for nm in [&mut first, &mut second] {
        let request = finish(nm, "net");
        assert_eq!(request.interception_id.as_deref(), Some("pause"));
        assert_eq!(request.frame.as_deref(), Some("frame"));
        assert!(!request.allow_interception && !request.from_memory_cache);
        assert!(request.response.is_none() && request.redirect_chain.is_empty());
    }
}

#[test]
fn data_urls_and_requests_without_interception_are_known_at_once() {
    let mut nm = manager();
    nm.on_request_will_be_sent(&sent("a", "https://a.example/", None));
    assert_eq!(poll_request(&mut nm).url, "https://a.example/");
    nm.enable_request_intercept();
    nm.on_request_will_be_sent(&sent("b", "data:text/plain,hi", None));
    assert_eq!(poll_request(&mut nm).request_id, "b");
    nm.disable_request_intercept();
    nm.on_request_will_be_sent(&sent("c", "https://a.example/", None));
    assert_eq!(poll_request(&mut nm).request_id, "c");
    assert_eq!(finish(&mut nm, "b").interception_id, None);
    // A request ends once.
    nm.on_network_loading_finished(&EventLoadingFinished { request_id: "b".to_string() });
    assert!(nm.poll().is_none());
}

#[test]
fn requests_fail_with_their_reason() {
    let mut nm = manager();
    nm.on_request_will_be_sent(&sent("a", "https://a.example/", None));
    let _ = poll_request(&mut nm);
    nm.on_request_served_from_cache(&EventRequestServedFromCache { request_id: "a".to_string() });
    nm.on_request_served_from_cache(&EventRequestServedFromCache { request_id: "z".to_string() });
    nm.on_network_loading_failed(&EventLoadingFailed {
        request_id: "a".to_string(),
        error_text: "net::ERR_FAILED".to_string(),
    });
    match nm.poll() {
        Some(NetworkEvent::RequestFailed(request)) => {
            assert_eq!(request.failure_text.as_deref(), Some("net::ERR_FAILED"));
            assert!(request.from_memory_cache);
        }
        other => panic!("expected a failed request, got {other:?}"),
    }
    assert!(nm.poll().is_none());
}

#[test]
fn redirects_make_a_chain() {
    let mut nm = manager();
    nm.on_request_will_be_sent(&sent("a", "http://a.example/", None));
    let hop = response(
        "http://a.example/",
        301,
        &[("Location", "http://a.example/next"), ("x", "y")],
        10,
    );
    nm.on_request_will_be_sent(&sent("a", "http://a.example/next", Some(hop)));
    let second = response("http://a.example/next", 302, &[("Location", "/end")], 10);
    nm.on_request_will_be_sent(&sent("a", "http://a.example/end", Some(second)));
    for _ in 0..3 {
        let _ = poll_request(&mut nm);
    }
    let request = finish(&mut nm, "a");
    assert_eq!(request.redirect_chain.len(), 2);
    let locations: Vec<_> = request
        .redirect_chain
        .iter()
        .map(|hop| {
            assert!(hop.redirect_chain.is_empty());
            let response = hop.response.as_ref().expect("a hop has a response");
            response.headers.get_text("Location").cloned()
        })
        .collect();
    assert_eq!(locations, vec![Some("next".to_string()), Some("/end".to_string())]);
}

#[test]
fn a_redirect_of_an_unknown_request_has_no_chain() {
    let mut nm = manager();
    let hop = response("http://a.example/", 301, &[("Location", "/next")], 10);
    nm.on_request_will_be_sent(&sent("a", "http://a.example/next", Some(hop)));
    let _ = poll_request(&mut nm);
    assert!(finish(&mut nm, "a").redirect_chain.is_empty());
}

#[test]
fn locations_lose_the_url_that_they_come_from() {
    let location = |status: i64, value: &str| {
        redirected_response(&response("http://a/", status, &[("Location", value)], 0))
            .headers
            .get_text("Location")
            .cloned()
    };
    assert_eq!(location(301, "http://a/b").as_deref(), Some("b"));
    assert_eq!(location(301, "http://a/bhttp://a/c").as_deref(), Some("bc"));
    assert_eq!(location(301, "http://a/").as_deref(), Some("http://a/"));
    assert_eq!(location(301, "http://a/http://a/").as_deref(), Some("http://a/http://a/"));
    assert_eq!(location(200, "http://a/b").as_deref(), Some("http://a/b"));
    let none = redirected_response(&response("http://a/", 301, &[], 0));
    assert!(none.headers.is_empty());
}

#[test]
fn content_lengths_are_read_safely() {
    let length = |value: &str| content_length(&response("u", 200, &[("content-length", value)], 0));
    assert_eq!(length("17"), Some(17));
    assert_eq!(length("  +17\t"), Some(17));
    assert_eq!(length("18446744073709551615"), Some(u64::MAX));
    assert_eq!(length("18446744073709551616"), None);
    assert_eq!(length("-1"), None);
    assert_eq!(length("1 7"), None);
    assert_eq!(length(""), None);
    assert_eq!(content_length(&response("u", 200, &[("Content-Length", "17")], 0)), None);
    let mut json = response("u", 200, &[], 0);
    json.headers.insert("content-length".to_string(), HeaderValue::Json("17".to_string()));
    assert_eq!(content_length(&json), None);
}

#[test]
fn the_byte_budget_is_charged() {
    let mut nm = manager();
    nm.max_bytes_allowed = Some(100);
    nm.on_request_will_be_sent(&sent("a", "https://a.example/", None));
    nm.on_request_will_be_sent(&sent("b", "https://a.example/b", None));
    let _ = poll_request(&mut nm);
    let _ = poll_request(&mut nm);

    nm.on_response_received(&received("a", response("u", 200, &[("content-length", "70")], 30)));
    assert_eq!(nm.max_bytes_allowed, Some(70));
    assert!(matches!(nm.poll(), Some(NetworkEvent::BytesConsumed(30))));
    assert!(matches!(nm.poll(), Some(NetworkEvent::Response(_))));
    match nm.poll() {
        Some(NetworkEvent::RequestFinished(request)) => {
            assert_eq!(request.response.map(|r| r.encoded_data_length), Some(30));
        }
        other => panic!("expected a finished request, got {other:?}"),
    }

    // What is declared does not fit: nothing is left, and everything is blocked.
    nm.on_response_received(&received("b", response("u", 200, &[("content-length", "61")], 10)));
    assert_eq!(nm.max_bytes_allowed, Some(0));
    assert!(matches!(nm.poll(), Some(NetworkEvent::BytesConsumed(70))));
    assert!(matches!(nm.poll(), Some(NetworkEvent::Response(_))));
    assert!(matches!(nm.poll(), Some(NetworkEvent::RequestFailed(_))));
    let event = paused("p", None, ResourceType::Image, "https://a.example/x.png");
    assert!(nm.on_fetch_request_paused(&event, "").is_none());
    assert!(matches!(poll_command(&mut nm), CdpCommand::FailRequest { .. }));

    // Without a budget nothing is charged.
    let mut free = manager();
    free.on_response_received(&received("z", response("u", 200, &[], 1000)));
    assert!(matches!(free.poll(), Some(NetworkEvent::Response(_))));
    assert!(free.poll().is_none());
}

fn challenge(nm: &mut NetworkManager, id: &str) -> (AuthChallengeResponseResponse, Option<String>) {
    nm.on_fetch_auth_required(&EventAuthRequired { request_id: id.to_string() });
    match poll_command(nm) {
        CdpCommand::ContinueWithAuth { request_id, response, username, password } => {
            assert_eq!(request_id, id);
            assert_eq!(username.is_some(), password.is_some());
            (response, username)
        }
        other => panic!("expected an answer, got {other:?}"),
    }
}

#[test]
fn credentials_are_given_once() {
    let mut nm = manager();
    assert_eq!(challenge(&mut nm, "a"), (AuthChallengeResponseResponse::Default, None));
    nm.authenticate(Credentials { username: "me".to_string(), password: "pw".to_string() });
    match poll_command(&mut nm) {
        CdpCommand::FetchEnable { handle_auth_requests, url_pattern, request_stage } => {
            assert!(handle_auth_requests);
            assert_eq!(url_pattern, "*");
            assert_eq!(request_stage, RequestStage::Request);
        }
        other => panic!("expected interception, got {other:?}"),
    }
    let me = Some("me".to_string());
    assert_eq!(
        challenge(&mut nm, "a"),
        (AuthChallengeResponseResponse::ProvideCredentials, me.clone())
    );
    assert_eq!(
        challenge(&mut nm, "b"),
        (AuthChallengeResponseResponse::ProvideCredentials, me.clone())
    );
    assert_eq!(challenge(&mut nm, "a"), (AuthChallengeResponseResponse::CancelAuth, me.clone()));
    // The end of a request forgets its pause.
    let event = paused("a", Some("net"), ResourceType::Image, "https://a.example/x.png");
    assert!(nm.on_fetch_request_paused(&event, "").is_some());
    nm.on_request_will_be_sent(&sent("net", "https://a.example/x.png", None));
    let _ = poll_request(&mut nm);
    let _ = finish(&mut nm, "net");
    assert_eq!(challenge(&mut nm, "a"), (AuthChallengeResponseResponse::ProvideCredentials, me));
}

#[test]
fn interception_follows_the_need() {
    let mut nm = manager();
    nm.set_request_interception(true);
    assert!(matches!(poll_command(&mut nm), CdpCommand::FetchEnable { .. }));
    nm.set_request_interception(true);
    assert!(nm.poll().is_none());
    nm.set_request_interception(false);
    assert!(matches!(poll_command(&mut nm), CdpCommand::FetchDisable));
    nm.authenticate(Credentials { username: "me".to_string(), password: "pw".to_string() });
    assert!(matches!(poll_command(&mut nm), CdpCommand::FetchEnable { .. }));
    nm.set_request_interception(false);
    assert!(nm.poll().is_none());
}

#[test]
fn extra_headers_lose_those_of_proxies() {
    let mut nm = manager();
    nm.set_extra_headers(headers(&[
        ("proxy-authorization", "secret"),
        ("Proxy-Authorization", "secret"),
        ("x-one", "1"),
    ]));
    match poll_command(&mut nm) {
        CdpCommand::SetExtraHttpHeaders { headers } => {
            assert_eq!(headers.entries().len(), 1);
            assert_eq!(headers.get_text("x-one").map(|t| t.as_str()), Some("1"));
        }
        other => panic!("expected headers, got {other:?}"),
    }
    assert_eq!(nm.extra_headers().entries().len(), 1);
    nm.set_extra_headers(headers(&[("proxy-authorization", "secret")]));
    assert!(nm.extra_headers().is_empty());
    assert!(nm.poll().is_none());
}

#[test]
fn headers_keep_one_value_of_a_name() {
    let mut h = headers(&[("a", "1"), ("b", "2"), ("a", "3")]);
    assert_eq!(h.get_text("a").map(|t| t.as_str()), Some("3"));
    assert!(h.get("A").is_none());
    h.remove("a");
    assert!(h.get("a").is_none());
    assert!(h.get("b").is_some());
    h.insert("c".to_string(), HeaderValue::Json("[1]".to_string()));
    assert!(h.get("c").is_some() && h.get_text("c").is_none());
}

#[test]
fn settings_send_their_commands() {
    let mut nm = manager();
    nm.set_service_worker_enabled(true);
    assert!(matches!(
        poll_command(&mut nm),
        CdpCommand::SetBypassServiceWorker { bypass: true }
    ));
    nm.set_cache_enabled(true);
    assert!(nm.poll().is_none());
    nm.set_cache_enabled(false);
    assert!(matches!(
        poll_command(&mut nm),
        CdpCommand::SetCacheDisabled { cache_disabled: true }
    ));
    nm.set_cache_enabled(false);
    assert!(nm.poll().is_none());
    nm.update_protocol_cache_disabled();
    assert!(matches!(
        poll_command(&mut nm),
        CdpCommand::SetCacheDisabled { cache_disabled: true }
    ));
    nm.set_offline_mode(false);
    assert!(nm.poll().is_none());
    nm.set_offline_mode(true);
    match poll_command(&mut nm) {
        CdpCommand::EmulateNetworkConditionsByRule {
            offline,
            url_pattern,
            latency,
            download_throughput,
            upload_throughput,
        } => {
            assert!(offline);
            assert_eq!(url_pattern, "");
            assert_eq!((latency, download_throughput, upload_throughput), (0, -1, -1));
        }
        other => panic!("expected conditions, got {other:?}"),
    }
    nm.push_cdp_request(CdpCommand::FetchDisable);
    assert!(matches!(poll_command(&mut nm), CdpCommand::FetchDisable));
}

#[test]
fn sessions_begin_with_their_commands() {
    let plain = manager().init_commands();
    assert_eq!(plain.timeout, Duration::from_secs(30));
    assert_eq!(plain.commands.len(), 1);
    assert!(matches!(plain.commands[0], CdpCommand::NetworkEnable));
    let lax = NetworkManager::new(true, Duration::from_secs(5)).init_commands();
    assert_eq!(lax.commands.len(), 2);
    assert!(matches!(lax.commands[1], CdpCommand::SetIgnoreCertificateErrors { ignore: true }));
}

#[test]
fn events_come_out_in_order() {
    let mut nm = manager();
    for id in ["a", "b", "c"] {
        nm.on_request_will_be_sent(&sent(id, "https://a.example/", None));
    }
    for id in ["a", "b", "c"] {
        assert_eq!(poll_request(&mut nm).request_id, id);
    }
    assert!(nm.poll().is_none());
}
