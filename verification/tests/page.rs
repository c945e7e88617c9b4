use chromiumoxide::error::CdpError;
use chromiumoxide::network::state::BasicCachePolicy;
use chromiumoxide::page::budget::EventDataReceived;
use chromiumoxide::page::call::{
    Argument, Call, CookieParam, Page, Param, Rgba, Step, UserAgentBrandVersion, UserAgentMetadata,
};
use chromiumoxide::page::cookies::{validate_cookie_url, DeleteCookiesParams};
use chromiumoxide::page::disguise::{stealth_script, StealthOs, StealthTier};
use chromiumoxide::page::dom::{
    collect_scopes_iterative, first_shadow_root, found_element, merge_found, Node, ShadowAction,
    ShadowReply,
};
use chromiumoxide::page::evaluation::{
    CallFunctionOnParams, EvaluateParams, Evaluation, EvaluationAction,
};
use chromiumoxide::page::input::{MouseAction, MouseButton, Point};
use chromiumoxide::page::messages::TargetMessage;
use chromiumoxide::page::navigation::{
    navigation_result, HttpAction, HttpEvent, NavigateParams, NavigationAction, NavigationEvent,
    PlanOutcome,
};
use chromiumoxide::page::screenshot::{
    CaptureScreenshotFormat, CaptureScreenshotParams, MediaTypeParams, ScreenshotParams,
};
use chromiumoxide::page::scripts::{combine_scripts, stealth_choice};
use chromiumoxide::page::user_agent::{
    platform_from_user_agent, user_agent_metadata, user_agent_steps, HighEntropyUaData,
    SetUserAgentOverrideParams,
};
use chromiumoxide::protocol::{Credentials, HeaderValue, Headers, HttpRequest};
use serde_json::Value;
use spider_fingerprint::spoofs;

fn page() -> Page {
    Page {
        target_id: "target".to_string(),
        session_id: "session".to_string(),
        opener_id: None,
    }
}

fn names(call: &Call) -> Vec<&str> {
    call.params.iter().map(|(name, _)| name.as_str()).collect()
}

fn text_of<'a>(call: &'a Call, name: &str) -> Option<&'a str> {
    call.params.iter().find(|(n, _)| n == name).and_then(|(_, param)| match param {
        Param::Text(text) => Some(text.as_str()),
        _ => None,
    })
}

fn bool_of(call: &Call, name: &str) -> Option<bool> {
    call.params.iter().find(|(n, _)| n == name).and_then(|(_, param)| match param {
        Param::Bool(yes) => Some(*yes),
        _ => None,
    })
}

fn int_of(call: &Call, name: &str) -> Option<i64> {
    call.params.iter().find(|(n, _)| n == name).and_then(|(_, param)| match param {
        Param::Int(number) => Some(*number),
        _ => None,
    })
}

fn sent(step: &Step) -> &Call {
    match step {
        Step::Send(call) => call,
        Step::Execute(call) => panic!("expected to send {call:?}"),
    }
}

fn executed(step: &Step) -> &Call {
    match step {
        Step::Execute(call) => call,
        Step::Send(call) => panic!("expected to execute {call:?}"),
    }
}

fn message<T: std::fmt::Debug>(result: Result<T, CdpError>) -> String {
    match result {
        Err(CdpError::Msg(text)) => text,
        other => panic!("expected a message, got {other:?}"),
    }
}

#[test]
fn platforms_of_user_agents() {
    let agents = [
        ("Mozilla/5.0 (Macintosh; Intel Mac OS X 10_15_7)", "MacIntel"),
        ("Mozilla/5.0 (iPad; CPU OS 15_0 like Mac OS X)", "iPad"),
        ("Mozilla/5.0 (IPHONE; CPU iPhone OS 15_0)", "iPhone"),
        ("iPod touch", "iPod"),
        ("Mozilla/5.0 (Windows NT 10.0; Win64; x64)", "Win32"),
        ("Mozilla/5.0 (X11; Linux x86_64)", "Linux x86_64"),
        // The system that is named first counts.
        ("Mozilla/5.0 (Linux; Android 13)", "Linux x86_64"),
        ("Dalvik (android; linux)", "Linux armv8l"),
        ("curl/8.0", ""),
        ("", ""),
    ];
    for (agent, platform) in agents {
        assert_eq!(platform_from_user_agent(agent), platform);
    }
}

fn brand(brand: &str, version: &str) -> UserAgentBrandVersion {
    UserAgentBrandVersion { brand: brand.to_string(), version: version.to_string() }
}

fn made_up(platform: &str) -> HighEntropyUaData {
    HighEntropyUaData {
        architecture: "x86".to_string(),
        model: "".to_string(),
        bitness: "64".to_string(),
        platform: platform.to_string(),
        platform_version: "10.0".to_string(),
        full_version_list: vec![brand("Chromium", "143.0.1.2")],
        mobile: false,
        wow64_ness: true,
    }
}

#[test]
fn metadata_is_taken_over() {
    let windows = user_agent_metadata(made_up("Windows"));
    assert_eq!(windows.wow64, Some(true));
    assert_eq!(windows.platform, "Windows");
    assert_eq!(windows.platform_version, "10.0");
    assert_eq!(windows.architecture, "x86");
    assert_eq!(windows.bitness, "64");
    assert_eq!(windows.brands.len(), 1);
    assert_eq!(windows.brands[0].version, "143.0.1.2");
    assert_eq!(windows.full_version_list[0].brand, "Chromium");
    assert_eq!(user_agent_metadata(made_up("Linux")).wow64, None);
}

#[test]
fn metadata_is_made_up_for_a_user_agent() {
    let agent = "Mozilla/5.0 (Windows NT 10.0; Win64; x64) AppleWebKit/537.36 (KHTML, like Gecko) Chrome/131.0.0.0 Safari/537.36";
    let metadata = Page::generate_user_agent_metadata(agent).expect("always made up");
    assert_eq!(metadata.platform, "Windows");
    assert_eq!(metadata.platform_version, "10.0");
    assert_eq!(metadata.architecture, "x86");
    assert_eq!(metadata.bitness, "64");
    assert_eq!(metadata.model, "");
    assert!(!metadata.mobile);
    assert_eq!(metadata.wow64, Some(false));
    assert_eq!(metadata.brands.len(), 3);
    assert_eq!(metadata.brands.len(), metadata.full_version_list.len());
    assert_eq!(metadata.brands[0].version, metadata.brands[1].version);
    let names = [metadata.brands[0].brand.as_str(), metadata.brands[1].brand.as_str()];
    assert!(names.contains(&"Chromium") && names.contains(&"Google Chrome"));
    let phone = Page::generate_user_agent_metadata(
        "Mozilla/5.0 (Linux; Android 14; Pixel 8; arm64) Chrome/131.0.0.0 Mobile",
    )
    .expect("always made up");
    assert_eq!((phone.platform.as_str(), phone.platform_version.as_str()), ("Android", "14"));
    assert_eq!((phone.architecture.as_str(), phone.bitness.as_str()), ("arm", "64"));
    assert_eq!((phone.model.as_str(), phone.mobile), ("android", true));
    let opera = Page::generate_user_agent_metadata("OPERA MOBI; Mac OS X").expect("made up");
    assert_eq!((opera.model.as_str(), opera.mobile), ("opera mobi", true));
    assert_eq!((opera.platform.as_str(), opera.bitness.as_str()), ("macOS", "64"));
    let old = Page::generate_user_agent_metadata("Windows NT").expect("always made up");
    assert_eq!((old.platform_version.as_str(), old.bitness.as_str()), ("10.0", "32"));
    let linux = Page::generate_user_agent_metadata("X11; Linux x86_64").expect("always made up");
    assert_eq!(linux.platform, "Linux");
    assert_eq!(linux.wow64, None);
    let other = Page::generate_user_agent_metadata("").expect("always made up");
    assert_eq!(other.platform, "Unknown");
    assert_eq!(other.platform_version, "1.0.0");
}

#[test]
fn versions_and_brands_go_by_the_version_of_chrome() {
    let older = ["Chromium", "Google Chrome", "Not-A.Brand"];
    let cases = [
        ("X11; Linux x86_64 Chrome/120.0.6099.71 Safari", "120.0.6099", older),
        ("Linux\tChrome/120.1", "120.1", older),
        ("Linux xChrome/1.2.3.4 Chrome/7.8.9.10", "7.8.9", older),
        ("Linux Chrome/143", "143", ["Google Chrome", "Chromium", "Not A(Brand"]),
        ("Linux Chrome/+142", "+142", ["Chromium", "Google Chrome", "Not_A Brand"]),
        ("Mac OS X Chrome/138.0.0.0", "14.6.1", older),
        ("Mac OS X Chrome/139.0.0.0", "15.5.0", older),
        ("Mac OS X Chrome/141.0.0.0", "15.5.0", ["Google Chrome", "Chromium", "Not?A_Brand"]),
        ("Mac OS X Chrome/142.0.0.0", "15.5.0", ["Chromium", "Google Chrome", "Not_A Brand"]),
        ("Mac OS X Chrome/143.0.0.0", "15.5.0", ["Google Chrome", "Chromium", "Not A(Brand"]),
        ("Windows NT 143; Chrome/120.0.0.0", "143", ["Google Chrome", "Chromium", "Not A(Brand"]),
        ("x; Android 142; y", "142", ["Chromium", "Google Chrome", "Not_A Brand"]),
    ];
    for (agent, version, brands) in cases {
        let made = Page::generate_user_agent_metadata(agent).expect("always made up");
        assert_eq!(made.platform_version, version, "{agent}");
        let named: Vec<&str> = made.brands.iter().map(|b| b.brand.as_str()).collect();
        assert_eq!(named, brands, "{agent}");
        assert_eq!(made.brands[0].version, made.brands[1].version);
    }
}

#[test]
fn user_agents_are_set_for_network_and_emulation() {
    let page = page();
    let steps = page.set_user_agent(SetUserAgentOverrideParams::new("X11; Linux x86_64"));
    assert_eq!(steps.len(), 2);
    for (step, method) in steps
        .iter()
        .zip(["Network.setUserAgentOverride", "Emulation.setUserAgentOverride"])
    {
        let call = executed(step);
        assert_eq!(call.method, method);
        assert_eq!(names(call), vec!["userAgent", "platform", "userAgentMetadata"]);
        assert_eq!(text_of(call, "platform"), Some("Linux x86_64"));
    }
    let mut given = SetUserAgentOverrideParams::new("curl");
    given.platform = Some("mine".to_string());
    let steps =
        page.set_user_agent_advanced(given, false, false, Some("de".to_string()));
    assert_eq!(steps.len(), 1);
    let call = executed(&steps[0]);
    assert_eq!(names(call), vec!["userAgent", "acceptLanguage", "platform"]);
    assert_eq!(text_of(call, "acceptLanguage"), Some("de"));
    assert_eq!(text_of(call, "platform"), Some("mine"));
}

#[test]
fn metadata_that_is_given_stays() {
    let mut params = SetUserAgentOverrideParams::new("curl");
    params.user_agent_metadata = Some(user_agent_metadata(made_up("mine")));
    let steps =
        user_agent_steps(params, false, None, Some(user_agent_metadata(made_up("other"))));
    let call = executed(&steps[0]);
    assert_eq!(names(call), vec!["userAgent", "userAgentMetadata"]);
    match &call.params[1].1 {
        Param::Metadata(UserAgentMetadata { platform, .. }) => assert_eq!(platform, "mine"),
        other => panic!("expected metadata, got {other:?}"),
    }
}

fn leaf(node_id: i64) -> Node {
    Node { node_id, children: None, content_document: None, shadow_roots: None }
}

#[test]
fn scopes_are_all_nodes_in_order() {
    let mut frame = leaf(3);
    frame.content_document = Some(Box::new(Node { children: Some(vec![leaf(5)]), ..leaf(4) }));
    let mut host = leaf(6);
    host.shadow_roots = Some(vec![leaf(8), leaf(2)]);
    host.children = Some(vec![leaf(7)]);
    let root = Node { children: Some(vec![leaf(2), frame, host]), ..leaf(1) };
    assert_eq!(collect_scopes_iterative(&root), vec![1, 2, 3, 4, 5, 6, 7, 8]);
    assert_eq!(collect_scopes_iterative(&leaf(9)), vec![9]);
}

#[test]
fn found_nodes_are_merged() {
    let results = vec![Some(vec![3, 1, 3]), None, Some(vec![1, 2]), Some(vec![])];
    let all = merge_found(&results);
    assert_eq!(all, vec![3, 1, 2]);
    assert_eq!(found_element(&all).ok(), Some(2));
    assert_eq!(message(found_element(&Vec::new())), "not found");
    assert_eq!(page().find_elements_pierced(&results), all);
    assert_eq!(page().find_element_pierced(&results).ok(), Some(2));
    assert_eq!(message(page().find_element_pierced(&vec![None])), "not found");
}

#[test]
fn the_handler_is_asked() {
    let page = page();
    let frame = || "f".to_string();
    assert!(matches!(
        page.frame_name(frame()),
        TargetMessage::Name { frame_id: Some(id) } if id == "f"
    ));
    assert!(matches!(page.url(), TargetMessage::Url { frame_id: None }));
    assert!(matches!(
        page.frame_url(frame()),
        TargetMessage::Url { frame_id: Some(id) } if id == "f"
    ));
    assert!(matches!(
        page.frame_parent(frame()),
        TargetMessage::Parent { frame_id } if frame_id == "f"
    ));
    assert!(matches!(page.mainframe(), TargetMessage::MainFrame));
    assert!(matches!(page.frames(), TargetMessage::AllFrames));
    assert!(matches!(page.set_blocked_networking(true), TargetMessage::BlockNetwork(true)));
    assert!(matches!(
        page.set_request_interception(false),
        TargetMessage::EnableInterception(false)
    ));
    let credentials = Credentials { username: "u".to_string(), password: "p".to_string() };
    assert!(matches!(
        page.authenticate(credentials),
        TargetMessage::Authenticate(c) if c.username == "u" && c.password == "p"
    ));
    assert!(matches!(
        page.set_cache_key((Some("s".to_string()), None)),
        TargetMessage::CacheKey { site: Some(s), policy: None } if s == "s"
    ));
}

#[test]
fn shadow_roots_are_searched() {
    let page = page();
    let (mut search, call) = page.find_in_shadow_root("x-host", "button");
    assert_eq!(call.method, "DOM.getDocument");
    assert_eq!(int_of(&call, "depth"), Some(-1));
    assert_eq!(bool_of(&call, "pierce"), Some(true));
    // A reply that was not asked for changes nothing.
    assert!(matches!(search.next(&ShadowReply::Found(1)), Ok(ShadowAction::Ignore)));
    match search.next(&ShadowReply::Node(leaf(1))) {
        Ok(ShadowAction::Find { selector, node_id }) => {
            assert_eq!((selector.as_str(), node_id), ("x-host", 1));
        }
        other => panic!("expected a search, got {other:?}"),
    }
    match search.next(&ShadowReply::Found(5)) {
        Ok(ShadowAction::Ask(call)) => {
            assert_eq!(call.method, "DOM.describeNode");
            assert_eq!(int_of(&call, "nodeId"), Some(5));
            assert_eq!(int_of(&call, "depth"), Some(0));
        }
        other => panic!("expected a description, got {other:?}"),
    }
    let host = Node { shadow_roots: Some(vec![leaf(6), leaf(7)]), ..leaf(5) };
    match search.next(&ShadowReply::Node(host)) {
        Ok(ShadowAction::Find { selector, node_id }) => {
            assert_eq!((selector.as_str(), node_id), ("button", 6));
        }
        other => panic!("expected a search, got {other:?}"),
    }
    assert!(matches!(search.next(&ShadowReply::Found(9)), Ok(ShadowAction::Done(9))));

    let (mut search, _) = page.find_in_shadow_root("x-host", "button");
    let _ = search.next(&ShadowReply::Node(leaf(1)));
    let _ = search.next(&ShadowReply::Found(5));
    assert_eq!(
        message(search.next(&ShadowReply::Node(leaf(5)))),
        "host has no shadow root"
    );
    assert!(first_shadow_root(&Node { shadow_roots: Some(vec![]), ..leaf(1) }).is_err());
    assert_eq!(page.describe_node(4).method, "DOM.describeNode");
    assert_eq!(int_of(&page.outer_html(3), "nodeId"), Some(3));
}

fn cookie(name: &str, url: Option<&str>) -> CookieParam {
    CookieParam {
        name: name.to_string(),
        value: "v".to_string(),
        url: url.map(|u| u.to_string()),
        domain: None,
        path: Some("/".to_string()),
        rest: None,
    }
}

fn set_urls(step: &Step) -> Vec<Option<String>> {
    let call = sent(step);
    assert_eq!(call.method, "Network.setCookies");
    match &call.params[0].1 {
        Param::Cookies(cookies) => cookies.iter().map(|c| c.url.clone()).collect(),
        other => panic!("expected cookies, got {other:?}"),
    }
}

#[test]
fn cookie_urls_are_validated() {
    assert!(validate_cookie_url("https://a.example/").is_ok());
    assert!(validate_cookie_url("about:blank#x").is_ok());
    assert_eq!(
        message(validate_cookie_url("data:text/plain,x")),
        "Data URL page can not have cookie"
    );
    assert_eq!(message(validate_cookie_url("about:blank")), "Blank page can not have cookie");
}

#[test]
fn a_cookie_is_set_after_it_is_deleted() {
    let page = page();
    let http = Some("https://a.example/".to_string());
    let steps = page.set_cookie(cookie("c", None), http.clone()).expect("can be set");
    assert_eq!(steps.len(), 2);
    let deletion = sent(&steps[0]);
    assert_eq!(deletion.method, "Network.deleteCookies");
    assert_eq!(names(deletion), vec!["name", "url", "path"]);
    assert_eq!(text_of(deletion, "url"), Some("https://a.example/"));
    assert_eq!(set_urls(&steps[1]), vec![http.clone()]);

    let steps = page.set_cookie(cookie("c", None), Some("file:///x".to_string())).expect("set");
    assert_eq!(set_urls(&steps[1]), vec![None]);
    assert_eq!(message(page.set_cookie(cookie("c", None), None)), "Page url not found");
    assert!(page.set_cookie(cookie("c", Some("about:blank")), http).is_err());
    assert!(page.set_cookie(cookie("c", None), Some("about:blank".to_string())).is_err());
    assert!(page.set_cookie(cookie("c", Some("https://b/")), None).is_ok());
}

#[test]
fn cookies_are_set_together() {
    let page = page();
    let http = Some("http://a.example/".to_string());
    let cookies = vec![cookie("a", None), cookie("b", Some("https://b/"))];
    let steps = page.set_cookies(cookies, http.clone()).expect("can be set");
    assert_eq!(steps.len(), 3);
    assert_eq!(text_of(sent(&steps[0]), "name"), Some("a"));
    assert_eq!(text_of(sent(&steps[1]), "name"), Some("b"));
    assert_eq!(set_urls(&steps[2]), vec![http.clone(), Some("https://b/".to_string())]);

    let bad = vec![cookie("a", None), cookie("b", Some("data:x")), cookie("c", Some("about:blank"))];
    assert_eq!(message(page.set_cookies(bad, http)), "Data URL page can not have cookie");
    assert_eq!(message(page.set_cookies(Vec::new(), None)), "Page url not found");
    assert_eq!(
        message(page.set_cookies(Vec::new(), Some("about:blank".to_string()))),
        "Blank page can not have cookie"
    );
}

fn deletion(name: &str, url: Option<&str>) -> DeleteCookiesParams {
    DeleteCookiesParams::from_cookie(&cookie(name, url))
}

#[test]
fn cookies_are_deleted() {
    let page = page();
    let http = Some("http://a.example/".to_string());
    let steps = page.delete_cookie(deletion("a", None), http.clone()).expect("deleted");
    assert_eq!(text_of(sent(&steps[0]), "url"), Some("http://a.example/"));
    assert_eq!(message(page.delete_cookie(deletion("a", None), None)), "Page url not found");
    assert!(page.delete_cookie(deletion("a", Some("https://b/")), None).is_ok());

    let some = vec![deletion("a", Some("https://b/")), deletion("b", None)];
    let steps = page.delete_cookies(some, http).expect("deleted");
    assert_eq!(text_of(sent(&steps[0]), "url"), Some("https://b/"));
    assert_eq!(text_of(sent(&steps[1]), "url"), Some("http://a.example/"));
    let some = vec![deletion("b", None)];
    let steps = page.delete_cookies(some, Some("file:///".to_string())).expect("deleted");
    assert_eq!(text_of(sent(&steps[0]), "url"), None);
    let some = vec![deletion("a", Some("https://b/")), deletion("b", None)];
    assert_eq!(message(page.delete_cookies(some, None)), "Page url not found");
    assert!(page.delete_cookies(Vec::new(), None).is_ok());
    assert_eq!(page.get_cookies().method, "Network.getCookies");
    assert_eq!(executed(&page.clear_cookies()).method, "Storage.clearCookies");
}

#[test]
fn a_page_ends_when_its_budget_is_exceeded() {
    let page = page();
    let data = |encoded: i64, length: i64| EventDataReceived {
        encoded_data_length: encoded,
        data_length: length,
    };
    let (steps, mut budget) = page.start_wire_bytes_budget(100, Some(true), Some(true));
    assert_eq!(sent(&steps[0]).method, "Network.enable");
    assert!(budget.on_data_received(&page, data(60, 1000)).is_none());
    assert!(budget.on_data_received(&page, data(-5, 0)).is_none());
    assert!(budget.on_data_received(&page, data(40, 0)).is_none());
    let ending = budget.on_data_received(&page, data(1, 0)).expect("exceeded");
    let methods: Vec<_> = ending.iter().map(|step| sent(step).method.as_str()).collect();
    assert_eq!(methods, vec!["Page.stopLoading", "Network.setBlockedURLs", "Page.close"]);

    let (steps, mut budget) =
        page.start_wire_bytes_budget_background(100, None, None, Some(true));
    assert!(steps.is_empty());
    assert!(budget.on_data_received(&page, data(50, 50)).is_none());
    let ending = budget.on_data_received(&page, data(0, 1)).expect("exceeded");
    assert_eq!(ending.len(), 2);
    let (_, mut endless) = page.start_wire_bytes_budget(u64::MAX, None, None);
    for _ in 0..3 {
        assert!(endless.on_data_received(&page, data(i64::MAX, 0)).is_none());
    }
    assert_eq!(endless.total_bytes, u64::MAX);
}

#[test]
fn urls_are_blocked() {
    let page = page();
    let step = page.set_blocked_urls(vec!["*.png".to_string(), "x".to_string()]);
    match &sent(&step).params[0].1 {
        Param::Patterns(patterns) => {
            assert_eq!(patterns, &vec![("*.png".to_string(), true), ("x".to_string(), true)]);
        }
        other => panic!("expected patterns, got {other:?}"),
    }
    match &sent(&page.block_all_urls()).params[0].1 {
        Param::Patterns(patterns) => assert_eq!(patterns, &vec![("*".to_string(), true)]),
        other => panic!("expected patterns, got {other:?}"),
    }
}

fn expression(text: &str) -> EvaluateParams {
    EvaluateParams {
        expression: text.to_string(),
        context_id: None,
        await_promise: None,
        return_by_value: None,
        user_gesture: None,
        eval_as_function_fallback: None,
    }
}

fn function(declaration: &str, arguments: Vec<Argument>) -> CallFunctionOnParams {
    CallFunctionOnParams {
        function_declaration: declaration.to_string(),
        arguments,
        execution_context_id: None,
        await_promise: None,
        return_by_value: None,
        user_gesture: None,
    }
}

fn called(action: EvaluationAction) -> Call {
    match action {
        EvaluationAction::Function(call) => call,
        other => panic!("expected a function, got {other:?}"),
    }
}

fn evaluated(action: EvaluationAction) -> (Call, EvaluateParams) {
    match action {
        EvaluationAction::Expression(call, params) => (call, params),
        other => panic!("expected an expression, got {other:?}"),
    }
}

fn without_context(action: EvaluationAction) -> Evaluation {
    match action {
        EvaluationAction::GetContext(evaluation) => evaluation,
        other => panic!("expected a question for the context, got {other:?}"),
    }
}

#[test]
fn expressions_that_are_functions_are_called() {
    let page = page();
    let evaluation = without_context(page.evaluate(Evaluation::Expression(expression("() => 42"))));
    let (call, params) = evaluated(evaluation.on_context(Some(7)));
    assert_eq!(call.method, "Runtime.evaluate");
    assert_eq!(text_of(&call, "expression"), Some("() => 42"));
    assert_eq!(int_of(&call, "contextId"), Some(7));
    assert_eq!(bool_of(&call, "awaitPromise"), Some(true));
    assert_eq!(bool_of(&call, "returnByValue"), Some(true));
    assert_eq!(params.context_id, Some(7));
    assert!(matches!(params.on_result(true), EvaluationAction::Done));
    let again = || {
        let mut params = expression("() => 42");
        params.context_id = Some(7);
        params.eval_as_function_fallback = Some(true);
        params
    };
    let (_, params) = evaluated(page.evaluate(Evaluation::Expression(again())));
    assert!(matches!(params.on_result(false), EvaluationAction::Done));
    let (_, params) = evaluated(page.evaluate(Evaluation::Expression(again())));
    let call = called(params.on_result(true));
    assert_eq!(call.method, "Runtime.callFunctionOn");
    assert_eq!(text_of(&call, "functionDeclaration"), Some("() => 42"));
    assert_eq!(int_of(&call, "executionContextId"), Some(7));
    assert_eq!(bool_of(&call, "awaitPromise"), Some(true));
    let (_, params) = evaluated(page.evaluate_expression(again()));
    assert!(matches!(params.on_result(true), EvaluationAction::Done));
}

#[test]
fn functions_are_awaited_and_have_arguments() {
    let page = page();
    let sum = vec![Argument::Json(Value::from(1)), Argument::Json(Value::from(2))];
    let add = function("(a,b) => { return a + b;}", sum);
    let evaluation = without_context(page.evaluate_function(add));
    let call = called(evaluation.on_context(Some(3)));
    assert_eq!(
        names(&call),
        vec![
            "functionDeclaration",
            "arguments",
            "returnByValue",
            "awaitPromise",
            "executionContextId"
        ]
    );
    assert_eq!(bool_of(&call, "awaitPromise"), Some(true));
    assert_eq!(int_of(&call, "executionContextId"), Some(3));
    match &call.params[1].1 {
        Param::Arguments(arguments) => {
            assert_eq!(arguments.len(), 2);
            assert!(matches!(&arguments[0], Argument::Json(one) if one == &Value::from(1)));
            assert!(matches!(&arguments[1], Argument::Json(two) if two == &Value::from(2)));
        }
        other => panic!("expected arguments, got {other:?}"),
    }
    let mut plain = function("() => Promise.resolve(1 + 2)", Vec::new());
    plain.execution_context_id = Some(4);
    plain.await_promise = Some(false);
    let call = called(page.evaluate(Evaluation::Function(plain)));
    assert_eq!(bool_of(&call, "awaitPromise"), Some(false));
    assert!(!names(&call).contains(&"arguments"));
}

#[test]
fn evaluations_have_defaults_and_exceptions() {
    let page = page();
    let call = page.evaluate_expression_with_session(expression("1"));
    assert_eq!(bool_of(&call, "awaitPromise"), Some(true));
    assert_eq!(bool_of(&call, "returnByValue"), Some(true));
    let mut kept = expression("1");
    kept.await_promise = Some(false);
    let call = page.evaluate_expression_with_session(kept);
    assert_eq!(bool_of(&call, "awaitPromise"), Some(false));
    assert!(matches!(Page::evaluation_result(None, Value::Bool(true)), Ok(Value::Bool(true))));
    assert!(matches!(
        Page::evaluation_result(Some(Value::Null), Value::Bool(true)),
        Err(CdpError::JavascriptException(Value::Null))
    ));
    assert!(page.set_content("<p>", None).is_none());
    without_context(page.set_content("<p>", Some(None)).expect("written"));
    let call = called(page.set_content("<p>", Some(Some(2))).expect("written"));
    assert_eq!(int_of(&call, "executionContextId"), Some(2));
    assert_eq!(bool_of(&call, "awaitPromise"), Some(true));
    assert!(text_of(&call, "functionDeclaration").expect("a function").contains("document.write(html);"));
    match &call.params[1].1 {
        Param::Arguments(arguments) => {
            assert!(matches!(arguments.as_slice(), [Argument::Text(html)] if html == "<p>"));
        }
        other => panic!("expected arguments, got {other:?}"),
    }
    assert_eq!(Page::get_title("".to_string()), None);
    assert_eq!(Page::get_title("t".to_string()), Some("t".to_string()));
}

fn to(url: &str) -> NavigateParams {
    NavigateParams {
        url: url.to_string(),
        referrer: Some("https://r/".to_string()),
        transition_type: None,
        frame_id: None,
    }
}

#[test]
fn navigations_report_why_they_failed() {
    let call = page().goto(&to("https://a/"));
    assert_eq!(call.method, "Page.navigate");
    assert_eq!(names(&call), vec!["url", "referrer"]);
    assert!(navigation_result(None).is_ok());
    match navigation_result(Some("net::ERR".to_string())) {
        Err(CdpError::ChromeMessage(text)) => assert_eq!(text, "net::ERR"),
        other => panic!("expected a message, got {other:?}"),
    }
}

#[test]
fn cached_documents_are_set() {
    let page = page();
    let mut navigation = page.goto_with_cache(to("https://a/"));
    match navigation.next(NavigationEvent::Cached(Some("<p>".to_string()))) {
        NavigationAction::Prepare { source, url } => {
            assert_eq!((source.as_str(), url.as_str()), ("<p>", "https://a/"));
        }
        other => panic!("expected to prepare, got {other:?}"),
    }
    assert!(matches!(navigation.next(NavigationEvent::ContentSet), NavigationAction::Ignore));
    let prepared = || NavigationEvent::Prepared {
        html: "<base><p>".to_string(),
        main_frame: Some(None),
    };
    match navigation.next(prepared()) {
        NavigationAction::SetContent(call) => {
            assert_eq!(call.method, "Page.setDocumentContent");
            assert_eq!(text_of(&call, "frameId"), Some(""));
            assert_eq!(text_of(&call, "html"), Some("<base><p>"));
        }
        other => panic!("expected content, got {other:?}"),
    }
    assert!(matches!(navigation.next(NavigationEvent::ContentSet), NavigationAction::Done));

    // Too late: the browser navigates. Any other failure is the end.
    let mut late = page.goto_with_cache(to("https://a/"));
    let _ = late.next(NavigationEvent::Cached(Some("<p>".to_string())));
    let _ = late.next(prepared());
    assert!(matches!(
        late.next(NavigationEvent::ContentTimeout),
        NavigationAction::Navigate(_)
    ));
    assert!(matches!(
        late.next(NavigationEvent::NavigateFailed(CdpError::Timeout)),
        NavigationAction::Fail(CdpError::Timeout)
    ));
    let mut failed = page.goto_with_cache(to("https://a/"));
    let _ = failed.next(NavigationEvent::Cached(Some("<p>".to_string())));
    let _ = failed.next(prepared());
    assert!(matches!(failed.next(NavigationEvent::ContentFailed), NavigationAction::Done));

    let mut plain = page.goto_with_cache(to("https://a/"));
    assert!(matches!(
        plain.next(NavigationEvent::Cached(None)),
        NavigationAction::Navigate(_)
    ));
    assert!(matches!(
        plain.next(NavigationEvent::Navigated(Some("net::ERR".to_string()))),
        NavigationAction::Fail(CdpError::ChromeMessage(_))
    ));
}

fn request(failure: Option<&str>) -> HttpRequest {
    let mut request = HttpRequest::new("r".to_string(), None, None, false, Vec::new());
    if let Some(text) = failure {
        request.set_failure_text(text.to_string());
    }
    request
}

#[test]
fn navigations_hand_out_their_request() {
    let page = page();
    let start = || {
        let mut navigation = page.goto_with_cache_http_future(to("https://a/"));
        let _ = navigation.next(HttpEvent::Cached(Some("<p>".to_string())));
        let _ = navigation.next(HttpEvent::Prepared {
            html: "<p>".to_string(),
            main_frame: Some(Some("f".to_string())),
        });
        navigation
    };
    assert!(matches!(
        start().next(HttpEvent::ContentSet(Some(request(None)))),
        HttpAction::Done(_)
    ));
    for event in [HttpEvent::ContentSet(None), HttpEvent::ContentFailed] {
        match start().next(event) {
            HttpAction::Fail(CdpError::ChromeMessage(text)) => {
                assert_eq!(text, "failed to get navigation result");
            }
            other => panic!("expected a failure, got {other:?}"),
        }
    }
    assert!(matches!(start().next(HttpEvent::ContentNotSent), HttpAction::Navigate(_)));
    let mut late = start();
    assert!(matches!(late.next(HttpEvent::ContentTimeout), HttpAction::Navigate(_)));
    match late.next(HttpEvent::Navigated(Some(request(Some("net::ERR"))))) {
        HttpAction::Fail(CdpError::ChromeMessage(text)) => assert_eq!(text, "net::ERR"),
        other => panic!("expected a failure, got {other:?}"),
    }
    let mut blank = page.goto_with_cache_http_future(to("https://a/"));
    assert!(matches!(blank.next(HttpEvent::Cached(None)), HttpAction::Navigate(_)));
    assert!(matches!(
        blank.next(HttpEvent::Navigated(Some(request(None)))),
        HttpAction::Done(_)
    ));
    let mut unsent = page.goto_with_cache_http_future(to("https://a/"));
    let _ = unsent.next(HttpEvent::Cached(None));
    assert!(matches!(unsent.next(HttpEvent::NavigateNotSent), HttpAction::Fail(_)));
}

#[test]
fn caches_are_planned() {
    let page = page();
    let policy = Some(BasicCachePolicy::AllowStale);
    let site = || "site".to_string();
    let plan = page.goto_with_cache_remote(to("https://a/"), site(), None, policy, None, None);
    assert!(plan.intercept);
    assert_eq!(plan.listener.as_deref(), Some("true"));
    assert_eq!(plan.seed_from.as_deref(), Some("true"));
    assert_eq!(plan.cache_policy, policy);
    let plan = page.goto_with_cache_remote_intercept_enabled(
        to("https://a/"),
        site(),
        Some("auth".to_string()),
        None,
        None,
        Some("https://cache/".to_string()),
    );
    assert!(!plan.intercept);
    assert_eq!(plan.listener.as_deref(), Some("https://cache/"));
    assert_eq!(plan.auth.as_deref(), Some("auth"));
    let plan =
        page._goto_with_cache_remote(to("https://a/"), site(), None, None, None, None, None);
    assert!(plan.intercept && !plan.at_once);
    assert!(page.http_future_with_cache(to("u"), site(), None, None, None, None).intercept);
    assert!(
        !page
            .http_future_with_cache_intercept_enabled(to("u"), site(), None, None, None, None)
            .intercept
    );
    let plan = page.goto_with_cache_seed(to("https://a/"), site(), None, None, None);
    assert_eq!(plan.outcome, PlanOutcome::HandedOn);
    assert!(matches!(plan.conclude(Err(CdpError::Timeout)), Err(CdpError::Timeout)));
    assert!(matches!(plan.conclude(Ok(Some(request(None)))), Ok(None)));
    let remote = page.goto_with_cache_remote(to("u"), site(), None, None, None, None);
    assert!(matches!(remote.conclude(Err(CdpError::Timeout)), Ok(None)));
    let fast = page.goto_with_cache_fast_seed(to("u"), site(), None, None, None);
    assert!(matches!(fast.conclude(Err(CdpError::Timeout)), Ok(None)));
    let http = page.http_future_with_cache(to("u"), site(), None, None, None, None);
    assert!(matches!(http.conclude(Err(CdpError::Timeout)), Err(CdpError::Timeout)));
    assert!(matches!(http.conclude(Ok(Some(request(None)))), Ok(Some(_))));
    assert!(plan.listener.is_none() && plan.seed_from.is_none() && !plan.at_once);
    assert!(page.goto_with_cache_fast_seed(to("u"), site(), None, None, None).at_once);
    assert!(page.set_html("<p>".to_string(), None).is_none());
    let call = page.set_html("<p>".to_string(), Some(Some("f".to_string()))).expect("set");
    assert_eq!(text_of(&call, "frameId"), Some("f"));
}

#[test]
fn scripts_run_in_new_documents() {
    let page = page();
    assert!(page.add_script_to_evaluate_on_new_document(None).is_empty());
    assert!(page.add_script_to_evaluate_on_new_document(Some("".to_string())).is_empty());
    let steps = page.add_script_to_evaluate_on_new_document(Some("x".to_string()));
    let call = sent(&steps[0]);
    assert_eq!(call.method, "Page.addScriptToEvaluateOnNewDocument");
    assert_eq!(names(call), vec!["source"]);
    let steps = page.add_script_to_evaluate_immediately_on_new_document(Some("x".to_string()));
    assert_eq!(bool_of(sent(&steps[0]), "runImmediately"), Some(true));
    assert_eq!(text_of(&page.evaluate_on_new_document("s".to_string()), "source"), Some("s"));
    assert_eq!(combine_scripts("a".to_string(), Some("b()")), "a;(()=>{b()})();;");
    assert_eq!(combine_scripts("a".to_string(), None), "a");
    let steps = page.expose_function("f".to_string(), "e".to_string());
    assert_eq!(sent(&steps[0]).method, "Runtime.addBinding");
    assert_eq!(text_of(sent(&steps[1]), "source"), Some("e"));
}

#[test]
fn disguises_have_defaults() {
    assert_eq!(stealth_choice(None, None), (StealthOs::Unknown, StealthTier::Basic));
    assert_eq!(
        stealth_choice(Some(StealthOs::Windows), Some(StealthTier::Full)),
        (StealthOs::Windows, StealthTier::Full)
    );
}

#[test]
fn hiding_scripts_are_their_own() {
    let page = page();
    let hidden = [
        (page.hide_chrome(), spoofs::HIDE_CHROME.to_string()),
        (page.hide_webgl_vendor(), spoofs::HIDE_WEBGL.to_string()),
        (page.hide_permissions(), spoofs::HIDE_PERMISSIONS.to_string()),
        (page.hide_webdriver(), spoofs::HIDE_WEBDRIVER.to_string()),
        (
            page.hide_plugins(),
            format!("{}{}", spoofs::NAVIGATOR_SCRIPT, spoofs::PLUGIN_AND_MIMETYPE_SPOOF),
        ),
    ];
    for (step, script) in &hidden {
        assert_eq!(text_of(executed(step), "source"), Some(script.as_str()));
    }
}

#[test]
fn stealth_scripts_have_the_parts_of_their_tier() {
    let chrome = spoofs::REMOVE_CHROME;
    let console = spoofs::HIDE_CONSOLE;
    let driver = spoofs::HIDE_WEBDRIVER;
    let navigator = spoofs::NAVIGATOR_SCRIPT;
    let quiet = format!("{chrome};{console};");
    let loud = format!("{chrome};");
    let drawn = [
        (StealthTier::Basic, &quiet, navigator.to_string()),
        (StealthTier::BasicWithConsole, &loud, navigator.to_string()),
        (StealthTier::BasicNoWebgl, &quiet, navigator.to_string()),
        (StealthTier::BasicNoWebglWithGPU, &quiet, navigator.to_string()),
        (StealthTier::BasicNoWebglWithGPUcWithConsole, &loud, navigator.to_string()),
        (StealthTier::BasicNoWorker, &quiet, navigator.to_string()),
        (StealthTier::BasicNoExtra, &quiet, navigator.to_string()),
        (StealthTier::BasicNoWebglWithGPUNoExtra, &quiet, navigator.to_string()),
        (StealthTier::Low, &quiet, driver.to_string()),
        (StealthTier::LowWithPlugins, &quiet, driver.to_string()),
        (StealthTier::LowWithNavigator, &quiet, format!("{driver};{navigator}")),
        (StealthTier::Mid, &quiet, format!("{navigator};{driver}")),
    ];
    for (tier, start, end) in drawn {
        for os in [StealthOs::Unknown, StealthOs::Mac, StealthOs::Android] {
            let script = stealth_script(tier, os);
            assert!(script.starts_with(start.as_str()), "{tier:?}");
            assert!(script.ends_with(&format!(";{end}")), "{tier:?}");
        }
    }
    let full = stealth_script(StealthTier::Full, StealthOs::Linux);
    assert!(full.starts_with(&quiet));
    assert!(full.contains(&format!(";{driver};{navigator};")));
    let os = StealthOs::Windows;
    assert_eq!(stealth_script(StealthTier::HideOnlyChrome, os), chrome);
    assert_eq!(stealth_script(StealthTier::HideOnly, os), format!("{quiet}{driver}"));
    assert_eq!(stealth_script(StealthTier::HideOnlyWithConsole, os), format!("{loud}{driver}"));
    assert_eq!(stealth_script(StealthTier::Extra, os), "");
    assert_eq!(stealth_script(StealthTier::Off, os), "");
}

#[test]
fn disguises_are_generated() {
    let page = page();
    let start = format!("{};{};", spoofs::REMOVE_CHROME, spoofs::HIDE_CONSOLE);
    let end = format!(";{}", spoofs::NAVIGATOR_SCRIPT);
    let steps = page.enable_stealth_mode();
    let source = text_of(sent(&steps[0]), "source").expect("a script");
    assert!(source.starts_with(&start) && source.ends_with(&end));
    let steps = page.enable_stealth_mode_os(Some(StealthOs::Mac), Some(StealthTier::HideOnlyChrome));
    assert_eq!(text_of(sent(&steps[0]), "source"), Some(spoofs::REMOVE_CHROME));
    assert!(page.enable_stealth_mode_os(None, Some(StealthTier::Off)).is_empty());
    let steps = page._enable_stealth_mode(Some("mine()"), None, None);
    assert!(text_of(sent(&steps[0]), "source").expect("a script").ends_with(";(()=>{mine()})();;"));
    let (steps, agent) = page.enable_stealth_mode_with_agent("X11; Linux x86_64");
    assert_eq!((steps.len(), agent.len()), (1, 2));
    for (steps, agent) in [
        page.enable_stealth_mode_with_dimiss_dialogs("curl"),
        page.enable_stealth_mode_with_agent_and_dimiss_dialogs("curl"),
    ] {
        let source = text_of(sent(&steps[0]), "source").expect("a script");
        assert!(source.starts_with(&start));
        assert!(source.ends_with(&format!("{end};(()=>{{{}}})();;", spoofs::DISABLE_DIALOGS)));
        assert_eq!(text_of(executed(&agent[0]), "userAgent"), Some("curl"));
    }
}

#[test]
fn screenshots_are_built() {
    let params = ScreenshotParams::builder()
        .format(CaptureScreenshotFormat::Png)
        .quality(80)
        .clip(Value::Null)
        .from_surface(true)
        .capture_beyond_viewport(false)
        .full_page(true)
        .omit_background(true)
        .build();
    assert!(params.full_page() && params.omit_background());
    assert_eq!(params.cdp_params.quality, Some(80));
    assert_eq!(params.cdp_params.from_surface, Some(true));
    assert_eq!(params.cdp_params.capture_beyond_viewport, Some(false));
    let jpeg = ScreenshotParams::builder()
        .format(CaptureScreenshotFormat::Jpeg)
        .omit_background(true)
        .build();
    assert!(!jpeg.omit_background() && !jpeg.full_page());
    let plain = ScreenshotParams::builder().omit_background(true).build();
    assert!(plain.omit_background());
    let from = ScreenshotParams::from(CaptureScreenshotParams::default());
    assert!(!from.omit_background() && !from.full_page());
    assert_eq!(MediaTypeParams::default(), MediaTypeParams::Null);
}

#[test]
fn commands_have_their_methods() {
    let page = page();
    let sends = [
        (page.reset_navigation_history(), "Page.resetNavigationHistory"),
        (page.bring_to_front(), "Page.bringToFront"),
        (page.reload_no_wait(), "Page.reload"),
        (page.enable_service_workers(), "ServiceWorker.enable"),
        (page.disable_service_workers(), "ServiceWorker.disable"),
        (page.enable_fetch(), "Fetch.enable"),
        (page.disable_fetch(), "Fetch.disable"),
        (page.enable_performance(), "Performance.enable"),
        (page.disable_performance(), "Performance.disable"),
        (page.enable_overlay(), "Overlay.enable"),
        (page.disable_overlay(), "Overlay.disable"),
        (page.enable_log(), "Log.enable"),
        (page.disable_log(), "Log.disable"),
        (page.enable_runtime(), "Runtime.enable"),
        (page.disable_runtime(), "Runtime.disable"),
        (page.enable_network(), "Network.enable"),
        (page.disable_network(), "Network.disable"),
        (page.enable_debugger(), "Debugger.enable"),
        (page.disable_debugger(), "Debugger.disable"),
        (page.enable_page(), "Page.enable"),
        (page.disable_page(), "Page.disable"),
        (page.enable_dom(), "DOM.enable"),
        (page.disable_dom(), "DOM.disable"),
        (page.enable_css(), "CSS.enable"),
        (page.disable_css(), "CSS.disable"),
        (page.stop_loading(), "Page.stopLoading"),
        (page.close(), "Page.close"),
    ];
    for (step, method) in &sends {
        let call = sent(step);
        assert_eq!(&call.method, method);
        assert!(call.params.is_empty());
    }
    let executes = [
        (page.reset_navigation_history_execute(), "Page.resetNavigationHistory"),
        (page.metrics(), "Performance.getMetrics"),
    ];
    for (step, method) in &executes {
        assert_eq!(&executed(step).method, method);
    }
    assert_eq!(bool_of(executed(&page.set_page_lifecycles_enabled(true)), "enabled"), Some(true));
    assert_eq!(bool_of(sent(&page.disable_network_cache(true)), "cacheDisabled"), Some(true));
    assert_eq!(bool_of(sent(&page.set_ad_blocking_enabled(false)), "enabled"), Some(false));
    assert_eq!(bool_of(sent(&page.enable_paint_rectangles()), "result"), Some(true));
    assert_eq!(bool_of(sent(&page.disable_paint_rectangles()), "result"), Some(false));
    assert_eq!(bool_of(executed(&page.set_bypass_csp(true)), "enabled"), Some(true));
    assert_eq!(text_of(executed(&page.activate()), "targetId"), Some("target"));
    assert_eq!(
        text_of(sent(&page.emulate_timezone("UTC".to_string())), "timezoneId"),
        Some("UTC")
    );
    assert!(sent(&page.emulate_locale(None)).params.is_empty());
    assert_eq!(int_of(sent(&page.emulate_hardware_concurrency(8)), "hardwareConcurrency"), Some(8));
    assert_eq!(
        text_of(executed(&page.emulate_media_type(MediaTypeParams::Print)), "media"),
        Some("print")
    );
    let features = vec![("prefers-color-scheme".to_string(), "dark".to_string())];
    assert_eq!(names(sent(&page.emulate_media_features(features))), vec!["features"]);
    let mut headers = Headers::new();
    headers.insert("a".to_string(), HeaderValue::Text("b".to_string()));
    assert_eq!(
        executed(&page.set_extra_headers(headers)).method,
        "Network.setExtraHTTPHeaders"
    );
    let step = page.enable_virtual_time_with_budget(Value::from(5), None, None, None);
    let call = sent(&step);
    assert_eq!(text_of(call, "policy"), Some("advance"));
    assert_eq!(int_of(call, "maxVirtualTimeTaskStarvationCount"), Some(10_000));
    assert_eq!(names(call), vec!["policy", "budget", "maxVirtualTimeTaskStarvationCount"]);
    assert_eq!(text_of(&page.get_script_source("7".to_string()), "scriptId"), Some("7"));
    assert_eq!(page.target_id(), "target");
    assert_eq!(page.session_id(), "session");
    assert!(page.opener_id().is_none());
}

fn after_move(actions: &[MouseAction], point: Point) -> &Call {
    match actions {
        [MouseAction::Move(moved), MouseAction::Run(step)] => {
            assert_eq!(*moved, point);
            executed(step)
        }
        other => panic!("expected a move and a command, got {other:?}"),
    }
}

fn color_of(call: &Call, name: &str) -> Option<Rgba> {
    call.params.iter().find_map(|(n, value)| match value {
        Param::Color(color) if n == name => Some(*color),
        _ => None,
    })
}

#[test]
fn the_first_element_of_a_path_is_taken() {
    assert_eq!(page().find_xpath(&vec![7, 3, 9]), 7);
}

#[test]
fn the_mouse_is_pressed_and_released() {
    let page = page();
    let point = Point { x: 1.5f64.to_bits(), y: 2f64.to_bits() };
    let down = page.mouse_down(point, MouseButton::Left, 0, 1);
    let call = after_move(&down, point);
    assert_eq!(call.method, "Input.dispatchMouseEvent");
    assert_eq!(text_of(call, "type"), Some("mousePressed"));
    assert_eq!(text_of(call, "button"), Some("left"));
    assert_eq!(int_of(call, "clickCount"), Some(1));
    assert!(matches!(call.params[1].1, Param::Number(bits) if bits == point.x));
    assert!(matches!(call.params[2].1, Param::Number(bits) if bits == point.y));
    let up = page.mouse_up(point, MouseButton::Right, 8, 2);
    let call = after_move(&up, point);
    assert_eq!(text_of(call, "type"), Some("mouseReleased"));
    assert_eq!(int_of(call, "modifiers"), Some(8));
    let blue = Rgba::new(0, 0, 255);
    let red = Rgba { r: 255, g: 0, b: 0, a: Some(1f64.to_bits()) };
    for (actions, color) in [
        (page.click_with_highlight_base(point, 3, 4, blue), blue),
        (page.click_with_highlight_color(point, 3, 4, blue), blue),
        (page.click_with_highlight(point, 3, 4), red),
    ] {
        let (clicked, call) = match actions.as_slice() {
            [MouseAction::Click(clicked), MouseAction::Run(step)] => (clicked, executed(step)),
            other => panic!("expected a click and a highlight, got {other:?}"),
        };
        assert_eq!(*clicked, point);
        assert_eq!(call.method, "Overlay.highlightRect");
        assert_eq!((int_of(call, "width"), int_of(call, "height")), (Some(15), Some(15)));
        assert_eq!((int_of(call, "x"), int_of(call, "y")), (Some(3), Some(4)));
        assert_eq!(color_of(call, "color"), Some(color));
        assert_eq!(color_of(call, "outlineColor"), Some(Rgba::new(255, 255, 255)));
    }
    assert_eq!(names(&page.get_full_ax_tree(Some(2), None)), vec!["depth"]);
    assert_eq!(
        names(&page.get_partial_ax_tree(Some(2), None, None, Some(true))),
        vec!["nodeId", "fetchRelatives"]
    );
    assert_eq!(Page::pdf("aGVsbG8=").ok(), Some(b"hello".to_vec()));
    assert!(matches!(Page::pdf("*"), Err(CdpError::Decode)));
}
