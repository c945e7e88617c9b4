//! The operations of a page that send one command.
use vstd::prelude::*;
use serde_json::Value;

use crate::command::pair_texts;
use crate::matcher::texts;
use crate::page::call::{
    and_then, call, no_steps, pattern_texts, step_views, Call, CallView, Page, Param, ParamView,
    Step, StepView,
};
use crate::page::screenshot::MediaTypeParams;
use crate::protocol::{opt_text, HeaderValueView, Headers};

verus! {

/// The step that blocks URLs.
pub open spec fn block_step(urls: Seq<Seq<char>>) -> StepView {
    StepView::Send(
        call("Network.setBlockedURLs"@).with(
            "urlPatterns"@,
            ParamView::Patterns(urls.map_values(|u: Seq<char>| (u, true))),
        ),
    )
}

/// The steps that stop the page for the rest of its life.
pub open spec fn stop_steps() -> Seq<StepView> {
    seq![StepView::Send(call("Page.stopLoading"@)), block_step(seq!["*"@])]
}

/// The command that sets a switch.
pub open spec fn switch_call(method: Seq<char>, name: Seq<char>, on: bool) -> CallView {
    call(method).with(name, ParamView::Bool(on))
}

/// The command that has one text.
pub open spec fn text_call(method: Seq<char>, name: Seq<char>, text: Seq<char>) -> CallView {
    call(method).with(name, ParamView::Text(text))
}

/// The command that sets the locale, or takes it back.
pub open spec fn locale_call(locale: Option<Seq<char>>) -> CallView {
    call("Emulation.setLocaleOverride"@).with_text("locale"@, locale)
}

/// The command that sets how many processors the page sees.
pub open spec fn processors_call(number: i64) -> CallView {
    call("Emulation.setHardwareConcurrencyOverride"@).with(
        "hardwareConcurrency"@,
        ParamView::Int(number as int),
    )
}

/// The command that sets features of the medium.
pub open spec fn features_call(features: Seq<(Seq<char>, Seq<char>)>) -> CallView {
    call("Emulation.setEmulatedMedia"@).with("features"@, ParamView::Named(features))
}

/// The command that sets the headers that go with each request.
pub open spec fn headers_call(headers: Map<Seq<char>, HeaderValueView>) -> CallView {
    call("Network.setExtraHTTPHeaders"@).with("headers"@, ParamView::Headers(headers))
}

/// The command that turns virtual time on.
pub open spec fn virtual_time_call(
    budget: Value,
    policy: Option<Seq<char>>,
    starvation: Option<i64>,
    initial: Option<Value>,
) -> CallView {
    let base = call("Emulation.setVirtualTimePolicy"@).with(
        "policy"@,
        ParamView::Text(
            match policy {
                Some(p) => p,
                None => "advance"@,
            },
        ),
    ).with("budget"@, ParamView::Json(budget)).with(
        "maxVirtualTimeTaskStarvationCount"@,
        ParamView::Int(
            match starvation {
                Some(n) => n as int,
                None => 10_000,
            },
        ),
    );
    match initial {
        Some(t) => base.with("initialVirtualTime"@, ParamView::Json(t)),
        None => base,
    }
}

impl Page {
    /// Empties the navigation history.
    pub fn reset_navigation_history(&self) -> (step: Step)
        ensures
            step@ == StepView::Send(call("Page.resetNavigationHistory"@)),
    {
        Step::Send(Call::new("Page.resetNavigationHistory"))
    }

    /// Empties the navigation history, and waits until that is done.
    pub fn reset_navigation_history_execute(&self) -> (step: Step)
        ensures
            step@ == StepView::Execute(call("Page.resetNavigationHistory"@)),
    {
        Step::Execute(Call::new("Page.resetNavigationHistory"))
    }

    /// Brings the page to the front.
    pub fn bring_to_front(&self) -> (step: Step)
        ensures
            step@ == StepView::Send(call("Page.bringToFront"@)),
    {
        Step::Send(Call::new("Page.bringToFront"))
    }

    /// Reloads the page.
    pub fn reload_no_wait(&self) -> (step: Step)
        ensures
            step@ == StepView::Send(call("Page.reload"@)),
    {
        Step::Send(Call::new("Page.reload"))
    }

    /// Turns the events of service workers on.
    pub fn enable_service_workers(&self) -> (step: Step)
        ensures
            step@ == StepView::Send(call("ServiceWorker.enable"@)),
    {
        Step::Send(Call::new("ServiceWorker.enable"))
    }

    /// Turns the events of service workers off.
    pub fn disable_service_workers(&self) -> (step: Step)
        ensures
            step@ == StepView::Send(call("ServiceWorker.disable"@)),
    {
        Step::Send(Call::new("ServiceWorker.disable"))
    }

    /// Turns interception on.
    pub fn enable_fetch(&self) -> (step: Step)
        ensures
            step@ == StepView::Send(call("Fetch.enable"@)),
    {
        Step::Send(Call::new("Fetch.enable"))
    }

    /// Turns interception off.
    pub fn disable_fetch(&self) -> (step: Step)
        ensures
            step@ == StepView::Send(call("Fetch.disable"@)),
    {
        Step::Send(Call::new("Fetch.disable"))
    }

    /// Turns the collection of metrics on.
    pub fn enable_performance(&self) -> (step: Step)
        ensures
            step@ == StepView::Send(call("Performance.enable"@)),
    {
        Step::Send(Call::new("Performance.enable"))
    }

    /// Turns the collection of metrics off.
    pub fn disable_performance(&self) -> (step: Step)
        ensures
            step@ == StepView::Send(call("Performance.disable"@)),
    {
        Step::Send(Call::new("Performance.disable"))
    }

    /// Turns the overlay on.
    pub fn enable_overlay(&self) -> (step: Step)
        ensures
            step@ == StepView::Send(call("Overlay.enable"@)),
    {
        Step::Send(Call::new("Overlay.enable"))
    }

    /// Turns the overlay off.
    pub fn disable_overlay(&self) -> (step: Step)
        ensures
            step@ == StepView::Send(call("Overlay.disable"@)),
    {
        Step::Send(Call::new("Overlay.disable"))
    }

    /// Turns the log on.
    pub fn enable_log(&self) -> (step: Step)
        ensures
            step@ == StepView::Send(call("Log.enable"@)),
    {
        Step::Send(Call::new("Log.enable"))
    }

    /// Turns the log off.
    pub fn disable_log(&self) -> (step: Step)
        ensures
            step@ == StepView::Send(call("Log.disable"@)),
    {
        Step::Send(Call::new("Log.disable"))
    }

    /// Turns the events of script contexts on.
    pub fn enable_runtime(&self) -> (step: Step)
        ensures
            step@ == StepView::Send(call("Runtime.enable"@)),
    {
        Step::Send(Call::new("Runtime.enable"))
    }

    /// Turns the events of script contexts off.
    pub fn disable_runtime(&self) -> (step: Step)
        ensures
            step@ == StepView::Send(call("Runtime.disable"@)),
    {
        Step::Send(Call::new("Runtime.disable"))
    }

    /// Turns the events of the network on.
    pub fn enable_network(&self) -> (step: Step)
        ensures
            step@ == StepView::Send(call("Network.enable"@)),
    {
        Step::Send(Call::new("Network.enable"))
    }

    /// Turns the events of the network off.
    pub fn disable_network(&self) -> (step: Step)
        ensures
            step@ == StepView::Send(call("Network.disable"@)),
    {
        Step::Send(Call::new("Network.disable"))
    }

    /// Turns the debugger on.
    pub fn enable_debugger(&self) -> (step: Step)
        ensures
            step@ == StepView::Send(call("Debugger.enable"@)),
    {
        Step::Send(Call::new("Debugger.enable"))
    }

    /// Turns the debugger off.
    pub fn disable_debugger(&self) -> (step: Step)
        ensures
            step@ == StepView::Send(call("Debugger.disable"@)),
    {
        Step::Send(Call::new("Debugger.disable"))
    }

    /// Turns the events of the page on.
    pub fn enable_page(&self) -> (step: Step)
        ensures
            step@ == StepView::Send(call("Page.enable"@)),
    {
        Step::Send(Call::new("Page.enable"))
    }

    /// Turns the events of the page off.
    pub fn disable_page(&self) -> (step: Step)
        ensures
            step@ == StepView::Send(call("Page.disable"@)),
    {
        Step::Send(Call::new("Page.disable"))
    }

    /// Turns the events of the document on.
    pub fn enable_dom(&self) -> (step: Step)
        ensures
            step@ == StepView::Send(call("DOM.enable"@)),
    {
        Step::Send(Call::new("DOM.enable"))
    }

    /// Turns the events of the document off.
    pub fn disable_dom(&self) -> (step: Step)
        ensures
            step@ == StepView::Send(call("DOM.disable"@)),
    {
        Step::Send(Call::new("DOM.disable"))
    }

    /// Turns the events of style sheets on.
    pub fn enable_css(&self) -> (step: Step)
        ensures
            step@ == StepView::Send(call("CSS.enable"@)),
    {
        Step::Send(Call::new("CSS.enable"))
    }

    /// Turns the events of style sheets off.
    pub fn disable_css(&self) -> (step: Step)
        ensures
            step@ == StepView::Send(call("CSS.disable"@)),
    {
        Step::Send(Call::new("CSS.disable"))
    }

    /// Stops all navigation and all loading.
    pub fn stop_loading(&self) -> (step: Step)
        ensures
            step@ == StepView::Send(call("Page.stopLoading"@)),
    {
        Step::Send(Call::new("Page.stopLoading"))
    }

    /// Closes the page, after the hooks that run before that.
    pub fn close(&self) -> (step: Step)
        ensures
            step@ == StepView::Send(call("Page.close"@)),
    {
        Step::Send(Call::new("Page.close"))
    }

    /// Gets the metrics of the run.
    pub fn metrics(&self) -> (step: Step)
        ensures
            step@ == StepView::Execute(call("Performance.getMetrics"@)),
    {
        Step::Execute(Call::new("Performance.getMetrics"))
    }

    /// Turns the events of the page's life on or off.
    pub fn set_page_lifecycles_enabled(&self, enabled: bool) -> (step: Step)
        ensures
            step@ == StepView::Execute(switch_call("Page.setLifecycleEventsEnabled"@, "enabled"@, enabled)),
    {
        Step::Execute(
            Call::new("Page.setLifecycleEventsEnabled").with("enabled", Param::Bool(enabled)),
        )
    }

    /// Turns the cache off or on.
    pub fn disable_network_cache(&self, disabled: bool) -> (step: Step)
        ensures
            step@ == StepView::Send(switch_call("Network.setCacheDisabled"@, "cacheDisabled"@, disabled)),
    {
        Step::Send(
            Call::new("Network.setCacheDisabled").with("cacheDisabled", Param::Bool(disabled)),
        )
    }

    /// Turns the browser's own ad filter on or off.
    pub fn set_ad_blocking_enabled(&self, enabled: bool) -> (step: Step)
        ensures
            step@ == StepView::Send(switch_call("Page.setAdBlockingEnabled"@, "enabled"@, enabled)),
    {
        Step::Send(Call::new("Page.setAdBlockingEnabled").with("enabled", Param::Bool(enabled)))
    }

    /// Shows what is painted.
    pub fn enable_paint_rectangles(&self) -> (step: Step)
        ensures
            step@ == StepView::Send(switch_call("Overlay.setShowPaintRects"@, "result"@, true)),
    {
        Step::Send(Call::new("Overlay.setShowPaintRects").with("result", Param::Bool(true)))
    }

    /// Does not show what is painted.
    pub fn disable_paint_rectangles(&self) -> (step: Step)
        ensures
            step@ == StepView::Send(switch_call("Overlay.setShowPaintRects"@, "result"@, false)),
    {
        Step::Send(Call::new("Overlay.setShowPaintRects").with("result", Param::Bool(false)))
    }

    /// Sets the time zone.
    pub fn emulate_timezone(&self, timezone_id: String) -> (step: Step)
        ensures
            step@ == StepView::Send(
                text_call("Emulation.setTimezoneOverride"@, "timezoneId"@, timezone_id@),
            ),
    {
        Step::Send(
            Call::new("Emulation.setTimezoneOverride").with("timezoneId", Param::Text(timezone_id)),
        )
    }

    /// Lets the page do without its content security policy, or not.
    pub fn set_bypass_csp(&self, enabled: bool) -> (step: Step)
        ensures
            step@ == StepView::Execute(switch_call("Page.setBypassCSP"@, "enabled"@, enabled)),
    {
        Step::Execute(Call::new("Page.setBypassCSP").with("enabled", Param::Bool(enabled)))
    }

    /// Activates the target of the page.
    pub fn activate(&self) -> (step: Step)
        ensures
            step@ == StepView::Execute(
                text_call("Target.activateTarget"@, "targetId"@, self.target_id@),
            ),
    {
        Step::Execute(
            Call::new("Target.activateTarget").with("targetId", Param::Text(self.target_id.clone())),
        )
    }

    /// Sets the locale, or takes it back.
    pub fn emulate_locale(&self, locale: Option<String>) -> (step: Step)
        ensures
            step@ == StepView::Send(locale_call(opt_text(locale))),
    {
        Step::Send(Call::new("Emulation.setLocaleOverride").with_text("locale", locale))
    }

    /// Sets how many processors the page sees.
    pub fn emulate_hardware_concurrency(&self, hardware_concurrency: i64) -> (step: Step)
        ensures
            step@ == StepView::Send(processors_call(hardware_concurrency)),
    {
        Step::Send(
            Call::new("Emulation.setHardwareConcurrencyOverride").with(
                "hardwareConcurrency",
                Param::Int(hardware_concurrency),
            ),
        )
    }

    /// Sets features of the medium, by name and value.
    pub fn emulate_media_features(&self, features: Vec<(String, String)>) -> (step: Step)
        ensures
            step@ == StepView::Send(features_call(pair_texts(features@))),
    {
        Step::Send(
            Call::new("Emulation.setEmulatedMedia").with("features", Param::Named(features)),
        )
    }

    /// Sets the type of the medium.
    pub fn emulate_media_type(&self, media_type: MediaTypeParams) -> (step: Step)
        ensures
            step@ == StepView::Execute(
                text_call("Emulation.setEmulatedMedia"@, "media"@, media_type.name()),
            ),
    {
        Step::Execute(
            Call::new("Emulation.setEmulatedMedia").with(
                "media",
                Param::Text(media_type.into_text()),
            ),
        )
    }

    /// Sets the headers that go with each request.
    pub fn set_extra_headers(&self, headers: Headers) -> (step: Step)
        ensures
            step@ == StepView::Execute(headers_call(headers@)),
    {
        Step::Execute(
            Call::new("Network.setExtraHTTPHeaders").with("headers", Param::Headers(headers)),
        )
    }

    /// Blocks URLs.
    pub fn set_blocked_urls(&self, urls: Vec<String>) -> (step: Step)
        ensures
            step@ == block_step(texts(urls@)),
    {
        let mut patterns: Vec<(String, bool)> = Vec::new();
        let mut i: usize = 0;
        while i < urls.len()
            invariant
                i <= urls.len(),
                patterns.len() == i,
                forall|j: int|
                    0 <= j < i ==> (#[trigger] patterns@[j]).0@ == urls@[j]@ && patterns@[j].1,
            decreases urls.len() - i,
        {
            patterns.push((urls[i].clone(), true));
            i = i + 1;
        }
        proof {
            assert(pattern_texts(patterns@) =~= texts(urls@).map_values(
                |u: Seq<char>| (u, true),
            ));
        }
        Step::Send(
            Call::new("Network.setBlockedURLs").with("urlPatterns", Param::Patterns(patterns)),
        )
    }

    /// Blocks every URL.
    pub fn block_all_urls(&self) -> (step: Step)
        ensures
            step@ == block_step(seq!["*"@]),
    {
        let urls: Vec<String> = vec!["*".to_owned()];
        proof {
            assert(texts(urls@) =~= seq!["*"@]);
        }
        self.set_blocked_urls(urls)
    }

    /// Stops all navigation and all loading, for the rest of the page's life.
    pub fn force_stop_all(&self) -> (steps: Vec<Step>)
        ensures
            step_views(steps@) == stop_steps(),
    {
        let steps = and_then(and_then(no_steps(), self.stop_loading()), self.block_all_urls());
        proof {
            assert(step_views(steps@) =~= stop_steps());
        }
        steps
    }

    /// Turns virtual time on. `budget` is the number of milliseconds, in JSON, and
    /// `initial_virtual_time` the moment at which it begins, in JSON. The policy is
    /// `advance` and the limit of starved tasks 10000, where none is given.
    pub fn enable_virtual_time_with_budget(
        &self,
        budget: Value,
        policy: Option<String>,
        max_virtual_time_task_starvation_count: Option<i64>,
        initial_virtual_time: Option<Value>,
    ) -> (step: Step)
        ensures
            step@ == StepView::Send(
                virtual_time_call(
                    budget,
                    opt_text(policy),
                    max_virtual_time_task_starvation_count,
                    initial_virtual_time,
                ),
            ),
    {
        let policy = match policy {
            Some(p) => p,
            None => "advance".to_owned(),
        };
        let count: i64 = match max_virtual_time_task_starvation_count {
            Some(n) => n,
            None => 10_000,
        };
        let base = Call::new("Emulation.setVirtualTimePolicy").with(
            "policy",
            Param::Text(policy),
        ).with("budget", Param::Json(budget)).with(
            "maxVirtualTimeTaskStarvationCount",
            Param::Int(count),
        );
        match initial_virtual_time {
            Some(time) => Step::Send(base.with("initialVirtualTime", Param::Json(time))),
            None => Step::Send(base),
        }
    }

    /// Gets the source of a script.
    pub fn get_script_source(&self, script_id: String) -> (c: Call)
        ensures
            c@ == text_call("Debugger.getScriptSource"@, "scriptId"@, script_id@),
    {
        Call::new("Debugger.getScriptSource").with("scriptId", Param::Text(script_id))
    }
}

} // verus!
