//! The scripts that a page runs in each new document.
use vstd::prelude::*;
use vstd::string::*;

use crate::page::call::{
    and_then, call, no_steps, step_views, Call, CallView, Page, Param, ParamView, Step, StepView,
    UserAgentMetadataView,
};
use crate::page::disguise::{
    disable_dialogs_script, gpu_profiles, hide_chrome_script, hide_permissions_script,
    hide_plugins_script, hide_plugins_text, hide_webdriver_script, hide_webgl_script,
    is_stealth_script, stealth_script, wrap_eval_script, wrapped_script, EmulatedViewport,
    EmulationSettings, StealthOs, StealthTier, ViewportShape,
};
use crate::page::emulation::{
    can_emulate, emulation_script, has_emulation, is_emulation_script, opt_str, opt_viewport,
};
use crate::page::script_texts::{
    disable_dialogs_text, hide_chrome_text, hide_permissions_text, hide_webdriver_text,
    hide_webgl_text, remove_chrome_text,
};
use crate::page::user_agent::{
    filled_in, fits_user_agent, override_steps, plain_agent, SetUserAgentOverrideParams,
};
use crate::protocol::opt_text;

verus! {

/// The command that has a script run in each new document.
pub open spec fn add_script_call(source: Seq<char>, run_immediately: Option<bool>) -> CallView {
    call("Page.addScriptToEvaluateOnNewDocument"@).with(
        "source"@,
        ParamView::Text(source),
    ).with_bool("runImmediately"@, run_immediately)
}

/// The command that has a script run in each new document.
fn add_script(source: String, run_immediately: Option<bool>) -> (c: Call)
    ensures
        c@ == add_script_call(source@, run_immediately),
{
    Call::new("Page.addScriptToEvaluateOnNewDocument").with(
        "source",
        Param::Text(source),
    ).with_bool("runImmediately", run_immediately)
}

/// The steps that have a script run in each new document: none if there is no
/// script, or if it is empty.
pub open spec fn add_script_steps(source: Option<Seq<char>>, run_immediately: Option<bool>) -> Seq<
    StepView,
> {
    match source {
        Some(text) => if text.len() > 0 {
            seq![StepView::Send(add_script_call(text, run_immediately))]
        } else {
            Seq::empty()
        },
        None => Seq::empty(),
    }
}

fn script_steps(source: Option<String>, run_immediately: Option<bool>) -> (steps: Vec<Step>)
    ensures
        step_views(steps@) == add_script_steps(opt_text(source), run_immediately),
{
    match source {
        Some(text) => {
            if text.as_str().is_empty() {
                return no_steps();
            }
            let steps = and_then(no_steps(), Step::Send(add_script(text, run_immediately)));
            proof {
                assert(step_views(steps@) =~= add_script_steps(Some(text@), run_immediately));
            }
            steps
        },
        None => no_steps(),
    }
}

/// A generated script, followed by a script of the user's.
pub open spec fn combined(generated: Seq<char>, custom: Option<Seq<char>>) -> Seq<char> {
    match custom {
        Some(script) => generated + ";"@ + wrapped_script(script) + ";"@,
        None => generated,
    }
}

/// A generated script, followed by a script of the user's.
pub fn combine_scripts(generated: String, custom: Option<&str>) -> (source: String)
    ensures
        source@ == combined(generated@, opt_str(custom)),
{
    match custom {
        Some(script) => {
            let mut source = generated;
            source.append(";");
            source.append(wrap_eval_script(script).as_str());
            source.append(";");
            source
        },
        None => generated,
    }
}

/// The system and the tier of a disguise: the system that is not known and the
/// basic tier, where none is given.
pub fn stealth_choice(os: Option<StealthOs>, tier: Option<StealthTier>) -> (choice: (
    StealthOs,
    StealthTier,
))
    ensures
        choice.0 == chosen_os(os),
        choice.1 == chosen_tier(tier),
{
    let os = match os {
        Some(o) => o,
        None => StealthOs::Unknown,
    };
    let tier = match tier {
        Some(t) => t,
        None => StealthTier::Basic,
    };
    (os, tier)
}

/// The system of a disguise: the one that is not known, where none is given.
pub open spec fn chosen_os(os: Option<StealthOs>) -> StealthOs {
    match os {
        Some(o) => o,
        None => StealthOs::Unknown,
    }
}

/// The tier of a disguise: the basic one, where none is given.
pub open spec fn chosen_tier(tier: Option<StealthTier>) -> StealthTier {
    match tier {
        Some(t) => t,
        None => StealthTier::Basic,
    }
}

/// The steps run one script in each new document: a stealth script of the tier for the
/// system, which takes `window.chrome` away, followed by the script of the user's.
pub open spec fn runs_stealth(
    steps: Seq<StepView>,
    tier: StealthTier,
    os: StealthOs,
    custom: Option<Seq<char>>,
) -> bool {
    exists|generated: Seq<char>|
        {
            &&& steps == add_script_steps(Some(#[trigger] combined(generated, custom)), None)
            &&& is_stealth_script(
                tier,
                os,
                gpu_profiles(os),
                remove_chrome_text(),
                true,
                generated,
            )
        }
}

/// The steps run one script in each new document: one that emulates a browser, or the
/// empty one if there is none, followed by the script of the user's.
pub open spec fn runs_emulation(
    steps: Seq<StepView>,
    user_agent: Seq<char>,
    config: EmulationSettings,
    viewport: Option<ViewportShape>,
    custom: Option<Seq<char>>,
) -> bool {
    exists|generated: Seq<char>|
        {
            &&& steps == add_script_steps(Some(#[trigger] combined(generated, custom)), None)
            &&& if has_emulation(config, custom) {
                is_emulation_script(user_agent, config, viewport, custom, generated)
            } else {
                generated.len() == 0
            }
        }
}

/// The steps set a user agent everywhere, with metadata that is made up for it.
pub open spec fn sets_agent(steps: Seq<StepView>, user_agent: Seq<char>) -> bool {
    exists|generated: Option<UserAgentMetadataView>|
        {
            &&& steps == #[trigger] override_steps(
                filled_in(plain_agent(user_agent), None, generated),
                true,
            )
            &&& generated is Some && fits_user_agent(generated->0, user_agent)
        }
}

impl Page {
    /// Has a script run in each new document, and at once in the documents there
    /// are.
    pub fn add_script_to_evaluate_immediately_on_new_document(&self, source: Option<String>) -> (steps:
        Vec<Step>)
        ensures
            step_views(steps@) == add_script_steps(opt_text(source), Some(true)),
    {
        script_steps(source, Some(true))
    }

    /// Has a script run in each new document.
    pub fn add_script_to_evaluate_on_new_document(&self, source: Option<String>) -> (steps: Vec<
        Step,
    >)
        ensures
            step_views(steps@) == add_script_steps(opt_text(source), None),
    {
        script_steps(source, None)
    }

    /// Has a script run in each new document, and gives the command whose response
    /// identifies it.
    pub fn evaluate_on_new_document(&self, script: String) -> (c: Call)
        ensures
            c@ == add_script_call(script@, None),
    {
        add_script(script, None)
    }

    /// Emulates a browser by a generated script, followed by a script of the user's.
    /// The generated script is empty if there is none.
    pub fn _enable_real_emulation(
        &self,
        user_agent: &str,
        config: &EmulationSettings,
        viewport: Option<&EmulatedViewport>,
        custom_script: Option<&str>,
    ) -> (steps: Vec<Step>)
        requires
            can_emulate(user_agent@, *config, opt_viewport(viewport)),
        ensures
            runs_emulation(
                step_views(steps@),
                user_agent@,
                *config,
                opt_viewport(viewport),
                opt_str(custom_script),
            ),
    {
        let generated = match emulation_script(user_agent, config, viewport, custom_script) {
            Some(script) => script,
            None => String::new(),
        };
        let source = combine_scripts(generated, custom_script);
        self.add_script_to_evaluate_on_new_document(Some(source))
    }

    /// Disguises the browser by a generated script, followed by a script of the
    /// user's.
    pub fn _enable_stealth_mode(
        &self,
        custom_script: Option<&str>,
        os: Option<StealthOs>,
        tier: Option<StealthTier>,
    ) -> (steps: Vec<Step>)
        ensures
            runs_stealth(
                step_views(steps@),
                chosen_tier(tier),
                chosen_os(os),
                opt_str(custom_script),
            ),
    {
        let (os, tier) = stealth_choice(os, tier);
        let source = combine_scripts(stealth_script(tier, os), custom_script);
        self.add_script_to_evaluate_on_new_document(Some(source))
    }

    /// Disguises the browser.
    pub fn enable_stealth_mode(&self) -> (steps: Vec<Step>)
        ensures
            runs_stealth(step_views(steps@), StealthTier::Basic, StealthOs::Unknown, None),
    {
        self._enable_stealth_mode(None, None, None)
    }

    /// Disguises the browser as one of a system.
    pub fn enable_stealth_mode_os(&self, os: Option<StealthOs>, tier: Option<StealthTier>) -> (steps:
        Vec<Step>)
        ensures
            runs_stealth(step_views(steps@), chosen_tier(tier), chosen_os(os), None),
    {
        self._enable_stealth_mode(None, os, tier)
    }

    /// Disguises the browser and keeps dialogs from blocking the page.
    fn enable_stealth_mode_without_dialogs(&self) -> (steps: Vec<Step>)
        ensures
            runs_stealth(
                step_views(steps@),
                StealthTier::Basic,
                StealthOs::Unknown,
                Some(disable_dialogs_text()),
            ),
    {
        let dialogs = disable_dialogs_script();
        self._enable_stealth_mode(Some(dialogs.as_str()), None, None)
    }

    /// Disguises the browser and sets its user agent. The two plans are independent
    /// of each other.
    pub fn enable_stealth_mode_with_agent(&self, ua: &str) -> (plans: (Vec<Step>, Vec<Step>))
        ensures
            runs_stealth(step_views(plans.0@), StealthTier::Basic, StealthOs::Unknown, None),
            sets_agent(step_views(plans.1@), ua@),
    {
        (
            self._enable_stealth_mode(None, None, None),
            self.set_user_agent(SetUserAgentOverrideParams::new(ua)),
        )
    }

    /// Disguises the browser, sets its user agent, and keeps dialogs from blocking
    /// the page. The two plans are independent of each other.
    pub fn enable_stealth_mode_with_dimiss_dialogs(&self, ua: &str) -> (plans: (
        Vec<Step>,
        Vec<Step>,
    ))
        ensures
            runs_stealth(
                step_views(plans.0@),
                StealthTier::Basic,
                StealthOs::Unknown,
                Some(disable_dialogs_text()),
            ),
            sets_agent(step_views(plans.1@), ua@),
    {
        (
            self.enable_stealth_mode_without_dialogs(),
            self.set_user_agent(SetUserAgentOverrideParams::new(ua)),
        )
    }

    /// Disguises the browser, sets its user agent, and keeps dialogs from blocking
    /// the page. The two plans are independent of each other.
    pub fn enable_stealth_mode_with_agent_and_dimiss_dialogs(&self, ua: &str) -> (plans: (
        Vec<Step>,
        Vec<Step>,
    ))
        ensures
            runs_stealth(
                step_views(plans.0@),
                StealthTier::Basic,
                StealthOs::Unknown,
                Some(disable_dialogs_text()),
            ),
            sets_agent(step_views(plans.1@), ua@),
    {
        self.enable_stealth_mode_with_dimiss_dialogs(ua)
    }

    /// Runs a script in each new document that hides that the browser is driven.
    fn run_in_new_documents(script: String) -> (step: Step)
        ensures
            step@ == StepView::Execute(add_script_call(script@, None)),
    {
        Step::Execute(add_script(script, None))
    }

    /// Gives pages the `window.chrome` of a browser that is not driven.
    pub fn hide_chrome(&self) -> (step: Step)
        ensures
            step@ == StepView::Execute(add_script_call(hide_chrome_text(), None)),
    {
        Page::run_in_new_documents(hide_chrome_script())
    }

    /// Hides who made the graphics card.
    pub fn hide_webgl_vendor(&self) -> (step: Step)
        ensures
            step@ == StepView::Execute(add_script_call(hide_webgl_text(), None)),
    {
        Page::run_in_new_documents(hide_webgl_script())
    }

    /// Gives pages the plugins of a browser that is not driven.
    pub fn hide_plugins(&self) -> (step: Step)
        ensures
            step@ == StepView::Execute(add_script_call(hide_plugins_text(), None)),
    {
        Page::run_in_new_documents(hide_plugins_script())
    }

    /// Gives pages the permissions of a browser that is not driven.
    pub fn hide_permissions(&self) -> (step: Step)
        ensures
            step@ == StepView::Execute(add_script_call(hide_permissions_text(), None)),
    {
        Page::run_in_new_documents(hide_permissions_script())
    }

    /// Hides `navigator.webdriver`.
    pub fn hide_webdriver(&self) -> (step: Step)
        ensures
            step@ == StepView::Execute(add_script_call(hide_webdriver_text(), None)),
    {
        Page::run_in_new_documents(hide_webdriver_script())
    }

    /// Makes a function known to pages: a binding of its name, and the script
    /// `expression` that sets it up in each new document.
    pub fn expose_function(&self, name: String, expression: String) -> (steps: Vec<Step>)
        ensures
            step_views(steps@) == seq![
                StepView::Send(call("Runtime.addBinding"@).with("name"@, ParamView::Text(name@))),
                StepView::Send(add_script_call(expression@, None)),
            ],
    {
        let binding = Step::Send(Call::new("Runtime.addBinding").with("name", Param::Text(name)));
        let script = Step::Send(add_script(expression, None));
        let steps = and_then(and_then(no_steps(), binding), script);
        proof {
            assert(step_views(steps@) =~= seq![binding@, script@]);
        }
        steps
    }
}

} // verus!
