//! What a disguise comes to: the script of the user's is run with it, the user agent is
//! the one that was given, and it is known before which browsers can be emulated.
use vstd::prelude::*;

use crate::matcher::ascii_folded;
use crate::page::agent_laws::{a_user_agent_is_set_everywhere_alike, sets_user_agent};
use crate::page::call::StepView;
use crate::page::command_laws::{
    a_script_is_run_as_it_was_given, runs_in_new_documents, the_script_of_the_user_follows,
};
use crate::page::disguise::{
    gpu_profiles, is_stealth_script, EmulationSettings, StealthFingerprint, StealthOs, StealthTier,
    ViewportShape,
};
use crate::page::emulation::{
    can_emulate, counted, has_emulation, is_emulation_script, leading_digits, version_after,
};
use crate::page::script_texts::remove_chrome_text;
use crate::page::scripts::{combined, runs_emulation, runs_stealth, sets_agent};
use crate::page::user_agent::{fits_user_agent, UserAgentOverrideView};
use crate::text::{holds_part, is_digit, made_of, occurs_at, what_occurs_is_a_part};
use crate::url::place_of;

verus! {

/// The script is a generated one, with the script of the user's behind it if there is
/// one.
pub open spec fn follows_generated(
    source: Seq<char>,
    generated: Seq<char>,
    custom: Option<Seq<char>>,
) -> bool {
    match custom {
        Some(script) => made_of(source, generated, ";(()=>{"@ + script, "})();;"@),
        None => source == generated,
    }
}

/// The steps have this script run in each new document, and do nothing else. An empty
/// script is not run.
pub open spec fn run_script(steps: Seq<StepView>, source: Seq<char>) -> bool {
    if source.len() == 0 {
        steps.len() == 0
    } else {
        steps.len() == 1 && (steps[0] matches StepView::Send(c) && runs_in_new_documents(
            c,
            source,
            None,
        ))
    }
}

proof fn lemma_combined(steps: Seq<StepView>, generated: Seq<char>, custom: Option<Seq<char>>)
    requires
        steps == crate::page::scripts::add_script_steps(Some(combined(generated, custom)), None),
    ensures
        run_script(steps, combined(generated, custom)),
        follows_generated(combined(generated, custom), generated, custom),
{
    a_script_is_run_as_it_was_given(combined(generated, custom), None);
    match custom {
        Some(script) => the_script_of_the_user_follows(generated, script),
        None => {},
    }
}

/// A disguise runs in each new document a stealth script of its tier and its system, and
/// behind it the script of the user's, whole.
pub proof fn a_disguise_runs_the_script_of_the_user(
    steps: Seq<StepView>,
    tier: StealthTier,
    os: StealthOs,
    custom: Option<Seq<char>>,
)
    requires
        runs_stealth(steps, tier, os, custom),
    ensures
        exists|generated: Seq<char>, source: Seq<char>|
            {
                &&& #[trigger] follows_generated(source, generated, custom)
                &&& run_script(steps, source)
                &&& is_stealth_script(
                    tier,
                    os,
                    gpu_profiles(os),
                    remove_chrome_text(),
                    true,
                    generated,
                )
            },
{
    let generated = choose|generated: Seq<char>|
        {
            &&& steps == crate::page::scripts::add_script_steps(
                Some(#[trigger] combined(generated, custom)),
                None,
            )
            &&& is_stealth_script(
                tier,
                os,
                gpu_profiles(os),
                remove_chrome_text(),
                true,
                generated,
            )
        };
    lemma_combined(steps, generated, custom);
    assert(follows_generated(combined(generated, custom), generated, custom));
}

/// An emulation runs in each new document the script for this user agent, these settings
/// and this viewport, if there is one, and behind it the script of the user's, whole.
pub proof fn an_emulation_runs_the_script_of_the_user(
    steps: Seq<StepView>,
    user_agent: Seq<char>,
    config: EmulationSettings,
    viewport: Option<ViewportShape>,
    custom: Option<Seq<char>>,
)
    requires
        runs_emulation(steps, user_agent, config, viewport, custom),
    ensures
        exists|generated: Seq<char>, source: Seq<char>|
            {
                &&& #[trigger] follows_generated(source, generated, custom)
                &&& run_script(steps, source)
                &&& config.tier != StealthTier::Off || config.fingerprint
                    != StealthFingerprint::Off || custom is Some ==> is_emulation_script(
                    user_agent,
                    config,
                    viewport,
                    custom,
                    generated,
                )
                &&& config.tier == StealthTier::Off && config.fingerprint
                    == StealthFingerprint::Off && custom is None ==> generated.len() == 0
            },
{
    let generated = choose|generated: Seq<char>|
        {
            &&& steps == crate::page::scripts::add_script_steps(
                Some(#[trigger] combined(generated, custom)),
                None,
            )
            &&& if has_emulation(config, custom) {
                is_emulation_script(user_agent, config, viewport, custom, generated)
            } else {
                generated.len() == 0
            }
        };
    lemma_combined(steps, generated, custom);
    assert(follows_generated(combined(generated, custom), generated, custom));
}

/// The step sets a user agent, and is waited for.
pub open spec fn step_sets(
    step: StepView,
    method: Seq<char>,
    params: UserAgentOverrideView,
) -> bool {
    step matches StepView::Execute(c) && sets_user_agent(c, method, params)
}

/// The steps that go with a disguise set the user agent that was given, for the network
/// and for the emulation, with metadata that was made up for it.
pub proof fn a_disguise_sets_the_user_agent(steps: Seq<StepView>, user_agent: Seq<char>)
    requires
        sets_agent(steps, user_agent),
    ensures
        steps.len() == 2,
        exists|params: UserAgentOverrideView|
            {
                &&& params.user_agent == user_agent
                &&& params.accept_language is None
                &&& params.user_agent_metadata matches Some(m) && fits_user_agent(m, user_agent)
                &&& #[trigger] step_sets(steps[0], "Network.setUserAgentOverride"@, params)
                &&& step_sets(steps[1], "Emulation.setUserAgentOverride"@, params)
            },
{
    let generated = choose|generated: Option<crate::page::call::UserAgentMetadataView>|
        {
            &&& steps == #[trigger] crate::page::user_agent::override_steps(
                crate::page::user_agent::filled_in(
                    crate::page::user_agent::plain_agent(user_agent),
                    None,
                    generated,
                ),
                true,
            )
            &&& generated is Some && fits_user_agent(generated->0, user_agent)
        };
    let params = crate::page::user_agent::filled_in(
        crate::page::user_agent::plain_agent(user_agent),
        None,
        generated,
    );
    a_user_agent_is_set_everywhere_alike(params, true);
    assert(step_sets(steps[0], "Network.setUserAgentOverride"@, params));
}

/// Whether a browser can be emulated goes by its viewport and its version alone. A screen
/// that is wide enough for the window to lie beyond its reach, or lower than a menu bar,
/// can not be made up; every other one can.
pub proof fn which_screens_can_be_emulated(
    user_agent: Seq<char>,
    config: EmulationSettings,
    screen: ViewportShape,
)
    requires
        config.tier == StealthTier::Off || config.user_agent_data == Some(false),
    ensures
        can_emulate(user_agent, config, None),
        screen.width > 2744 || screen.height < 60 ==> !can_emulate(
            user_agent,
            config,
            Some(screen),
        ),
        screen.width <= 2744 && 60 <= screen.height <= 2_147_483_547 ==> can_emulate(
            user_agent,
            config,
            Some(screen),
        ),
        screen.width <= 2744 && 60 <= screen.height <= 4_294_967_205 && screen.emulating_mobile
            ==> can_emulate(user_agent, config, Some(screen)),
{
}

/// A user agent that names none of the browsers whose version decides can be emulated
/// without a viewport, and so can every browser on which no data is made up.
pub proof fn unknown_browsers_can_be_emulated(user_agent: Seq<char>, config: EmulationSettings)
    requires
        !holds_part(ascii_folded(user_agent), "edg/"@),
        !holds_part(ascii_folded(user_agent), "opr/"@),
        !holds_part(ascii_folded(user_agent), "chrome/"@),
    ensures
        can_emulate(user_agent, config, None),
{
    let hay = ascii_folded(user_agent);
    what_occurs_is_a_part(hay, "edg/"@);
    what_occurs_is_a_part(hay, "opr/"@);
    what_occurs_is_a_part(hay, "chrome/"@);
    assert(place_of(hay, "chrome/"@, 0) is None) by {
        assert forall|at: int| !crate::text::first_from(hay, "chrome/"@, 0, at) by {
            assert(!occurs_at(hay, "chrome/"@, at));
        }
    }
    assert(version_after(user_agent, "chrome/"@) =~= Seq::empty());
}

/// Edge on Android, which gives pages no data of its user agent, can be emulated whatever
/// its version is.
pub proof fn edge_on_android_can_be_emulated(user_agent: Seq<char>, config: EmulationSettings)
    requires
        holds_part(ascii_folded(user_agent), "edg/"@),
        holds_part(ascii_folded(user_agent), "android"@),
    ensures
        can_emulate(user_agent, config, None),
{
    what_occurs_is_a_part(ascii_folded(user_agent), "edg/"@);
    what_occurs_is_a_part(ascii_folded(user_agent), "android"@);
}

/// There is a script exactly if a tier or a fingerprint is on or the user has one.
pub proof fn when_there_is_a_script(config: EmulationSettings, custom: Option<Seq<char>>)
    ensures
        custom is Some ==> has_emulation(config, custom),
        config.tier != StealthTier::Off ==> has_emulation(config, custom),
        config.fingerprint != StealthFingerprint::Off ==> has_emulation(config, custom),
        config.tier == StealthTier::Off && config.fingerprint == StealthFingerprint::Off
            ==> !has_emulation(config, None),
{
}

proof fn lemma_counted_small(digits: Seq<char>)
    requires
        digits.len() <= 9,
        forall|i: int| 0 <= i < digits.len() ==> is_digit(#[trigger] digits[i]),
    ensures
        counted(digits) matches Some(n) && n < pow_of_ten(digits.len()),
    decreases digits.len(),
{
    if digits.len() > 0 {
        let rest = digits.drop_last();
        assert forall|i: int| 0 <= i < rest.len() implies is_digit(#[trigger] rest[i]) by {
            assert(rest[i] == digits[i]);
        }
        lemma_counted_small(rest);
        lemma_pow_of_ten(rest.len());
        assert(is_digit(digits[digits.len() - 1]));
    }
}

spec fn pow_of_ten(n: nat) -> nat
    decreases n,
{
    if n == 0 {
        1
    } else {
        10 * pow_of_ten((n - 1) as nat)
    }
}

proof fn lemma_pow_of_ten(n: nat)
    requires
        n <= 8,
    ensures
        pow_of_ten(n) <= 100_000_000,
{
    reveal_with_fuel(pow_of_ten, 10);
}

/// A version of up to nine digits can be counted up to, and so a browser of such a
/// version can be emulated.
pub proof fn versions_of_nine_digits_can_be_counted(digits: Seq<char>)
    requires
        digits.len() <= 9,
        forall|i: int| 0 <= i < digits.len() ==> '0' <= #[trigger] digits[i] <= '9',
    ensures
        counted(digits) is Some,
{
    lemma_counted_small(digits);
}

/// The digits that a text begins with are all digits, and what follows them is none.
pub proof fn a_version_ends_with_its_digits(digits: Seq<char>, rest: Seq<char>)
    requires
        forall|i: int| 0 <= i < digits.len() ==> '0' <= #[trigger] digits[i] <= '9',
        rest.len() == 0 || !('0' <= rest[0] <= '9'),
    ensures
        leading_digits(digits + rest) == digits,
    decreases digits.len(),
{
    let text = digits + rest;
    if digits.len() == 0 {
        assert(text =~= rest);
        assert(leading_digits(text) =~= digits);
    } else {
        let shorter = digits.skip(1);
        assert(text.skip(1) =~= shorter + rest);
        assert forall|i: int| 0 <= i < shorter.len() implies '0' <= #[trigger] shorter[i] <= '9' by {
            assert(shorter[i] == digits[i + 1]);
        }
        a_version_ends_with_its_digits(shorter, rest);
        assert('0' <= digits[0] <= '9');
        assert(leading_digits(text) =~= seq![digits[0]] + shorter);
        assert(leading_digits(text) =~= digits);
    }
}

} // verus!
