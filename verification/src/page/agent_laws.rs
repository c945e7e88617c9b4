//! What a page says that it is: its user agent, and what goes with it.
use vstd::prelude::*;

use crate::matcher::{ascii_folded, leftmost_folded};
use crate::page::call::{brand_texts, call, CallView, ParamView, StepView};
use crate::page::laws::{a_parameter_is_added, one_if, param, text_param};
use crate::page::user_agent::{
    filled_in, metadata_of, override_call, override_steps, plain_agent, platform_name, platform_of,
    platform_patterns, HighEntropyUaData, UserAgentOverrideView,
};
use crate::text::{holds_part, occurs, occurs_at, what_occurs_is_a_part};

verus! {

/// The command sets this user agent, with the languages, the platform and the metadata
/// where they are given.
pub open spec fn sets_user_agent(
    c: CallView,
    method: Seq<char>,
    params: UserAgentOverrideView,
) -> bool {
    &&& c.method == method
    &&& param(c, "userAgent"@) == Some(ParamView::Text(params.user_agent))
    &&& param(c, "acceptLanguage"@) == text_param(params.accept_language)
    &&& param(c, "platform"@) == text_param(params.platform)
    &&& match params.user_agent_metadata {
        Some(metadata) => param(c, "userAgentMetadata"@) == Some(ParamView::Metadata(metadata)),
        None => param(c, "userAgentMetadata"@) is None,
    }
    &&& c.params.len() == 1 + one_if(params.accept_language is Some) + one_if(
        params.platform is Some,
    ) + one_if(params.user_agent_metadata is Some)
}

/// A user agent is set as it was given.
pub proof fn a_user_agent_is_set_as_it_was_given(method: Seq<char>, params: UserAgentOverrideView)
    ensures
        sets_user_agent(override_call(method, params), method, params),
{
    broadcast use a_parameter_is_added;

    reveal_strlit("userAgent");
    reveal_strlit("acceptLanguage");
    reveal_strlit("platform");
    reveal_strlit("userAgentMetadata");
    assert("userAgent"@.len() == 9 && "acceptLanguage"@.len() == 14);
    assert("platform"@.len() == 8 && "userAgentMetadata"@.len() == 17);
    let none = call(method);
    assert(forall|name: Seq<char>| #[trigger] param(none, name) is None);
    let a = none.with("userAgent"@, ParamView::Text(params.user_agent));
    let b = a.with_text("acceptLanguage"@, params.accept_language);
    let d = b.with_text("platform"@, params.platform);
    assert(param(a, "acceptLanguage"@) is None);
    assert(param(a, "platform"@) is None);
    assert(param(a, "userAgentMetadata"@) is None);
    assert(param(b, "platform"@) is None);
    assert(param(b, "userAgentMetadata"@) is None);
    assert(param(b, "userAgent"@) == param(a, "userAgent"@));
    assert(param(d, "userAgentMetadata"@) is None);
    assert(param(d, "userAgent"@) == param(b, "userAgent"@));
    assert(param(d, "acceptLanguage"@) == param(b, "acceptLanguage"@));
}

/// A user agent is set for the network, and for the emulation exactly if that is asked
/// for, both times the same.
pub proof fn a_user_agent_is_set_everywhere_alike(params: UserAgentOverrideView, emulate: bool)
    ensures
        ({
            let steps = override_steps(params, emulate);
            &&& steps.len() == 1 + one_if(emulate)
            &&& steps[0] matches StepView::Execute(c) && sets_user_agent(
                c,
                "Network.setUserAgentOverride"@,
                params,
            )
            &&& emulate ==> (steps[1] matches StepView::Execute(c) && sets_user_agent(
                c,
                "Emulation.setUserAgentOverride"@,
                params,
            ))
        }),
{
    a_user_agent_is_set_as_it_was_given("Network.setUserAgentOverride"@, params);
    a_user_agent_is_set_as_it_was_given("Emulation.setUserAgentOverride"@, params);
}

/// A platform and metadata that are given stay. Where they are not, the platform is that
/// of the user agent if it names one, and the metadata is what was made up. The user
/// agent stays, and the languages are those that are asked for.
pub proof fn what_is_given_with_a_user_agent_stays(
    params: UserAgentOverrideView,
    languages: Option<Seq<char>>,
    made_up: Option<crate::page::call::UserAgentMetadataView>,
)
    ensures
        ({
            let set = filled_in(params, languages, made_up);
            &&& set.user_agent == params.user_agent
            &&& set.accept_language == languages
            &&& params.platform is Some ==> set.platform == params.platform
            &&& params.platform is None && platform_of(params.user_agent).len() > 0
                ==> set.platform == Some(platform_of(params.user_agent))
            &&& params.platform is None && platform_of(params.user_agent).len() == 0
                ==> set.platform is None
            &&& params.user_agent_metadata is Some ==> set.user_agent_metadata
                == params.user_agent_metadata
            &&& params.user_agent_metadata is None ==> set.user_agent_metadata == made_up
        }),
{
}

/// A user agent by itself comes with nothing.
pub proof fn a_plain_user_agent_comes_with_nothing(user_agent: Seq<char>)
    ensures
        plain_agent(user_agent).user_agent == user_agent,
        plain_agent(user_agent).accept_language is None,
        plain_agent(user_agent).platform is None,
        plain_agent(user_agent).user_agent_metadata is None,
{
}

/// The words by which user agents name systems, and the platform of each of them.
pub open spec fn named_platforms() -> Seq<(Seq<char>, Seq<char>)> {
    seq![
        ("ipad"@, "iPad"@),
        ("ipod"@, "iPod"@),
        ("iphone"@, "iPhone"@),
        ("android"@, "Linux armv8l"@),
        ("macintosh"@, "MacIntel"@),
        ("mac os x"@, "MacIntel"@),
        ("windows"@, "Win32"@),
        ("linux"@, "Linux x86_64"@),
    ]
}

proof fn lemma_first_occurrence(hay: Seq<char>, needle: Seq<char>, at: int)
    requires
        occurs_at(hay, needle, at),
    ensures
        exists|first: int|
            #[trigger] occurs_at(hay, needle, first) && forall|j: int|
                j < first ==> !#[trigger] occurs_at(hay, needle, j),
    decreases at,
{
    if exists|j: int| j < at && #[trigger] occurs_at(hay, needle, j) {
        let j = choose|j: int| j < at && #[trigger] occurs_at(hay, needle, j);
        lemma_first_occurrence(hay, needle, j);
    } else {
        assert(occurs_at(hay, needle, at));
    }
}

proof fn lemma_patterns_are_folded(q: int)
    requires
        0 <= q < 8,
    ensures
        ascii_folded(platform_patterns()[q]) == platform_patterns()[q],
        platform_patterns()[q] == named_platforms()[q].0,
        platform_name(q) == named_platforms()[q].1,
{
    reveal_strlit("ipad");
    reveal_strlit("ipod");
    reveal_strlit("iphone");
    reveal_strlit("android");
    reveal_strlit("macintosh");
    reveal_strlit("mac os x");
    reveal_strlit("windows");
    reveal_strlit("linux");
    let word = platform_patterns()[q];
    assert forall|i: int| 0 <= i < word.len() implies ascii_folded(word)[i] == word[i] by {}
    assert(ascii_folded(word) =~= word);
}

/// A user agent that names one system, whatever the case of its letters, has the platform
/// of that system. One that names none has none.
pub proof fn the_platform_is_that_of_the_system_named(user_agent: Seq<char>, p: int)
    requires
        0 <= p < 8,
        forall|q: int|
            0 <= q < 8 && q != p ==> !holds_part(
                ascii_folded(user_agent),
                (#[trigger] named_platforms()[q]).0,
            ),
    ensures
        holds_part(ascii_folded(user_agent), named_platforms()[p].0) ==> platform_of(user_agent)
            == named_platforms()[p].1,
        !holds_part(ascii_folded(user_agent), named_platforms()[p].0) ==> platform_of(
            user_agent,
        ).len() == 0,
{
    let hay = ascii_folded(user_agent);
    let patterns = platform_patterns();
    reveal_strlit("");
    assert forall|q: int, j: int|
        0 <= q < 8 && q != p implies !#[trigger] occurs_at(hay, ascii_folded(patterns[q]), j) by {
        lemma_patterns_are_folded(q);
        what_occurs_is_a_part(hay, named_platforms()[q].0);
    }
    lemma_patterns_are_folded(p);
    what_occurs_is_a_part(hay, named_platforms()[p].0);
    if holds_part(hay, named_platforms()[p].0) {
        let at = choose|at: int| occurs_at(hay, patterns[p], at);
        lemma_first_occurrence(hay, patterns[p], at);
        let first = choose|first: int|
            #[trigger] occurs_at(hay, patterns[p], first) && forall|j: int|
                j < first ==> !#[trigger] occurs_at(hay, patterns[p], j);
        assert(occurs_at(hay, ascii_folded(patterns[p]), first));
        assert(leftmost_folded(patterns, user_agent, p));
        let chosen = choose|q: int| leftmost_folded(patterns, user_agent, q);
        assert(leftmost_folded(patterns, user_agent, chosen));
        assert(chosen == p);
    } else {
        assert forall|q: int| !leftmost_folded(patterns, user_agent, q) by {
            if leftmost_folded(patterns, user_agent, q) {
                let at = choose|at: int| #[trigger]
                    occurs_at(hay, ascii_folded(patterns[q]), at) && forall|r: int, j: int|
                        0 <= r < patterns.len() && (j < at || j == at && r < q)
                            ==> !#[trigger] occurs_at(hay, ascii_folded(patterns[r]), j);
                assert(occurs_at(hay, ascii_folded(patterns[q]), at));
                assert(occurs(hay, ascii_folded(patterns[q])));
            }
        }
    }
}

/// Metadata holds what was made up, field by field. The word width of programs is said of
/// Windows only.
pub proof fn metadata_holds_what_was_made_up(data: HighEntropyUaData)
    ensures
        ({
            let metadata = metadata_of(data);
            &&& metadata.brands == brand_texts(data.full_version_list@)
            &&& metadata.full_version_list == metadata.brands
            &&& metadata.platform == data.platform@
            &&& metadata.platform_version == data.platform_version@
            &&& metadata.architecture == data.architecture@
            &&& metadata.model == data.model@
            &&& metadata.bitness == data.bitness@
            &&& metadata.mobile == data.mobile
            &&& data.platform@ == "Windows"@ ==> metadata.wow64 == Some(data.wow64_ness)
            &&& data.platform@ != "Windows"@ ==> metadata.wow64 is None
        }),
        brand_texts(data.full_version_list@).len() == data.full_version_list@.len(),
        forall|i: int|
            0 <= i < data.full_version_list@.len() ==> {
                &&& (#[trigger] brand_texts(data.full_version_list@)[i]).0
                    == data.full_version_list@[i].brand@
                &&& brand_texts(data.full_version_list@)[i].1
                    == data.full_version_list@[i].version@
            },
{
}

} // verus!
