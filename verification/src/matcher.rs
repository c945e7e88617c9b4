//! Compiled sets of URL patterns.
use vstd::prelude::*;
use vstd::multiset::Multiset;
use aho_corasick::AhoCorasick;

use crate::text::{chars_of, holds_part, occurs, occurs_at, what_occurs_is_a_part};

verus! {

/// The automaton of `aho_corasick`. Verus carries it as a value and sees nothing
/// inside.
#[verifier::external_type_specification]
#[verifier::external_body]
pub struct ExAhoCorasick(AhoCorasick);

/// The patterns that an automaton was built from, in their order.
pub uninterp spec fn automaton_patterns(automaton: AhoCorasick) -> Seq<Seq<char>>;

/// Does `AhoCorasick::new` succeed on these patterns, in whatever order?
pub uninterp spec fn automaton_builds(patterns: Multiset<Seq<char>>) -> bool;

/// The texts of a list of strings.
pub open spec fn texts(strings: Seq<String>) -> Seq<Seq<char>> {
    strings.map_values(|s: String| s@)
}

/// A number and a size of patterns far below every limit of an automaton.
pub open spec fn modest(patterns: Seq<Seq<char>>) -> bool {
    &&& patterns.len() <= 500
    &&& forall|i: int| 0 <= i < patterns.len() ==> (#[trigger] patterns[i]).len() <= 500
}

/// An automaton can be built of the patterns, and of every part of them.
pub open spec fn can_build(patterns: Seq<Seq<char>>) -> bool {
    forall|part: Multiset<Seq<char>>|
        part.subset_of(patterns.to_multiset()) ==> #[trigger] automaton_builds(part)
}

/// One of the patterns stands somewhere in `text`.
pub open spec fn any_occurs(patterns: Seq<Seq<char>>, text: Seq<char>) -> bool {
    exists|i: int| 0 <= i < patterns.len() && occurs(text, #[trigger] patterns[i])
}

/// Calls `AhoCorasick::new`, which compiles the patterns with the default
/// configuration.
///
/// Trusted: an automaton that is built holds the given patterns. Whether it is
/// built depends on the patterns alone and not on their order: `BuildError` comes
/// when an identifier of a state, a transition or a match leaves 31 bits. With some
/// patterns left out there are no more of these, so what can be built can be built
/// of every part too. With 500 patterns of 500 characters there are at most a million
/// states of one transition or two, and each of them has at most 500 matches, so the
/// limit is not reached.
#[verifier::external_body]
fn build_automaton(patterns: &Vec<String>) -> (built: Option<AhoCorasick>)
    ensures
        built is Some <==> automaton_builds(texts(patterns@).to_multiset()),
        built is Some ==> can_build(texts(patterns@)),
        modest(texts(patterns@)) ==> built is Some,
        built matches Some(a) ==> automaton_patterns(a) == texts(patterns@),
{
    AhoCorasick::new(patterns).ok()
}

/// Calls `AhoCorasick::is_match`.
///
/// Trusted: the answer is yes if and only if one of the automaton's patterns
/// stands somewhere in the text.
#[verifier::external_body]
fn automaton_is_match(automaton: &AhoCorasick, text: &str) -> (found: bool)
    ensures
        found == any_occurs(automaton_patterns(*automaton), text@),
{
    automaton.is_match(text)
}

/// A compiled set of URL patterns. Its view is the list of the patterns.
pub struct UrlMatcher {
    automaton: AhoCorasick,
}

impl View for UrlMatcher {
    type V = Seq<Seq<char>>;

    closed spec fn view(&self) -> Seq<Seq<char>> {
        automaton_patterns(self.automaton)
    }
}

impl UrlMatcher {
    /// Compiles the patterns. There is no matcher if they are beyond what an
    /// automaton can hold.
    pub fn new(patterns: &Vec<String>) -> (matcher: Option<UrlMatcher>)
        ensures
            matcher is Some <==> can_build(texts(patterns@)),
            modest(texts(patterns@)) ==> matcher is Some,
            matcher matches Some(m) ==> m@ == texts(patterns@),
    {
        proof {
            assert(texts(patterns@).to_multiset().subset_of(texts(patterns@).to_multiset()));
        }
        match build_automaton(patterns) {
            Some(automaton) => Some(UrlMatcher { automaton }),
            None => None,
        }
    }

    /// Does one of the patterns stand in the text?
    pub fn is_match(&self, text: &str) -> (found: bool)
        ensures
            found == any_occurs(self@, text@),
    {
        automaton_is_match(&self.automaton, text)
    }
}

/// Lists that hold the same patterns can both be built, or neither can.
pub proof fn lemma_order_builds(a: Seq<Seq<char>>, b: Seq<Seq<char>>)
    requires
        a.to_multiset() == b.to_multiset(),
    ensures
        can_build(a) == can_build(b),
{
}

/// What a list that can be built begins with can be built.
pub proof fn lemma_beginning_builds(a: Seq<Seq<char>>, b: Seq<Seq<char>>)
    requires
        can_build(a + b),
    ensures
        can_build(a),
{
    vstd::seq_lib::lemma_multiset_commutative(a, b);
    assert forall|part: Multiset<Seq<char>>|
        part.subset_of(a.to_multiset()) implies #[trigger] automaton_builds(part) by {
        assert(part.subset_of((a + b).to_multiset()));
    }
}

/// The character in lower case, if it is a letter of ASCII.
pub open spec fn ascii_lower(c: char) -> char {
    if 'A' <= c <= 'Z' {
        (c as u32 + 32) as char
    } else {
        c
    }
}

/// The text in lower case, as far as it is ASCII.
pub open spec fn ascii_folded(text: Seq<char>) -> Seq<char> {
    text.map_values(|c: char| ascii_lower(c))
}

/// The characters of a text in lower case, as far as they are ASCII.
pub fn folded_chars(text: &str) -> (folded: Vec<char>)
    ensures
        folded@ == ascii_folded(text@),
{
    let chars = chars_of(text);
    let mut folded: Vec<char> = Vec::new();
    let mut i: usize = 0;
    while i < chars.len()
        invariant
            i <= chars.len(),
            chars@ == text@,
            folded.len() == i,
            forall|j: int| 0 <= j < i ==> #[trigger] folded@[j] == ascii_lower(text@[j]),
        decreases chars.len() - i,
    {
        let c: char = chars[i];
        if 'A' <= c && c <= 'Z' {
            folded.push((c as u8 + 32) as char);
        } else {
            folded.push(c);
        }
        i = i + 1;
    }
    proof {
        assert(folded@ =~= ascii_folded(text@));
    }
    folded
}

/// `pattern` is the leftmost match in `text` without regard to the case of ASCII
/// letters: no pattern stands at an earlier place, and of those that stand at
/// that place it is the first of the list.
pub open spec fn leftmost_folded(patterns: Seq<Seq<char>>, text: Seq<char>, pattern: int) -> bool {
    &&& 0 <= pattern < patterns.len()
    &&& exists|at: int|
        {
            &&& #[trigger] occurs_at(ascii_folded(text), ascii_folded(patterns[pattern]), at)
            &&& forall|p: int, j: int|
                0 <= p < patterns.len() && (j < at || j == at && p < pattern)
                    ==> !#[trigger] occurs_at(ascii_folded(text), ascii_folded(patterns[p]), j)
        }
}

/// No pattern stands in `text`, whatever the case of ASCII letters.
pub open spec fn none_folded(patterns: Seq<Seq<char>>, text: Seq<char>) -> bool {
    forall|p: int|
        0 <= p < patterns.len() ==> !occurs(ascii_folded(text), ascii_folded(#[trigger] patterns[p]))
}

/// Calls `AhoCorasick::builder` with `MatchKind::LeftmostFirst` and
/// `ascii_case_insensitive(true)`, builds the automaton and calls
/// `AhoCorasick::find`.
///
/// Trusted: the result is the index of the leftmost match, and of the matches
/// that begin there of the one that comes first in the list; there is no result
/// if and only if nothing matches. The bound on the patterns keeps the build
/// within its limits.
#[verifier::external_body]
pub(crate) fn find_leftmost_folded(patterns: &Vec<String>, text: &str) -> (found: Option<usize>)
    requires
        modest(texts(patterns@)),
    ensures
        match found {
            Some(p) => leftmost_folded(texts(patterns@), text@, p as int),
            None => none_folded(texts(patterns@), text@),
        },
{
    AhoCorasick::builder()
        .match_kind(aho_corasick::MatchKind::LeftmostFirst)
        .ascii_case_insensitive(true)
        .build(patterns)
        .expect("valid pattern")
        .find(text)
        .map(|found| found.pattern().as_usize())
}

// ---------------------------------------------------------------------------
// What holds of patterns

/// A list of patterns has a text exactly if one of them is a part of it.
pub proof fn a_list_has_what_a_pattern_is_part_of(patterns: Seq<Seq<char>>, text: Seq<char>)
    ensures
        any_occurs(patterns, text) <==> exists|i: int|
            0 <= i < patterns.len() && holds_part(text, #[trigger] patterns[i]),
{
    if any_occurs(patterns, text) {
        let i = choose|i: int| 0 <= i < patterns.len() && occurs(text, #[trigger] patterns[i]);
        what_occurs_is_a_part(text, patterns[i]);
    }
    if exists|i: int| 0 <= i < patterns.len() && holds_part(text, #[trigger] patterns[i]) {
        let i = choose|i: int| 0 <= i < patterns.len() && holds_part(text, #[trigger] patterns[i]);
        what_occurs_is_a_part(text, patterns[i]);
    }
}

/// The case of letters is folded one by one: capital letters of ASCII become small ones,
/// and everything else stays.
pub proof fn folding_makes_letters_small(text: Seq<char>, i: int)
    requires
        0 <= i < text.len(),
    ensures
        ascii_folded(text).len() == text.len(),
        'A' <= text[i] <= 'Z' ==> ascii_folded(text)[i] as u32 == text[i] as u32 + 32,
        !('A' <= text[i] <= 'Z') ==> ascii_folded(text)[i] == text[i],
        ascii_folded(ascii_folded(text)) == ascii_folded(text),
{
    assert forall|j: int| 0 <= j < text.len() implies ascii_folded(ascii_folded(text))[j]
        == ascii_folded(text)[j] by {
        let c = text[j];
        if 'A' <= c <= 'Z' {
            assert((c as u32 + 32) as char as u32 == c as u32 + 32);
        }
    }
    assert(ascii_folded(ascii_folded(text)) =~= ascii_folded(text));
}

} // verus!
