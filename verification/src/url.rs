//! The parts of a URL that the network layer looks at.
use vstd::prelude::*;
use vstd::string::*;

use crate::text::{
    chars_of, find_char, find_from, first_from, head_to, last_char, occurs_at,
    rfind_char, tail_from,
};

verus! {

/// The first place at or after `from` where `needle` stands in `hay`.
pub open spec fn place_of(hay: Seq<char>, needle: Seq<char>, from: int) -> Option<int> {
    if exists|at: int| first_from(hay, needle, from, at) {
        Some(choose|at: int| first_from(hay, needle, from, at))
    } else {
        None
    }
}

/// A text has one first place of a pattern.
pub proof fn lemma_place_of(hay: Seq<char>, needle: Seq<char>, from: int, at: int)
    requires
        first_from(hay, needle, from, at),
    ensures
        place_of(hay, needle, from) == Some(at),
{
    let other = choose|other: int| first_from(hay, needle, from, other);
    assert(first_from(hay, needle, from, other));
    if other < at {
        assert(!occurs_at(hay, needle, other));
    }
    if at < other {
        assert(!occurs_at(hay, needle, at));
    }
}

/// The path of a URL with its leading slash: what begins at the first slash after
/// the first two slashes.
pub open spec fn path_of(url: Seq<char>) -> Option<Seq<char>> {
    match place_of(url, "//"@, 0) {
        Some(scheme) => match place_of(url, "/"@, scheme + 2) {
            Some(slash) => Some(url.skip(slash)),
            None => None,
        },
        None => None,
    }
}

/// The path of a URL with its leading slash, query and fragment included.
///
/// `https://cdn.example.net/js/app.js?x=y` has `/js/app.js?x=y`.
pub fn url_path_with_leading_slash<'a>(url: &'a str) -> (path: Option<&'a str>)
    ensures
        match path {
            Some(p) => path_of(url@) == Some(p@),
            None => path_of(url@) is None,
        },
{
    proof {
        reveal_strlit("//");
        reveal_strlit("/");
    }
    let chars = chars_of(url);
    let scheme: usize = match find_from(&chars, &chars_of("//"), 0) {
        Some(at) => at,
        None => {
            return None;
        },
    };
    proof {
        lemma_place_of(url@, "//"@, 0, scheme as int);
        assert(scheme + 2 <= chars.len());
    }
    match find_from(&chars, &chars_of("/"), scheme + 2) {
        Some(slash) => {
            proof {
                lemma_place_of(url@, "/"@, scheme + 2, slash as int);
            }
            Some(tail_from(url, slash))
        },
        None => None,
    }
}

/// Does a query or a fragment begin with this character?
pub open spec fn ends_path(c: char) -> bool {
    c == '?' || c == '#'
}

/// What stands before the query and the fragment.
pub open spec fn bare_path(text: Seq<char>) -> Seq<char>
    decreases text.len(),
{
    if text.len() == 0 || ends_path(text[0]) {
        Seq::empty()
    } else {
        seq![text[0]] + bare_path(text.skip(1))
    }
}

/// The bare path is the longest beginning without the two marks.
pub proof fn lemma_bare_path(text: Seq<char>, length: int)
    requires
        0 <= length <= text.len(),
        forall|i: int| 0 <= i < length ==> !ends_path(#[trigger] text[i]),
        length < text.len() ==> ends_path(text[length]),
    ensures
        bare_path(text) == text.take(length),
    decreases length,
{
    if length == 0 {
        assert(text.take(0) =~= Seq::empty());
    } else {
        let rest = text.skip(1);
        assert forall|i: int| 0 <= i < length - 1 implies !ends_path(#[trigger] rest[i]) by {
            assert(rest[i] == text[i + 1]);
        }
        lemma_bare_path(rest, length - 1);
        assert(seq![text[0]] + rest.take(length - 1) =~= text.take(length));
    }
}

/// A bare path holds neither mark, and is a beginning of the text.
pub proof fn lemma_bare_path_is_bare(text: Seq<char>)
    ensures
        bare_path(text).len() <= text.len(),
        bare_path(text) == text.take(bare_path(text).len() as int),
        forall|i: int|
            0 <= i < bare_path(text).len() ==> !ends_path(#[trigger] bare_path(text)[i]),
    decreases text.len(),
{
    if text.len() == 0 || ends_path(text[0]) {
        assert(text.take(0) =~= Seq::empty());
    } else {
        lemma_bare_path_is_bare(text.skip(1));
        let rest = bare_path(text.skip(1));
        assert(rest == text.skip(1).take(rest.len() as int));
        assert(bare_path(text) =~= text.take(rest.len() as int + 1));
        assert forall|i: int| 0 <= i < bare_path(text).len() implies !ends_path(
            #[trigger] bare_path(text)[i],
        ) by {
            if i > 0 {
                assert(bare_path(text)[i] == rest[i - 1]);
            }
        }
    }
}

/// Taking query and fragment off a second time changes nothing.
pub proof fn stripping_twice_is_stripping_once(text: Seq<char>)
    ensures
        bare_path(bare_path(text)) == bare_path(text),
{
    lemma_bare_path_is_bare(text);
    let bare = bare_path(text);
    lemma_bare_path(bare, bare.len() as int);
    assert(bare.take(bare.len() as int) =~= bare);
}

/// Takes the query and the fragment off.
///
/// `/a/b.js?x=1#y` becomes `/a/b.js`.
pub fn strip_query_fragment<'a>(text: &'a str) -> (bare: &'a str)
    ensures
        bare@ == bare_path(text@),
{
    let chars = chars_of(text);
    let query = find_char(&chars, '?');
    let fragment = find_char(&chars, '#');
    let end: usize = match (query, fragment) {
        (None, None) => chars.len(),
        (Some(i), None) => i,
        (None, Some(j)) => j,
        (Some(i), Some(j)) => if i < j {
            i
        } else {
            j
        },
    };
    proof {
        assert forall|i: int| 0 <= i < end implies !ends_path(#[trigger] text@[i]) by {
            assert(chars@.contains(chars@[i]));
        }
        lemma_bare_path(text@, end as int);
    }
    head_to(text, end)
}

/// The text without a slash at its beginning.
pub open spec fn unslashed_start(text: Seq<char>) -> Seq<char> {
    if text.len() > 0 && text[0] == '/' {
        text.skip(1)
    } else {
        text
    }
}

/// The text without a slash at its beginning.
pub fn strip_leading_slash<'a>(text: &'a str) -> (rest: &'a str)
    ensures
        rest@ == unslashed_start(text@),
{
    if text.unicode_len() > 0 && text.get_char(0) == '/' {
        tail_from(text, 1)
    } else {
        text
    }
}

/// What stands after the last slash, or all of the text if it has none.
pub open spec fn base_name(text: Seq<char>) -> Seq<char>
    decreases text.len(),
{
    if !text.contains('/') {
        text
    } else {
        base_name(text.skip(1))
    }
}

proof fn lemma_base_name(text: Seq<char>, slash: int)
    requires
        last_char(text, '/', slash),
    ensures
        base_name(text) == text.skip(slash + 1),
    decreases slash,
{
    assert(text.contains('/')) by {
        assert(text[slash] == '/');
    }
    let rest = text.skip(1);
    if slash == 0 {
        assert forall|j: int| 0 <= j < rest.len() implies rest[j] != '/' by {
            assert(rest[j] == text[j + 1]);
        }
        assert(!rest.contains('/'));
        assert(base_name(rest) == rest);
    } else {
        assert(rest[slash - 1] == '/');
        assert forall|j: int| slash - 1 < j < rest.len() implies rest[j] != '/' by {
            assert(rest[j] == text[j + 1]);
        }
        lemma_base_name(rest, slash - 1);
        assert(rest.skip(slash) =~= text.skip(slash + 1));
    }
}

/// What stands after the last slash.
pub fn url_base_name<'a>(text: &'a str) -> (base: &'a str)
    ensures
        base@ == base_name(text@),
{
    let chars = chars_of(text);
    match rfind_char(&chars, '/') {
        Some(slash) => {
            proof {
                lemma_base_name(text@, slash as int);
                assert(slash < chars.len());
            }
            tail_from(text, slash + 1)
        },
        None => text,
    }
}

/// The text takes more than one byte.
pub open spec fn is_wide(text: Seq<char>) -> bool {
    text.len() >= 2 || text.len() == 1 && text[0] as u32 >= 128
}

/// What stands after the last dot, if it takes more than one byte.
pub open spec fn extension_of(url: Seq<char>) -> Option<Seq<char>> {
    if exists|dot: int| last_char(url, '.', dot) && is_wide(url.skip(dot + 1)) {
        let dot = choose|dot: int| last_char(url, '.', dot) && is_wide(url.skip(dot + 1));
        Some(url.skip(dot + 1))
    } else {
        None
    }
}

/// What stands after the last dot of a URL, if it takes more than one byte.
pub fn url_extension<'a>(url: &'a str) -> (extension: Option<&'a str>)
    ensures
        match extension {
            Some(e) => extension_of(url@) == Some(e@),
            None => extension_of(url@) is None,
        },
{
    let chars = chars_of(url);
    match rfind_char(&chars, '.') {
        Some(dot) => {
            proof {
                assert(dot < chars.len());
            }
            let extension = tail_from(url, dot + 1);
            let length: usize = extension.unicode_len();
            let wide = length >= 2 || length == 1 && extension.get_char(0) as u32 >= 128;
            proof {
                assert forall|other: int| last_char(url@, '.', other) implies other == dot by {
                    assert(url@[other] == '.');
                    assert(url@[dot as int] == '.');
                }
            }
            if wide {
                Some(extension)
            } else {
                None
            }
        },
        None => {
            proof {
                assert forall|other: int| !last_char(url@, '.', other) by {
                    if last_char(url@, '.', other) {
                        assert(url@.contains(url@[other]));
                    }
                }
            }
            None
        },
    }
}

// ---------------------------------------------------------------------------
// What holds of the parts of a URL

/// The path of a URL is what follows its host, the slash included.
pub proof fn the_path_follows_the_host(scheme: Seq<char>, host: Seq<char>, rest: Seq<char>)
    requires
        !scheme.contains('/'),
        !host.contains('/'),
    ensures
        path_of(scheme + seq!['/', '/'] + host + seq!['/'] + rest) == Some(seq!['/'] + rest),
        path_of(scheme + seq!['/', '/'] + host) is None,
        path_of(scheme) is None,
{
    reveal_strlit("//");
    reveal_strlit("/");
    let url = scheme + seq!['/', '/'] + host + seq!['/'] + rest;
    let bare = scheme + seq!['/', '/'] + host;
    let at = scheme.len() as int;
    let slash = at + 2 + host.len();
    assert forall|j: int| 0 <= j < at implies scheme[j] != '/' by {
        assert(scheme.contains(scheme[j]));
    }
    assert forall|j: int| 0 <= j < host.len() implies host[j] != '/' by {
        assert(host.contains(host[j]));
    }
    assert forall|j: int| 0 <= j < at implies !occurs_at(url, "//"@, j) && !occurs_at(
        bare,
        "//"@,
        j,
    ) by {
        assert(url.subrange(j, j + 2)[0] == scheme[j]);
        assert(bare.subrange(j, j + 2)[0] == scheme[j]);
    }
    assert(url.subrange(at, at + 2) =~= "//"@);
    assert(bare.subrange(at, at + 2) =~= "//"@);
    assert(first_from(url, "//"@, 0, at));
    assert(first_from(bare, "//"@, 0, at));
    lemma_place_of(url, "//"@, 0, at);
    lemma_place_of(bare, "//"@, 0, at);
    assert forall|j: int| at + 2 <= j < slash implies !occurs_at(url, "/"@, j) by {
        assert(url.subrange(j, j + 1)[0] == host[j - at - 2]);
    }
    assert(url.subrange(slash, slash + 1) =~= "/"@);
    assert(first_from(url, "/"@, at + 2, slash));
    lemma_place_of(url, "/"@, at + 2, slash);
    assert(url.skip(slash) =~= seq!['/'] + rest);
    let from = at + 2;
    assert forall|j: int| !#[trigger] first_from(bare, "/"@, from, j) by {
        if first_from(bare, "/"@, from, j) {
            assert(bare.subrange(j, j + 1)[0] == host[j - at - 2]);
        }
    }
    assert forall|j: int| !#[trigger] first_from(scheme, "//"@, 0, j) by {
        if first_from(scheme, "//"@, 0, j) {
            assert(scheme.subrange(j, j + 2)[0] == scheme[j]);
        }
    }
}

/// Query and fragment are what follows the first question mark or number sign; the rest
/// stays.
pub proof fn query_and_fragment_are_taken_off(path: Seq<char>, mark: char, tail: Seq<char>)
    requires
        mark == '?' || mark == '#',
        !path.contains('?'),
        !path.contains('#'),
    ensures
        bare_path(path) == path,
        bare_path(path + seq![mark] + tail) == path,
{
    let text = path + seq![mark] + tail;
    let n = path.len() as int;
    assert forall|i: int| 0 <= i < n implies !ends_path(#[trigger] path[i]) && !ends_path(
        #[trigger] text[i],
    ) by {
        assert(path.contains(path[i]));
        assert(text[i] == path[i]);
    }
    lemma_bare_path(path, n);
    assert(path.take(n) =~= path);
    lemma_bare_path(text, n);
    assert(text.take(n) =~= path);
}

/// The last part of a path is what follows its last slash.
pub proof fn the_last_part_follows_the_last_slash(folder: Seq<char>, name: Seq<char>)
    requires
        !name.contains('/'),
    ensures
        base_name(name) == name,
        base_name(folder + seq!['/'] + name) == name,
{
    let text = folder + seq!['/'] + name;
    let slash = folder.len() as int;
    assert forall|j: int| slash < j < text.len() implies text[j] != '/' by {
        assert(name.contains(name[j - slash - 1]));
    }
    assert(last_char(text, '/', slash));
    lemma_base_name(text, slash);
    assert(text.skip(slash + 1) =~= name);
}

/// A slash at the beginning of a path is taken off, and nothing else.
pub proof fn one_slash_is_taken_off_the_beginning(text: Seq<char>)
    ensures
        unslashed_start(seq!['/'] + text) == text,
        text.len() == 0 || text[0] != '/' ==> unslashed_start(text) == text,
{
    assert((seq!['/'] + text).skip(1) =~= text);
}

/// The extension of a URL is what follows its last dot, where that is two characters or
/// more, or one that is not of ASCII. Without a dot there is none.
pub proof fn the_extension_follows_the_last_dot(stem: Seq<char>, extension: Seq<char>)
    requires
        !extension.contains('.'),
    ensures
        extension.len() >= 2 ==> extension_of(stem + seq!['.'] + extension) == Some(extension),
        extension.len() == 0 ==> extension_of(stem + seq!['.'] + extension) is None,
        extension.len() == 1 && extension[0] as u32 >= 128 ==> extension_of(
            stem + seq!['.'] + extension,
        ) == Some(extension),
        extension.len() == 1 && (extension[0] as u32) < 128 ==> extension_of(
            stem + seq!['.'] + extension,
        ) is None,
        extension_of(extension) is None,
{
    let url = stem + seq!['.'] + extension;
    let at = stem.len() as int;
    assert forall|j: int| at < j < url.len() implies url[j] != '.' by {
        assert(extension.contains(extension[j - at - 1]));
    }
    assert(last_char(url, '.', at));
    assert(url.skip(at + 1) =~= extension);
    assert forall|other: int| last_char(url, '.', other) implies other == at by {
        assert(url[other] == '.');
        assert(url[at] == '.');
    }
    assert forall|other: int| !last_char(extension, '.', other) by {
        if last_char(extension, '.', other) {
            assert(extension.contains(extension[other]));
        }
    }
}

} // verus!
