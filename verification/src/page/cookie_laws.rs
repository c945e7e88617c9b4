//! What becomes of cookies: each is set as it was given, where it belongs, after what it
//! replaces has been deleted.
use vstd::prelude::*;

use crate::page::call::{call, CookieParamView, ParamView, StepView};
use crate::page::cookies::{
    all_placed, cookie_url_fault, delete_cookies_fault, delete_step, delete_steps,
    deletion_of, deletion_placed, deletions_placed, own_url_fault, placed, set_cookie_fault,
    set_cookie_placed, set_cookies_fault, set_step, set_steps, DeleteCookiesView,
};
use crate::page::laws::{a_parameter_is_added, one_if, param, text_param};
use crate::text::{a_beginning_is_followed, opens_with};

verus! {

// ---------------------------------------------------------------------------
// The commands

/// The step sets these cookies, and does nothing else.
pub open spec fn sets(step: StepView, cookies: Seq<CookieParamView>) -> bool {
    step matches StepView::Send(c) && {
        &&& c.method == "Network.setCookies"@
        &&& param(c, "cookies"@) == Some(ParamView::Cookies(cookies))
        &&& c.params.len() == 1
    }
}

/// The step deletes the cookie of this name, of this URL, this domain and this path where
/// they are given, and does nothing else.
pub open spec fn deletes(
    step: StepView,
    name: Seq<char>,
    url: Option<Seq<char>>,
    domain: Option<Seq<char>>,
    path: Option<Seq<char>>,
) -> bool {
    step matches StepView::Send(c) && {
        &&& c.method == "Network.deleteCookies"@
        &&& param(c, "name"@) == Some(ParamView::Text(name))
        &&& param(c, "url"@) == text_param(url)
        &&& param(c, "domain"@) == text_param(domain)
        &&& param(c, "path"@) == text_param(path)
        &&& c.params.len() == 1 + one_if(url is Some) + one_if(domain is Some) + one_if(
            path is Some,
        )
    }
}

/// Cookies are set by one command that carries all of them.
pub proof fn cookies_are_set_at_once(cookies: Seq<CookieParamView>)
    ensures
        sets(set_step(cookies), cookies),
{
    broadcast use a_parameter_is_added;

}

/// A cookie is deleted by its name and by where it belongs.
pub proof fn a_cookie_is_deleted_by_name_and_place(cookie: DeleteCookiesView)
    ensures
        deletes(delete_step(cookie), cookie.name, cookie.url, cookie.domain, cookie.path),
{
    broadcast use a_parameter_is_added;

    reveal_strlit("name");
    reveal_strlit("url");
    reveal_strlit("domain");
    reveal_strlit("path");
    assert("name"@.len() == 4 && "url"@.len() == 3 && "domain"@.len() == 6);
    assert("path"@.len() == 4 && "path"@[0] == 'p' && "name"@[0] == 'n');
    let none = call("Network.deleteCookies"@);
    assert(forall|name: Seq<char>| #[trigger] param(none, name) is None);
    let named = none.with("name"@, ParamView::Text(cookie.name));
    let with_url = named.with_text("url"@, cookie.url);
    let with_domain = with_url.with_text("domain"@, cookie.domain);
    assert(param(named, "url"@) is None);
    assert(param(named, "domain"@) is None);
    assert(param(named, "path"@) is None);
    assert(param(with_url, "name"@) == Some(ParamView::Text(cookie.name)));
    assert(param(with_url, "domain"@) is None);
    assert(param(with_url, "path"@) is None);
    assert(param(with_domain, "url"@) == text_param(cookie.url));
    assert(param(with_domain, "path"@) is None);
}

// ---------------------------------------------------------------------------
// Setting cookies

/// A cookie is the one that was given, but for its URL.
pub open spec fn same_but_for_url(set: CookieParamView, given: CookieParamView) -> bool {
    &&& set.name == given.name
    &&& set.value == given.value
    &&& set.domain == given.domain
    &&& set.path == given.path
    &&& set.rest == given.rest
}

/// The URL of a cookie, or of a deletion, on a page: its own, or that of the page if it
/// has none and the page is one of HTTP.
pub open spec fn belongs_to(
    url: Option<Seq<char>>,
    own: Option<Seq<char>>,
    page_url: Option<Seq<char>>,
) -> bool {
    match own {
        Some(_) => url == own,
        None => match page_url {
            Some(page) => if opens_with(page, "http"@) {
                url == Some(page)
            } else {
                url is None
            },
            None => url is None,
        },
    }
}

/// A cookie keeps all that it has on its way to the page, and takes the URL of the page
/// only where it has none of its own.
pub proof fn a_cookie_is_placed_and_nothing_else(cookie: CookieParamView, page_url: Seq<char>)
    ensures
        same_but_for_url(placed(cookie, page_url), cookie),
        belongs_to(placed(cookie, page_url).url, cookie.url, Some(page_url)),
{
    a_beginning_is_followed(page_url, "http"@);
}

/// The cookies that are set are those that were given, in their order: each with its own
/// name, value, domain, path and attributes, and where it belongs. Before that each of
/// them is deleted by its name and place.
pub proof fn cookies_are_set_as_they_were_given(
    cookies: Seq<CookieParamView>,
    page_url: Seq<char>,
)
    ensures
        ({
            let steps = set_steps(all_placed(cookies, page_url));
            &&& steps.len() == cookies.len() + 1
            &&& exists|list: Seq<CookieParamView>|
                {
                    &&& #[trigger] sets(steps.last(), list)
                    &&& list.len() == cookies.len()
                    &&& forall|i: int|
                        0 <= i < cookies.len() ==> {
                            &&& same_but_for_url(#[trigger] list[i], cookies[i])
                            &&& belongs_to(list[i].url, cookies[i].url, Some(page_url))
                            &&& deletes(
                                steps[i],
                                cookies[i].name,
                                list[i].url,
                                cookies[i].domain,
                                cookies[i].path,
                            )
                        }
                }
        }),
{
    let list = all_placed(cookies, page_url);
    let steps = set_steps(list);
    cookies_are_set_at_once(list);
    assert forall|i: int| 0 <= i < cookies.len() implies {
        &&& same_but_for_url(#[trigger] list[i], cookies[i])
        &&& belongs_to(list[i].url, cookies[i].url, Some(page_url))
        &&& deletes(
            steps[i],
            cookies[i].name,
            list[i].url,
            cookies[i].domain,
            cookies[i].path,
        )
    } by {
        a_cookie_is_placed_and_nothing_else(cookies[i], page_url);
        a_cookie_is_deleted_by_name_and_place(deletion_of(list[i]));
        assert(steps[i] == delete_step(deletion_of(list[i])));
    }
    assert(sets(steps.last(), list));
}

/// One cookie is set as several are: as it was given, where it belongs, after its
/// deletion.
pub proof fn one_cookie_is_set_as_it_was_given(
    cookie: CookieParamView,
    page_url: Option<Seq<char>>,
)
    ensures
        ({
            let set = set_cookie_placed(cookie, page_url);
            &&& same_but_for_url(set, cookie)
            &&& belongs_to(set.url, cookie.url, page_url)
            &&& sets(set_step(seq![set]), seq![set])
            &&& deletes(
                delete_step(deletion_of(set)),
                cookie.name,
                set.url,
                cookie.domain,
                cookie.path,
            )
        }),
{
    match page_url {
        Some(url) => a_cookie_is_placed_and_nothing_else(cookie, url),
        None => {},
    }
    let set = set_cookie_placed(cookie, page_url);
    cookies_are_set_at_once(seq![set]);
    a_cookie_is_deleted_by_name_and_place(deletion_of(set));
}

/// Data URLs and the blank page can have no cookie, each with its own message; every
/// other URL can.
pub proof fn which_urls_have_cookies(url: Seq<char>)
    ensures
        opens_with(url, "data:"@) ==> cookie_url_fault(url) == Some(
            "Data URL page can not have cookie"@,
        ),
        url == "about:blank"@ ==> cookie_url_fault(url) == Some(
            "Blank page can not have cookie"@,
        ),
        !opens_with(url, "data:"@) && url != "about:blank"@ ==> cookie_url_fault(url) is None,
{
    a_beginning_is_followed(url, "data:"@);
    reveal_strlit("data:");
    reveal_strlit("about:blank");
    if url == "about:blank"@ && crate::text::begins_with(url, "data:"@) {
        assert(url.subrange(0, 5)[0] == "data:"@[0]);
    }
}

/// The URL can have cookies.
pub open spec fn can_have_cookies(url: Seq<char>) -> bool {
    !opens_with(url, "data:"@) && url != "about:blank"@
}

/// A cookie can be set exactly if its URL can have cookies: its own, or that of the page
/// where it has none. Where neither is known it can not.
pub proof fn when_a_cookie_can_be_set(cookie: CookieParamView, page_url: Option<Seq<char>>)
    ensures
        set_cookie_fault(cookie, page_url) is None <==> match (cookie.url, page_url) {
            (Some(own), _) => can_have_cookies(own),
            (None, Some(page)) => can_have_cookies(page),
            (None, None) => false,
        },
        cookie.url is None && page_url is None ==> set_cookie_fault(cookie, page_url) == Some(
            "Page url not found"@,
        ),
        cookie.url matches Some(own) ==> set_cookie_fault(cookie, page_url) == cookie_url_fault(own),
        cookie.url is None && page_url is Some ==> set_cookie_fault(cookie, page_url)
            == cookie_url_fault(page_url->0),
{
    match cookie.url {
        Some(own) => which_urls_have_cookies(own),
        None => {},
    }
    match page_url {
        Some(page) => which_urls_have_cookies(page),
        None => {},
    }
}

proof fn lemma_own_urls(cookies: Seq<CookieParamView>)
    ensures
        own_url_fault(cookies) is None <==> forall|i: int|
            0 <= i < cookies.len() && (#[trigger] cookies[i]).url is Some ==> can_have_cookies(
                cookies[i].url->0,
            ),
    decreases cookies.len(),
{
    if cookies.len() > 0 {
        let rest = cookies.drop_last();
        lemma_own_urls(rest);
        if cookies.last().url is Some {
            which_urls_have_cookies(cookies.last().url->0);
        }
        if own_url_fault(cookies) is None {
            assert forall|i: int|
                0 <= i < cookies.len() && (#[trigger] cookies[i]).url is Some implies
                can_have_cookies(cookies[i].url->0) by {
                if i < rest.len() {
                    assert(rest[i] == cookies[i]);
                }
            }
        }
        if forall|i: int|
            0 <= i < cookies.len() && (#[trigger] cookies[i]).url is Some ==> can_have_cookies(
                cookies[i].url->0,
            ) {
            assert forall|i: int|
                0 <= i < rest.len() && (#[trigger] rest[i]).url is Some implies can_have_cookies(
                rest[i].url->0,
            ) by {
                assert(rest[i] == cookies[i]);
            }
            assert(cookies[cookies.len() - 1] == cookies.last());
        }
    }
}

/// Cookies can be set exactly if the URL of the page is known, is one of HTTP or can have
/// cookies, and every cookie with a URL of its own has one that can have cookies.
pub proof fn when_cookies_can_be_set(cookies: Seq<CookieParamView>, page_url: Option<Seq<char>>)
    ensures
        set_cookies_fault(cookies, page_url) is None <==> {
            &&& page_url matches Some(page) && (opens_with(page, "http"@) || can_have_cookies(
                page,
            ))
            &&& forall|i: int|
                0 <= i < cookies.len() && (#[trigger] cookies[i]).url is Some ==> can_have_cookies(
                    cookies[i].url->0,
                )
        },
        page_url is None ==> set_cookies_fault(cookies, page_url) == Some("Page url not found"@),
{
    lemma_own_urls(cookies);
    match page_url {
        Some(page) => {
            which_urls_have_cookies(page);
            a_beginning_is_followed(page, "http"@);
        },
        None => {},
    }
}

/// Of several cookies that can not be set, the message is that of the first.
pub proof fn the_first_fault_is_told(cookies: Seq<CookieParamView>, page_url: Seq<char>, i: int)
    requires
        opens_with(page_url, "http"@),
        0 <= i < cookies.len(),
        cookies[i].url matches Some(own) && !can_have_cookies(own),
        forall|j: int|
            0 <= j < i && (#[trigger] cookies[j]).url is Some ==> can_have_cookies(
                cookies[j].url->0,
            ),
    ensures
        set_cookies_fault(cookies, Some(page_url)) == cookie_url_fault(cookies[i].url->0),
        set_cookies_fault(cookies, Some(page_url)) is Some,
{
    a_beginning_is_followed(page_url, "http"@);
    which_urls_have_cookies(cookies[i].url->0);
    lemma_first_own_fault(cookies, i);
}

proof fn lemma_first_own_fault(cookies: Seq<CookieParamView>, i: int)
    requires
        0 <= i < cookies.len(),
        cookies[i].url matches Some(own) && !can_have_cookies(own),
        forall|j: int|
            0 <= j < i && (#[trigger] cookies[j]).url is Some ==> can_have_cookies(
                cookies[j].url->0,
            ),
    ensures
        own_url_fault(cookies) == cookie_url_fault(cookies[i].url->0),
        own_url_fault(cookies) is Some,
    decreases cookies.len(),
{
    let rest = cookies.drop_last();
    which_urls_have_cookies(cookies[i].url->0);
    if i == cookies.len() - 1 {
        lemma_own_urls(rest);
        assert forall|j: int|
            0 <= j < rest.len() && (#[trigger] rest[j]).url is Some implies can_have_cookies(
            rest[j].url->0,
        ) by {
            assert(rest[j] == cookies[j]);
        }
    } else {
        assert forall|j: int| 0 <= j < i && (#[trigger] rest[j]).url is Some implies can_have_cookies(
            rest[j].url->0,
        ) by {
            assert(rest[j] == cookies[j]);
        }
        lemma_first_own_fault(rest, i);
    }
}

// ---------------------------------------------------------------------------
// Deleting cookies

/// What deletes a cookie has its name and its place.
pub proof fn a_deletion_has_the_name_and_place_of_the_cookie(cookie: CookieParamView)
    ensures
        deletion_of(cookie).name == cookie.name,
        deletion_of(cookie).url == cookie.url,
        deletion_of(cookie).domain == cookie.domain,
        deletion_of(cookie).path == cookie.path,
{
}

/// Cookies are deleted one by one in their order, each by the name, the domain and the
/// path that were given, where it belongs.
pub proof fn cookies_are_deleted_as_they_were_given(
    cookies: Seq<DeleteCookiesView>,
    page_url: Option<Seq<char>>,
    i: int,
)
    requires
        0 <= i < cookies.len(),
    ensures
        ({
            let steps = delete_steps(deletions_placed(cookies, page_url));
            let url = deletions_placed(cookies, page_url)[i].url;
            &&& steps.len() == cookies.len()
            &&& belongs_to(url, cookies[i].url, page_url)
            &&& deletes(steps[i], cookies[i].name, url, cookies[i].domain, cookies[i].path)
        }),
{
    a_cookie_is_deleted_by_name_and_place(deletions_placed(cookies, page_url)[i]);
    match page_url {
        Some(page) => a_beginning_is_followed(page, "http"@),
        None => {},
    }
}

/// A deletion takes the URL of the page only where it has none, and keeps all else.
pub proof fn a_deletion_is_placed_and_nothing_else(cookie: DeleteCookiesView, page_url: Seq<char>)
    ensures
        ({
            let set = deletion_placed(cookie, page_url);
            &&& set.name == cookie.name
            &&& set.domain == cookie.domain
            &&& set.path == cookie.path
            &&& belongs_to(set.url, cookie.url, Some(page_url))
        }),
{
    a_beginning_is_followed(page_url, "http"@);
}

/// Cookies can be deleted unless one of them has no URL and that of the page is not
/// known.
pub proof fn when_cookies_can_be_deleted(
    cookies: Seq<DeleteCookiesView>,
    page_url: Option<Seq<char>>,
)
    ensures
        page_url is Some ==> delete_cookies_fault(cookies, page_url) is None,
        (forall|i: int| 0 <= i < cookies.len() ==> (#[trigger] cookies[i]).url is Some)
            ==> delete_cookies_fault(cookies, page_url) is None,
        page_url is None && (exists|i: int|
            0 <= i < cookies.len() && (#[trigger] cookies[i]).url is None)
            ==> delete_cookies_fault(cookies, page_url) == Some("Page url not found"@),
{
}

} // verus!
