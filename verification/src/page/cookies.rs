//! The cookies of a page.
use vstd::prelude::*;

use crate::error::{CdpError, CdpErrorView};
use crate::page::call::{
    and_then, call, cookie_views, no_steps, step_views, Call, CookieParam, CookieParamView, Page,
    Param, ParamView, Step, StepView,
};
use crate::protocol::{copy_opt, opt_text};
use crate::text::{begins_with, same_text, starts_with};

verus! {

/// Why a URL can have no cookie.
pub open spec fn cookie_url_fault(url: Seq<char>) -> Option<Seq<char>> {
    if begins_with(url, "data:"@) {
        Some("Data URL page can not have cookie"@)
    } else if url == "about:blank"@ {
        Some("Blank page can not have cookie"@)
    } else {
        None
    }
}

/// The result is an error with this message.
pub open spec fn fails_with<T>(result: Result<T, CdpError>, message: Seq<char>) -> bool {
    result matches Err(error) && error@ == CdpErrorView::Msg(message)
}

/// Can the URL have cookies? Data URLs and the blank page can not.
pub fn validate_cookie_url(url: &str) -> (valid: Result<(), CdpError>)
    ensures
        match cookie_url_fault(url@) {
            Some(message) => fails_with(valid, message),
            None => valid is Ok,
        },
{
    if starts_with(url, "data:") {
        Err(CdpError::msg("Data URL page can not have cookie"))
    } else if same_text(url, "about:blank") {
        Err(CdpError::msg("Blank page can not have cookie"))
    } else {
        Ok(())
    }
}

/// A cookie that is to be deleted.
#[derive(Debug)]
pub struct DeleteCookiesParams {
    /// The name.
    pub name: String,
    /// The URL that it is for.
    pub url: Option<String>,
    /// The domain.
    pub domain: Option<String>,
    /// The path.
    pub path: Option<String>,
}

/// The view of [`DeleteCookiesParams`].
pub struct DeleteCookiesView {
    pub name: Seq<char>,
    pub url: Option<Seq<char>>,
    pub domain: Option<Seq<char>>,
    pub path: Option<Seq<char>>,
}

impl View for DeleteCookiesParams {
    type V = DeleteCookiesView;

    open spec fn view(&self) -> DeleteCookiesView {
        DeleteCookiesView {
            name: self.name@,
            url: opt_text(self.url),
            domain: opt_text(self.domain),
            path: opt_text(self.path),
        }
    }
}

/// The views of a list of cookies.
pub open spec fn delete_views(cookies: Seq<DeleteCookiesParams>) -> Seq<DeleteCookiesView> {
    cookies.map_values(|c: DeleteCookiesParams| c@)
}

/// What deletes a cookie.
pub open spec fn deletion_of(cookie: CookieParamView) -> DeleteCookiesView {
    DeleteCookiesView {
        name: cookie.name,
        url: cookie.url,
        domain: cookie.domain,
        path: cookie.path,
    }
}

impl DeleteCookiesParams {
    /// What deletes a cookie.
    pub fn from_cookie(cookie: &CookieParam) -> (deletion: DeleteCookiesParams)
        ensures
            deletion@ == deletion_of(cookie@),
    {
        DeleteCookiesParams {
            name: cookie.name.clone(),
            url: copy_opt(&cookie.url),
            domain: copy_opt(&cookie.domain),
            path: copy_opt(&cookie.path),
        }
    }
}

/// The step that deletes a cookie.
pub open spec fn delete_step(cookie: DeleteCookiesView) -> StepView {
    StepView::Send(
        call("Network.deleteCookies"@).with("name"@, ParamView::Text(cookie.name)).with_text(
            "url"@,
            cookie.url,
        ).with_text("domain"@, cookie.domain).with_text("path"@, cookie.path),
    )
}

/// The step that sets cookies.
pub open spec fn set_step(cookies: Seq<CookieParamView>) -> StepView {
    StepView::Send(call("Network.setCookies"@).with("cookies"@, ParamView::Cookies(cookies)))
}

fn delete_cookie_step(cookie: DeleteCookiesParams) -> (step: Step)
    ensures
        step@ == delete_step(cookie@),
{
    Step::Send(
        Call::new("Network.deleteCookies").with("name", Param::Text(cookie.name)).with_text(
            "url",
            cookie.url,
        ).with_text("domain", cookie.domain).with_text("path", cookie.path),
    )
}

fn set_cookies_step(cookies: Vec<CookieParam>) -> (step: Step)
    ensures
        step@ == set_step(cookie_views(cookies@)),
{
    Step::Send(Call::new("Network.setCookies").with("cookies", Param::Cookies(cookies)))
}

/// A URL of HTTP.
pub open spec fn is_http(url: Seq<char>) -> bool {
    begins_with(url, "http"@)
}

/// A cookie without a URL takes that of the page, if it is one of HTTP.
pub open spec fn placed(cookie: CookieParamView, page_url: Seq<char>) -> CookieParamView {
    CookieParamView {
        url: if cookie.url is None && is_http(page_url) {
            Some(page_url)
        } else {
            cookie.url
        },
        ..cookie
    }
}

/// A deletion without a URL takes that of the page, if it is one of HTTP.
pub open spec fn deletion_placed(cookie: DeleteCookiesView, page_url: Seq<char>) -> DeleteCookiesView {
    DeleteCookiesView {
        url: if cookie.url is None && is_http(page_url) {
            Some(page_url)
        } else {
            cookie.url
        },
        ..cookie
    }
}

/// The message when the URL of the page is not known.
pub open spec fn no_page_url() -> Seq<char> {
    "Page url not found"@
}

/// Why a cookie can not be set on a page.
pub open spec fn set_cookie_fault(cookie: CookieParamView, page_url: Option<Seq<char>>) -> Option<
    Seq<char>,
> {
    match cookie.url {
        Some(url) => cookie_url_fault(url),
        None => match page_url {
            Some(url) => cookie_url_fault(url),
            None => Some(no_page_url()),
        },
    }
}

/// The cookie that is set.
pub open spec fn set_cookie_placed(cookie: CookieParamView, page_url: Option<Seq<char>>) -> CookieParamView {
    match page_url {
        Some(url) => placed(cookie, url),
        None => cookie,
    }
}

/// The message of the first cookie of a list whose own URL can have none.
pub open spec fn own_url_fault(cookies: Seq<CookieParamView>) -> Option<Seq<char>>
    decreases cookies.len(),
{
    if cookies.len() == 0 {
        None
    } else if own_url_fault(cookies.drop_last()) is Some {
        own_url_fault(cookies.drop_last())
    } else {
        match cookies.last().url {
            Some(url) => cookie_url_fault(url),
            None => None,
        }
    }
}

/// Why cookies can not be set on a page: its URL is not known, or is not one of
/// HTTP and can have none, or the URL of a cookie can have none.
pub open spec fn set_cookies_fault(cookies: Seq<CookieParamView>, page_url: Option<Seq<char>>) -> Option<
    Seq<char>,
> {
    match page_url {
        Some(url) => if !is_http(url) && cookie_url_fault(url) is Some {
            cookie_url_fault(url)
        } else {
            own_url_fault(cookies)
        },
        None => Some(no_page_url()),
    }
}

/// All cookies, each with its URL.
pub open spec fn all_placed(cookies: Seq<CookieParamView>, page_url: Seq<char>) -> Seq<
    CookieParamView,
> {
    cookies.map_values(|c: CookieParamView| placed(c, page_url))
}

/// The steps that delete cookies.
pub open spec fn delete_steps(cookies: Seq<DeleteCookiesView>) -> Seq<StepView> {
    cookies.map_values(|c: DeleteCookiesView| delete_step(c))
}

/// The steps that set cookies: each is deleted first.
pub open spec fn set_steps(cookies: Seq<CookieParamView>) -> Seq<StepView> {
    delete_steps(cookies.map_values(|c: CookieParamView| deletion_of(c))).push(set_step(cookies))
}

/// Why cookies can not be deleted on a page: one of them has no URL, and that of
/// the page is not known.
pub open spec fn delete_cookies_fault(
    cookies: Seq<DeleteCookiesView>,
    page_url: Option<Seq<char>>,
) -> Option<Seq<char>> {
    if page_url is None && exists|i: int| 0 <= i < cookies.len() && (#[trigger] cookies[i]).url
        is None {
        Some(no_page_url())
    } else {
        None
    }
}

/// All deletions, each with its URL.
pub open spec fn deletions_placed(
    cookies: Seq<DeleteCookiesView>,
    page_url: Option<Seq<char>>,
) -> Seq<DeleteCookiesView> {
    match page_url {
        Some(url) => cookies.map_values(|c: DeleteCookiesView| deletion_placed(c, url)),
        None => cookies,
    }
}

impl Page {
    /// Sets a cookie, after deleting what it replaces. `page_url` is the URL of the
    /// page, which is needed if the cookie has none.
    pub fn set_cookie(&self, cookie: CookieParam, page_url: Option<String>) -> (steps: Result<
        Vec<Step>,
        CdpError,
    >)
        ensures
            match set_cookie_fault(cookie@, opt_text(page_url)) {
                Some(message) => fails_with(steps, message),
                None => steps matches Ok(s) && step_views(s@) == seq![
                    delete_step(deletion_of(set_cookie_placed(cookie@, opt_text(page_url)))),
                    set_step(seq![set_cookie_placed(cookie@, opt_text(page_url))]),
                ],
            },
    {
        let mut cookie = cookie;
        let ghost given = cookie@;
        match &cookie.url {
            Some(url) => match validate_cookie_url(url.as_str()) {
                Ok(_) => {},
                Err(error) => {
                    return Err(error);
                },
            },
            None => match &page_url {
                Some(url) => {
                    match validate_cookie_url(url.as_str()) {
                        Ok(_) => {},
                        Err(error) => {
                            return Err(error);
                        },
                    }
                    if starts_with(url.as_str(), "http") {
                        cookie.url = Some(url.clone());
                    }
                },
                None => {
                    return Err(CdpError::msg("Page url not found"));
                },
            },
        }
        let deletion = delete_cookie_step(DeleteCookiesParams::from_cookie(&cookie));
        let mut cookies: Vec<CookieParam> = Vec::new();
        cookies.push(cookie);
        proof {
            assert(cookie_views(cookies@) =~= seq![cookie@]);
        }
        let steps = and_then(and_then(no_steps(), deletion), set_cookies_step(cookies));
        proof {
            assert(step_views(steps@) =~= seq![
                delete_step(deletion_of(cookie@)),
                set_step(seq![cookie@]),
            ]);
        }
        Ok(steps)
    }

    /// Sets cookies, after deleting what they replace. `page_url` is the URL of the
    /// page.
    pub fn set_cookies(&self, cookies: Vec<CookieParam>, page_url: Option<String>) -> (steps:
        Result<Vec<Step>, CdpError>)
        ensures
            match set_cookies_fault(cookie_views(cookies@), opt_text(page_url)) {
                Some(message) => fails_with(steps, message),
                None => steps matches Ok(s) && step_views(s@) == set_steps(
                    all_placed(cookie_views(cookies@), opt_text(page_url)->0),
                ),
            },
    {
        let url = match page_url {
            Some(url) => url,
            None => {
                return Err(CdpError::msg("Page url not found"));
            },
        };
        let is_http = starts_with(url.as_str(), "http");
        if !is_http {
            match validate_cookie_url(url.as_str()) {
                Ok(_) => {},
                Err(error) => {
                    return Err(error);
                },
            }
        }
        let mut placed_cookies = cookies;
        let ghost given = cookie_views(cookies@);
        let ghost wanted = all_placed(given, url@);
        let mut steps = no_steps();
        let mut i: usize = 0;
        proof {
            assert(given.take(0).len() == 0);
            assert(step_views(steps@) =~= delete_steps(
                wanted.take(0).map_values(|c: CookieParamView| deletion_of(c)),
            ));
        }
        while i < placed_cookies.len()
            invariant
                i <= placed_cookies.len() == cookies.len(),
                given == cookie_views(cookies@),
                wanted == all_placed(given, url@),
                is_http == crate::page::cookies::is_http(url@),
                !is_http ==> cookie_url_fault(url@) is None,
                own_url_fault(given.take(i as int)) is None,
                opt_text(page_url) == Some(url@),
                forall|j: int| 0 <= j < i ==> (#[trigger] placed_cookies@[j])@ == wanted[j],
                forall|j: int|
                    i <= j < cookies.len() ==> #[trigger] placed_cookies@[j] == cookies@[j],
                step_views(steps@) == delete_steps(
                    wanted.take(i as int).map_values(|c: CookieParamView| deletion_of(c)),
                ),
            decreases placed_cookies.len() - i,
        {
            proof {
                assert(given.take(i + 1).drop_last() =~= given.take(i as int));
                assert(given.take(i + 1).last() == cookies@[i as int]@);
                assert(placed_cookies@[i as int] == cookies@[i as int]);
            }
            match &placed_cookies[i].url {
                Some(own) => match validate_cookie_url(own.as_str()) {
                    Ok(_) => {},
                    Err(error) => {
                        proof {
                            lemma_first_fault(given, i + 1);
                        }
                        return Err(error);
                    },
                },
                None => if is_http {
                    placed_cookies[i].url = Some(url.clone());
                },
            }
            let ghost before = step_views(steps@);
            steps = and_then(
                steps,
                delete_cookie_step(DeleteCookiesParams::from_cookie(&placed_cookies[i])),
            );
            proof {
                assert(placed_cookies@[i as int]@ == wanted[i as int]);
                assert(delete_steps(
                    wanted.take(i + 1).map_values(|c: CookieParamView| deletion_of(c)),
                ) =~= before.push(delete_step(deletion_of(wanted[i as int]))));
            }
            i = i + 1;
        }
        proof {
            assert(given.take(i as int) =~= given);
            assert(wanted.take(i as int) =~= wanted);
            assert(cookie_views(placed_cookies@) =~= wanted);
        }
        Ok(and_then(steps, set_cookies_step(placed_cookies)))
    }

    /// Deletes a cookie. `page_url` is the URL of the page, which is needed if the
    /// cookie has none.
    pub fn delete_cookie(&self, cookie: DeleteCookiesParams, page_url: Option<String>) -> (steps:
        Result<Vec<Step>, CdpError>)
        ensures
            if cookie.url is None && page_url is None {
                fails_with(steps, no_page_url())
            } else {
                steps matches Ok(s) && step_views(s@) == seq![
                    delete_step(
                        match opt_text(page_url) {
                            Some(url) => deletion_placed(cookie@, url),
                            None => cookie@,
                        },
                    ),
                ]
            },
    {
        let mut cookie = cookie;
        if cookie.url.is_none() {
            match &page_url {
                Some(url) => {
                    if starts_with(url.as_str(), "http") {
                        cookie.url = Some(url.clone());
                    }
                },
                None => {
                    return Err(CdpError::msg("Page url not found"));
                },
            }
        }
        let steps = and_then(no_steps(), delete_cookie_step(cookie));
        proof {
            assert(step_views(steps@) =~= seq![delete_step(cookie@)]);
        }
        Ok(steps)
    }

    /// Deletes cookies. `page_url` is the URL of the page, which is needed if one of
    /// the cookies has none.
    pub fn delete_cookies(&self, cookies: Vec<DeleteCookiesParams>, page_url: Option<String>) -> (steps:
        Result<Vec<Step>, CdpError>)
        ensures
            match delete_cookies_fault(delete_views(cookies@), opt_text(page_url)) {
                Some(message) => fails_with(steps, message),
                None => steps matches Ok(s) && step_views(s@) == delete_steps(
                    deletions_placed(delete_views(cookies@), opt_text(page_url)),
                ),
            },
    {
        let ghost given = delete_views(cookies@);
        let ghost wanted = deletions_placed(given, opt_text(page_url));
        let is_http = match &page_url {
            Some(url) => starts_with(url.as_str(), "http"),
            None => false,
        };
        let mut steps = no_steps();
        let mut i: usize = 0;
        proof {
            assert(step_views(steps@) =~= delete_steps(wanted.take(0)));
        }
        while i < cookies.len()
            invariant
                i <= cookies.len(),
                given == delete_views(cookies@),
                wanted == deletions_placed(given, opt_text(page_url)),
                page_url matches Some(url) ==> is_http == crate::page::cookies::is_http(url@),
                page_url is None ==> forall|j: int|
                    0 <= j < i ==> (#[trigger] given[j]).url is Some,
                step_views(steps@) == delete_steps(wanted.take(i as int)),
            decreases cookies.len() - i,
        {
            let cookie = &cookies[i];
            proof {
                assert(given[i as int] == cookie@);
            }
            let url = match &cookie.url {
                Some(own) => Some(own.clone()),
                None => match &page_url {
                    Some(url) => if is_http {
                        Some(url.clone())
                    } else {
                        None
                    },
                    None => {
                        return Err(CdpError::msg("Page url not found"));
                    },
                },
            };
            let deletion = DeleteCookiesParams {
                name: cookie.name.clone(),
                url,
                domain: copy_opt(&cookie.domain),
                path: copy_opt(&cookie.path),
            };
            let ghost before = step_views(steps@);
            proof {
                assert(deletion@ == wanted[i as int]);
            }
            steps = and_then(steps, delete_cookie_step(deletion));
            proof {
                assert(delete_steps(wanted.take(i + 1)) =~= before.push(
                    delete_step(wanted[i as int]),
                ));
            }
            i = i + 1;
        }
        proof {
            assert(wanted.take(i as int) =~= wanted);
        }
        Ok(steps)
    }

    /// Gets the cookies of the page's URL.
    pub fn get_cookies(&self) -> (c: Call)
        ensures
            c@ == call("Network.getCookies"@),
    {
        Call::new("Network.getCookies")
    }

    /// Deletes all cookies of the browser.
    pub fn clear_cookies(&self) -> (step: Step)
        ensures
            step@ == StepView::Execute(call("Storage.clearCookies"@)),
    {
        Step::Execute(Call::new("Storage.clearCookies"))
    }
}

/// The first fault of a beginning is that of the list.
proof fn lemma_first_fault(cookies: Seq<CookieParamView>, n: int)
    requires
        0 <= n <= cookies.len(),
        own_url_fault(cookies.take(n)) is Some,
    ensures
        own_url_fault(cookies) == own_url_fault(cookies.take(n)),
    decreases cookies.len() - n,
{
    if n < cookies.len() {
        assert(cookies.take(n + 1).drop_last() =~= cookies.take(n));
        lemma_first_fault(cookies, n + 1);
    } else {
        assert(cookies.take(n) =~= cookies);
    }
}

proof fn lemma_no_fault(cookies: Seq<CookieParamView>, i: int)
    requires
        own_url_fault(cookies) is None,
        0 <= i < cookies.len(),
    ensures
        cookies[i].url matches Some(url) ==> cookie_url_fault(url) is None,
    decreases cookies.len(),
{
    if i < cookies.len() - 1 {
        lemma_no_fault(cookies.drop_last(), i);
        assert(cookies.drop_last()[i] == cookies[i]);
    }
}

/// No cookie is set for a URL that can have none: neither the blank page nor a
/// data URL.
pub proof fn cookies_are_set_where_they_can_be(
    cookies: Seq<CookieParamView>,
    page_url: Seq<char>,
    i: int,
)
    requires
        set_cookies_fault(cookies, Some(page_url)) is None,
        0 <= i < cookies.len(),
    ensures
        all_placed(cookies, page_url)[i].url matches Some(url) ==> cookie_url_fault(url) is None,
{
    lemma_no_fault(cookies, i);
    lemma_http_has_cookies(page_url);
}

proof fn lemma_http_has_cookies(url: Seq<char>)
    ensures
        is_http(url) ==> cookie_url_fault(url) is None,
{
    reveal_strlit("http");
    reveal_strlit("data:");
    reveal_strlit("about:blank");
    if is_http(url) {
        assert(url.subrange(0, 4)[0] == 'h');
        if begins_with(url, "data:"@) {
            assert(url.subrange(0, 5)[0] == 'd');
        }
    }
}

} // verus!
