//! The values that the browser and the network layer exchange.
//!
//! Each type has a view in which strings are sequences of characters. A field
//! called `raw` carries an event through as the browser sent it.
use vstd::prelude::*;

use crate::text::same_text;

verus! {

/// The text of an optional string.
pub open spec fn opt_text(text: Option<String>) -> Option<Seq<char>> {
    match text {
        Some(t) => Some(t@),
        None => None,
    }
}

/// A second copy of an optional string.
pub fn copy_opt(text: &Option<String>) -> (copy: Option<String>)
    ensures
        opt_text(copy) == opt_text(*text),
{
    match text {
        Some(t) => Some(t.clone()),
        None => None,
    }
}

/// What kind of resource a request asks for.
#[derive(Debug, Clone, Copy, PartialEq, Eq, Structural)]
pub enum ResourceType {
    Document,
    Stylesheet,
    Image,
    Media,
    Font,
    Script,
    TextTrack,
    Xhr,
    Fetch,
    Prefetch,
    EventSource,
    WebSocket,
    Manifest,
    SignedExchange,
    Ping,
    CspViolationReport,
    Preflight,
    FedCm,
    Other,
}

/// The value of a header: text, or another value in its JSON form.
#[derive(Debug)]
pub enum HeaderValue {
    Text(String),
    Json(String),
}

/// The view of a [`HeaderValue`].
pub enum HeaderValueView {
    Text(Seq<char>),
    Json(Seq<char>),
}

impl View for HeaderValue {
    type V = HeaderValueView;

    open spec fn view(&self) -> HeaderValueView {
        match self {
            HeaderValue::Text(t) => HeaderValueView::Text(t@),
            HeaderValue::Json(t) => HeaderValueView::Json(t@),
        }
    }
}

impl Clone for HeaderValue {
    fn clone(&self) -> (copy: Self)
        ensures
            copy@ == self@,
    {
        match self {
            HeaderValue::Text(t) => HeaderValue::Text(t.clone()),
            HeaderValue::Json(t) => HeaderValue::Json(t.clone()),
        }
    }
}

/// The headers of a request or a response, by name. The case of a name counts.
#[derive(Debug)]
pub struct Headers {
    entries: Vec<(String, HeaderValue)>,
}

/// The map that a list of entries makes: of two entries of one name the later
/// one counts.
pub open spec fn entries_map(entries: Seq<(String, HeaderValue)>) -> Map<Seq<char>, HeaderValueView>
    decreases entries.len(),
{
    if entries.len() == 0 {
        Map::empty()
    } else {
        entries_map(entries.drop_last()).insert(entries.last().0@, entries.last().1@)
    }
}

impl View for Headers {
    type V = Map<Seq<char>, HeaderValueView>;

    closed spec fn view(&self) -> Map<Seq<char>, HeaderValueView> {
        entries_map(self.entries@)
    }
}

/// The text of the header `name`, if there is one and it is text.
pub open spec fn header_text(headers: Map<Seq<char>, HeaderValueView>, name: Seq<char>) -> Option<
    Seq<char>,
> {
    if headers.dom().contains(name) {
        match headers[name] {
            HeaderValueView::Text(t) => Some(t),
            HeaderValueView::Json(t) => None,
        }
    } else {
        None
    }
}

/// A map is finite if it comes from a list, and empty only if the list is.
proof fn lemma_entries_map(entries: Seq<(String, HeaderValue)>)
    ensures
        entries_map(entries).dom().finite(),
        entries_map(entries).dom().len() == 0 <==> entries.len() == 0,
        entries.len() == 0 <==> entries_map(entries) =~= Map::empty(),
    decreases entries.len(),
{
    if entries.len() > 0 {
        lemma_entries_map(entries.drop_last());
        assert(entries_map(entries).dom().contains(entries.last().0@));
    }
}

impl Headers {
    /// No headers.
    pub fn new() -> (headers: Headers)
        ensures
            headers@ == Map::<Seq<char>, HeaderValueView>::empty(),
    {
        Headers { entries: Vec::new() }
    }

    /// Are there no headers?
    pub fn is_empty(&self) -> (empty: bool)
        ensures
            empty == (self@ == Map::<Seq<char>, HeaderValueView>::empty()),
    {
        proof {
            lemma_entries_map(self.entries@);
        }
        self.entries.len() == 0
    }

    /// The value of a header.
    pub fn get(&self, name: &str) -> (value: Option<&HeaderValue>)
        ensures
            value is Some <==> self@.dom().contains(name@),
            value matches Some(v) ==> v@ == self@[name@],
    {
        let mut left: usize = self.entries.len();
        proof {
            assert(self.entries@.take(left as int) =~= self.entries@);
        }
        while left > 0
            invariant
                left <= self.entries.len(),
                self@.dom().contains(name@) <==> entries_map(
                    self.entries@.take(left as int),
                ).dom().contains(name@),
                self@.dom().contains(name@) ==> entries_map(
                    self.entries@.take(left as int),
                )[name@] == self@[name@],
            decreases left,
        {
            left = left - 1;
            proof {
                let longer = self.entries@.take(left + 1);
                assert(longer.drop_last() =~= self.entries@.take(left as int));
                assert(longer.last() == self.entries@[left as int]);
            }
            if same_text(self.entries[left].0.as_str(), name) {
                return Some(&self.entries[left].1);
            }
        }
        None
    }

    /// The value of a header, if it is text.
    pub fn get_text(&self, name: &str) -> (text: Option<&String>)
        ensures
            text is Some <==> header_text(self@, name@) is Some,
            text matches Some(t) ==> header_text(self@, name@) == Some(t@),
    {
        match self.get(name) {
            Some(HeaderValue::Text(t)) => Some(t),
            _ => None,
        }
    }

    /// Drops a header.
    pub fn remove(&mut self, name: &str)
        ensures
            final(self)@ == old(self)@.remove(name@),
    {
        let mut kept: Vec<(String, HeaderValue)> = Vec::new();
        let mut i: usize = 0;
        proof {
            assert(Map::<Seq<char>, HeaderValueView>::empty().remove(name@) =~= Map::<
                Seq<char>,
                HeaderValueView,
            >::empty());
            assert(self.entries@.take(0).len() == 0);
        }
        while i < self.entries.len()
            invariant
                i <= self.entries.len(),
                *self == *old(self),
                entries_map(kept@) == entries_map(self.entries@.take(i as int)).remove(name@),
            decreases self.entries.len() - i,
        {
            let ghost before = kept@;
            proof {
                let longer = self.entries@.take(i + 1);
                assert(longer.drop_last() =~= self.entries@.take(i as int));
                assert(longer.last() == self.entries@[i as int]);
            }
            if !same_text(self.entries[i].0.as_str(), name) {
                kept.push((self.entries[i].0.clone(), self.entries[i].1.clone()));
                proof {
                    assert(kept@.drop_last() =~= before);
                    assert(entries_map(kept@) =~= entries_map(
                        self.entries@.take(i + 1),
                    ).remove(name@));
                }
            } else {
                proof {
                    assert(entries_map(kept@) =~= entries_map(
                        self.entries@.take(i + 1),
                    ).remove(name@));
                }
            }
            i = i + 1;
        }
        proof {
            assert(self.entries@.take(i as int) =~= self.entries@);
        }
        self.entries = kept;
    }

    /// Sets a header, in place of any earlier value.
    pub fn insert(&mut self, name: String, value: HeaderValue)
        ensures
            final(self)@ == old(self)@.insert(name@, value@),
    {
        self.remove(name.as_str());
        let ghost before = self.entries@;
        self.entries.push((name, value));
        proof {
            assert(self.entries@.drop_last() =~= before);
            assert(self@ =~= old(self)@.insert(name@, value@));
        }
    }

    /// The entries, in no promised order. Of two entries of one name the later one counts.
    pub fn entries(&self) -> (entries: &Vec<(String, HeaderValue)>)
        ensures
            entries_map(entries@) == self@,
    {
        &self.entries
    }
}

impl Clone for Headers {
    fn clone(&self) -> (copy: Self)
        ensures
            copy@ == self@,
    {
        let mut entries: Vec<(String, HeaderValue)> = Vec::new();
        let mut i: usize = 0;
        proof {
            assert(self.entries@.take(0).len() == 0);
        }
        while i < self.entries.len()
            invariant
                i <= self.entries.len(),
                entries_map(entries@) == entries_map(self.entries@.take(i as int)),
            decreases self.entries.len() - i,
        {
            let ghost before = entries@;
            entries.push((self.entries[i].0.clone(), self.entries[i].1.clone()));
            proof {
                let longer = self.entries@.take(i + 1);
                assert(longer.drop_last() =~= self.entries@.take(i as int));
                assert(entries@.drop_last() =~= before);
            }
            i = i + 1;
        }
        proof {
            assert(self.entries@.take(i as int) =~= self.entries@);
        }
        Headers { entries }
    }
}

/// A response, as far as the network layer reads it.
#[derive(Debug)]
pub struct Response {
    /// The URL that answered.
    pub url: String,
    /// The HTTP status.
    pub status: i64,
    /// The headers.
    pub headers: Headers,
    /// How many bytes came over the wire.
    pub encoded_data_length: u64,
}

/// The view of [`Response`].
pub struct ResponseView {
    pub url: Seq<char>,
    pub status: i64,
    pub headers: Map<Seq<char>, HeaderValueView>,
    pub encoded_data_length: u64,
}

impl View for Response {
    type V = ResponseView;

    open spec fn view(&self) -> ResponseView {
        ResponseView {
            url: self.url@,
            status: self.status,
            headers: self.headers@,
            encoded_data_length: self.encoded_data_length,
        }
    }
}

impl Clone for Response {
    fn clone(&self) -> (copy: Self)
        ensures
            copy@ == self@,
    {
        Response {
            url: self.url.clone(),
            status: self.status,
            headers: self.headers.clone(),
            encoded_data_length: self.encoded_data_length,
        }
    }
}

/// The view of an optional response.
pub open spec fn opt_response(response: Option<Response>) -> Option<ResponseView> {
    match response {
        Some(r) => Some(r@),
        None => None,
    }
}

/// A second copy of an optional response.
pub fn copy_opt_response(response: &Option<Response>) -> (copy: Option<Response>)
    ensures
        opt_response(copy) == opt_response(*response),
{
    match response {
        Some(r) => Some(r.clone()),
        None => None,
    }
}

/// A request is about to be sent.
#[derive(Debug)]
pub struct EventRequestWillBeSent {
    /// The request.
    pub request_id: String,
    /// The frame that asked for it.
    pub frame_id: Option<String>,
    /// The URL that is asked for.
    pub url: String,
    /// The response that redirected here, if the request follows a redirect.
    pub redirect_response: Option<Response>,
    /// The event as it came.
    pub raw: String,
}

/// The view of [`EventRequestWillBeSent`].
pub struct EventRequestWillBeSentView {
    pub request_id: Seq<char>,
    pub frame_id: Option<Seq<char>>,
    pub url: Seq<char>,
    pub redirect_response: Option<ResponseView>,
    pub raw: Seq<char>,
}

impl View for EventRequestWillBeSent {
    type V = EventRequestWillBeSentView;

    open spec fn view(&self) -> EventRequestWillBeSentView {
        EventRequestWillBeSentView {
            request_id: self.request_id@,
            frame_id: opt_text(self.frame_id),
            url: self.url@,
            redirect_response: opt_response(self.redirect_response),
            raw: self.raw@,
        }
    }
}

impl Clone for EventRequestWillBeSent {
    fn clone(&self) -> (copy: Self)
        ensures
            copy@ == self@,
    {
        EventRequestWillBeSent {
            request_id: self.request_id.clone(),
            frame_id: copy_opt(&self.frame_id),
            url: self.url.clone(),
            redirect_response: copy_opt_response(&self.redirect_response),
            raw: self.raw.clone(),
        }
    }
}

/// A response has arrived.
#[derive(Debug)]
pub struct EventResponseReceived {
    /// The request that it answers.
    pub request_id: String,
    /// The response.
    pub response: Response,
    /// The event as it came.
    pub raw: String,
}

/// The view of [`EventResponseReceived`].
pub struct EventResponseReceivedView {
    pub request_id: Seq<char>,
    pub response: ResponseView,
    pub raw: Seq<char>,
}

impl View for EventResponseReceived {
    type V = EventResponseReceivedView;

    open spec fn view(&self) -> EventResponseReceivedView {
        EventResponseReceivedView {
            request_id: self.request_id@,
            response: self.response@,
            raw: self.raw@,
        }
    }
}

impl Clone for EventResponseReceived {
    fn clone(&self) -> (copy: Self)
        ensures
            copy@ == self@,
    {
        EventResponseReceived {
            request_id: self.request_id.clone(),
            response: self.response.clone(),
            raw: self.raw.clone(),
        }
    }
}

/// The browser holds a request until it is told how to go on.
#[derive(Debug)]
pub struct EventRequestPaused {
    /// The identifier of the pause, which the answer names.
    pub request_id: String,
    /// The request, by the identifier that the network events use.
    pub network_id: Option<String>,
    /// What kind of resource is asked for.
    pub resource_type: ResourceType,
    /// The URL that is asked for.
    pub url: String,
    /// The HTTP method.
    pub method: String,
    /// Does the request stay on the site of the page?
    pub is_same_site: Option<bool>,
    /// The pause before the redirect that led here.
    pub redirected_request_id: Option<String>,
}

/// The view of [`EventRequestPaused`].
pub struct EventRequestPausedView {
    pub request_id: Seq<char>,
    pub network_id: Option<Seq<char>>,
    pub resource_type: ResourceType,
    pub url: Seq<char>,
    pub method: Seq<char>,
    pub is_same_site: Option<bool>,
    pub redirected_request_id: Option<Seq<char>>,
}

impl View for EventRequestPaused {
    type V = EventRequestPausedView;

    open spec fn view(&self) -> EventRequestPausedView {
        EventRequestPausedView {
            request_id: self.request_id@,
            network_id: opt_text(self.network_id),
            resource_type: self.resource_type,
            url: self.url@,
            method: self.method@,
            is_same_site: self.is_same_site,
            redirected_request_id: opt_text(self.redirected_request_id),
        }
    }
}

impl Clone for EventRequestPaused {
    fn clone(&self) -> (copy: Self)
        ensures
            copy@ == self@,
    {
        EventRequestPaused {
            request_id: self.request_id.clone(),
            network_id: copy_opt(&self.network_id),
            resource_type: self.resource_type,
            url: self.url.clone(),
            method: self.method.clone(),
            is_same_site: self.is_same_site,
            redirected_request_id: copy_opt(&self.redirected_request_id),
        }
    }
}

/// The user name and the password for authentication challenges.
#[derive(Debug)]
pub struct Credentials {
    /// The user name.
    pub username: String,
    /// The password.
    pub password: String,
}

/// The view of [`Credentials`].
pub struct CredentialsView {
    pub username: Seq<char>,
    pub password: Seq<char>,
}

impl View for Credentials {
    type V = CredentialsView;

    open spec fn view(&self) -> CredentialsView {
        CredentialsView {
            username: self.username@,
            password: self.password@,
        }
    }
}

impl Clone for Credentials {
    fn clone(&self) -> (copy: Self)
        ensures
            copy@ == self@,
    {
        Credentials {
            username: self.username.clone(),
            password: self.password.clone(),
        }
    }
}

/// A challenge for credentials has stopped a request.
#[derive(Debug)]
pub struct EventAuthRequired {
    /// The identifier of the pause, which the answer names.
    pub request_id: String,
}

/// A request was answered from the browser's cache.
#[derive(Debug)]
pub struct EventRequestServedFromCache {
    /// The request.
    pub request_id: String,
}

/// All of a response has arrived.
#[derive(Debug)]
pub struct EventLoadingFinished {
    /// The request.
    pub request_id: String,
}

/// A request has failed.
#[derive(Debug)]
pub struct EventLoadingFailed {
    /// The request.
    pub request_id: String,
    /// What went wrong.
    pub error_text: String,
}

/// A request and what has become of it.
#[derive(Debug)]
pub struct HttpRequest {
    /// The request.
    pub request_id: String,
    /// The frame that asked for it.
    pub frame: Option<String>,
    /// The pause that belongs to it.
    pub interception_id: Option<String>,
    /// Did the user ask to intercept requests when this one was sent?
    pub allow_interception: bool,
    /// Was it answered from the browser's cache?
    pub from_memory_cache: bool,
    /// Why it failed.
    pub failure_text: Option<String>,
    /// Its response.
    pub response: Option<Response>,
    /// The requests that were redirected to this one, the first one first.
    pub redirect_chain: Vec<HttpRequest>,
}

/// The view of [`HttpRequest`].
pub struct HttpRequestView {
    pub request_id: Seq<char>,
    pub frame: Option<Seq<char>>,
    pub interception_id: Option<Seq<char>>,
    pub allow_interception: bool,
    pub from_memory_cache: bool,
    pub failure_text: Option<Seq<char>>,
    pub response: Option<ResponseView>,
    pub redirect_chain: Seq<HttpRequestView>,
}

/// What a request is, with its whole redirect chain.
#[verifier::opaque]
pub open spec fn request_view(request: HttpRequest) -> HttpRequestView
    decreases request,
{
    HttpRequestView {
        request_id: request.request_id@,
        frame: opt_text(request.frame),
        interception_id: opt_text(request.interception_id),
        allow_interception: request.allow_interception,
        from_memory_cache: request.from_memory_cache,
        failure_text: opt_text(request.failure_text),
        response: opt_response(request.response),
        redirect_chain: Seq::new(
            request.redirect_chain@.len(),
            |i: int|
                if 0 <= i < request.redirect_chain@.len() {
                    request_view(request.redirect_chain@[i])
                } else {
                    arbitrary()
                },
        ),
    }
}

impl View for HttpRequest {
    type V = HttpRequestView;

    open spec fn view(&self) -> HttpRequestView {
        request_view(*self)
    }
}

/// The views of a list of requests.
pub open spec fn request_views(requests: Seq<HttpRequest>) -> Seq<HttpRequestView> {
    requests.map_values(|r: HttpRequest| r@)
}

impl HttpRequest {
    /// A request that nothing has become of yet.
    pub fn new(
        request_id: String,
        frame: Option<String>,
        interception_id: Option<String>,
        allow_interception: bool,
        redirect_chain: Vec<HttpRequest>,
    ) -> (request: HttpRequest)
        ensures
            request@ == (HttpRequestView {
                request_id: request_id@,
                frame: opt_text(frame),
                interception_id: opt_text(interception_id),
                allow_interception,
                from_memory_cache: false,
                failure_text: None,
                response: None,
                redirect_chain: request_views(redirect_chain@),
            }),
    {
        let request = HttpRequest {
            request_id,
            frame,
            interception_id,
            allow_interception,
            from_memory_cache: false,
            failure_text: None,
            response: None,
            redirect_chain,
        };
        proof {
            reveal(request_view);
            assert(request@.redirect_chain =~= request_views(redirect_chain@));
        }
        request
    }

    /// The pause that belongs to the request.
    pub fn pause(&self) -> (id: &Option<String>)
        ensures
            opt_text(*id) == self@.interception_id,
    {
        proof {
            reveal(request_view);
        }
        &self.interception_id
    }

    /// Why the request failed.
    pub fn failure(&self) -> (text: &Option<String>)
        ensures
            opt_text(*text) == self@.failure_text,
    {
        proof {
            reveal(request_view);
        }
        &self.failure_text
    }

    /// Stores the response.
    pub fn set_response(&mut self, response: Response)
        ensures
            final(self)@ == (HttpRequestView { response: Some(response@), ..old(self)@ }),
    {
        self.response = Some(response);
        proof {
            reveal(request_view);
            assert(self@.redirect_chain =~= old(self)@.redirect_chain);
        }
    }

    /// Stores why the request failed.
    pub fn set_failure_text(&mut self, text: String)
        ensures
            final(self)@ == (HttpRequestView { failure_text: Some(text@), ..old(self)@ }),
    {
        self.failure_text = Some(text);
        proof {
            reveal(request_view);
            assert(self@.redirect_chain =~= old(self)@.redirect_chain);
        }
    }

    /// Notes that the request was answered from the browser's cache.
    pub fn set_from_memory_cache(&mut self)
        ensures
            final(self)@ == (HttpRequestView { from_memory_cache: true, ..old(self)@ }),
    {
        self.from_memory_cache = true;
        proof {
            reveal(request_view);
            assert(self@.redirect_chain =~= old(self)@.redirect_chain);
        }
    }

    /// Takes the redirect chain out of the request.
    pub fn take_redirect_chain(&mut self) -> (chain: Vec<HttpRequest>)
        ensures
            request_views(chain@) == old(self)@.redirect_chain,
            final(self)@ == (HttpRequestView { redirect_chain: Seq::empty(), ..old(self)@ }),
    {
        let mut chain: Vec<HttpRequest> = Vec::new();
        std::mem::swap(&mut chain, &mut self.redirect_chain);
        proof {
            reveal(request_view);
            assert(request_views(chain@) =~= old(self)@.redirect_chain);
            assert(self@.redirect_chain =~= Seq::empty());
        }
        chain
    }
}

} // verus!
