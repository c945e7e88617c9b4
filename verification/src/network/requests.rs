//! The life of a request, from its announcement to its end.
use vstd::prelude::*;

use crate::command::{AuthChallengeResponseResponse, CdpCommand, NetworkEvent};
use crate::network::manager::{is_redirect_status, NetworkManager};
use crate::network::state::{
    announced, budget_after, budget_spent, chain_of, challenged, charged, declared_length,
    follows_redirect, forgotten, hop_response, loading_failed, loading_finished, request_sent,
    responded, served_from_cache, NetworkState, Switch,
};
use crate::protocol::{
    copy_opt, opt_text, request_views, EventAuthRequired, EventLoadingFailed, EventLoadingFinished,
    EventRequestServedFromCache, EventRequestWillBeSent, EventResponseReceived, HeaderValue,
    HttpRequest, HttpRequestView, Response,
};
use crate::text::{
    lemma_trims_once, parse_u64, remove_all, same_text, starts_with, trim, trims_to,
};

verus! {

/// A response as the redirect chain keeps it: where it leads, without the URL
/// that it came from.
pub fn redirected_response(response: &Response) -> (kept: Response)
    ensures
        kept@ == hop_response(response@),
{
    let mut kept = response.clone();
    if is_redirect_status(response.status) {
        if let Some(location) = response.headers.get_text("Location") {
            if !same_text(location.as_str(), response.url.as_str()) {
                let target = remove_all(location.as_str(), response.url.as_str());
                if !target.as_str().is_empty() {
                    kept.headers.insert("Location".to_owned(), HeaderValue::Text(target));
                }
            }
        }
    }
    kept
}

/// The length that a response declares.
pub fn content_length(response: &Response) -> (length: Option<u64>)
    ensures
        match length {
            Some(n) => declared_length(response@) == Some(n as nat),
            None => declared_length(response@) is None,
        },
{
    match response.headers.get_text("content-length") {
        Some(text) => {
            let core = trim(text.as_str());
            let length = parse_u64(core);
            proof {
                assert forall|other: Seq<char>| #[trigger]
                    trims_to(text@, other) implies other == core@ by {
                    lemma_trims_once(text@, other, core@);
                }
            }
            length
        },
        None => None,
    }
}

impl NetworkManager {
    /// Stores the response of a request that is redirected, and forgets that it
    /// was given credentials.
    fn handle_request_redirect(&mut self, request: &mut HttpRequest, response: Response)
        ensures
            final(request)@ == (HttpRequestView { response: Some(response@), ..old(request)@ }),
            final(self)@ == (NetworkState {
                attempted_authentications: forgotten(
                    old(self)@.attempted_authentications,
                    old(request)@.interception_id,
                ),
                ..old(self)@
            }),
    {
        request.set_response(response);
        self.forget_authentication(request.pause());
    }

    /// Forgets that credentials were given for a pause.
    fn forget_authentication(&mut self, pause: &Option<String>)
        ensures
            final(self)@ == (NetworkState {
                attempted_authentications: forgotten(
                    old(self)@.attempted_authentications,
                    opt_text(*pause),
                ),
                ..old(self)@
            }),
    {
        if let Some(id) = pause {
            self.attempted_authentications.remove(id.as_str());
        }
    }

    /// Takes a request out of the table.
    fn remove_request(&mut self, id: &str) -> (request: Option<HttpRequest>)
        ensures
            final(self)@ == (NetworkState {
                requests: old(self)@.requests.remove(id@),
                ..old(self)@
            }),
            match request {
                Some(r) => old(self)@.requests.contains_pair(id@, r@),
                None => !old(self)@.requests.dom().contains(id@),
            },
    {
        self.requests.remove(id)
    }

    /// Puts a request into the table.
    fn insert_request(&mut self, id: String, request: HttpRequest)
        ensures
            final(self)@ == (NetworkState {
                requests: old(self)@.requests.insert(id@, request@),
                ..old(self)@
            }),
    {
        self.requests.insert(id, request);
    }

    /// Ends the request that an event redirects, and hands out the redirect chain
    /// of the request that follows it.
    fn take_redirect_chain(&mut self, event: &EventRequestWillBeSent) -> (chain: Vec<HttpRequest>)
        ensures
            request_views(chain@) == chain_of(old(self)@, event@),
            final(self)@ == (NetworkState {
                requests: if follows_redirect(old(self)@, event@) {
                    old(self)@.requests.remove(event.request_id@)
                } else {
                    old(self)@.requests
                },
                attempted_authentications: if follows_redirect(old(self)@, event@) {
                    forgotten(
                        old(self)@.attempted_authentications,
                        old(self)@.requests[event.request_id@].interception_id,
                    )
                } else {
                    old(self)@.attempted_authentications
                },
                ..old(self)@
            }),
    {
        let ghost s = self@;
        if let Some(response) = &event.redirect_response {
            if let Some(request) = self.remove_request(event.request_id.as_str()) {
                let mut request = request;
                self.handle_request_redirect(&mut request, redirected_response(response));
                let mut chain = request.take_redirect_chain();
                let ghost before = chain@;
                chain.push(request);
                proof {
                    assert(request_views(chain@) =~= request_views(before).push(request@));
                }
                return chain;
            }
            proof {
                assert(self@.requests =~= s.requests);
            }
        }
        let chain: Vec<HttpRequest> = Vec::new();
        proof {
            assert(request_views(chain@) =~= Seq::empty());
        }
        chain
    }

    /// A request is sent. If it follows a redirect, the request before it goes to
    /// its redirect chain.
    pub(crate) fn on_request(
        &mut self,
        event: &EventRequestWillBeSent,
        interception_id: Option<String>,
    )
        ensures
            final(self)@ == request_sent(old(self)@, event@, opt_text(interception_id)),
    {
        let ghost s = self@;
        let redirect_chain = self.take_redirect_chain(event);
        let request = HttpRequest::new(
            event.request_id.clone(),
            copy_opt(&event.frame_id),
            interception_id,
            self.user_request_interception_enabled.on,
            redirect_chain,
        );
        proof {
            assert(self@.requests.insert(event.request_id@, request@) =~= s.requests.insert(
                event.request_id@,
                request@,
            ));
        }
        self.insert_request(event.request_id.clone(), request);
        self.push_event(NetworkEvent::Request(event.clone()));
    }

    /// The browser announces a request. Data URLs are never intercepted.
    pub fn on_request_will_be_sent(&mut self, event: &EventRequestWillBeSent)
        ensures
            final(self)@ == announced(old(self)@, event@),
    {
        if self.protocol_request_interception_enabled.on && !starts_with(
            event.url.as_str(),
            "data:",
        ) {
            if let Some(interception_id) = self.request_id_to_interception_id.remove(
                event.request_id.as_str(),
            ) {
                self.on_request(event, Some(interception_id));
            } else {
                proof {
                    assert(self@.request_id_to_interception_id =~= old(
                        self,
                    )@.request_id_to_interception_id);
                }
                self.requests_will_be_sent.insert(event.request_id.clone(), event.clone());
            }
        } else {
            self.on_request(event, None);
        }
    }

    /// A request was answered from the browser's cache.
    pub fn on_request_served_from_cache(&mut self, event: &EventRequestServedFromCache)
        ensures
            final(self)@ == served_from_cache(old(self)@, event.request_id@),
    {
        let ghost s = self@;
        if let Some(request) = self.remove_request(event.request_id.as_str()) {
            let mut request = request;
            request.set_from_memory_cache();
            proof {
                assert(self@.requests.insert(event.request_id@, request@) =~= s.requests.insert(
                    event.request_id@,
                    request@,
                ));
            }
            self.insert_request(event.request_id.clone(), request);
        } else {
            proof {
                assert(self@.requests =~= s.requests);
            }
        }
    }

    /// All of a response has arrived.
    pub fn on_network_loading_finished(&mut self, event: &EventLoadingFinished)
        ensures
            final(self)@ == loading_finished(old(self)@, event.request_id@),
    {
        let ghost s = self@;
        if let Some(request) = self.remove_request(event.request_id.as_str()) {
            self.forget_authentication(request.pause());
            self.push_event(NetworkEvent::RequestFinished(request));
        } else {
            proof {
                assert(self@.requests =~= s.requests);
            }
        }
    }

    /// Loading has failed.
    pub fn on_network_loading_failed(&mut self, event: &EventLoadingFailed)
        ensures
            final(self)@ == loading_failed(old(self)@, event.request_id@, event.error_text@),
    {
        let ghost s = self@;
        if let Some(request) = self.remove_request(event.request_id.as_str()) {
            let mut request = request;
            request.set_failure_text(event.error_text.clone());
            self.forget_authentication(request.pause());
            self.push_event(NetworkEvent::RequestFailed(request));
        } else {
            proof {
                assert(self@.requests =~= s.requests);
            }
        }
    }

    /// A response has arrived. The byte budget is charged for it, and its request
    /// is over.
    pub fn on_response_received(&mut self, event: &EventResponseReceived)
        ensures
            final(self)@ == responded(old(self)@, event@),
    {
        let ghost s = self@;
        let request_failed = self.charge(&event.response);
        proof {
            assert(self@ == charged(s, event@.response));
        }
        self.push_event(NetworkEvent::Response(event.clone()));
        let ghost told = self@;
        if let Some(request) = self.remove_request(event.request_id.as_str()) {
            let mut request = request;
            request.set_response(event.response.clone());
            if request_failed {
                self.push_event(NetworkEvent::RequestFailed(request));
            } else {
                self.push_event(NetworkEvent::RequestFinished(request));
            }
        } else {
            proof {
                assert(self@.requests =~= told.requests);
            }
        }
    }

    /// Sets what is left of the byte budget. Nothing left blocks everything.
    fn set_budget(&mut self, rest: u64)
        ensures
            final(self)@ == (NetworkState {
                max_bytes_allowed: Some(rest),
                block_all: Switch { on: old(self)@.block_all.on || rest == 0 },
                ..old(self)@
            }),
    {
        self.max_bytes_allowed = Some(rest);
        self.block_all = Switch { on: self.block_all.on || rest == 0 };
    }

    /// What is left of a budget after a response.
    fn budget_left(before: u64, response: &Response) -> (rest: u64)
        ensures
            rest == budget_after(before as nat, response@),
    {
        let rest: u64 = before.saturating_sub(response.encoded_data_length);
        match content_length(response) {
            Some(length) => if length > rest {
                0
            } else {
                rest
            },
            None => rest,
        }
    }

    /// Charges the byte budget for a response. Is nothing left of it?
    fn charge(&mut self, response: &Response) -> (spent: bool)
        ensures
            final(self)@ == charged(old(self)@, response@),
            spent == budget_spent(final(self)@),
    {
        match self.max_bytes_allowed {
            Some(before) => {
                let rest: u64 = NetworkManager::budget_left(before, response);
                self.set_budget(rest);
                if rest < before {
                    self.push_event(NetworkEvent::BytesConsumed(before - rest));
                }
                rest == 0
            },
            None => false,
        }
    }

    /// A challenge for credentials is answered: with the credentials once, and
    /// given up when it comes back.
    pub fn on_fetch_auth_required(&mut self, event: &EventAuthRequired)
        ensures
            final(self)@ == challenged(old(self)@, event.request_id@),
    {
        let ghost s = self@;
        let response = if self.attempted_authentications.contains(event.request_id.as_str()) {
            proof {
                assert(s.attempted_authentications.insert(event.request_id@)
                    =~= s.attempted_authentications);
            }
            AuthChallengeResponseResponse::CancelAuth
        } else if self.credentials.is_some() {
            self.attempted_authentications.insert(event.request_id.clone());
            AuthChallengeResponseResponse::ProvideCredentials
        } else {
            AuthChallengeResponseResponse::Default
        };
        let (username, password) = match &self.credentials {
            Some(credentials) => (
                Some(credentials.username.clone()),
                Some(credentials.password.clone()),
            ),
            None => (None, None),
        };
        let request_id = event.request_id.clone();
        self.push_cdp_request(
            CdpCommand::ContinueWithAuth { request_id, response, username, password },
        );
    }
}

} // verus!
