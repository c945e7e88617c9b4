//! The commands that the network layer sends to the browser, and its events.
use vstd::prelude::*;

use crate::protocol::{
    opt_text, EventRequestWillBeSent, EventRequestWillBeSentView, EventResponseReceived,
    EventResponseReceivedView, HeaderValueView, Headers, HttpRequest, HttpRequestView,
};

verus! {

/// How an authentication challenge is answered.
#[derive(Debug, Clone, Copy, PartialEq, Eq, Structural)]
pub enum AuthChallengeResponseResponse {
    /// The browser does what it would do without interception.
    Default,
    /// The challenge is given up.
    CancelAuth,
    /// Credentials are provided.
    ProvideCredentials,
}

/// Why a request is failed.
#[derive(Debug, Clone, Copy, PartialEq, Eq, Structural)]
pub enum ErrorReason {
    /// The client blocks it.
    BlockedByClient,
}

/// The stage at which a request is paused.
#[derive(Debug, Clone, Copy, PartialEq, Eq, Structural)]
pub enum RequestStage {
    /// Before the request is sent.
    Request,
}

/// A command of the browser's protocol.
#[derive(Debug)]
pub enum CdpCommand {
    /// `Network.enable`, with the browser's defaults.
    NetworkEnable,
    /// `Security.setIgnoreCertificateErrors`.
    SetIgnoreCertificateErrors { ignore: bool },
    /// `Network.setExtraHTTPHeaders`.
    SetExtraHttpHeaders { headers: Headers },
    /// `Network.setBypassServiceWorker`.
    SetBypassServiceWorker { bypass: bool },
    /// `Network.setCacheDisabled`.
    SetCacheDisabled { cache_disabled: bool },
    /// `Fetch.enable` with one pattern.
    FetchEnable { handle_auth_requests: bool, url_pattern: String, request_stage: RequestStage },
    /// `Fetch.disable`.
    FetchDisable,
    /// `Fetch.failRequest`.
    FailRequest { request_id: String, error_reason: ErrorReason },
    /// `Fetch.fulfillRequest`. The body is in base64.
    FulfillRequest {
        request_id: String,
        response_code: i64,
        response_headers: Option<Vec<(String, String)>>,
        body: Option<String>,
    },
    /// `Fetch.continueRequest`.
    ContinueRequest { request_id: String, url: Option<String>, intercept_response: Option<bool> },
    /// `Fetch.continueWithAuth`.
    ContinueWithAuth {
        request_id: String,
        response: AuthChallengeResponseResponse,
        username: Option<String>,
        password: Option<String>,
    },
    /// `Network.emulateNetworkConditionsByRule` with one rule. A throughput of -1
    /// is no limit.
    EmulateNetworkConditionsByRule {
        offline: bool,
        url_pattern: String,
        latency: i64,
        download_throughput: i64,
        upload_throughput: i64,
    },
}

/// The view of [`CdpCommand`].
pub enum CdpCommandView {
    NetworkEnable,
    SetIgnoreCertificateErrors { ignore: bool },
    SetExtraHttpHeaders { headers: Map<Seq<char>, HeaderValueView> },
    SetBypassServiceWorker { bypass: bool },
    SetCacheDisabled { cache_disabled: bool },
    FetchEnable { handle_auth_requests: bool, url_pattern: Seq<char>, request_stage: RequestStage },
    FetchDisable,
    FailRequest { request_id: Seq<char>, error_reason: ErrorReason },
    FulfillRequest {
        request_id: Seq<char>,
        response_code: i64,
        response_headers: Option<Seq<(Seq<char>, Seq<char>)>>,
        body: Option<Seq<char>>,
    },
    ContinueRequest {
        request_id: Seq<char>,
        url: Option<Seq<char>>,
        intercept_response: Option<bool>,
    },
    ContinueWithAuth {
        request_id: Seq<char>,
        response: AuthChallengeResponseResponse,
        username: Option<Seq<char>>,
        password: Option<Seq<char>>,
    },
    EmulateNetworkConditionsByRule {
        offline: bool,
        url_pattern: Seq<char>,
        latency: int,
        download_throughput: int,
        upload_throughput: int,
    },
}

/// The texts of a list of pairs.
pub open spec fn pair_texts(pairs: Seq<(String, String)>) -> Seq<(Seq<char>, Seq<char>)> {
    pairs.map_values(|p: (String, String)| (p.0@, p.1@))
}

impl View for CdpCommand {
    type V = CdpCommandView;

    open spec fn view(&self) -> CdpCommandView {
        match *self {
            CdpCommand::NetworkEnable => CdpCommandView::NetworkEnable,
            CdpCommand::SetIgnoreCertificateErrors { ignore } => {
                CdpCommandView::SetIgnoreCertificateErrors { ignore }
            },
            CdpCommand::SetExtraHttpHeaders { headers } => {
                CdpCommandView::SetExtraHttpHeaders { headers: headers@ }
            },
            CdpCommand::SetBypassServiceWorker { bypass } => {
                CdpCommandView::SetBypassServiceWorker { bypass }
            },
            CdpCommand::SetCacheDisabled { cache_disabled } => {
                CdpCommandView::SetCacheDisabled { cache_disabled }
            },
            CdpCommand::FetchEnable { handle_auth_requests, url_pattern, request_stage } => {
                CdpCommandView::FetchEnable {
                    handle_auth_requests,
                    url_pattern: url_pattern@,
                    request_stage,
                }
            },
            CdpCommand::FetchDisable => CdpCommandView::FetchDisable,
            CdpCommand::FailRequest { request_id, error_reason } => {
                CdpCommandView::FailRequest { request_id: request_id@, error_reason }
            },
            CdpCommand::FulfillRequest { request_id, response_code, response_headers, body } => {
                CdpCommandView::FulfillRequest {
                    request_id: request_id@,
                    response_code,
                    response_headers: match response_headers {
                        Some(headers) => Some(pair_texts(headers@)),
                        None => None,
                    },
                    body: opt_text(body),
                }
            },
            CdpCommand::ContinueRequest { request_id, url, intercept_response } => {
                CdpCommandView::ContinueRequest {
                    request_id: request_id@,
                    url: opt_text(url),
                    intercept_response,
                }
            },
            CdpCommand::ContinueWithAuth { request_id, response, username, password } => {
                CdpCommandView::ContinueWithAuth {
                    request_id: request_id@,
                    response,
                    username: opt_text(username),
                    password: opt_text(password),
                }
            },
            CdpCommand::EmulateNetworkConditionsByRule {
                offline,
                url_pattern,
                latency,
                download_throughput,
                upload_throughput,
            } => {
                CdpCommandView::EmulateNetworkConditionsByRule {
                    offline,
                    url_pattern: url_pattern@,
                    latency: latency as int,
                    download_throughput: download_throughput as int,
                    upload_throughput: upload_throughput as int,
                }
            },
        }
    }
}

/// What the network layer tells its owner.
#[derive(Debug)]
pub enum NetworkEvent {
    /// Send a command to the browser.
    SendCdpRequest(CdpCommand),
    /// A request is sent.
    Request(EventRequestWillBeSent),
    /// A response has arrived.
    Response(EventResponseReceived),
    /// A request has failed.
    RequestFailed(HttpRequest),
    /// A request is finished.
    RequestFinished(HttpRequest),
    /// So many bytes have been taken off the budget.
    BytesConsumed(u64),
}

/// The view of [`NetworkEvent`].
pub enum NetworkEventView {
    SendCdpRequest(CdpCommandView),
    Request(EventRequestWillBeSentView),
    Response(EventResponseReceivedView),
    RequestFailed(HttpRequestView),
    RequestFinished(HttpRequestView),
    BytesConsumed(nat),
}

impl View for NetworkEvent {
    type V = NetworkEventView;

    open spec fn view(&self) -> NetworkEventView {
        match *self {
            NetworkEvent::SendCdpRequest(command) => NetworkEventView::SendCdpRequest(command@),
            NetworkEvent::Request(event) => NetworkEventView::Request(event@),
            NetworkEvent::Response(event) => NetworkEventView::Response(event@),
            NetworkEvent::RequestFailed(request) => NetworkEventView::RequestFailed(request@),
            NetworkEvent::RequestFinished(request) => NetworkEventView::RequestFinished(request@),
            NetworkEvent::BytesConsumed(bytes) => NetworkEventView::BytesConsumed(bytes as nat),
        }
    }
}

} // verus!
