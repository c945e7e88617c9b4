//! What a page asks of the handler of its target.
use vstd::prelude::*;

use crate::network::state::BasicCachePolicy;
use crate::page::call::Page;
use crate::protocol::{opt_text, Credentials, CredentialsView};

verus! {

/// A message to the handler of a target.
#[derive(Debug)]
pub enum TargetMessage {
    /// What is the name of a frame?
    Name { frame_id: Option<String> },
    /// What is the URL of a frame, or of the page?
    Url { frame_id: Option<String> },
    /// What is the parent of a frame?
    Parent { frame_id: String },
    /// What is the main frame?
    MainFrame,
    /// What are the frames?
    AllFrames,
    /// Answer challenges with these credentials.
    Authenticate(Credentials),
    /// Block the network, or no longer.
    BlockNetwork(bool),
    /// Leave paused requests to the user, or no longer.
    EnableInterception(bool),
    /// Cache responses under this site and by this policy.
    CacheKey { site: Option<String>, policy: Option<BasicCachePolicy> },
}

/// The view of [`TargetMessage`].
pub enum TargetMessageView {
    Name { frame_id: Option<Seq<char>> },
    Url { frame_id: Option<Seq<char>> },
    Parent { frame_id: Seq<char> },
    MainFrame,
    AllFrames,
    Authenticate(CredentialsView),
    BlockNetwork(bool),
    EnableInterception(bool),
    CacheKey { site: Option<Seq<char>>, policy: Option<BasicCachePolicy> },
}

impl View for TargetMessage {
    type V = TargetMessageView;

    open spec fn view(&self) -> TargetMessageView {
        match *self {
            TargetMessage::Name { frame_id } => TargetMessageView::Name {
                frame_id: opt_text(frame_id),
            },
            TargetMessage::Url { frame_id } => TargetMessageView::Url {
                frame_id: opt_text(frame_id),
            },
            TargetMessage::Parent { frame_id } => TargetMessageView::Parent {
                frame_id: frame_id@,
            },
            TargetMessage::MainFrame => TargetMessageView::MainFrame,
            TargetMessage::AllFrames => TargetMessageView::AllFrames,
            TargetMessage::Authenticate(credentials) => TargetMessageView::Authenticate(
                credentials@,
            ),
            TargetMessage::BlockNetwork(blocked) => TargetMessageView::BlockNetwork(blocked),
            TargetMessage::EnableInterception(enabled) => TargetMessageView::EnableInterception(
                enabled,
            ),
            TargetMessage::CacheKey { site, policy } => TargetMessageView::CacheKey {
                site: opt_text(site),
                policy,
            },
        }
    }
}

impl Page {
    /// Asks for the name of a frame.
    pub fn frame_name(&self, frame_id: String) -> (message: TargetMessage)
        ensures
            message@ == (TargetMessageView::Name { frame_id: Some(frame_id@) }),
    {
        TargetMessage::Name { frame_id: Some(frame_id) }
    }

    /// Has challenges answered with credentials.
    pub fn authenticate(&self, credentials: Credentials) -> (message: TargetMessage)
        ensures
            message@ == TargetMessageView::Authenticate(credentials@),
    {
        TargetMessage::Authenticate(credentials)
    }

    /// Has the network blocked, or no longer.
    pub fn set_blocked_networking(&self, blocked: bool) -> (message: TargetMessage)
        ensures
            message@ == TargetMessageView::BlockNetwork(blocked),
    {
        TargetMessage::BlockNetwork(blocked)
    }

    /// Has paused requests left to the user, or no longer.
    pub fn set_request_interception(&self, enabled: bool) -> (message: TargetMessage)
        ensures
            message@ == TargetMessageView::EnableInterception(enabled),
    {
        TargetMessage::EnableInterception(enabled)
    }

    /// Asks for the URL of the page.
    pub fn url(&self) -> (message: TargetMessage)
        ensures
            message@ == (TargetMessageView::Url { frame_id: None }),
    {
        TargetMessage::Url { frame_id: None }
    }

    /// Asks for the URL of a frame.
    pub fn frame_url(&self, frame_id: String) -> (message: TargetMessage)
        ensures
            message@ == (TargetMessageView::Url { frame_id: Some(frame_id@) }),
    {
        TargetMessage::Url { frame_id: Some(frame_id) }
    }

    /// Asks for the parent of a frame.
    pub fn frame_parent(&self, frame_id: String) -> (message: TargetMessage)
        ensures
            message@ == (TargetMessageView::Parent { frame_id: frame_id@ }),
    {
        TargetMessage::Parent { frame_id }
    }

    /// Asks for the main frame.
    pub fn mainframe(&self) -> (message: TargetMessage)
        ensures
            message@ == TargetMessageView::MainFrame,
    {
        TargetMessage::MainFrame
    }

    /// Asks for the frames.
    pub fn frames(&self) -> (message: TargetMessage)
        ensures
            message@ == TargetMessageView::AllFrames,
    {
        TargetMessage::AllFrames
    }

    /// Has responses cached under a site and by a policy.
    pub fn set_cache_key(&self, cache_key: (Option<String>, Option<BasicCachePolicy>)) -> (message:
        TargetMessage)
        ensures
            message@ == (TargetMessageView::CacheKey {
                site: opt_text(cache_key.0),
                policy: cache_key.1,
            }),
    {
        TargetMessage::CacheKey { site: cache_key.0, policy: cache_key.1 }
    }
}

} // verus!
