//! What goes wrong, and the outside types that errors carry.
use vstd::prelude::*;
use serde_json::Value;

verus! {

/// A value in JSON. Verus carries it as a value and sees nothing inside.
#[verifier::external_type_specification]
#[verifier::external_body]
pub struct ExValue(Value);

/// The error of a JSON parser. Verus carries it as a value and sees nothing
/// inside.
#[verifier::external_type_specification]
#[verifier::external_body]
pub struct ExJsonError(serde_json::Error);

/// What goes wrong between the library and the browser.
#[derive(Debug)]
pub enum CdpError {
    /// A frame is no JSON.
    Serde(serde_json::Error),
    /// The browser refuses, and says why.
    ChromeMessage(String),
    /// A message of the library.
    Msg(String),
    /// A script threw an exception.
    JavascriptException(Value),
    /// The browser did not answer in time.
    Timeout,
    /// A text is not in base64.
    Decode,
    /// Another error of the connection.
    Connection,
}

/// The view of [`CdpError`].
pub enum CdpErrorView {
    Serde(serde_json::Error),
    ChromeMessage(Seq<char>),
    Msg(Seq<char>),
    JavascriptException(Value),
    Timeout,
    Decode,
    Connection,
}

impl View for CdpError {
    type V = CdpErrorView;

    open spec fn view(&self) -> CdpErrorView {
        match *self {
            CdpError::Serde(error) => CdpErrorView::Serde(error),
            CdpError::ChromeMessage(text) => CdpErrorView::ChromeMessage(text@),
            CdpError::Msg(text) => CdpErrorView::Msg(text@),
            CdpError::JavascriptException(value) => CdpErrorView::JavascriptException(value),
            CdpError::Timeout => CdpErrorView::Timeout,
            CdpError::Decode => CdpErrorView::Decode,
            CdpError::Connection => CdpErrorView::Connection,
        }
    }
}

impl CdpError {
    /// An error with a message of the library.
    pub fn msg(text: &str) -> (error: CdpError)
        ensures
            error@ == CdpErrorView::Msg(text@),
    {
        CdpError::Msg(text.to_owned())
    }
}

} // verus!
