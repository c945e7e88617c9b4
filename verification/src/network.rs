//! The network manager: it follows the requests of a page, and decides which of
//! them the browser may send.
pub mod blocking_laws;
pub mod decision;
pub mod fetch;
pub mod laws;
pub mod manager;
pub mod request_laws;
pub mod requests;
pub mod state;
