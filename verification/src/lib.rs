//! Drives a browser over its debugging protocol.
//!
//! The crate holds the decisions of such a driver, each with a contract: which
//! requests of a page the browser may send ([`network`]), which command goes over the
//! connection when ([`conn`]), and which commands the operations of a page are made of
//! ([`page`]). It does no input or output of its own.
pub mod allowlists;
pub mod base64_text;
pub mod blocklists;
pub mod command;
pub mod conn;
pub mod error;
pub mod matcher;
pub mod network;
pub mod page;
pub mod protocol;
pub mod tables;
pub mod text;
pub mod url;
pub mod view_laws;
