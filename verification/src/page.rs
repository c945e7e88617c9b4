//! A page: the commands that its operations send, and what becomes of the replies.
//!
//! An operation gives the steps that its owner takes on the page's session. Where
//! an operation waits for a reply and goes on from there, it is a function of the
//! reply, or a machine from reply to next step.
pub mod agent_laws;
pub mod budget;
pub mod call;
pub mod command_laws;
pub mod commands;
pub mod cookie_laws;
pub mod cookies;
pub mod disguise;
pub mod disguise_laws;
pub mod dom;
pub mod emulation;
pub mod evaluation;
pub mod input;
pub mod laws;
pub mod messages;
pub mod navigation;
pub mod navigation_laws;
pub mod screenshot;
pub mod script_texts;
pub mod scripts;
pub mod user_agent;
