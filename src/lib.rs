//! Request validation and dispatch for an e-mail webhook.
//!
//! The library decides, for one inbound request, either the reply to send back
//! or the one e-mail to hand to the sending service; the hosting program
//! performs that send and reports its outcome back.
pub mod entry;
pub mod reply;
pub mod webhook;
pub mod laws;
