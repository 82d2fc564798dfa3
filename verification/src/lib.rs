//! Validated email addresses, named contacts, and the composition of a
//! plain-text message for an SMTP relay.

pub mod contact;
pub mod email;
pub mod email_client;
pub mod message;
pub mod settings;
