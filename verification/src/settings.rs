//! Configuration: where the relay is, how to log in, and who the mail is
//! from.

use vstd::prelude::*;

use crate::contact::Contact;

verus! {

/// Everything a mail client is set up with.
pub struct EmailClientSettings {
    pub smtp_server: SmtpServerSettings,
    pub email: EmailSettings,
}

/// The relay to submit to.
pub struct SmtpServerSettings {
    pub host: String,
    pub port: u16,
    pub credentials: CredentialsSettings,
}

/// The login presented to the relay.
pub struct CredentialsSettings {
    pub username: String,
    pub password: String,
}

/// The contacts that every outgoing message is sent from and answered to.
pub struct EmailSettings {
    pub from: Contact,
    pub reply_to: Contact,
}

} // verus!
