//! The mail client: fixed sender contacts and a transport to submit to.

use vstd::prelude::*;

use crate::contact::Contact;
use crate::message::{MessageError, OutgoingMessage};
use crate::settings::EmailSettings;

verus! {

/// Why a send did not go through.
#[derive(Debug, PartialEq, Eq)]
pub enum SendError {
    /// No message could be made of the contacts, so nothing was submitted.
    Message(MessageError),
    /// The transport did not deliver the message. The text is the
    /// transport's own account of what went wrong.
    Transport(String),
}

/// What a send returns once the transport has answered: success for an
/// accepted message, and the transport's diagnostic, unchanged, for a
/// failure.
pub open spec fn reported(answer: Result<(), String>) -> Result<(), SendError> {
    match answer {
        Ok(_) => Ok(()),
        Err(diagnostic) => Err(SendError::Transport(diagnostic)),
    }
}

/// The result of a send, given what the transport answered. Nothing is
/// tried again.
pub fn report(answer: Result<(), String>) -> (r: Result<(), SendError>)
    ensures
        r == reported(answer),
{
    match answer {
        Ok(_) => Ok(()),
        Err(diagnostic) => Err(SendError::Transport(diagnostic)),
    }
}

/// A client bound to one transport and one pair of sender contacts.
///
/// The transport is whatever submits a finished message and answers with
/// success or with a diagnostic. It must take every message.
pub struct EmailClient<T: Fn(&lettre::Message) -> Result<(), String>> {
    email_settings: EmailSettings,
    smtp_client: T,
}

impl<T: Fn(&lettre::Message) -> Result<(), String>> EmailClient<T> {
    #[verifier::type_invariant]
    spec fn transport_takes_every_message(self) -> bool {
        forall|message: &lettre::Message| call_requires(self.smtp_client, (message,))
    }

    /// The contacts the client sends from.
    pub closed spec fn settings(&self) -> EmailSettings {
        self.email_settings
    }

    /// The transport the client submits to.
    pub closed spec fn transport(&self) -> T {
        self.smtp_client
    }

    /// The message that a send to `recipient` submits: from and reply-to
    /// are the client's own, the rest is as given.
    pub open spec fn composed<'a>(
        &'a self,
        recipient: &'a Contact,
        subject: &'a str,
        text_content: &'a str,
    ) -> OutgoingMessage<'a> {
        OutgoingMessage {
            from: &self.settings().from,
            reply_to: &self.settings().reply_to,
            to: recipient,
            subject,
            body: text_content,
        }
    }

    /// Whether `r` is a result that a send of `subject` and `text_content`
    /// to `recipient` can have.
    ///
    /// Where a contact cannot stand in an address header, the result is
    /// the error that names the first such contact. Where the builder
    /// makes no message of the three contacts, the subject and the text,
    /// it is [`MessageError::Rejected`]. In every other case it is what
    /// an answer of the transport to a message amounts to.
    pub open spec fn sends(
        &self,
        recipient: &Contact,
        subject: &str,
        text_content: &str,
        r: Result<(), SendError>,
    ) -> bool {
        let composed = self.composed(recipient, subject, text_content);
        match composed.address_fault() {
            Some(fault) => r == Err::<(), SendError>(SendError::Message(fault)),
            None => if composed.passes_builder() {
                exists|message: &lettre::Message, answer: Result<(), String>|
                    #[trigger] call_ensures(self.transport(), (message,), answer) && r
                        == reported(answer)
            } else {
                r == Err::<(), SendError>(SendError::Message(MessageError::Rejected))
            },
        }
    }

    /// The message is one that goes as far as the transport: the three
    /// contacts are in order and the builder makes a message of them.
    pub open spec fn reaches_transport(
        &self,
        recipient: &Contact,
        subject: &str,
        text_content: &str,
    ) -> bool {
        let composed = self.composed(recipient, subject, text_content);
        composed.address_fault() is None && composed.passes_builder()
    }

    /// Binds `smtp_client` and the sender contacts in `email_settings` for
    /// the life of the client.
    pub fn new(email_settings: EmailSettings, smtp_client: T) -> (client: EmailClient<T>)
        requires
            forall|message: &lettre::Message| call_requires(smtp_client, (message,)),
        ensures
            client.settings() == email_settings,
            client.transport() == smtp_client,
    {
        EmailClient { email_settings, smtp_client }
    }

    /// The contacts the client sends from.
    pub fn email_settings(&self) -> (settings: &EmailSettings)
        ensures
            *settings == self.settings(),
    {
        &self.email_settings
    }

    /// Puts a message together without sending it.
    pub fn compose<'a>(
        &'a self,
        recipient: &'a Contact,
        subject: &'a str,
        text_content: &'a str,
    ) -> (message: OutgoingMessage<'a>)
        ensures
            message == self.composed(recipient, subject, text_content),
    {
        OutgoingMessage {
            from: &self.email_settings.from,
            reply_to: &self.email_settings.reply_to,
            to: recipient,
            subject,
            body: text_content,
        }
    }

    /// Sends one plain-text message to `recipient`.
    ///
    /// A contact that cannot stand in an address header is reported, and
    /// so is a message that the builder refuses; the transport is then not
    /// asked. In every other case the message is submitted once, and the
    /// result is the transport's answer as [`reported`].
    pub fn send_email(&self, recipient: &Contact, subject: &str, text_content: &str) -> (r: Result<
        (),
        SendError,
    >)
        ensures
            self.sends(recipient, subject, text_content, r),
    {
        proof {
            use_type_invariant(self);
        }
        match self.compose(recipient, subject, text_content).to_message() {
            Err(fault) => Err(SendError::Message(fault)),
            Ok(message) => {
                let answer = (self.smtp_client)(&message);
                assert(call_ensures(self.transport(), (&message,), answer));
                report(answer)
            },
        }
    }

    /// A send through a transport that accepts nothing fails.
    pub proof fn lemma_refusal_is_an_error(
        &self,
        recipient: &Contact,
        subject: &str,
        text_content: &str,
        r: Result<(), SendError>,
    )
        requires
            self.sends(recipient, subject, text_content, r),
            forall|message: &lettre::Message, answer: Result<(), String>|
                call_ensures(self.transport(), (message,), answer) ==> answer is Err,
        ensures
            r is Err,
    {
    }

    /// The diagnostic in a transport error is one that the transport gave
    /// for a message, character for character.
    pub proof fn lemma_diagnostic_is_the_transports(
        &self,
        recipient: &Contact,
        subject: &str,
        text_content: &str,
        r: Result<(), SendError>,
    )
        requires
            self.sends(recipient, subject, text_content, r),
        ensures
            r matches Err(SendError::Transport(diagnostic)) ==> exists|message: &lettre::Message|
                #[trigger] call_ensures(
                    self.transport(),
                    (message,),
                    Err::<(), String>(diagnostic),
                ),
    {
        if let Err(SendError::Transport(diagnostic)) = r {
            let (message, answer) = choose|message: &lettre::Message, answer: Result<(), String>|
                #[trigger] call_ensures(self.transport(), (message,), answer) && r == reported(
                    answer,
                );
            assert(answer == Err::<(), String>(diagnostic));
        }
    }

    /// When a message that goes as far as the transport is refused there,
    /// the send returns a transport error, and the diagnostic in it is one
    /// that the transport gave for a message.
    pub proof fn lemma_refusal_carries_the_diagnostic(
        &self,
        recipient: &Contact,
        subject: &str,
        text_content: &str,
        r: Result<(), SendError>,
    )
        requires
            self.sends(recipient, subject, text_content, r),
            self.reaches_transport(recipient, subject, text_content),
            forall|message: &lettre::Message, answer: Result<(), String>|
                call_ensures(self.transport(), (message,), answer) ==> answer is Err,
        ensures
            r matches Err(SendError::Transport(diagnostic)) && exists|message: &lettre::Message|
                #[trigger] call_ensures(
                    self.transport(),
                    (message,),
                    Err::<(), String>(diagnostic),
                ),
    {
        let (message, answer) = choose|message: &lettre::Message, answer: Result<(), String>|
            #[trigger] call_ensures(self.transport(), (message,), answer) && r == reported(
                answer,
            );
        self.lemma_refusal_is_an_error(recipient, subject, text_content, r);
        self.lemma_diagnostic_is_the_transports(recipient, subject, text_content, r);
        assert(r == reported(answer));
        assert(r->Err_0 is Transport);
    }

    /// A message that goes as far as the transport is a success when the
    /// transport accepts everything.
    pub proof fn lemma_acceptance_is_success(
        &self,
        recipient: &Contact,
        subject: &str,
        text_content: &str,
        r: Result<(), SendError>,
    )
        requires
            self.sends(recipient, subject, text_content, r),
            self.reaches_transport(recipient, subject, text_content),
            forall|message: &lettre::Message, answer: Result<(), String>|
                call_ensures(self.transport(), (message,), answer) ==> answer is Ok,
        ensures
            r == Ok::<(), SendError>(()),
    {
    }

    /// For a message that goes as far as the transport, the send succeeds
    /// only if the transport accepted a message, and fails only with what
    /// the transport answered.
    pub proof fn lemma_result_is_the_transports(
        &self,
        recipient: &Contact,
        subject: &str,
        text_content: &str,
        r: Result<(), SendError>,
    )
        requires
            self.sends(recipient, subject, text_content, r),
            self.reaches_transport(recipient, subject, text_content),
        ensures
            r is Ok ==> exists|message: &lettre::Message| #[trigger]
                call_ensures(self.transport(), (message,), Ok::<(), String>(())),
            r is Err ==> r->Err_0 is Transport,
    {
        let (message, answer) = choose|message: &lettre::Message, answer: Result<(), String>|
            #[trigger] call_ensures(self.transport(), (message,), answer) && r == reported(
                answer,
            );
        match answer {
            Ok(unit) => {
                assert(unit == ());
                assert(call_ensures(self.transport(), (message,), Ok::<(), String>(())));
            },
            Err(_) => {},
        }
    }
}

} // verus!
