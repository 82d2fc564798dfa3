//! The message that is handed to the transport.

use vstd::prelude::*;

use crate::contact::Contact;
use crate::email::{is_whitespace, whitespace};

verus! {

/// `lettre::Message`, a finished message. It is passed on as it comes from
/// the builder; nothing of what it holds is visible here.
#[verifier::external_type_specification]
#[verifier::external_body]
pub struct ExMessage(lettre::Message);

/// `lettre::error::Error`, the builder's reason for refusing a message.
#[verifier::external_type_specification]
#[verifier::external_body]
pub struct ExBuildError(lettre::error::Error);

/// `lettre::message::header::ContentType`, the value of a content-type
/// header field.
#[verifier::external_type_specification]
#[verifier::external_body]
pub struct ExContentType(lettre::message::header::ContentType);

/// Whether `lettre` reads `text` as a mailbox, that is, whether
/// `text.parse::<lettre::message::Mailbox>()` succeeds.
pub uninterp spec fn mailbox_syntax(text: Seq<char>) -> bool;

/// Parses `text` with the `FromStr` impl of `lettre::message::Mailbox` and
/// tells whether that succeeded.
///
/// The answer depends on the text alone and is named [`mailbox_syntax`].
#[verifier::external_body]
fn is_mailbox(text: &str) -> (ok: bool)
    ensures
        ok == mailbox_syntax(text@),
{
    text.parse::<lettre::message::Mailbox>().is_ok()
}

/// `lettre`'s content type for plain text in UTF-8, the constant
/// `ContentType::TEXT_PLAIN`.
#[verifier::external_body]
fn text_plain() -> (content_type: lettre::message::header::ContentType) {
    lettre::message::header::ContentType::TEXT_PLAIN
}

/// Whether `lettre`'s message builder makes a message of these texts:
/// `from`, `reply_to` and `to` parsed as mailboxes for the header fields of
/// those names, then the subject, a content type, and the body.
///
/// The builder stamps the message with the current time, and does not
/// look at the time, nor at the content type, when it decides.
pub uninterp spec fn builder_accepts(
    from: Seq<char>,
    reply_to: Seq<char>,
    to: Seq<char>,
    subject: Seq<char>,
    body: Seq<char>,
) -> bool;

/// Runs `lettre`'s message builder: `from`, `reply_to` and `to` are parsed
/// as mailboxes and fill the header fields of those names, `subject` the
/// subject, `content_type` the content type, and `body` ends the build.
///
/// The three texts must be mailboxes, for the parse results are unwrapped,
/// and none may have a line break inside its display name, for the builder
/// panics on such a name. Whether the builder makes a message is named
/// [`builder_accepts`]. The message carries the time of the call, so
/// nothing is claimed of what it holds.
#[verifier::external_body]
fn build_message(
    from: &str,
    reply_to: &str,
    to: &str,
    subject: &str,
    content_type: lettre::message::header::ContentType,
    body: &str,
) -> (built: Result<lettre::Message, lettre::error::Error>)
    requires
        fits_header(from@),
        fits_header(reply_to@),
        fits_header(to@),
    ensures
        built is Ok <==> builder_accepts(from@, reply_to@, to@, subject@, body@),
{
    lettre::Message::builder()
        .from(from.parse().unwrap())
        .reply_to(reply_to.parse().unwrap())
        .to(to.parse().unwrap())
        .subject(subject)
        .header(content_type)
        .body(body.to_string())
}

/// Carriage return and line feed, which end a header line.
pub open spec fn is_line_break(c: char) -> bool {
    c == '\r' || c == '\n'
}

/// Index `k` of `text` lies ahead of every `<`, where the display name is
/// written.
pub open spec fn in_name(text: Seq<char>, k: int) -> bool {
    0 <= k < text.len() && forall|m: int| 0 <= m <= k ==> text[m] != '<'
}

/// At index `i` the display name of `text` has a character that is no
/// whitespace.
pub open spec fn solid_at(text: Seq<char>, i: int) -> bool {
    in_name(text, i) && !is_whitespace(text[i])
}

/// At index `j` the display name of `text` has a line break, with
/// something other than whitespace before it, at `i`.
pub open spec fn breaks_after(text: Seq<char>, i: int, j: int) -> bool {
    solid_at(text, i) && i < j && in_name(text, j) && is_line_break(text[j])
}

/// At index `j` the display name of `text` has a line break, with
/// something other than whitespace before it, at `i`, and after it, at
/// `k`.
pub open spec fn breaks_between(text: Seq<char>, i: int, j: int, k: int) -> bool {
    breaks_after(text, i, j) && j < k && solid_at(text, k)
}

/// The display name of `text` has a line break inside it. The display name
/// is what stands ahead of the first `<`, without the whitespace at its
/// two ends; a line break at either end is whitespace and does not count.
pub open spec fn name_breaks_line(text: Seq<char>) -> bool {
    exists|i: int, j: int, k: int| #[trigger] breaks_between(text, i, j, k)
}

/// `text` can stand in an address header: it reads as a mailbox whose
/// display name stays on one line.
pub open spec fn fits_header(text: Seq<char>) -> bool {
    !name_breaks_line(text) && mailbox_syntax(text)
}

fn name_broken(text: &str) -> (broken: bool)
    ensures
        broken == name_breaks_line(text@),
{
    let mut open = false;
    let mut solid = false;
    let mut pending = false;
    let mut broken = false;
    let ghost s = text@;
    let ghost mut at_open: int = 0;
    let ghost mut at_solid: int = 0;
    let ghost mut at_break: (int, int) = (0, 0);
    let ghost mut at_broken: (int, int, int) = (0, 0, 0);
    for c in it: text.chars()
        invariant
            it.seq() == s,
            open ==> 0 <= at_open < it.index() && s[at_open] == '<',
            !open ==> forall|m: int| 0 <= m < it.index() ==> s[m] != '<',
            solid ==> at_solid < it.index() && solid_at(s, at_solid),
            !solid ==> forall|i: int| i < it.index() ==> !#[trigger] solid_at(s, i),
            pending ==> at_break.1 < it.index() && breaks_after(s, at_break.0, at_break.1),
            !pending ==> forall|i: int, j: int|
                j < it.index() ==> !#[trigger] breaks_after(s, i, j),
            broken ==> at_broken.2 < it.index() && breaks_between(
                s,
                at_broken.0,
                at_broken.1,
                at_broken.2,
            ),
            !broken ==> forall|i: int, j: int, k: int|
                k < it.index() ==> !#[trigger] breaks_between(s, i, j, k),
    {
        if !open {
            if c == '<' {
                open = true;
                proof {
                    at_open = it.index() as int;
                }
            } else if whitespace(c) {
                if solid && (c == '\r' || c == '\n') && !pending {
                    pending = true;
                    proof {
                        at_break = (at_solid, it.index() as int);
                    }
                }
            } else {
                if pending && !broken {
                    broken = true;
                    proof {
                        at_broken = (at_break.0, at_break.1, it.index() as int);
                    }
                }
                if !solid {
                    solid = true;
                    proof {
                        at_solid = it.index() as int;
                    }
                }
            }
        }
    }
    broken
}

fn header_ready(text: &str) -> (ready: bool)
    ensures
        ready == fits_header(text@),
{
    !name_broken(text) && is_mailbox(text)
}

/// Why no message could be made.
#[derive(Debug, Clone, Copy, PartialEq, Eq, Structural)]
pub enum MessageError {
    /// The sender cannot stand in an address header.
    Sender,
    /// The contact for replies cannot stand in an address header.
    ReplyTo,
    /// The recipient cannot stand in an address header.
    Recipient,
    /// The three contacts are in order, and the builder refused the
    /// message all the same.
    Rejected,
}

/// The first of sender, contact for replies and recipient that is not in
/// order, as the error that reports it.
pub open spec fn first_fault(from: bool, reply_to: bool, to: bool) -> Option<MessageError> {
    if !from {
        Some(MessageError::Sender)
    } else if !reply_to {
        Some(MessageError::ReplyTo)
    } else if !to {
        Some(MessageError::Recipient)
    } else {
        None
    }
}

/// What becomes of the builder's answer: a message is passed on as it is,
/// and a refusal, whatever its reason, is [`MessageError::Rejected`].
pub open spec fn concluded(built: Result<lettre::Message, lettre::error::Error>) -> Result<
    lettre::Message,
    MessageError,
> {
    match built {
        Ok(message) => Ok(message),
        Err(_) => Err(MessageError::Rejected),
    }
}

/// The result of making a message, given what the builder answered.
pub fn conclude(built: Result<lettre::Message, lettre::error::Error>) -> (r: Result<
    lettre::Message,
    MessageError,
>)
    ensures
        r == concluded(built),
{
    match built {
        Ok(message) => Ok(message),
        Err(_) => Err(MessageError::Rejected),
    }
}

/// One plain-text message: who it is from, whom to answer, whom it is for,
/// and what it says. Made for a single send.
pub struct OutgoingMessage<'a> {
    pub from: &'a Contact,
    pub reply_to: &'a Contact,
    pub to: &'a Contact,
    pub subject: &'a str,
    pub body: &'a str,
}

impl<'a> OutgoingMessage<'a> {
    /// The first contact, in message order, whose header text cannot stand
    /// in an address header.
    pub open spec fn address_fault(&self) -> Option<MessageError> {
        first_fault(
            fits_header(self.from.header_text()),
            fits_header(self.reply_to.header_text()),
            fits_header(self.to.header_text()),
        )
    }

    /// Which contact to report, given for each of the three whether it is
    /// in order: the sender before the contact for replies, and that one
    /// before the recipient.
    pub fn fault(from: bool, reply_to: bool, to: bool) -> (found: Option<MessageError>)
        ensures
            found == first_fault(from, reply_to, to),
    {
        if !from {
            Some(MessageError::Sender)
        } else if !reply_to {
            Some(MessageError::ReplyTo)
        } else if !to {
            Some(MessageError::Recipient)
        } else {
            None
        }
    }

    /// Whether the builder makes a message of this one: of the three
    /// contacts as they are written in a header field, each for its own
    /// field, of the subject and of the body.
    pub open spec fn passes_builder(&self) -> bool {
        builder_accepts(
            self.from.header_text(),
            self.reply_to.header_text(),
            self.to.header_text(),
            self.subject@,
            self.body@,
        )
    }

    /// What making the message comes to: the first contact out of order
    /// is reported; with all three in order there is a message if the
    /// builder makes one, and [`MessageError::Rejected`] if it does not.
    pub open spec fn makes(&self, r: Result<lettre::Message, MessageError>) -> bool {
        match self.address_fault() {
            Some(fault) => r == Err::<lettre::Message, MessageError>(fault),
            None => if self.passes_builder() {
                r is Ok
            } else {
                r == Err::<lettre::Message, MessageError>(MessageError::Rejected)
            },
        }
    }

    /// Turns the message into the form the transport takes.
    ///
    /// Each contact is written as `name <address>`. The first whose text
    /// does not read as a mailbox, or has a line break inside its display
    /// name, is reported. With all three in order the texts go to the
    /// builder, sender, contact for replies and recipient each for its
    /// own field, and the builder gives a message or refuses.
    pub fn to_message(&self) -> (r: Result<lettre::Message, MessageError>)
        ensures
            self.makes(r),
    {
        let from = self.from.render();
        let reply_to = self.reply_to.render();
        let to = self.to.render();
        let found = Self::fault(
            header_ready(from.as_str()),
            header_ready(reply_to.as_str()),
            header_ready(to.as_str()),
        );
        match found {
            Some(fault) => Err(fault),
            None => conclude(
                build_message(
                    from.as_str(),
                    reply_to.as_str(),
                    to.as_str(),
                    self.subject,
                    text_plain(),
                    self.body,
                ),
            ),
        }
    }
}

} // verus!
