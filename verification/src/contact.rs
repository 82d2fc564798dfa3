//! A named contact: a display name paired with a validated address.

use vstd::prelude::*;

use crate::email::Email;

verus! {

/// The text `name <address>`.
pub open spec fn rendered(name: Seq<char>, address: Seq<char>) -> Seq<char> {
    name + seq![' ', '<'] + address + seq!['>']
}

/// Someone who sends or receives mail.
#[derive(Debug)]
pub struct Contact {
    pub name: String,
    pub email: Email,
}

impl Contact {
    /// The contact as it is written in a header field.
    pub open spec fn header_text(&self) -> Seq<char> {
        rendered(self.name@, self.email@)
    }

    /// Writes the contact as `name <address>`. The name is copied as it
    /// is: no character of it is quoted or escaped.
    pub fn render(&self) -> (text: String)
        ensures
            text@ == self.header_text(),
    {
        proof {
            reveal_strlit(" <");
            reveal_strlit(">");
        }
        let mut text = self.name.clone();
        text.append(" <");
        text.append(self.email.as_str());
        text.append(">");
        text
    }
}

impl Clone for Contact {
    fn clone(&self) -> (copy: Self)
        ensures
            copy == *self,
    {
        Contact { name: self.name.clone(), email: self.email.clone() }
    }
}

} // verus!
