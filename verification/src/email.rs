//! Email addresses that have passed syntax validation.

use vstd::prelude::*;

verus! {

/// The characters with the Unicode property `White_Space`.
pub open spec fn is_whitespace(c: char) -> bool {
    let n = c as u32;
    ||| 0x09 <= n <= 0x0D
    ||| n == 0x20
    ||| n == 0x85
    ||| n == 0xA0
    ||| n == 0x1680
    ||| 0x2000 <= n <= 0x200A
    ||| n == 0x2028
    ||| n == 0x2029
    ||| n == 0x202F
    ||| n == 0x205F
    ||| n == 0x3000
}

/// `s` is `local@domain` with its one `@` at index `at`: both parts are
/// non-empty and neither holds another `@`.
pub open spec fn splits_at(s: Seq<char>, at: int) -> bool {
    &&& 0 < at < s.len() - 1
    &&& s[at] == '@'
    &&& forall|i: int| 0 <= i < s.len() && i != at ==> s[i] != '@'
}

/// The shape every address has: `local@domain` around a single `@`, with
/// no whitespace anywhere.
pub open spec fn has_address_shape(s: Seq<char>) -> bool {
    &&& forall|i: int| 0 <= i < s.len() ==> !is_whitespace(#[trigger] s[i])
    &&& exists|at: int| splits_at(s, at)
}

pub(crate) fn whitespace(c: char) -> (b: bool)
    ensures
        b == is_whitespace(c),
{
    let n: u32 = c as u32;
    (0x09 <= n && n <= 0x0D) || n == 0x20 || n == 0x85 || n == 0xA0 || n == 0x1680 || (0x2000 <= n
        && n <= 0x200A) || n == 0x2028 || n == 0x2029 || n == 0x202F || n == 0x205F || n == 0x3000
}

fn shaped(candidate: &str) -> (ok: bool)
    ensures
        ok == has_address_shape(candidate@),
{
    let mut blank = false;
    let mut ats_seen = false;
    let mut ats_many = false;
    let mut at_front = false;
    let mut at_back = false;
    let mut started = false;
    let ghost s = candidate@;
    let ghost mut first_at: int = 0;
    for c in it: candidate.chars()
        invariant
            it.seq() == s,
            started <==> it.index() > 0,
            blank <==> exists|j: int| 0 <= j < it.index() && is_whitespace(#[trigger] s[j]),
            ats_seen ==> 0 <= first_at < it.index() && s[first_at] == '@',
            forall|j: int| 0 <= j < it.index() && (!ats_seen || j < first_at) ==> s[j] != '@',
            ats_many <==> exists|j: int| first_at < j < it.index() && ats_seen && #[trigger] s[j] == '@',
            at_front <==> it.index() > 0 && s[0] == '@',
            at_back <==> it.index() > 0 && s[it.index() - 1] == '@',
    {
        if whitespace(c) {
            blank = true;
        }
        if c == '@' {
            if ats_seen {
                ats_many = true;
            } else {
                proof {
                    first_at = it.index() as int;
                }
            }
            ats_seen = true;
            if !started {
                at_front = true;
            }
            at_back = true;
        } else {
            at_back = false;
        }
        started = true;
    }
    let ok = !blank && ats_seen && !ats_many && !at_front && !at_back;
    proof {
        if ok {
            assert(splits_at(s, first_at));
        }
        if has_address_shape(s) {
            let at = choose|at: int| splits_at(s, at);
            assert(first_at == at);
        }
    }
    ok
}

/// What `validator::validate_email` answers for the text `candidate`.
pub uninterp spec fn email_syntax(candidate: Seq<char>) -> bool;

/// Calls `validator::validate_email` on `candidate`.
///
/// The answer is a function of the text alone; it is given the name
/// [`email_syntax`] and nothing more is claimed of it.
#[verifier::external_body]
fn validator_accepts(candidate: &str) -> (accepted: bool)
    ensures
        accepted == email_syntax(candidate@),
{
    validator::validate_email(candidate)
}

/// The texts that are accepted as an address: those of the required shape
/// that the syntax check lets through.
pub open spec fn is_valid_address(candidate: Seq<char>) -> bool {
    has_address_shape(candidate) && email_syntax(candidate)
}

/// No text is an address that is empty, holds whitespace, has no `@`, or
/// has nothing before its `@` or nothing after it, whatever the syntax
/// check makes of it.
pub proof fn lemma_malformed_is_no_address(candidate: Seq<char>)
    requires
        ({
            ||| candidate.len() == 0
            ||| exists|i: int| 0 <= i < candidate.len() && is_whitespace(#[trigger] candidate[i])
            ||| !candidate.contains('@')
            ||| candidate.first() == '@'
            ||| candidate.last() == '@'
        }),
    ensures
        !is_valid_address(candidate),
{
}

/// The message carried by the error for a rejected `candidate`.
pub open spec fn rejection(candidate: Seq<char>) -> Seq<char> {
    candidate + " is not a valid email"@
}

/// An email address that has passed validation.
///
/// The text is kept exactly as it was given. A value of this type exists
/// only for a text that [`is_valid_address`] holds of.
#[derive(Debug)]
pub struct Email(String);

impl View for Email {
    type V = Seq<char>;

    closed spec fn view(&self) -> Seq<char> {
        self.0@
    }
}

impl Email {
    #[verifier::type_invariant]
    spec fn validated(self) -> bool {
        is_valid_address(self.0@)
    }

    /// Validates `s` and, if it is an address, wraps it unchanged.
    pub fn parse(s: String) -> (r: Result<Email, String>)
        ensures
            r is Ok <==> is_valid_address(s@),
            r matches Ok(email) ==> email@ == s@,
            r matches Err(message) ==> message@ == rejection(s@),
    {
        if shaped(s.as_str()) && validator_accepts(s.as_str()) {
            Ok(Email(s))
        } else {
            Err(s.concat(" is not a valid email"))
        }
    }

    /// The address as text.
    pub fn as_str(&self) -> (text: &str)
        ensures
            text@ == self@,
            is_valid_address(text@),
    {
        proof {
            use_type_invariant(self);
        }
        self.0.as_str()
    }
}

impl Clone for Email {
    fn clone(&self) -> (copy: Self)
        ensures
            copy == *self,
    {
        proof {
            use_type_invariant(self);
        }
        Email(self.0.clone())
    }
}

impl AsRef<str> for Email {
    fn as_ref(&self) -> (text: &str)
        ensures
            text@ == self@,
            is_valid_address(text@),
    {
        proof {
            use_type_invariant(self);
        }
        self.0.as_str()
    }
}

} // verus!
