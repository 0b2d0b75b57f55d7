//! Validated email address and password.
//!
//! Both are strings that passed a check when they were made and cannot be
//! changed afterwards. Contracts speak of their text, a `Seq<char>`.
//!
//! An email address has a local part, an `@`, and a domain with at least
//! one dot. The syntax is checked by the `validator` crate, the dot here.

use validator::{ValidateEmail, ValidateLength};
use vstd::prelude::*;
use vstd::std_specs::cmp::PartialEqSpecImpl;

verus! {

/// The shortest password, in characters.
pub const MIN_PASSWORD_LENGTH: u64 = 8;

/// The longest password, in characters.
pub const MAX_PASSWORD_LENGTH: u64 = 256;

/// Whether a text is an email address by the rules of the HTML5 standard,
/// as the `validator` crate checks them: a local part of the permitted
/// characters, an `@`, and a domain name (possibly internationalised) or an
/// IP literal. What `validator::ValidateEmail::validate_email` returns for
/// the text.
pub uninterp spec fn html5_email(text: Seq<char>) -> bool;

/// The part of a text after its last `@` holds a dot: there is a dot with
/// no `@` behind it.
pub open spec fn domain_has_dot(text: Seq<char>) -> bool {
    exists|i: int|
        0 <= i < text.len() && #[trigger] text[i] == '.' && forall|j: int|
            i < j < text.len() ==> #[trigger] text[j] != '@'
}

/// What an email address has to satisfy: it is one by the rules of the
/// HTML5 standard, and its domain holds at least one dot.
pub open spec fn email_wellformed(text: Seq<char>) -> bool {
    html5_email(text) && domain_has_dot(text)
}

/// Calls `validator::ValidateEmail::validate_email` on a `String`.
///
/// Trusted: the answer depends on the text alone, and an accepted text is
/// not empty and holds an `@` (the function's first test).
#[verifier::external_body]
fn is_email(text: &String) -> (ok: bool)
    ensures
        ok == html5_email(text@),
        ok ==> text@.len() > 0 && text@.contains('@'),
{
    ValidateEmail::validate_email(text)
}

/// Whether the part after the last `@` holds a dot. The text is read from
/// its end to the first `.` or `@`.
fn has_dot_in_domain(text: &str) -> (yes: bool)
    ensures
        yes == domain_has_dot(text@),
{
    let mut i: usize = text.unicode_len();
    while i > 0
        invariant
            i <= text@.len(),
            forall|j: int| i <= j < text@.len() ==> #[trigger] text@[j] != '@' && text@[j] != '.',
        decreases i,
    {
        let c = text.get_char(i - 1);
        if c == '.' {
            assert(text@[i - 1] == '.');
            return true;
        }
        if c == '@' {
            assert(text@[i - 1] == '@');
            return false;
        }
        i -= 1;
    }
    false
}

/// Calls `validator::ValidateLength::validate_length` on a `String`, with a
/// minimum and a maximum and no exact length.
///
/// Trusted: the length it compares is the number of characters, and both
/// bounds are inclusive.
#[verifier::external_body]
fn length_within(text: &String, min: u64, max: u64) -> (ok: bool)
    ensures
        ok == (min <= text@.len() <= max),
{
    ValidateLength::validate_length(text, Some(min), Some(max), None)
}

/// What a password has to satisfy: between 8 and 256 characters, both
/// included. Nothing is asked of the characters themselves.
pub open spec fn password_acceptable(text: Seq<char>) -> bool {
    MIN_PASSWORD_LENGTH <= text.len() <= MAX_PASSWORD_LENGTH
}

/// The two texts of a request are an email address and a password.
pub open spec fn credentials_wellformed(email: Seq<char>, password: Seq<char>) -> bool {
    email_wellformed(email) && password_acceptable(password)
}

/// An email address that passed validation.
#[derive(Debug, Hash)]
pub struct Email(String);

impl View for Email {
    type V = Seq<char>;

    closed spec fn view(&self) -> Seq<char> {
        self.0@
    }
}

impl Email {
    #[verifier::type_invariant]
    spec fn valid(self) -> bool {
        email_wellformed(self.0@) && self.0@.len() > 0 && self.0@.contains('@')
    }

    /// What parsing makes of a text: the text itself where it is an email
    /// address, nothing otherwise.
    pub open spec fn spec_parse(raw: Seq<char>) -> Option<Seq<char>> {
        if email_wellformed(raw) {
            Some(raw)
        } else {
            None
        }
    }

    /// Takes the string as an email address, or says that it is none. A
    /// text that is empty, holds no `@`, or holds no dot after its last `@`
    /// is none.
    pub fn parse(email: String) -> (parsed: Result<Email, String>)
        ensures
            match parsed {
                Ok(address) => Email::spec_parse(email@) == Some(address@),
                Err(reason) => Email::spec_parse(email@) is None && reason@ == email@
                    + " is not a valid email."@,
            },
            email@.len() == 0 || !email@.contains('@') || !domain_has_dot(email@) ==> parsed
                is Err,
    {
        if is_email(&email) && has_dot_in_domain(email.as_str()) {
            Ok(Email(email))
        } else {
            Err(email.concat(" is not a valid email."))
        }
    }

    /// The address as text. It is a valid address, so it is not empty and
    /// holds an `@` with a dot somewhere after the last one.
    pub fn as_ref(&self) -> (text: &str)
        ensures
            text@ == self@,
            email_wellformed(self@),
            self@.len() > 0,
            self@.contains('@'),
    {
        proof {
            use_type_invariant(self);
        }
        self.0.as_str()
    }
}

impl Clone for Email {
    fn clone(&self) -> (copy: Email)
        ensures
            copy@ == self@,
    {
        proof {
            use_type_invariant(self);
        }
        Email(self.0.clone())
    }
}

impl PartialEq for Email {
    fn eq(&self, other: &Email) -> (equal: bool) {
        self.0 == other.0
    }
}

impl Eq for Email {

}

/// Two addresses are equal where their texts are, letter case included.
impl PartialEqSpecImpl for Email {
    open spec fn obeys_eq_spec() -> bool {
        true
    }

    open spec fn eq_spec(&self, other: &Email) -> bool {
        self@ == other@
    }
}

/// Parsing a valid address gives back the same text, and parsing that text
/// again gives it once more: a valid address is its own canonical form.
pub proof fn lemma_email_parse_round_trip(raw: Seq<char>)
    requires
        email_wellformed(raw),
    ensures
        Email::spec_parse(raw) == Some(raw),
        Email::spec_parse(Email::spec_parse(raw)->0) == Email::spec_parse(raw),
{
}

/// A text is taken as a password exactly where it has 8 to 256 characters:
/// every such text is, and none that is shorter or longer.
pub proof fn lemma_password_parse_by_length(raw: Seq<char>)
    ensures
        8 <= raw.len() <= 256 ==> Password::spec_parse(raw) == Some(raw),
        raw.len() < 8 || raw.len() > 256 ==> Password::spec_parse(raw) is None,
{
}

/// A password of acceptable length.
#[derive(Debug, Hash)]
pub struct Password(String);

impl View for Password {
    type V = Seq<char>;

    closed spec fn view(&self) -> Seq<char> {
        self.0@
    }
}

impl Password {
    #[verifier::type_invariant]
    spec fn valid(self) -> bool {
        password_acceptable(self.0@)
    }

    /// What parsing makes of a text: the text itself where its length is
    /// acceptable, nothing otherwise.
    pub open spec fn spec_parse(raw: Seq<char>) -> Option<Seq<char>> {
        if password_acceptable(raw) {
            Some(raw)
        } else {
            None
        }
    }

    /// Takes the string as a password, or says that its length is wrong.
    pub fn parse(password: String) -> (parsed: Result<Password, String>)
        ensures
            match parsed {
                Ok(secret) => Password::spec_parse(password@) == Some(secret@),
                Err(reason) => Password::spec_parse(password@) is None && reason@
                    == "Failed to parse string to a Password type"@,
            },
    {
        if length_within(&password, MIN_PASSWORD_LENGTH, MAX_PASSWORD_LENGTH) {
            Ok(Password(password))
        } else {
            Err("Failed to parse string to a Password type".to_owned())
        }
    }

    /// The password as text, of 8 to 256 characters.
    pub fn as_ref(&self) -> (text: &str)
        ensures
            text@ == self@,
            password_acceptable(self@),
    {
        proof {
            use_type_invariant(self);
        }
        self.0.as_str()
    }
}

impl Clone for Password {
    fn clone(&self) -> (copy: Password)
        ensures
            copy@ == self@,
    {
        proof {
            use_type_invariant(self);
        }
        Password(self.0.clone())
    }
}

impl PartialEq for Password {
    fn eq(&self, other: &Password) -> (equal: bool) {
        self.0 == other.0
    }
}

impl Eq for Password {

}

/// Two passwords are equal where their texts are.
impl PartialEqSpecImpl for Password {
    open spec fn obeys_eq_spec() -> bool {
        true
    }

    open spec fn eq_spec(&self, other: &Password) -> bool {
        self@ == other@
    }
}

} // verus!
