//! The identifier of a login attempt: a UUID in its hyphenated form.

use super::code::is_code_text;
use uuid::Uuid;
use vstd::prelude::*;
use vstd::std_specs::cmp::PartialEqSpecImpl;

verus! {

/// The 128-bit value that a text denotes as a UUID, where it denotes one:
/// what `uuid::Uuid::parse_str` returns for the text, taken as a number
/// with the first byte highest. The texts it takes are 32 hexadecimal
/// digits, the same with hyphens after the 8th, 12th, 16th and 20th, that
/// form in braces, and that form after `urn:uuid:`; letters of either case.
pub uninterp spec fn uuid_value(text: Seq<char>) -> Option<u128>;

/// One of the 32 hexadecimal digits of a 128-bit value, the highest first,
/// in lower case.
pub open spec fn hex_digit_at(value: u128, place: int) -> char {
    let nibble = (value >> ((4 * (31 - place)) as u128)) & 0xf;
    if nibble < 10 {
        ('0' as u128 + nibble) as char
    } else {
        ('a' as u128 + (nibble - 10)) as char
    }
}

/// The hyphenated form of a 128-bit value: 36 characters, which are its 32
/// hexadecimal digits in lower case, in groups of 8, 4, 4, 4 and 12 with a
/// hyphen between two groups.
pub open spec fn hyphenated_text(value: u128) -> Seq<char> {
    Seq::new(
        36,
        |i: int|
            if i == 8 || i == 13 || i == 18 || i == 23 {
                '-'
            } else if i < 8 {
                hex_digit_at(value, i)
            } else if i < 13 {
                hex_digit_at(value, i - 1)
            } else if i < 18 {
                hex_digit_at(value, i - 2)
            } else if i < 23 {
                hex_digit_at(value, i - 3)
            } else {
                hex_digit_at(value, i - 4)
            },
    )
}

/// Calls `uuid::Uuid::parse_str`, and `Uuid::as_u128` on what it accepts.
///
/// Trusted: whether the text is accepted, and as which value, depends on
/// the text alone.
#[verifier::external_body]
fn parse_uuid(text: &str) -> (value: Option<u128>)
    ensures
        value == uuid_value(text@),
{
    match Uuid::parse_str(text) {
        Ok(uuid) => Some(uuid.as_u128()),
        Err(_) => None,
    }
}

/// Calls `to_string` on the `uuid::Uuid` made by `Uuid::from_u128`.
///
/// Trusted: a UUID is displayed in its hyphenated lower-case form, and
/// `Uuid::parse_str` reads that form back as the same value.
#[verifier::external_body]
fn hyphenated(value: u128) -> (text: String)
    ensures
        text@ == hyphenated_text(value),
        uuid_value(text@) == Some(value),
{
    Uuid::from_u128(value).to_string()
}

/// A 128-bit value is a random UUID by its form: its version is 4 and its
/// variant is the one of RFC 4122.
pub open spec fn is_version_4(value: u128) -> bool {
    (value >> 76u128) & 0xf == 4 && (value >> 62u128) & 0x3 == 2
}

/// Calls `uuid::Uuid::new_v4`, and `Uuid::as_u128` on the result.
///
/// Trusted: the value carries version 4 and the RFC variant. The other 122
/// bits come from the system's random source, so nothing is said of them.
/// `new_v4` panics where that source fails.
#[verifier::external_body]
fn random_uuid() -> (value: u128)
    ensures
        is_version_4(value),
{
    Uuid::new_v4().as_u128()
}

/// The identifier of a login attempt: a UUID in its hyphenated form.
#[derive(Debug)]
pub struct LoginId(String);

impl View for LoginId {
    type V = Seq<char>;

    closed spec fn view(&self) -> Seq<char> {
        self.0@
    }
}

/// A login id as text: the hyphenated form of the value that it denotes.
pub open spec fn is_login_id_text(text: Seq<char>) -> bool {
    &&& uuid_value(text) is Some
    &&& text == hyphenated_text(uuid_value(text)->0)
}

impl LoginId {
    #[verifier::type_invariant]
    spec fn valid(self) -> bool {
        is_login_id_text(self.0@)
    }

    /// What parsing makes of a text: the hyphenated form of the UUID that
    /// it denotes, nothing where it denotes none.
    pub open spec fn spec_parse(raw: Seq<char>) -> Option<Seq<char>> {
        match uuid_value(raw) {
            Some(value) => Some(hyphenated_text(value)),
            None => None,
        }
    }

    /// Takes the string as a login id, or says that it is none. Whatever
    /// form the UUID came in, the id holds its hyphenated form.
    pub fn parse(id: String) -> (parsed: Result<LoginId, String>)
        ensures
            match parsed {
                Ok(login_id) => LoginId::spec_parse(id@) == Some(login_id@),
                Err(reason) => LoginId::spec_parse(id@) is None && reason@
                    == "Invalid Login ID format"@,
            },
    {
        match parse_uuid(id.as_str()) {
            Some(value) => Ok(LoginId::from_value(value)),
            None => Err("Invalid Login ID format".to_owned()),
        }
    }

    /// The login id for a 128-bit value.
    pub fn from_value(value: u128) -> (login_id: LoginId)
        ensures
            login_id@ == hyphenated_text(value),
            uuid_value(login_id@) == Some(value),
    {
        LoginId(hyphenated(value))
    }

    /// The id as text: 36 characters.
    pub fn as_ref(&self) -> (text: &str)
        ensures
            text@ == self@,
            is_login_id_text(self@),
    {
        proof {
            use_type_invariant(self);
        }
        self.0.as_str()
    }
}

impl Default for LoginId {
    /// A fresh id, drawn at random: a UUID of version 4.
    fn default() -> (login_id: LoginId)
        ensures
            is_login_id_text(login_id@),
            is_version_4(uuid_value(login_id@)->0),
    {
        LoginId::from_value(random_uuid())
    }
}

impl Clone for LoginId {
    fn clone(&self) -> (copy: LoginId)
        ensures
            copy@ == self@,
    {
        proof {
            use_type_invariant(self);
        }
        LoginId(self.0.clone())
    }
}

impl PartialEq for LoginId {
    fn eq(&self, other: &LoginId) -> (equal: bool) {
        self.0 == other.0
    }
}

impl Eq for LoginId {

}

/// Two ids are equal where their texts are.
impl PartialEqSpecImpl for LoginId {
    open spec fn obeys_eq_spec() -> bool {
        true
    }

    open spec fn eq_spec(&self, other: &LoginId) -> bool {
        self@ == other@
    }
}

/// Parsing the text of a login id gives the same text: an id is its own
/// canonical form.
pub proof fn lemma_login_id_parse_round_trip(text: Seq<char>)
    requires
        is_login_id_text(text),
    ensures
        LoginId::spec_parse(text) == Some(text),
{
}

/// A login id is never a one-time code: the one has 36 characters, the
/// other six.
pub proof fn lemma_login_id_is_no_code(id: Seq<char>, code: Seq<char>)
    requires
        is_login_id_text(id),
        is_code_text(code),
    ensures
        id != code,
        id.len() == 36,
{
}

} // verus!
