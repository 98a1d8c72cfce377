//! Credentials: 128-bit keys that callers present as UUID text.
//!
//! The text forms are fixed here as specification functions; reading and
//! writing them is left to the `uuid` crate, behind the three trusted
//! functions of this module.

use crate::text::{
    hex_digits, hex_value, lemma_hex_digits_len, lemma_hex_round_trip, lemma_hex_span_128,
};
use vstd::prelude::*;

verus! {

/// An API key: an opaque 128-bit token.
#[derive(Clone, Copy, Debug, PartialEq, Eq, Structural)]
pub struct Credential {
    pub bits: u128,
}

/// The text offered as a credential is not UUID text.
#[derive(Clone, Copy, Debug, PartialEq, Eq, Structural)]
pub struct MalformedCredential;

/// Whether `text` has thirty-six characters with hyphens closing the groups
/// of eight, four, four and four.
pub open spec fn dashed(text: Seq<char>) -> bool {
    &&& text.len() == 36
    &&& text[8] == '-'
    &&& text[13] == '-'
    &&& text[18] == '-'
    &&& text[23] == '-'
}

/// What is left of a dashed text when its four hyphens are taken out.
pub open spec fn undashed(text: Seq<char>) -> Seq<char> {
    text.subrange(0, 8) + text.subrange(9, 13) + text.subrange(14, 18) + text.subrange(19, 23)
        + text.subrange(24, 36)
}

/// The prefix of the URN form.
pub open spec fn urn_prefix() -> Seq<char> {
    seq!['u', 'r', 'n', ':', 'u', 'u', 'i', 'd', ':']
}

/// The thirty-two characters of `text` that should be its digits: all of it
/// in the plain form, what stands between the hyphens in the dashed form, and
/// the same after `urn:uuid:` in the URN form. `None` for any other shape.
pub open spec fn uuid_digits(text: Seq<char>) -> Option<Seq<char>> {
    if text.len() == 32 {
        Some(text)
    } else if dashed(text) {
        Some(undashed(text))
    } else if text.len() == 45 && text.subrange(0, 9) == urn_prefix() && dashed(
        text.subrange(9, 45),
    ) {
        Some(undashed(text.subrange(9, 45)))
    } else {
        None
    }
}

/// The 128-bit number that `text` writes as a UUID, most significant digit
/// first and in either letter case; `None` where `text` is no UUID.
pub open spec fn uuid_value(text: Seq<char>) -> Option<u128> {
    match uuid_digits(text) {
        Some(digits) => match hex_value(digits) {
            Some(value) => Some(value as u128),
            None => None,
        },
        None => None,
    }
}

/// The dashed lower-case text of a 128-bit number.
pub open spec fn hyphenated(bits: u128) -> Seq<char> {
    let digits = hex_digits(bits as nat, 32);
    digits.subrange(0, 8) + seq!['-'] + digits.subrange(8, 12) + seq!['-'] + digits.subrange(
        12,
        16,
    ) + seq!['-'] + digits.subrange(16, 20) + seq!['-'] + digits.subrange(20, 32)
}

/// Whether `bits` carries the marks of a randomly generated UUID: version
/// four, and the RFC 4122 variant.
pub open spec fn is_random_uuid(bits: u128) -> bool {
    (bits >> 76) & 0xf == 4 && (bits >> 62) & 0x3 == 2
}

#[verifier::external_type_specification]
#[verifier::external_body]
pub struct ExUuidError(uuid::Error);

/// `uuid::Uuid::parse_str`, with the parsed value taken as a number by
/// `Uuid::as_u128`. Trusted: the call succeeds exactly on the texts that
/// `uuid_value` reads, and gives the number that `uuid_value` gives.
#[verifier::external_body]
fn uuid_parse_str(text: &str) -> (r: Result<u128, uuid::Error>)
    ensures
        match r {
            Ok(bits) => uuid_value(text@) == Some(bits),
            Err(_) => uuid_value(text@) is None,
        },
{
    match uuid::Uuid::parse_str(text) {
        Ok(id) => Ok(id.as_u128()),
        Err(e) => Err(e),
    }
}

/// `uuid::Uuid::to_hyphenated`, written out through its `Display`. Trusted:
/// the text is the thirty-two lower-case digits of the number in groups of
/// eight, four, four, four and twelve, with a hyphen between groups.
#[verifier::external_body]
fn uuid_to_hyphenated(bits: u128) -> (text: String)
    ensures
        text@ == hyphenated(bits),
{
    uuid::Uuid::from_u128(bits).to_hyphenated().to_string()
}

/// `uuid::Uuid::new_v4`. Trusted: whatever random number comes back is marked
/// as version four of the RFC 4122 variant. The call draws on the operating
/// system's random source and panics where there is none.
#[verifier::external_body]
fn uuid_new_v4() -> (bits: u128)
    ensures
        is_random_uuid(bits),
{
    uuid::Uuid::new_v4().as_u128()
}

/// The text under which what `text` names is stored: for any spelling of a
/// credential its dashed lower-case text, and for a text that is no
/// credential the text itself.
pub open spec fn canonical_text(text: Seq<char>) -> Seq<char> {
    match uuid_value(text) {
        Some(bits) => hyphenated(bits),
        None => text,
    }
}

/// Writes a text the way it is stored: a credential, however it is spelled,
/// as its dashed lower-case text, and any other text as it is.
pub fn canonical(text: &str) -> (stored: String)
    ensures
        stored@ == canonical_text(text@),
{
    match Credential::parse(text) {
        Ok(credential) => credential.to_text(),
        Err(_) => text.to_owned(),
    }
}

impl Credential {
    /// The text under which this credential is stored and looked up.
    pub open spec fn text(self) -> Seq<char> {
        hyphenated(self.bits)
    }

    /// Reads a credential from UUID text in any of its three forms.
    pub fn parse(text: &str) -> (r: Result<Credential, MalformedCredential>)
        ensures
            r == match uuid_value(text@) {
                Some(bits) => Ok::<Credential, MalformedCredential>(Credential { bits }),
                None => Err(MalformedCredential),
            },
    {
        match uuid_parse_str(text) {
            Ok(bits) => Ok(Credential { bits }),
            Err(_) => Err(MalformedCredential),
        }
    }

    /// Writes the credential as dashed lower-case text.
    pub fn to_text(&self) -> (text: String)
        ensures
            text@ == self.text(),
    {
        uuid_to_hyphenated(self.bits)
    }

    /// Draws a fresh random credential.
    pub fn generate() -> (c: Credential)
        ensures
            is_random_uuid(c.bits),
    {
        Credential { bits: uuid_new_v4() }
    }
}

/// The dashed text has thirty-six characters, the hyphens in their places,
/// and the number's thirty-two digits between them.
pub proof fn lemma_hyphenated_shape(bits: u128)
    ensures
        dashed(hyphenated(bits)),
        undashed(hyphenated(bits)) == hex_digits(bits as nat, 32),
{
    let digits = hex_digits(bits as nat, 32);
    lemma_hex_digits_len(bits as nat, 32);
    let text = hyphenated(bits);
    assert(text.len() == 36);
    assert(undashed(text) =~= digits);
}

/// Writing a credential and reading the text back gives the credential.
pub proof fn lemma_text_round_trip(c: Credential)
    ensures
        uuid_value(c.text()) == Some(c.bits),
{
    lemma_hyphenated_shape(c.bits);
    lemma_hex_span_128();
    lemma_hex_round_trip(c.bits as nat, 32);
}

/// Every spelling of a credential is stored as the credential's own text,
/// and that text is stored as it is.
pub proof fn lemma_canonical_text(text: Seq<char>, c: Credential)
    ensures
        uuid_value(text) == Some(c.bits) ==> canonical_text(text) == c.text(),
        canonical_text(c.text()) == c.text(),
{
    lemma_text_round_trip(c);
}

/// Two credentials with the same text are the same credential.
pub proof fn lemma_text_injective(a: Credential, b: Credential)
    requires
        a.text() == b.text(),
    ensures
        a == b,
{
    lemma_text_round_trip(a);
    lemma_text_round_trip(b);
}

} // verus!
