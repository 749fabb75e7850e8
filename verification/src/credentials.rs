//! The credentials of a login, as a connection URL carries them.
//!
//! The user name and the password stand in the userinfo part of the URL. The
//! password is percent-encoded there and is decoded before it is used.

use crate::text::{decoded, text_of};
use percent_encoding::percent_decode;
use url::Url;
use vstd::prelude::*;
use vstd::utf8::*;

verus! {

/// `url::Url`, a parsed URL. Of what it holds, only the user name and the
/// password have a name here.
#[verifier::external_type_specification]
#[verifier::external_body]
pub struct ExUrl(Url);

/// The value of a hexadecimal digit, in either case.
pub open spec fn hex_digit(byte: u8) -> Option<int> {
    if 0x30 <= byte <= 0x39 {
        Some(byte - 0x30)
    } else if 0x41 <= byte <= 0x46 {
        Some(byte - 0x41 + 10)
    } else if 0x61 <= byte <= 0x66 {
        Some(byte - 0x61 + 10)
    } else {
        None
    }
}

/// Whether a percent sign followed by two hexadecimal digits stands at the
/// start of `bytes`.
pub open spec fn starts_with_escape(bytes: Seq<u8>) -> bool {
    &&& bytes.len() >= 3
    &&& bytes[0] == 0x25
    &&& hex_digit(bytes[1]) is Some
    &&& hex_digit(bytes[2]) is Some
}

/// The bytes with every percent sign that two hexadecimal digits follow
/// replaced, together with the digits, by the byte that the digits spell.
/// Every other byte stands for itself.
pub open spec fn percent_decoded(bytes: Seq<u8>) -> Seq<u8>
    decreases bytes.len(),
{
    if bytes.len() == 0 {
        Seq::empty()
    } else if starts_with_escape(bytes) {
        seq![(16 * hex_digit(bytes[1])->0 + hex_digit(bytes[2])->0) as u8] + percent_decoded(
            bytes.skip(3),
        )
    } else {
        seq![bytes[0]] + percent_decoded(bytes.skip(1))
    }
}

/// The percent-decoding of `input`, by `percent_encoding::percent_decode`.
///
/// The contract claims that the call replaces every percent sign that two
/// hexadecimal digits follow, together with the digits, by the byte that the
/// digits spell, and hands on every other byte as it is.
#[verifier::external_body]
fn percent_decode_bytes(input: &[u8]) -> (output: Vec<u8>)
    ensures
        output@ == percent_decoded(input@),
{
    percent_decode(input).collect()
}

/// The user name that a URL holds: what `Url::username` returns for it.
pub uninterp spec fn url_username_of(url: Url) -> Seq<char>;

/// The password that a URL holds, if it holds one: what `Url::password`
/// returns for it.
pub uninterp spec fn url_password_of(url: Url) -> Option<Seq<char>>;

/// The user name of the URL, by `Url::username`.
///
/// The contract claims only that the call depends on the URL alone: its
/// result is the user name that the URL holds, whatever that is.
#[verifier::external_body]
fn url_username(url: &Url) -> (name: String)
    ensures
        name@ == url_username_of(*url),
{
    url.username().to_owned()
}

/// The password of the URL, if it has one, by `Url::password`.
///
/// The contract claims only that the call depends on the URL alone: its
/// result is the password that the URL holds, or nothing where the URL holds
/// none.
#[verifier::external_body]
fn url_password(url: &Url) -> (password: Option<String>)
    ensures
        match password {
            Some(text) => url_password_of(*url) == Some(text@),
            None => url_password_of(*url) is None,
        },
{
    match url.password() {
        Some(text) => Some(text.to_owned()),
        None => None,
    }
}

/// The text that a password stands for once its percent-encoding is
/// undone, if the decoded bytes are well-formed UTF-8.
pub open spec fn decoded_password(password: Seq<char>) -> Option<Seq<char>> {
    decoded(percent_decoded(encode_utf8(password)))
}

/// Whether no byte reads as a percent sign.
pub open spec fn plain(bytes: Seq<u8>) -> bool {
    forall|i: int| 0 <= i < bytes.len() ==> bytes[i] != 0x25
}

/// Bytes that hold no percent sign stand for themselves.
pub proof fn lemma_plain_bytes(bytes: Seq<u8>)
    requires
        plain(bytes),
    ensures
        percent_decoded(bytes) == bytes,
    decreases bytes.len(),
{
    if bytes.len() > 0 {
        lemma_plain_bytes(bytes.skip(1));
        assert(seq![bytes[0]] + bytes.skip(1) =~= bytes);
    }
}

/// The encoding of a character other than the percent sign holds no byte
/// that reads as a percent sign.
proof fn lemma_encoded_character(c: char)
    requires
        c != '%',
    ensures
        plain(encode_scalar(c as u32)),
{
    let s = c as u32;
    char_is_scalar(c);
    assert(s <= 0x7F && s != 0x25 ==> (s & 0x7F) as u8 != 0x25) by (bit_vector);
    assert forall|b: u8|
        (0x80 | b) != 0x25 && (0xC0 | b) != 0x25 && (0xE0 | b) != 0x25 && (0xF0 | b) != 0x25 by {
        assert((0x80 | b) != 0x25 && (0xC0 | b) != 0x25 && (0xE0 | b) != 0x25 && (0xF0 | b)
            != 0x25) by (bit_vector);
    }
}

/// The encoding of text without a percent sign holds no byte that reads as
/// a percent sign.
proof fn lemma_encoded_text(text: Seq<char>)
    requires
        forall|i: int| 0 <= i < text.len() ==> text[i] != '%',
    ensures
        plain(encode_utf8(text)),
    decreases text.len(),
{
    if text.len() > 0 {
        let first = encode_scalar(text[0] as u32);
        let rest = encode_utf8(text.drop_first());
        lemma_encoded_character(text[0]);
        lemma_encoded_text(text.drop_first());
        assert forall|j: int| 0 <= j < encode_utf8(text).len() implies encode_utf8(text)[j]
            != 0x25 by {
            if j >= first.len() {
                assert(encode_utf8(text)[j] == rest[j - first.len()]);
            }
        }
    }
}

/// A password without a percent sign is taken as it is.
pub proof fn lemma_plain_password(password: Seq<char>)
    requires
        forall|i: int| 0 <= i < password.len() ==> password[i] != '%',
    ensures
        decoded_password(password) == Some(password),
{
    lemma_encoded_text(password);
    lemma_plain_bytes(encode_utf8(password));
    encode_utf8_valid_utf8(password);
    encode_utf8_decode_utf8(password);
}

/// Who logs in, and with which password.
#[derive(Clone, Debug, PartialEq, Eq)]
pub struct Credentials {
    pub user: String,
    /// The password as the URL spells it, percent-encoded.
    pub password: String,
}

impl Credentials {
    /// The credentials that the userinfo part of a URL gives: its user name,
    /// and its password or, where it has none, the empty password.
    pub fn from_userinfo(username: String, password: Option<String>) -> (credentials: Credentials)
        ensures
            credentials.user@ == username@,
            credentials.password@ == match password {
                Some(text) => text@,
                None => Seq::<char>::empty(),
            },
    {
        let password = match password {
            Some(text) => text,
            None => String::new(),
        };
        Credentials { user: username, password }
    }

    /// The credentials that a URL carries: its user name, and its password
    /// as the URL spells it or, where it has none, the empty password.
    pub fn from_url(url: &Url) -> (credentials: Credentials)
        ensures
            credentials.user@ == url_username_of(*url),
            credentials.password@ == match url_password_of(*url) {
                Some(text) => text,
                None => Seq::<char>::empty(),
            },
    {
        Credentials::from_userinfo(url_username(url), url_password(url))
    }

    /// The password with its percent-encoding undone, or nothing when the
    /// decoded bytes are not well-formed UTF-8.
    pub fn decode_password(&self) -> (decoded: Option<String>)
        ensures
            match decoded {
                Some(text) => decoded_password(self.password@) == Some(text@),
                None => decoded_password(self.password@) is None,
            },
    {
        let bytes = percent_decode_bytes(self.password.as_str().as_bytes());
        text_of(bytes.as_slice())
    }
}

} // verus!
