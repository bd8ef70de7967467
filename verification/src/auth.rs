//! Basic authentication: what an `Authorization` header presents, and whether
//! that is the one configured pair.
//!
//! A header is accepted when it reads `Basic `, then the base64 form of
//! `username:password`. The decoded bytes are split at their first colon, so a
//! password may hold colons and a username may not. Anything else presents
//! nothing.

use vstd::prelude::*;
use vstd::slice::*;
use vstd::string::*;
use vstd::utf8::*;

verus! {

/// The byte that parts a username from a password.
pub const COLON: u8 = 0x3a;

/// The length of the scheme's name and the space after it.
pub const SCHEME_LEN: usize = 6;

/// A username and a password, as mathematical values.
pub struct CredentialPair {
    pub username: Seq<char>,
    pub password: Seq<char>,
}

/// The pair that a request presented.
#[derive(Clone, Debug, PartialEq, Eq)]
pub struct BasicAuth {
    pub username: String,
    pub password: String,
}

impl View for BasicAuth {
    type V = CredentialPair;

    open spec fn view(&self) -> CredentialPair {
        CredentialPair { username: self.username@, password: self.password@ }
    }
}

/// The one pair that the service is configured to accept.
#[derive(Clone, Debug, PartialEq, Eq)]
pub struct Credentials {
    pub username: String,
    pub password: String,
}

impl View for Credentials {
    type V = CredentialPair;

    open spec fn view(&self) -> CredentialPair {
        CredentialPair { username: self.username@, password: self.password@ }
    }
}

/// What the standard base64 alphabet, with padding, decodes `encoded` to;
/// `None` where `encoded` is not such an encoding.
pub uninterp spec fn base64_decoded(encoded: Seq<u8>) -> Option<Seq<u8>>;

/// The scheme's name and the space after it: the text `Basic `, in UTF-8.
pub open spec fn scheme() -> Seq<u8> {
    "Basic ".spec_bytes()
}

/// The scheme, byte by byte.
pub proof fn scheme_bytes()
    ensures
        scheme() == seq![0x42u8, 0x61u8, 0x73u8, 0x69u8, 0x63u8, 0x20u8],
        scheme().len() == SCHEME_LEN,
{
    let text = "Basic "@;
    reveal_strlit("Basic ");
    assert(is_ascii_chars(text));
    is_ascii_chars_encode_utf8(text);
    assert(encode_utf8(text) =~= seq![0x42u8, 0x61u8, 0x73u8, 0x69u8, 0x63u8, 0x20u8]);
}

/// What follows the scheme in a header, if the header starts with the scheme.
pub open spec fn token_of(header: Seq<u8>) -> Option<Seq<u8>> {
    if scheme().is_prefix_of(header) {
        Some(header.skip(SCHEME_LEN as int))
    } else {
        None
    }
}

/// The pair held by decoded bytes: the text before the first colon and the
/// text after it. There is none without a colon, or where either side is not
/// UTF-8.
pub open spec fn pair_in(decoded: Seq<u8>) -> Option<CredentialPair> {
    match decoded.index_of_first(COLON) {
        Some(at) => {
            let username = decoded.subrange(0, at);
            let password = decoded.subrange(at + 1, decoded.len() as int);
            if valid_utf8(username) && valid_utf8(password) {
                Some(
                    CredentialPair {
                        username: decode_utf8(username),
                        password: decode_utf8(password),
                    },
                )
            } else {
                None
            }
        },
        None => None,
    }
}

/// The first colon of `bytes` stands at `at` when a colon stands there and
/// none stands before.
pub proof fn first_colon_at(bytes: Seq<u8>, at: int)
    requires
        0 <= at < bytes.len(),
        bytes[at] == COLON,
        forall|j: int| 0 <= j < at ==> bytes[j] != COLON,
    ensures
        bytes.index_of_first(COLON) == Some(at),
{
    bytes.index_of_first_ensures(COLON);
}

/// Bytes without a colon have no first colon.
pub proof fn no_colon_in(bytes: Seq<u8>)
    requires
        forall|j: int| 0 <= j < bytes.len() ==> bytes[j] != COLON,
    ensures
        bytes.index_of_first(COLON) is None,
{
    bytes.index_of_first_ensures(COLON);
}

/// The pair held by a base64 token.
pub open spec fn pair_in_token(token: Seq<u8>) -> Option<CredentialPair> {
    match base64_decoded(token) {
        Some(decoded) => pair_in(decoded),
        None => None,
    }
}

/// The pair that a header presents.
pub open spec fn pair_in_header(header: Seq<u8>) -> Option<CredentialPair> {
    match token_of(header) {
        Some(token) => pair_in_token(token),
        None => None,
    }
}

/// The view of a parsed pair, if there is one.
pub open spec fn presented(auth: Option<BasicAuth>) -> Option<CredentialPair> {
    match auth {
        Some(a) => Some(a@),
        None => None,
    }
}

/// The bytes of a header, if the request carried one.
pub open spec fn header_bytes(authorization: Option<&str>) -> Option<Seq<u8>> {
    match authorization {
        Some(header) => Some(header.spec_bytes()),
        None => None,
    }
}

/// The view of the configured pair, if one is configured.
pub open spec fn configured(expected: Option<&Credentials>) -> Option<CredentialPair> {
    match expected {
        Some(credentials) => Some(credentials@),
        None => None,
    }
}

/// The pair that two settings configure: both must be set.
pub open spec fn pair_of_settings(
    username: Option<Seq<char>>,
    password: Option<Seq<char>>,
) -> Option<CredentialPair> {
    match (username, password) {
        (Some(username), Some(password)) => Some(CredentialPair { username, password }),
        _ => None,
    }
}

/// The text of a setting, if it is set.
pub open spec fn setting(value: Option<String>) -> Option<Seq<char>> {
    match value {
        Some(text) => Some(text@),
        None => None,
    }
}

/// Whether a request with this header, or without one, is let through when
/// `expected` is the configured pair. Without a header nothing is let through,
/// and without a configured pair nobody is.
pub open spec fn accepts(
    authorization: Option<Seq<u8>>,
    expected: Option<CredentialPair>,
) -> bool {
    match (authorization, expected) {
        (Some(header), Some(pair)) => pair_in_header(header) == Some(pair),
        _ => false,
    }
}

/// `Engine::decode` of the `base64` crate, on its `STANDARD` engine. The
/// contract claims only that the outcome is a function of the input bytes,
/// which it calls `base64_decoded`; the decoding itself is not proved here.
#[verifier::external_body]
fn decode_base64(encoded: &[u8]) -> (decoded: Option<Vec<u8>>)
    ensures
        decoded matches Some(bytes) ==> base64_decoded(encoded@) == Some(bytes@),
        decoded is None ==> base64_decoded(encoded@) is None,
{
    match base64::Engine::decode(&base64::engine::general_purpose::STANDARD, encoded) {
        Ok(bytes) => Some(bytes),
        Err(_) => None,
    }
}

/// `String::from_utf8`. The contract claims that it succeeds exactly on valid
/// UTF-8 and then yields the text that the bytes encode.
#[verifier::external_body]
fn text_of(bytes: Vec<u8>) -> (text: Option<String>)
    ensures
        text matches Some(s) ==> valid_utf8(bytes@) && s@ == decode_utf8(bytes@),
        text is None ==> !valid_utf8(bytes@),
{
    match String::from_utf8(bytes) {
        Ok(s) => Some(s),
        Err(_) => None,
    }
}

impl BasicAuth {
    /// Splits decoded bytes at their first colon into username and password.
    pub fn from_decoded(decoded: &[u8]) -> (auth: Option<BasicAuth>)
        ensures
            presented(auth) == pair_in(decoded@),
    {
        let mut at: usize = 0;
        while at < decoded.len() && decoded[at] != COLON
            invariant
                at <= decoded.len(),
                forall|j: int| 0 <= j < at ==> decoded@[j] != COLON,
            decreases decoded.len() - at,
        {
            at += 1;
        }
        if at == decoded.len() {
            proof {
                no_colon_in(decoded@);
            }
            return None;
        }
        proof {
            first_colon_at(decoded@, at as int);
        }
        let username = text_of(slice_to_vec(slice_subrange(decoded, 0, at)));
        let password = text_of(slice_to_vec(slice_subrange(decoded, at + 1, decoded.len())));
        match (username, password) {
            (Some(username), Some(password)) => Some(BasicAuth { username, password }),
            _ => None,
        }
    }

    /// Decodes a base64 token and reads the pair in it.
    pub fn from_base64_encoded(token: &[u8]) -> (auth: Option<BasicAuth>)
        ensures
            presented(auth) == pair_in_token(token@),
    {
        match decode_base64(token) {
            Some(decoded) => BasicAuth::from_decoded(decoded.as_slice()),
            None => None,
        }
    }

    /// Reads the pair that the value of an `Authorization` header presents.
    pub fn from_authorization_header(header: &str) -> (auth: Option<BasicAuth>)
        ensures
            presented(auth) == pair_in_header(header.spec_bytes()),
    {
        let bytes = header.as_bytes();
        proof {
            scheme_bytes();
        }
        if !starts_with_scheme(bytes) {
            return None;
        }
        BasicAuth::from_base64_encoded(slice_subrange(bytes, SCHEME_LEN, bytes.len()))
    }

    /// Whether this is the configured pair: both fields equal, exactly.
    pub fn matches(&self, expected: &Credentials) -> (ok: bool)
        ensures
            ok == (self@ == expected@),
    {
        self.username == expected.username && self.password == expected.password
    }
}

/// Whether `header` starts with the scheme.
fn starts_with_scheme(header: &[u8]) -> (ok: bool)
    ensures
        ok == scheme().is_prefix_of(header@),
{
    proof {
        scheme_bytes();
    }
    header.len() >= SCHEME_LEN && header[0] == 0x42 && header[1] == 0x61 && header[2] == 0x73
        && header[3] == 0x69 && header[4] == 0x63 && header[5] == 0x20
}

impl Credentials {
    /// The configured pair, from the two settings as they were read. Where
    /// either is unset there is no pair, and nobody will authenticate.
    pub fn from_settings(username: Option<String>, password: Option<String>) -> (expected: Option<
        Credentials,
    >)
        ensures
            match expected {
                Some(credentials) => pair_of_settings(setting(username), setting(password))
                    == Some(credentials@),
                None => pair_of_settings(setting(username), setting(password)) is None,
            },
    {
        match (username, password) {
            (Some(username), Some(password)) => Some(Credentials { username, password }),
            _ => None,
        }
    }
}

/// Decides whether a request is authenticated: a pair is configured, the
/// request carried a header, the header presents a pair, and the two are the
/// same.
pub fn authenticate(authorization: Option<&str>, expected: Option<&Credentials>) -> (ok: bool)
    ensures
        ok == accepts(header_bytes(authorization), configured(expected)),
{
    match (authorization, expected) {
        (Some(header), Some(expected)) => match BasicAuth::from_authorization_header(header) {
            Some(auth) => auth.matches(expected),
            None => false,
        },
        _ => false,
    }
}

} // verus!
