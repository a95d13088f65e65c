//! Credential extraction: validating an HTTP Basic `Authorization` header
//! and decoding it into a username and password.
use crate::text::{
    contains_scheme_word, find_first, first_scheme_prefix, has_scheme_prefix,
    lemma_find_first_is, lemma_first_scheme_prefix_is, scheme_prefix_at, scheme_word_at, trim_str,
    trimmed,
};
use base64::Engine;
use vstd::prelude::*;
use vstd::string::StrSliceExecFns;
use vstd::utf8::{decode_utf8, valid_utf8};

verus! {

/// A verified username and password pair, decoded from a Basic header.
/// The password is sensitive: it is handed to the directory bind and must
/// not appear in any log or error message.
pub struct Credentials {
    pub username: String,
    pub password: String,
}

/// Why the `Authorization` header was rejected before any decoding.
#[derive(Clone, Copy, Debug, PartialEq, Eq)]
pub enum HeaderError {
    /// No `Authorization` header came with the request.
    MissingHeader,
    /// The header does not name the Basic scheme in any ASCII case.
    InvalidFormat,
}

/// Why a present Basic header could not be decoded into credentials.
#[derive(Clone, Copy, Debug, PartialEq, Eq)]
pub enum DecodeError {
    /// The scheme word with a following space and payload was not found.
    SchemeNotFound,
    /// The payload is not valid standard base64.
    InvalidBase64,
    /// The decoded payload is not valid UTF-8 text.
    InvalidUtf8,
    /// The decoded text holds no colon, so no username/password split exists.
    MissingSeparator,
}

/// What decoding the standard base64 alphabet returns on a given input, and
/// whether it is accepted at all.
pub uninterp spec fn b64_of(s: Seq<char>) -> Option<Seq<u8>>;

/// Relies on `base64::Engine::decode` with the `general_purpose::STANDARD`
/// engine: whether the input decodes, and to which bytes, is a function of
/// the input characters alone.
#[verifier::external_body]
fn b64_decode(s: &str) -> (r: Option<Vec<u8>>)
    ensures
        r is Some <==> b64_of(s@) is Some,
        r is Some ==> r.unwrap()@ == b64_of(s@).unwrap(),
{
    base64::engine::general_purpose::STANDARD.decode(s).ok()
}

/// Relies on `String::from_utf8`: it returns `Ok` exactly when the bytes are
/// valid UTF-8, and the returned string's characters decode those bytes.
#[verifier::external_body]
fn utf8_string(bytes: Vec<u8>) -> (r: Option<String>)
    ensures
        r is Some <==> valid_utf8(bytes@),
        r is Some ==> r.unwrap()@ == decode_utf8(bytes@),
{
    String::from_utf8(bytes).ok()
}

/// The outcome of validating an `Authorization` header value: accepted
/// exactly when a header is present and names the Basic scheme.
pub open spec fn spec_validate(header: Option<Seq<char>>) -> Result<(), HeaderError> {
    match header {
        None => Err(HeaderError::MissingHeader),
        Some(h) => if contains_scheme_word(h) {
            Ok(())
        } else {
            Err(HeaderError::InvalidFormat)
        },
    }
}

/// Validates that the `Authorization` header is present and names the Basic
/// scheme, in any ASCII case; no decoding happens here.
pub fn validate_auth_header(header: Option<&str>) -> (r: Result<(), HeaderError>)
    ensures
        r == spec_validate(match header {
            Some(h) => Some(h@),
            None => None,
        }),
{
    match header {
        None => Err(HeaderError::MissingHeader),
        Some(h) => {
            let n = h.unicode_len();
            if n < 5 {
                proof {
                    assert(forall|i: int| !scheme_word_at(h@, i));
                }
                return Err(HeaderError::InvalidFormat);
            }
            let mut i: usize = 0;
            while i <= n - 5
                invariant
                    header == Some(h),
                    0 <= i <= n - 4,
                    n == h@.len(),
                    n >= 5,
                    forall|j: int| 0 <= j < i ==> !scheme_word_at(h@, j),
                decreases n - i,
            {
                if scheme_word_here(h, i, n) {
                    proof {
                        assert(contains_scheme_word(h@)) by {
                            assert(scheme_word_at(h@, i as int));
                        }
                    }
                    return Ok(());
                }
                i = i + 1;
            }
            proof {
                assert(forall|j: int| j > n - 5 ==> !scheme_word_at(h@, j));
            }
            Err(HeaderError::InvalidFormat)
        },
    }
}

/// The five characters of `h` at `i` spell the Basic scheme word, compared
/// without regard to ASCII case.
fn scheme_word_here(h: &str, i: usize, n: usize) -> (r: bool)
    requires
        n == h@.len(),
        i + 5 <= n,
    ensures
        r == scheme_word_at(h@, i as int),
{
    let c0 = h.get_char(i);
    let c1 = h.get_char(i + 1);
    let c2 = h.get_char(i + 2);
    let c3 = h.get_char(i + 3);
    let c4 = h.get_char(i + 4);
    (c0 == 'b' || c0 == 'B') && (c1 == 'a' || c1 == 'A') && (c2 == 's' || c2 == 'S') && (c3 == 'i'
        || c3 == 'I') && (c4 == 'c' || c4 == 'C')
}

/// The base64 payload of a Basic header: everything after the first
/// occurrence of the scheme word followed by one space.
pub open spec fn spec_payload(h: Seq<char>) -> Seq<char>
    recommends
        has_scheme_prefix(h),
{
    h.subrange(first_scheme_prefix(h) + 6, h.len() as int)
}

/// The username and password taken from decoded text: the text up to the
/// first colon and the text after it, each trimmed of surrounding
/// whitespace; absent when the text holds no colon.
pub open spec fn spec_split_credentials(text: Seq<char>) -> Option<(Seq<char>, Seq<char>)> {
    let i = find_first(text, ':');
    if i == text.len() {
        None
    } else {
        Some((trimmed(text.take(i)), trimmed(text.skip(i + 1))))
    }
}

/// The full decode pipeline on an `Authorization` header value: locate the
/// scheme and payload, decode base64, decode UTF-8, split at the first colon
/// and trim both parts; or the exact error that stops it.
pub open spec fn spec_userdata(h: Seq<char>) -> Result<(Seq<char>, Seq<char>), DecodeError> {
    if !has_scheme_prefix(h) {
        Err(DecodeError::SchemeNotFound)
    } else {
        match b64_of(spec_payload(h)) {
            None => Err(DecodeError::InvalidBase64),
            Some(bytes) => if !valid_utf8(bytes) {
                Err(DecodeError::InvalidUtf8)
            } else {
                match spec_split_credentials(decode_utf8(bytes)) {
                    None => Err(DecodeError::MissingSeparator),
                    Some(p) => Ok(p),
                }
            },
        }
    }
}

/// Splits decoded payload text into credentials: the text up to the first
/// colon is the username, the text after it the password, both trimmed of
/// surrounding whitespace. Fails when the bytes are not UTF-8 or hold no
/// colon.
pub fn credentials_from_decoded(bytes: Vec<u8>) -> (r: Result<Credentials, DecodeError>)
    ensures
        match r {
            Ok(c) => valid_utf8(bytes@) && spec_split_credentials(decode_utf8(bytes@)) == Some(
                (c.username@, c.password@),
            ),
            Err(e) => {
                &&& !valid_utf8(bytes@) ==> e == DecodeError::InvalidUtf8
                &&& valid_utf8(bytes@) ==> spec_split_credentials(decode_utf8(bytes@)) is None && e
                    == DecodeError::MissingSeparator
            },
        },
{
    let text = match utf8_string(bytes) {
        Some(t) => t,
        None => {
            return Err(DecodeError::InvalidUtf8);
        },
    };
    let s: &str = text.as_str();
    let n = s.unicode_len();
    let mut i: usize = 0;
    while i < n && s.get_char(i) != ':'
        invariant
            0 <= i <= n,
            n == s@.len(),
            forall|j: int| 0 <= j < i ==> s@[j] != ':',
        decreases n - i,
    {
        i = i + 1;
    }
    proof {
        lemma_find_first_is(s@, ':', i as int);
    }
    if i == n {
        return Err(DecodeError::MissingSeparator);
    }
    let user_part = s.substring_char(0, i);
    let pass_part = s.substring_char(i + 1, n);
    proof {
        assert(user_part@ =~= s@.take(i as int));
        assert(pass_part@ =~= s@.skip(i as int + 1));
    }
    let username = trim_str(user_part);
    let password = trim_str(pass_part);
    Ok(Credentials { username, password })
}

/// Index of the first occurrence of the scheme word followed by one space,
/// or `None` when no such occurrence exists.
fn find_scheme_prefix(h: &str, n: usize) -> (r: Option<usize>)
    requires
        n == h@.len(),
    ensures
        match r {
            Some(i) => scheme_prefix_at(h@, i as int) && forall|j: int|
                0 <= j < i ==> !scheme_prefix_at(h@, j),
            None => !has_scheme_prefix(h@),
        },
{
    if n < 6 {
        proof {
            assert(forall|j: int| !scheme_prefix_at(h@, j));
        }
        return None;
    }
    let mut i: usize = 0;
    while i <= n - 6
        invariant
            0 <= i <= n - 5,
            n >= 6,
            n == h@.len(),
            forall|j: int| 0 <= j < i ==> !scheme_prefix_at(h@, j),
        decreases n - i,
    {
        if scheme_word_here(h, i, n) && h.get_char(i + 5) == ' ' {
            return Some(i);
        }
        i = i + 1;
    }
    proof {
        assert(forall|j: int| !scheme_prefix_at(h@, j));
    }
    None
}

/// Extracts the username and password from a Basic `Authorization` header:
/// finds the scheme word followed by one space, base64-decodes the payload
/// after it, decodes the bytes as UTF-8, splits the text at the first colon
/// and trims both parts of surrounding whitespace.
pub fn get_userdata_from_authorization(header: &str) -> (r: Result<Credentials, DecodeError>)
    ensures
        match r {
            Ok(c) => spec_userdata(header@) == Ok::<_, DecodeError>((c.username@, c.password@)),
            Err(e) => spec_userdata(header@) == Err::<(Seq<char>, Seq<char>), _>(e),
        },
{
    let n = header.unicode_len();
    let i = match find_scheme_prefix(header, n) {
        Some(i) => i,
        None => {
            return Err(DecodeError::SchemeNotFound);
        },
    };
    proof {
        lemma_first_scheme_prefix_is(header@, i as int);
    }
    let payload = header.substring_char(i + 6, n);
    proof {
        assert(payload@ =~= spec_payload(header@));
    }
    let decoded = match b64_decode(payload) {
        Some(d) => d,
        None => {
            return Err(DecodeError::InvalidBase64);
        },
    };
    credentials_from_decoded(decoded)
}

} // verus!
