//! What the control interface decides without touching the network or the
//! store: who a request comes from, and what it is answered with.

use crate::clock::now;
use crate::crypto::{
    bytes_of_pairs, digit_text, gen_pair, gen_shared_secret, hex_digit, is_readable,
    pairs_are_bytes, try_bufify_string, x25519_of, KEY_LEN, PAIRS,
};
use crate::data::Timestamp;
use crate::error::Error;
use crate::store::DAY_NANOS;
use vstd::prelude::*;
use vstd::string::{StrSliceExecFns, StringExecFns, StringSliceAdditionalSpecFns};
use vstd::utf8::{decode_utf8, encode_utf8, encode_utf8_decode_utf8, is_char_boundary};

verus! {

/// What every authorization header starts with.
pub const BEARER: &'static str = "Bearer ";

/// The length of `BEARER`.
pub const BEARER_LEN: usize = 7;

/// The 128 bits of the UUID that a text spells, in any of the forms that
/// the `uuid` crate reads, and nothing for any other text.
pub uninterp spec fn uuid_of(text: Seq<char>) -> Option<u128>;

/// Calls `uuid::Uuid::parse_str` and takes the UUID as 128 bits with
/// `as_u128`: what comes back depends on the text alone. A text that is no
/// UUID gives what the crate prints for it.
#[verifier::external_body]
fn parse_uuid(text: &str) -> (r: Result<u128, String>)
    ensures
        r is Ok <==> uuid_of(text@) is Some,
        r matches Ok(id) ==> uuid_of(text@) == Some(id),
{
    match uuid::Uuid::parse_str(text) {
        Ok(id) => Ok(id.as_u128()),
        Err(e) => Err(e.to_string()),
    }
}

/// The text starts with `Bearer `.
pub open spec fn has_bearer(header: Seq<char>) -> bool {
    header.len() >= BEARER_LEN && header.take(BEARER_LEN as int) == BEARER@
}

/// The position of the first `$` in a text, or its length where it has none.
pub open spec fn first_mark(text: Seq<char>) -> int
    decreases text.len(),
{
    if text.len() == 0 {
        0
    } else if text[0] == '$' {
        0
    } else {
        1 + first_mark(text.drop_first())
    }
}

/// The text before the first `$`.
pub open spec fn before_mark(text: Seq<char>) -> Seq<char> {
    text.take(first_mark(text))
}

/// The text after the first `$`.
pub open spec fn after_mark(text: Seq<char>) -> Seq<char> {
    text.skip(first_mark(text) + 1)
}

/// What an authorization header holds.
pub enum Header {
    /// It does not start with `Bearer `.
    NoBearer,
    /// It has no `$`, and so no key.
    NoKey,
    /// What stands before the `$` is no UUID.
    NoToken,
    /// A token and, between the first `$` and the next, the text of a key.
    Key { token: u128, key: Seq<char> },
}

/// Reads an authorization header: `Bearer `, a UUID, a `$`, and a key that
/// ends at the next `$` or at the end.
pub open spec fn read_header(header: Seq<char>) -> Header {
    let rest = header.skip(BEARER_LEN as int);
    if !has_bearer(header) {
        Header::NoBearer
    } else if first_mark(rest) == rest.len() {
        Header::NoKey
    } else {
        match uuid_of(before_mark(rest)) {
            None => Header::NoToken,
            Some(token) => Header::Key { token, key: before_mark(after_mark(rest)) },
        }
    }
}

/// `first_mark` lies within the text, points at a `$` unless it is the
/// length, and no `$` stands before it.
pub proof fn lemma_first_mark(text: Seq<char>)
    ensures
        0 <= first_mark(text) <= text.len(),
        first_mark(text) < text.len() ==> text[first_mark(text)] == '$',
        forall|j: int| 0 <= j < first_mark(text) ==> text[j] != '$',
    decreases text.len(),
{
    if text.len() > 0 && text[0] != '$' {
        let rest = text.drop_first();
        lemma_first_mark(rest);
        assert forall|j: int| 0 <= j < first_mark(text) implies text[j] != '$' by {
            if j > 0 {
                assert(text[j] == rest[j - 1]);
            }
        }
    }
}

/// A position with a `$`, or the length, before which no `$` stands is
/// `first_mark`.
pub proof fn lemma_first_mark_is(text: Seq<char>, at: int)
    requires
        0 <= at <= text.len(),
        at < text.len() ==> text[at] == '$',
        forall|j: int| 0 <= j < at ==> text[j] != '$',
    ensures
        first_mark(text) == at,
{
    lemma_first_mark(text);
    let first = first_mark(text);
    if first < at {
        assert(text[first] == '$');
    } else if first > at {
        assert(text[at] != '$');
    }
}

/// Whether the text starts with `Bearer `.
fn starts_with_bearer(header: &str) -> (yes: bool)
    ensures
        yes == has_bearer(header@),
{
    proof {
        reveal_strlit("Bearer ");
    }
    if header.unicode_len() < 7 {
        return false;
    }
    let mut i: usize = 0;
    while i < 7
        invariant
            i <= 7,
            header@.len() >= 7,
            BEARER@.len() == 7,
            forall|j: int| 0 <= j < i ==> header@[j] == BEARER@[j],
        decreases 7 - i,
    {
        if header.get_char(i) != BEARER.get_char(i) {
            assert(header@.take(7)[i as int] != BEARER@[i as int]);
            return false;
        }
        i += 1;
    }
    assert(header@.take(7) =~= BEARER@);
    true
}

/// The position of the first `$` in the text, or its length.
fn find_mark(text: &str) -> (at: usize)
    ensures
        at == first_mark(text@),
        at <= text@.len(),
{
    let len = text.unicode_len();
    let mut at: usize = 0;
    while at < len
        invariant
            at <= len,
            len == text@.len(),
            forall|j: int| 0 <= j < at ==> text@[j] != '$',
        decreases len - at,
    {
        if text.get_char(at) == '$' {
            proof {
                lemma_first_mark_is(text@, at as int);
            }
            return at;
        }
        at += 1;
    }
    proof {
        lemma_first_mark_is(text@, at as int);
    }
    at
}

/// Takes an authorization header apart into the token and the 32 bytes of
/// the public key. A header that is not of the form `Bearer <token>$<key>`
/// is answered with `Invalid value in Auth header`, a token that is no UUID
/// with a `Uuid` error, and a key with a pair that stands for no byte with a
/// `U8` error. The answer is `None` for a header whose key cannot be read.
pub fn try_break_auth_header(header: &str) -> (r: Option<Result<(u128, Vec<u8>), Error>>)
    ensures
        read_header(header@) is NoBearer || read_header(header@) is NoKey ==> (r matches Some(
            Err(e),
        ) && e is Other && e.text() == "Invalid value in Auth header"@),
        read_header(header@) is NoToken ==> (r matches Some(Err(e)) && e is Uuid),
        read_header(header@) matches Header::Key { token, key } ==> {
            &&& r is Some <==> is_readable(encode_utf8(key))
            &&& r matches Some(Ok(parts)) ==> parts.0 == token && pairs_are_bytes(
                encode_utf8(key),
                PAIRS as int,
            ) && parts.1@ == bytes_of_pairs(encode_utf8(key), PAIRS as int)
            &&& r matches Some(Err(e)) ==> e is U8 && !pairs_are_bytes(
                encode_utf8(key),
                PAIRS as int,
            )
        },
{
    if !starts_with_bearer(header) {
        return Some(Err(Error::new("Invalid value in Auth header")));
    }
    let rest = header.substring_char(7, header.unicode_len());
    assert(rest@ =~= header@.skip(7));
    let first = find_mark(rest);
    let len = rest.unicode_len();
    if first == len {
        return Some(Err(Error::new("Invalid value in Auth header")));
    }
    let id_str = rest.substring_char(0, first);
    let after = rest.substring_char(first + 1, len);
    assert(after@ =~= after_mark(rest@));
    let public = after.substring_char(0, find_mark(after));
    match parse_uuid(id_str) {
        Err(text) => Some(Err(Error::Uuid(text))),
        Ok(id) => match try_bufify_string(public) {
            None => None,
            Some(Err(e)) => Some(Err(e)),
            Some(Ok(key)) => Some(Ok((id, key))),
        },
    }
}

/// Takes an authorization header whose key can be read apart into the token
/// and the 32 bytes of the public key.
pub fn break_auth_header(header: &str) -> (r: Result<(u128, Vec<u8>), Error>)
    requires
        read_header(header@) matches Header::Key { key, .. } ==> is_readable(encode_utf8(key)),
    ensures
        read_header(header@) is NoBearer || read_header(header@) is NoKey ==> (r matches Err(e)
            && e is Other && e.text() == "Invalid value in Auth header"@),
        read_header(header@) is NoToken ==> (r matches Err(e) && e is Uuid),
        read_header(header@) matches Header::Key { token, key } ==> {
            &&& r matches Ok(parts) ==> parts.0 == token && pairs_are_bytes(
                encode_utf8(key),
                PAIRS as int,
            ) && parts.1@ == bytes_of_pairs(encode_utf8(key), PAIRS as int)
            &&& r matches Err(e) ==> e is U8 && !pairs_are_bytes(encode_utf8(key), PAIRS as int)
        },
{
    try_break_auth_header(header).unwrap()
}

/// Whether two runs of bytes are the same.
fn same_bytes(a: &[u8], b: &[u8]) -> (same: bool)
    ensures
        same == (a@ == b@),
{
    if a.len() != b.len() {
        return false;
    }
    let mut i: usize = 0;
    while i < a.len()
        invariant
            i <= a.len(),
            a@.len() == b@.len(),
            forall|j: int| 0 <= j < i ==> a@[j] == b@[j],
        decreases a.len() - i,
    {
        if a[i] != b[i] {
            return false;
        }
        i += 1;
    }
    assert(a@ =~= b@);
    true
}

/// Whether the secret that `private` and `public` give is the stored one.
/// Keys that are not 32 bytes long are answered with `Invalid public key
/// provided`.
pub fn check_shared_secret(private: &[u8], public: &[u8], shared: &[u8]) -> (r: Result<bool, Error>)
    ensures
        private@.len() == KEY_LEN && public@.len() == KEY_LEN ==> r == Ok::<bool, Error>(
            x25519_of(private@, public@) == shared@,
        ),
        !(private@.len() == KEY_LEN && public@.len() == KEY_LEN) ==> (r matches Err(e) && e is Other
            && e.text() == "Invalid public key provided"@),
{
    match gen_shared_secret(private, public) {
        Some(computed) => Ok(same_bytes(computed.as_slice(), shared)),
        None => Err(Error::new("Invalid public key provided")),
    }
}

/// The status of a reply that went well.
pub const OK: u16 = 200;

/// The status of a reply to a caller whose key exchange has expired, and to
/// one who may not change a flip.
pub const UNAUTHORIZED: u16 = 401;

/// The status of a reply to a caller who may not do what was asked.
pub const FORBIDDEN: u16 = 403;

/// The status of a reply to a request that failed.
pub const FAILED: u16 = 500;

/// What a request asks for.
#[derive(Debug, Clone, Copy, PartialEq, Eq, Structural)]
pub enum Route {
    Flip,
    SwitchFlips,
    Switches,
    UpdateSwitch,
    UpdateFlip,
}

impl Route {
    /// The status for a caller who is not let in: `UNAUTHORIZED` for a
    /// change of a flip and `FORBIDDEN` for everything else.
    pub open spec fn denied(self) -> u16 {
        if self is UpdateFlip {
            UNAUTHORIZED
        } else {
            FORBIDDEN
        }
    }

    /// The status for a caller who is not let in.
    pub fn denied_status(self) -> (status: u16)
        ensures
            status == self.denied(),
    {
        match self {
            Route::UpdateFlip => UNAUTHORIZED,
            _ => FORBIDDEN,
        }
    }
}

/// The reply to a request that failed: status 500, and the error as the
/// message of a JSON object.
pub fn error_response(e: &Error) -> (reply: (u16, String))
    ensures
        reply.0 == FAILED,
        reply.1@ == "{ \"message\": \""@ + e.text() + "\" }"@,
{
    let mut body = String::from_str("{ \"message\": \"");
    body.append(e.to_string().as_str());
    body.append("\" }");
    (FAILED, body)
}

/// The reply to a caller who is not let in.
pub fn unauthorized(status: u16) -> (reply: (u16, String))
    ensures
        reply.0 == status,
        reply.1@ == "{\"message\": \"Unauthorized\"}"@,
{
    (status, String::from_str("{\"message\": \"Unauthorized\"}"))
}

/// Whether a request on `route` goes ahead, given how its authorization was
/// judged: `None` to go ahead, or the reply that ends it.
pub fn authorize(route: Route, judged: Result<bool, Error>) -> (reply: Option<(u16, String)>)
    ensures
        judged == Ok::<bool, Error>(true) ==> reply is None,
        judged == Ok::<bool, Error>(false) ==> (reply matches Some(r) && r.0 == route.denied()
            && r.1@ == "{\"message\": \"Unauthorized\"}"@),
        judged matches Err(e) ==> (reply matches Some(r) && r.0 == FAILED && r.1@
            == "{ \"message\": \""@ + e.text() + "\" }"@),
{
    match judged {
        Ok(success) => {
            if !success {
                Some(unauthorized(route.denied_status()))
            } else {
                None
            }
        },
        Err(e) => Some(error_response(&e)),
    }
}

/// The reply with a body that was to be made: the body with status 200, or
/// the reply to the failure.
pub fn respond(made: Result<String, Error>) -> (reply: (u16, String))
    ensures
        made matches Ok(body) ==> reply.0 == OK && reply.1@ == body@,
        made matches Err(e) ==> reply.0 == FAILED && reply.1@ == "{ \"message\": \""@ + e.text()
            + "\" }"@,
{
    match made {
        Ok(body) => (OK, body),
        Err(e) => error_response(&e),
    }
}

/// A number below ten as its digit.
pub open spec fn digit(n: int) -> char {
    hex_digit(n)
}

/// A number that is not negative in decimal digits.
pub open spec fn digits_of(n: int) -> Seq<char>
    decreases n,
{
    if n < 10 {
        seq![digit(n)]
    } else {
        digits_of(n / 10) + seq![digit(n % 10)]
    }
}

/// A number in decimal, with a minus sign where it is negative.
pub open spec fn decimal_of(n: int) -> Seq<char> {
    if n < 0 {
        seq!['-'] + digits_of(-n)
    } else {
        digits_of(n)
    }
}

/// Appends the decimal digits of `n`.
fn push_digits(out: &mut String, n: u64)
    ensures
        final(out)@ == old(out)@ + digits_of(n as int),
    decreases n,
{
    if n >= 10 {
        push_digits(out, n / 10);
    }
    out.append(digit_text((n % 10) as u8));
    assert(out@ =~= old(out)@ + digits_of(n as int)) by {
        reveal_with_fuel(digits_of, 2);
    }
}

/// The reply to a request to flip a switch once the flip was handed on:
/// the code that was flipped with status 200, or the reply to the failure.
pub fn flipped_response(sent: Result<(), Error>, code: i32) -> (reply: (u16, String))
    ensures
        sent is Ok ==> reply.0 == OK && reply.1@ == "{\"flipped\": "@ + decimal_of(code as int)
            + "}"@,
        sent matches Err(e) ==> reply.0 == FAILED && reply.1@ == "{ \"message\": \""@ + e.text()
            + "\" }"@,
{
    match sent {
        Ok(_) => {
            let mut body = String::from_str("{\"flipped\": ");
            if code < 0 {
                proof {
                    reveal_strlit("-");
                }
                body.append("-");
                push_digits(&mut body, (-(code as i64)) as u64);
            } else {
                push_digits(&mut body, code as u64);
            }
            body.append("}");
            assert(body@ =~= "{\"flipped\": "@ + decimal_of(code as int) + "}"@);
            (OK, body)
        },
        Err(e) => error_response(&e),
    }
}

/// The text of a header after its first seven bytes can be cut off: the
/// header is that long, and the cut splits no character.
pub open spec fn has_token(header: Seq<u8>) -> bool {
    BEARER_LEN <= header.len() && is_char_boundary(header, BEARER_LEN as int)
}

/// The text of a header after its first seven bytes.
pub open spec fn token_text(header: Seq<u8>) -> Seq<char> {
    decode_utf8(header.skip(BEARER_LEN as int))
}

/// The token of a key exchange: the UUID that the header spells after its
/// first seven bytes, whatever these are. A text that is no UUID is answered
/// with a `Uuid` error. The answer is `None` for a header that is shorter
/// than seven bytes or has a character across the seventh.
pub fn try_bearer_token(header: &str) -> (r: Option<Result<u128, Error>>)
    ensures
        r is Some <==> has_token(header.spec_bytes()),
        r matches Some(Ok(token)) ==> uuid_of(token_text(header.spec_bytes())) == Some(token),
        r matches Some(Err(e)) ==> e is Uuid && uuid_of(token_text(header.spec_bytes())) is None,
{
    let len = header.as_bytes().len();
    if len < 7 || !header.is_char_boundary(7) {
        return None;
    }
    let (_, token) = header.split_at(7);
    proof {
        assert(token.spec_bytes() =~= header.spec_bytes().skip(7));
        encode_utf8_decode_utf8(token@);
    }
    match parse_uuid(token) {
        Ok(id) => Some(Ok(id)),
        Err(text) => Some(Err(Error::Uuid(text))),
    }
}

/// The token of a key exchange, from a header that is at least seven bytes
/// long with no character across the seventh.
pub fn bearer_token(header: &str) -> (r: Result<u128, Error>)
    requires
        has_token(header.spec_bytes()),
    ensures
        r matches Ok(token) ==> uuid_of(token_text(header.spec_bytes())) == Some(token),
        r matches Err(e) ==> e is Uuid && uuid_of(token_text(header.spec_bytes())) is None,
{
    try_bearer_token(header).unwrap()
}

/// A grant has expired once more than a day lies between the time it was
/// made and `now`.
pub open spec fn grant_expired(made: Timestamp, now: Timestamp) -> bool {
    now.nanos_since_epoch() - made.nanos_since_epoch() > DAY_NANOS
}

/// Whether a grant made at `made` has expired at `now`.
pub fn grant_is_expired_at(made: Timestamp, now: Timestamp) -> (expired: bool)
    ensures
        expired == grant_expired(made, now),
{
    let made_nanos: i128 = made.seconds as i128 * 1_000_000_000 + made.nanos as i128;
    let now_nanos: i128 = now.seconds as i128 * 1_000_000_000 + now.nanos as i128;
    now_nanos - made_nanos > DAY_NANOS
}

/// Whether a grant made at `made` has expired by the wall clock.
pub fn grant_is_expired(made: Timestamp) -> (expired: bool)
    ensures
        exists|at: Timestamp| expired == #[trigger] grant_expired(made, at),
{
    let clock = now();
    let expired = grant_is_expired_at(made, clock.at);
    assert(expired == grant_expired(made, clock.at));
    expired
}

/// The reply to a key exchange whose grant has expired.
pub fn expired_response() -> (reply: (u16, String))
    ensures
        reply.0 == UNAUTHORIZED,
        reply.1@ == "{\"status\": \"expired\"}"@,
{
    (UNAUTHORIZED, String::from_str("{\"status\": \"expired\"}"))
}

/// The reply to a key exchange that went well.
pub fn success_response() -> (reply: (u16, String))
    ensures
        reply.0 == OK,
        reply.1@ == "{\"status\": \"success\"}"@,
{
    (OK, String::from_str("{\"status\": \"success\"}"))
}

/// This side of a key exchange: a fresh private key, and the secret that it
/// shares with the owner of `their_public`. A public key that is not 32
/// bytes long is answered with `Failed to generate shared secret`.
pub fn exchange_keys(their_public: &[u8]) -> (r: Result<(Vec<u8>, Vec<u8>), Error>)
    ensures
        their_public@.len() == KEY_LEN ==> (r matches Ok(keys) && keys.0@.len() == KEY_LEN
            && keys.1@.len() == KEY_LEN && keys.1@ == x25519_of(keys.0@, their_public@)),
        their_public@.len() != KEY_LEN ==> (r matches Err(e) && e is Other && e.text()
            == "Failed to generate shared secret"@),
{
    let key_pair = gen_pair();
    let my_private = key_pair.sized_priv();
    match gen_shared_secret(my_private.as_slice(), their_public) {
        Some(shared) => Ok((my_private, shared)),
        None => Err(Error::new("Failed to generate shared secret")),
    }
}

} // verus!
