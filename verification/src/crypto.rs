//! The key exchange: X25519 key pairs, the shared secret of two parties, and
//! keys as hexadecimal text.

use crate::error::Error;
use rand::RngCore;
use vstd::prelude::*;
use vstd::string::{StringExecFns, StringSliceAdditionalSpecFns};
use vstd::utf8::{
    encode_utf8, encode_utf8_valid_utf8, is_ascii_chars, is_ascii_chars_encode_utf8,
    is_char_boundary, is_char_boundary_iff_not_is_continuation_byte,
    is_char_boundary_start_end_of_seq,
};

verus! {

/// The length of a key and of a shared secret.
pub const KEY_LEN: usize = 32;

/// What the X25519 function gives for the scalar `k` and the point `u`.
pub uninterp spec fn x25519_of(k: Seq<u8>, u: Seq<u8>) -> Seq<u8>;

/// Calls `x25519_dalek::x25519`, the byte-oriented X25519 function: it
/// depends on the scalar and the point alone.
#[verifier::external_body]
fn x25519(k: [u8; 32], u: [u8; 32]) -> (shared: [u8; 32])
    ensures
        shared@ == x25519_of(k@, u@),
{
    x25519_dalek::x25519(k, u)
}

/// Fills a key with random bytes from `rand::thread_rng`. Nothing is known of
/// the bytes.
#[verifier::external_body]
fn random_key() -> (key: [u8; 32]) {
    let mut key = [0u8; 32];
    rand::thread_rng().fill_bytes(&mut key);
    key
}

/// The base point of X25519: a nine and thirty-one zeros.
pub open spec fn base_point() -> Seq<u8> {
    Seq::new(32, |i: int| if i == 0 { 9u8 } else { 0u8 })
}

/// The public key that belongs to a private key.
pub open spec fn public_of(private: Seq<u8>) -> Seq<u8> {
    x25519_of(private, base_point())
}

/// A private key and the public key that belongs to it.
pub struct KeyPair {
    public: [u8; 32],
    private: [u8; 32],
}

impl KeyPair {
    /// The public key is the one that belongs to the private key.
    #[verifier::type_invariant]
    spec fn belongs_together(self) -> bool {
        self.public@ == public_of(self.private@)
    }

    /// The public key.
    pub closed spec fn public_key(self) -> Seq<u8> {
        self.public@
    }

    /// The private key.
    pub closed spec fn private_key(self) -> Seq<u8> {
        self.private@
    }

    /// The pair of a given private key.
    pub fn from_private(private: [u8; 32]) -> (pair: KeyPair)
        ensures
            pair.private_key() == private@,
            pair.public_key() == public_of(private@),
    {
        let mut base = [0u8; 32];
        base[0] = 9;
        assert(base@ =~= base_point());
        let public = x25519(private, base);
        KeyPair { public, private }
    }

    /// The public key, which is the one that belongs to the private key.
    pub fn public(&self) -> (key: Vec<u8>)
        ensures
            key@ == self.public_key(),
            key@ == public_of(self.private_key()),
            key@.len() == KEY_LEN,
    {
        proof {
            use_type_invariant(self);
        }
        copy_key(&self.public)
    }

    /// The private key.
    pub fn private(&self) -> (key: Vec<u8>)
        ensures
            key@ == self.private_key(),
            key@.len() == KEY_LEN,
    {
        copy_key(&self.private)
    }

    /// The private key, byte by byte.
    pub fn sized_priv(&self) -> (key: Vec<u8>)
        ensures
            key@ == self.private_key(),
            key@.len() == KEY_LEN,
    {
        copy_key(&self.private)
    }
}

/// The bytes of a key as a vector.
fn copy_key(key: &[u8; 32]) -> (bytes: Vec<u8>)
    ensures
        bytes@ == key@,
{
    let mut ret: Vec<u8> = Vec::with_capacity(32);
    let mut i: usize = 0;
    while i < 32
        invariant
            i <= 32,
            ret@ == key@.take(i as int),
        decreases 32 - i,
    {
        ret.push(key[i]);
        assert(key@.take(i + 1) =~= key@.take(i as int).push(key@[i as int]));
        i += 1;
    }
    assert(key@.take(32) =~= key@);
    ret
}

/// A fresh key pair: a random private key and the public key that belongs
/// to it.
pub fn gen_pair() -> (pair: KeyPair)
    ensures
        pair.public_key() == public_of(pair.private_key()),
{
    let private = random_key();
    KeyPair::from_private(private)
}

/// The secret that the owner of `my_private` shares with the owner of
/// `their_public`, or nothing when either is not a key of 32 bytes.
pub fn gen_shared_secret(my_private: &[u8], their_public: &[u8]) -> (secret: Option<Vec<u8>>)
    ensures
        secret is Some <==> my_private@.len() == KEY_LEN && their_public@.len() == KEY_LEN,
        secret matches Some(shared) ==> shared@ == x25519_of(my_private@, their_public@)
            && shared@.len() == KEY_LEN,
{
    if my_private.len() != 32 || their_public.len() != 32 {
        return None;
    }
    let mut sized_private = [0u8; 32];
    let mut sized_public = [0u8; 32];
    let mut i: usize = 0;
    while i < 32
        invariant
            i <= 32,
            my_private@.len() == 32,
            their_public@.len() == 32,
            forall|j: int| 0 <= j < i ==> sized_private@[j] == my_private@[j],
            forall|j: int| 0 <= j < i ==> sized_public@[j] == their_public@[j],
        decreases 32 - i,
    {
        sized_private[i] = my_private[i];
        sized_public[i] = their_public[i];
        i += 1;
    }
    assert(sized_private@ =~= my_private@);
    assert(sized_public@ =~= their_public@);
    let shared = x25519(sized_private, sized_public);
    Some(copy_key(&shared))
}

/// The hexadecimal digit of a number below sixteen, in lower case.
pub open spec fn hex_digit(n: int) -> char {
    if n == 0 {
        '0'
    } else if n == 1 {
        '1'
    } else if n == 2 {
        '2'
    } else if n == 3 {
        '3'
    } else if n == 4 {
        '4'
    } else if n == 5 {
        '5'
    } else if n == 6 {
        '6'
    } else if n == 7 {
        '7'
    } else if n == 8 {
        '8'
    } else if n == 9 {
        '9'
    } else if n == 10 {
        'a'
    } else if n == 11 {
        'b'
    } else if n == 12 {
        'c'
    } else if n == 13 {
        'd'
    } else if n == 14 {
        'e'
    } else {
        'f'
    }
}

/// The bytes as text: two digits for each byte, the high one first.
pub open spec fn hex_of(bytes: Seq<u8>) -> Seq<char> {
    Seq::new(
        2 * bytes.len(),
        |i: int|
            if i % 2 == 0 {
                hex_digit(bytes[i / 2] as int / 16)
            } else {
                hex_digit(bytes[i / 2] as int % 16)
            },
    )
}

/// The digit of a number below sixteen, as text.
pub(crate) fn digit_text(n: u8) -> (text: &'static str)
    requires
        n < 16,
    ensures
        text@ == seq![hex_digit(n as int)],
{
    proof {
        reveal_strlit("0");
        reveal_strlit("1");
        reveal_strlit("2");
        reveal_strlit("3");
        reveal_strlit("4");
        reveal_strlit("5");
        reveal_strlit("6");
        reveal_strlit("7");
        reveal_strlit("8");
        reveal_strlit("9");
        reveal_strlit("a");
        reveal_strlit("b");
        reveal_strlit("c");
        reveal_strlit("d");
        reveal_strlit("e");
        reveal_strlit("f");
    }
    let text = if n == 0 {
        "0"
    } else if n == 1 {
        "1"
    } else if n == 2 {
        "2"
    } else if n == 3 {
        "3"
    } else if n == 4 {
        "4"
    } else if n == 5 {
        "5"
    } else if n == 6 {
        "6"
    } else if n == 7 {
        "7"
    } else if n == 8 {
        "8"
    } else if n == 9 {
        "9"
    } else if n == 10 {
        "a"
    } else if n == 11 {
        "b"
    } else if n == 12 {
        "c"
    } else if n == 13 {
        "d"
    } else if n == 14 {
        "e"
    } else {
        "f"
    };
    assert(text@ =~= seq![hex_digit(n as int)]);
    text
}

/// The bytes as hexadecimal text in lower case, two digits for each byte.
pub fn stringify_buf(buf: &[u8]) -> (text: String)
    ensures
        text@ == hex_of(buf@),
{
    let mut text = String::new();
    let mut i: usize = 0;
    assert(text@ =~= hex_of(buf@.take(0)));
    while i < buf.len()
        invariant
            i <= buf.len(),
            text@ == hex_of(buf@.take(i as int)),
        decreases buf.len() - i,
    {
        let byte = buf[i];
        let ghost before = text@;
        text.append(digit_text(byte / 16));
        text.append(digit_text(byte % 16));
        assert(text@ =~= hex_of(buf@.take(i + 1))) by {
            let done = buf@.take(i as int);
            let next = buf@.take(i + 1);
            assert(text@ == before + seq![hex_digit(byte as int / 16)] + seq![
                hex_digit(byte as int % 16),
            ]);
            assert(text@.len() == hex_of(next).len());
            assert forall|j: int| 0 <= j < text@.len() implies text@[j] == hex_of(next)[j] by {
                if j < 2 * i {
                    assert(next[j / 2] == done[j / 2]);
                    assert(text@[j] == hex_of(done)[j]);
                } else {
                    assert(next[j / 2] == byte);
                }
            }
        }
        i += 1;
    }
    assert(buf@.take(i as int) =~= buf@);
    text
}

/// The number of bytes that `bufify_string` reads from a text.
pub const PAIRS: usize = 32;

/// The value of a byte of text that is a hexadecimal digit, in either case.
pub open spec fn digit_value(byte: u8) -> Option<int> {
    if 0x30 <= byte <= 0x39 {
        Some(byte - 0x30)
    } else if 0x61 <= byte <= 0x66 {
        Some(byte - 0x61 + 10)
    } else if 0x41 <= byte <= 0x46 {
        Some(byte - 0x41 + 10)
    } else {
        None
    }
}

/// The byte that two bytes of text stand for: two hexadecimal digits, or a
/// plus sign and one digit. Anything else stands for no byte.
pub open spec fn pair_value(first: u8, second: u8) -> Option<u8> {
    match (digit_value(first), digit_value(second)) {
        (Some(high), Some(low)) => Some((16 * high + low) as u8),
        (None, Some(low)) => if first == 0x2b {
            Some(low as u8)
        } else {
            None
        },
        _ => None,
    }
}

/// Pair `k` of a text can be cut out of it: the text is long enough, and the
/// cut splits no character.
pub open spec fn pair_is_whole(text: Seq<u8>, k: int) -> bool {
    2 * k + 2 <= text.len() && is_char_boundary(text, 2 * k) && is_char_boundary(text, 2 * k + 2)
}

/// Pair `k` of a text can be cut out and stands for a byte.
pub open spec fn pair_is_byte(text: Seq<u8>, k: int) -> bool {
    pair_is_whole(text, k) && pair_value(text[2 * k], text[2 * k + 1]) is Some
}

/// Each of the first `n` pairs of a text stands for a byte.
pub open spec fn pairs_are_bytes(text: Seq<u8>, n: int) -> bool {
    forall|k: int| 0 <= k < n ==> #[trigger] pair_is_byte(text, k)
}

/// The bytes that the first `n` pairs of a text stand for.
pub open spec fn bytes_of_pairs(text: Seq<u8>, n: int) -> Seq<u8> {
    Seq::new(n as nat, |k: int| pair_value(text[2 * k], text[2 * k + 1]).unwrap())
}

/// A text can be read: the first of its 32 pairs that stands for no byte, if
/// there is one, can at least be cut out.
pub open spec fn is_readable(text: Seq<u8>) -> bool {
    forall|k: int|
        0 <= k < PAIRS && pairs_are_bytes(text, k) && !pair_is_byte(text, k) ==> #[trigger] pair_is_whole(
            text,
            k,
        )
}

/// Calls `u8::from_str_radix` with radix 16 on a text of two bytes. The
/// standard library takes an optional plus sign and then digits, here `0-9`,
/// `a-f` and `A-F`, and nothing else.
#[verifier::external_body]
fn parse_pair(pair: &str) -> (r: Result<u8, String>)
    requires
        pair.spec_bytes().len() == 2,
    ensures
        r is Ok <==> pair_value(pair.spec_bytes()[0], pair.spec_bytes()[1]) is Some,
        r matches Ok(byte) ==> pair_value(pair.spec_bytes()[0], pair.spec_bytes()[1]) == Some(byte),
{
    match u8::from_str_radix(pair, 16) {
        Ok(byte) => Ok(byte),
        Err(e) => Err(e.to_string()),
    }
}

/// Reads 32 bytes from the first 64 bytes of a text, two hexadecimal digits
/// for each, and stops at the first pair that stands for no byte with a `U8`
/// error. What follows the 64 bytes is ignored. The answer is `None` for a
/// text that cannot be read.
pub fn try_bufify_string(s: &str) -> (r: Option<Result<Vec<u8>, Error>>)
    ensures
        r is Some <==> is_readable(s.spec_bytes()),
        r matches Some(Ok(bytes)) ==> pairs_are_bytes(s.spec_bytes(), PAIRS as int) && bytes@
            == bytes_of_pairs(s.spec_bytes(), PAIRS as int),
        r matches Some(Err(e)) ==> !pairs_are_bytes(s.spec_bytes(), PAIRS as int) && e is U8,
{
    let ghost text = s.spec_bytes();
    proof {
        encode_utf8_valid_utf8(s@);
    }
    let len = s.as_bytes().len();
    let mut idx: usize = 0;
    let mut ret: Vec<u8> = Vec::with_capacity(32);
    while idx < 64
        invariant
            idx <= 64,
            idx % 2 == 0,
            text == s.spec_bytes(),
            len == text.len(),
            vstd::utf8::valid_utf8(text),
            pairs_are_bytes(text, idx as int / 2),
            ret@ == bytes_of_pairs(text, idx as int / 2),
        decreases 64 - idx,
    {
        let ghost k = idx as int / 2;
        assert(2 * k == idx);
        if idx + 2 > len || !s.is_char_boundary(idx) || !s.is_char_boundary(idx + 2) {
            assert(!pair_is_whole(text, k));
            assert(!pair_is_byte(text, k));
            return None;
        }
        assert(pair_is_whole(text, k));
        let (_, tail) = s.split_at(idx);
        proof {
            let rest = tail.spec_bytes();
            encode_utf8_valid_utf8(tail@);
            assert(rest =~= text.subrange(idx as int, text.len() as int));
            if rest.len() == 2 {
                is_char_boundary_start_end_of_seq(rest);
            } else {
                is_char_boundary_iff_not_is_continuation_byte(text, idx + 2);
                is_char_boundary_iff_not_is_continuation_byte(rest, 2);
                assert(rest[2] == text[idx + 2]);
            }
        }
        let (pair, _) = tail.split_at(2);
        assert(pair.spec_bytes() =~= text.subrange(idx as int, idx + 2));
        match parse_pair(pair) {
            Ok(byte) => {
                ret.push(byte);
            },
            Err(text_of_error) => {
                assert(!pair_is_byte(text, k));
                assert forall|j: int|
                    0 <= j < PAIRS && pairs_are_bytes(text, j) && !pair_is_byte(
                        text,
                        j,
                    ) implies #[trigger] pair_is_whole(text, j) by {
                    if j < k {
                        assert(pair_is_byte(text, j));
                    } else if j > k {
                        assert(pair_is_byte(text, k));
                    }
                }
                return Some(Err(Error::U8(text_of_error)));
            },
        }
        assert(pair_is_byte(text, k));
        assert(ret@ =~= bytes_of_pairs(text, k + 1));
        idx += 2;
    }
    Some(Ok(ret))
}

/// Reads 32 bytes from the first 64 bytes of a text that can be read, two
/// hexadecimal digits for each, and stops at the first pair that stands for
/// no byte with a `U8` error. What follows the 64 bytes is ignored.
pub fn bufify_string(s: &str) -> (r: Result<Vec<u8>, Error>)
    requires
        is_readable(s.spec_bytes()),
    ensures
        r matches Ok(bytes) ==> pairs_are_bytes(s.spec_bytes(), PAIRS as int) && bytes@
            == bytes_of_pairs(s.spec_bytes(), PAIRS as int),
        r matches Err(e) ==> !pairs_are_bytes(s.spec_bytes(), PAIRS as int) && e is U8,
{
    try_bufify_string(s).unwrap()
}

/// The text of a key reads back as the key: what `stringify_buf` writes for
/// 32 bytes can be read, and `bufify_string` reads the same 32 bytes from it.
pub proof fn law_key_text_round_trip(key: Seq<u8>)
    requires
        key.len() == PAIRS,
    ensures
        is_readable(encode_utf8(hex_of(key))),
        pairs_are_bytes(encode_utf8(hex_of(key)), PAIRS as int),
        bytes_of_pairs(encode_utf8(hex_of(key)), PAIRS as int) == key,
{
    let chars = hex_of(key);
    let text = encode_utf8(chars);
    assert(is_ascii_chars(chars));
    is_ascii_chars_encode_utf8(chars);
    encode_utf8_valid_utf8(chars);
    is_char_boundary_start_end_of_seq(text);
    assert forall|k: int| 0 <= k < PAIRS implies #[trigger] pair_is_byte(text, k) && pair_value(
        text[2 * k],
        text[2 * k + 1],
    ) == Some(key[k]) by {
        if k > 0 {
            is_char_boundary_iff_not_is_continuation_byte(text, 2 * k);
        }
        if k < PAIRS - 1 {
            is_char_boundary_iff_not_is_continuation_byte(text, 2 * k + 2);
        }
        let high = key[k] as int / 16;
        let low = key[k] as int % 16;
        assert(chars[2 * k] == hex_digit(high));
        assert(chars[2 * k + 1] == hex_digit(low));
        assert(text[2 * k] == chars[2 * k] as u8);
        assert(text[2 * k + 1] == chars[2 * k + 1] as u8);
        assert(digit_value(text[2 * k]) == Some(high));
        assert(digit_value(text[2 * k + 1]) == Some(low));
    }
    assert(bytes_of_pairs(text, PAIRS as int) =~= key);
}

} // verus!
