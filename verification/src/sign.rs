//! Request signing and text encoding: a verified decimal renderer, an
//! exact hex-encoding contract, and the keyed digests the exchange's
//! authentication demands.
use vstd::prelude::*;

use hmac::Mac;
use sha3::Digest;

verus! {

/// Decimal digits of `n`, most significant first.
pub open spec fn dec_of(n: nat) -> Seq<char>
    decreases n,
{
    if n < 10 {
        seq![digit_char(n)]
    } else {
        dec_of(n / 10).push(digit_char(n % 10))
    }
}

/// The character for one decimal digit.
pub open spec fn digit_char(d: nat) -> char {
    if d == 0 {
        '0'
    } else if d == 1 {
        '1'
    } else if d == 2 {
        '2'
    } else if d == 3 {
        '3'
    } else if d == 4 {
        '4'
    } else if d == 5 {
        '5'
    } else if d == 6 {
        '6'
    } else if d == 7 {
        '7'
    } else if d == 8 {
        '8'
    } else {
        '9'
    }
}

/// The character for one hex digit, lowercase.
pub open spec fn hex_digit_char(d: nat) -> char {
    if d < 10 {
        digit_char(d)
    } else if d == 10 {
        'a'
    } else if d == 11 {
        'b'
    } else if d == 12 {
        'c'
    } else if d == 13 {
        'd'
    } else if d == 14 {
        'e'
    } else {
        'f'
    }
}

/// Lowercase hex encoding of a byte string: two digits per byte, high
/// nibble first.
pub open spec fn hex_of(b: Seq<u8>) -> Seq<char> {
    Seq::new(
        (2 * b.len()) as nat,
        |i: int|
            if i % 2 == 0 {
                hex_digit_char((b[i / 2] as nat) / 16)
            } else {
                hex_digit_char((b[i / 2] as nat) % 16)
            },
    )
}

/// The HMAC-SHA256 digest of a message under a key. Stated only by name:
/// the same key and message give the same 32 bytes on every machine.
pub uninterp spec fn hmac_sha256_of(key: Seq<char>, message: Seq<char>) -> Seq<u8>;

/// The Keccak-256 digest of a message, by name.
pub uninterp spec fn keccak256_of(message: Seq<char>) -> Seq<u8>;

/// One decimal digit as a string slice.
fn digit_str(d: u64) -> (r: &'static str)
    requires
        d < 10,
    ensures
        r@ == seq![digit_char(d as nat)],
{
    proof {
        reveal_strlit("0");
        reveal_strlit("1");
        reveal_strlit("2");
        reveal_strlit("3");
        reveal_strlit("4");
        reveal_strlit("5");
        reveal_strlit("6");
        reveal_strlit("7");
        reveal_strlit("8");
        reveal_strlit("9");
    }
    let r = if d == 0 {
        "0"
    } else if d == 1 {
        "1"
    } else if d == 2 {
        "2"
    } else if d == 3 {
        "3"
    } else if d == 4 {
        "4"
    } else if d == 5 {
        "5"
    } else if d == 6 {
        "6"
    } else if d == 7 {
        "7"
    } else if d == 8 {
        "8"
    } else {
        "9"
    };
    proof {
        assert(r@ =~= seq![digit_char(d as nat)]);
    }
    r
}

/// `n` in decimal, exactly `dec_of(n)`.
pub fn u64_to_string(n: u64) -> (r: String)
    ensures
        r@ == dec_of(n as nat),
    decreases n,
{
    if n < 10 {
        String::from_str(digit_str(n))
    } else {
        let mut prefix = u64_to_string(n / 10);
        prefix.append(digit_str(n % 10));
        proof {
            assert(dec_of((n as nat) / 10).push(digit_char((n as nat) % 10)) =~= dec_of(
                (n as nat) / 10,
            ) + seq![digit_char((n as nat) % 10)]);
        }
        prefix
    }
}

/// A string that can stand inside a JSON string literal unescaped: no
/// quote, no backslash, no control character.
pub open spec fn json_safe(s: Seq<char>) -> bool {
    forall|i: int|
        0 <= i < s.len() ==> (#[trigger] s[i]) != '"' && s[i] != '\\' && s[i] as u32 >= 32
}

/// Whether `s` can stand inside a JSON string literal unescaped.
pub fn is_json_safe(s: &str) -> (r: bool)
    ensures
        r == json_safe(s@),
{
    let n = s.unicode_len();
    let mut i: usize = 0;
    while i < n
        invariant
            0 <= i <= n,
            n == s@.len(),
            forall|j: int|
                0 <= j < i ==> (#[trigger] s@[j]) != '"' && s@[j] != '\\' && s@[j] as u32 >= 32,
        decreases n - i,
    {
        let c = s.get_char(i);
        if c == '"' || c == '\\' || (c as u32) < 32 {
            return false;
        }
        i = i + 1;
    }
    true
}

/// Relies on `hmac::Hmac` over `sha2::Sha256`: the keyed digest of the
/// message, 32 bytes, a function of key and message alone. HMAC accepts
/// keys of any length, so the construction cannot fail.
#[verifier::external_body]
pub(crate) fn hmac_sha256(key: &str, message: &str) -> (r: Vec<u8>)
    ensures
        r@ == hmac_sha256_of(key@, message@),
        r@.len() == 32,
{
    let mut mac = match <hmac::Hmac<sha2::Sha256> as hmac::KeyInit>::new_from_slice(
        key.as_bytes(),
    ) {
        Ok(mac) => mac,
        Err(_) => {
            return Vec::new();
        },
    };
    mac.update(message.as_bytes());
    mac.finalize().into_bytes().to_vec()
}

/// Relies on `hex::encode`: two lowercase hex digits for each byte, high
/// nibble first.
#[verifier::external_body]
pub(crate) fn hex_encode(bytes: &Vec<u8>) -> (r: String)
    ensures
        r@ == hex_of(bytes@),
{
    hex::encode(bytes)
}

/// Relies on `sha3::Keccak256`: the digest of the message, 32 bytes, a
/// function of the message alone.
#[verifier::external_body]
pub(crate) fn keccak256(message: &str) -> (r: Vec<u8>)
    ensures
        r@ == keccak256_of(message@),
        r@.len() == 32,
{
    sha3::Keccak256::digest(message.as_bytes()).to_vec()
}

} // verus!
