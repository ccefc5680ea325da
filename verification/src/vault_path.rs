//! Vault paths: private keys that say where in the vault the key is.
//!
//! A path is the bytes `vault:<key type>/<index>`, with the index in decimal. It
//! stands in the place of the raw bytes of a private key, which never leave the
//! vault.

use crate::backend::str_from_utf8;
use crate::hpke_vault::{is_key_type, ENC, INIT};
use crate::vault_crypto::VaultCryptoProvider;
use vstd::prelude::*;
use vstd::slice::slice_subrange;
use vstd::utf8::*;

verus! {

/// What every vault path starts with.
pub const VAULT_PREFIX: &'static str = "vault:";

/// The ASCII slash, which stands between key type and index.
pub const SLASH: u8 = 0x2F;

/// The ASCII digit zero.
pub const DIGIT_ZERO: u8 = 0x30;

/// The ASCII digit nine.
pub const DIGIT_NINE: u8 = 0x39;

/// The ASCII plus sign.
pub const PLUS: u8 = 0x2B;

/// The bytes that every vault path starts with.
pub open spec fn vault_prefix() -> Seq<u8> {
    encode_utf8(VAULT_PREFIX@)
}

/// A number in decimal, as ASCII digits without leading zeros.
pub open spec fn decimal(n: nat) -> Seq<u8>
    decreases n,
{
    if n < 10 {
        seq![(DIGIT_ZERO + n) as u8]
    } else {
        decimal(n / 10).push((DIGIT_ZERO + n % 10) as u8)
    }
}

/// Whether a byte is an ASCII digit.
pub open spec fn is_digit(b: u8) -> bool {
    DIGIT_ZERO <= b <= DIGIT_NINE
}

/// The number that a sequence of ASCII digits stands for.
pub open spec fn decimal_value(digits: Seq<u8>) -> nat
    decreases digits.len(),
{
    if digits.len() == 0 {
        0
    } else {
        10 * decimal_value(digits.drop_last()) + (digits.last() - DIGIT_ZERO) as nat
    }
}

/// What a decimal index may be preceded by: nothing, or one plus sign.
pub open spec fn without_sign(s: Seq<u8>) -> Seq<u8> {
    if s.len() > 0 && s[0] == PLUS {
        s.skip(1)
    } else {
        s
    }
}

/// The index that a sequence of bytes spells: an optional plus sign, then one or
/// more digits, with a value of at most `u32::MAX`. Anything else spells none.
pub open spec fn index_of(s: Seq<u8>) -> Option<u32> {
    let digits = without_sign(s);
    if digits.len() > 0 && (forall|i: int| 0 <= i < digits.len() ==> is_digit(#[trigger] digits[i]))
        && decimal_value(digits) <= u32::MAX {
        Some(decimal_value(digits) as u32)
    } else {
        None
    }
}

/// The vault path of a key type and an index.
pub open spec fn vault_path(key_type: Seq<char>, index: u32) -> Seq<u8> {
    vault_prefix() + encode_utf8(key_type) + seq![SLASH] + decimal(index as nat)
}

/// The key type and index that some private key bytes name, if they are a vault
/// path: the prefix, then valid UTF-8 in which the first separator stands between
/// the key type and something that spells an index.
pub open spec fn parsed_path(sk: Seq<u8>) -> Option<(Seq<char>, u32)> {
    let path = sk.skip(vault_prefix().len() as int);
    if vault_prefix().is_prefix_of(sk) && valid_utf8(path) && path.contains(SLASH) {
        let at = path.index_of_first(SLASH).unwrap();
        match index_of(path.skip(at + 1)) {
            Some(index) => Some((decode_utf8(path.take(at)), index)),
            None => None,
        }
    } else {
        None
    }
}

/// The key in the vault that some private key bytes stand for, if they are a vault path
/// with one of the key types that the vault's key tree has.
pub open spec fn marked_key(sk: Seq<u8>) -> Option<(Seq<char>, u32)> {
    match parsed_path(sk) {
        Some((key_type, index)) => if is_key_type(key_type) {
            Some((key_type, index))
        } else {
            None
        },
        None => None,
    }
}

/// Appends a number in decimal.
pub(crate) fn push_decimal(out: &mut Vec<u8>, n: u32)
    ensures
        final(out)@ == old(out)@ + decimal(n as nat),
    decreases n,
{
    if n >= 10 {
        push_decimal(out, n / 10);
    }
    out.push(DIGIT_ZERO + (n % 10) as u8);
}

/// A prefix of digits stands for no more than the whole.
proof fn prefix_value_is_smaller(digits: Seq<u8>, i: int)
    requires
        0 <= i <= digits.len(),
        forall|k: int| 0 <= k < digits.len() ==> is_digit(#[trigger] digits[k]),
    ensures
        decimal_value(digits.take(i)) <= decimal_value(digits),
    decreases digits.len() - i,
{
    if i == digits.len() {
        assert(digits.take(i) == digits);
    } else {
        prefix_value_is_smaller(digits, i + 1);
        assert(digits.take(i + 1).drop_last() == digits.take(i));
    }
}

/// Reads an index as [`index_of`] describes it.
pub(crate) fn read_index(s: &[u8]) -> (index: Option<u32>)
    ensures
        index == index_of(s@),
{
    let start: usize = if s.len() > 0 && s[0] == PLUS { 1 } else { 0 };
    let ghost digits = without_sign(s@);
    assert(digits == s@.skip(start as int));
    if start == s.len() {
        return None;
    }
    let mut value: u32 = 0;
    let mut i: usize = start;
    while i < s.len()
        invariant
            start <= i <= s.len(),
            digits == s@.skip(start as int),
            digits == without_sign(s@),
            value == decimal_value(digits.take(i - start)),
            forall|k: int| 0 <= k < i - start ==> is_digit(#[trigger] digits[k]),
        decreases s.len() - i,
    {
        let b = s[i];
        assert(b == digits[i - start]);
        if b < DIGIT_ZERO || b > DIGIT_NINE {
            return None;
        }
        let d = (b - DIGIT_ZERO) as u32;
        proof {
            assert(digits.take(i - start + 1).drop_last() == digits.take(i - start));
            assert(decimal_value(digits.take(i - start + 1)) == 10 * value + d);
        }
        if value > (u32::MAX - d) / 10 {
            proof {
                if forall|k: int| 0 <= k < digits.len() ==> is_digit(#[trigger] digits[k]) {
                    prefix_value_is_smaller(digits, i - start + 1);
                }
            }
            return None;
        }
        value = value * 10 + d;
        i = i + 1;
    }
    assert(digits.take(i - start) == digits);
    Some(value)
}

/// Appends bytes.
pub(crate) fn push_all(out: &mut Vec<u8>, bytes: &[u8])
    ensures
        final(out)@ == old(out)@ + bytes@,
{
    out.extend_from_slice(bytes);
    assert(out@ =~= old(out)@ + bytes@);
}

/// Whether bytes start with a given prefix.
fn starts_with(bytes: &[u8], prefix: &[u8]) -> (r: bool)
    ensures
        r == prefix@.is_prefix_of(bytes@),
{
    if bytes.len() < prefix.len() {
        return false;
    }
    let mut i: usize = 0;
    while i < prefix.len()
        invariant
            i <= prefix.len() <= bytes.len(),
            forall|k: int| 0 <= k < i ==> prefix@[k] == bytes@[k],
        decreases prefix.len() - i,
    {
        if prefix[i] != bytes[i] {
            return false;
        }
        i = i + 1;
    }
    assert(prefix@ =~= bytes@.subrange(0, prefix@.len() as int));
    true
}

/// Whether two texts are the same.
fn same_text(a: &str, b: &str) -> (r: bool)
    ensures
        r == (a@ == b@),
{
    let r = a.as_bytes().len() == b.as_bytes().len() && starts_with(a.as_bytes(), b.as_bytes());
    proof {
        encode_utf8_decode_utf8(a@);
        encode_utf8_decode_utf8(b@);
        if r {
            assert(encode_utf8(a@) =~= encode_utf8(b@));
        }
    }
    r
}

/// The place of the first slash, if there is one.
fn find_slash(bytes: &[u8]) -> (r: Option<usize>)
    ensures
        match r {
            Some(at) => bytes@.index_of_first(SLASH) == Some(at as int) && at < bytes@.len()
                && bytes@[at as int] == SLASH,
            None => !bytes@.contains(SLASH),
        },
{
    proof {
        bytes@.index_of_first_ensures(SLASH);
    }
    let mut i: usize = 0;
    while i < bytes.len()
        invariant
            i <= bytes.len(),
            forall|k: int| 0 <= k < i ==> bytes@[k] != SLASH,
        decreases bytes.len() - i,
    {
        if bytes[i] == SLASH {
            proof {
                bytes@.index_of_first_ensures(SLASH);
                assert(bytes@.contains(SLASH));
            }
            return Some(i);
        }
        i = i + 1;
    }
    None
}

impl VaultCryptoProvider {
    /// Encodes a vault path as private key bytes.
    pub fn encode_vault_path(key_type: &str, index: u32) -> (path: Vec<u8>)
        ensures
            path@ == vault_path(key_type@, index),
    {
        let mut path: Vec<u8> = Vec::new();
        push_all(&mut path, VAULT_PREFIX.as_bytes());
        push_all(&mut path, key_type.as_bytes());
        path.push(SLASH);
        push_decimal(&mut path, index);
        assert(path@ =~= vault_path(key_type@, index));
        path
    }

    /// Reads a vault path out of private key bytes: the key type and the index, or
    /// nothing if the bytes are not a vault path.
    pub fn parse_vault_path(sk_r: &[u8]) -> (path: Option<(&str, u32)>)
        ensures
            match path {
                Some((key_type, index)) => parsed_path(sk_r@) == Some((key_type@, index)),
                None => parsed_path(sk_r@) is None,
            },
    {
        let prefix = VAULT_PREFIX.as_bytes();
        if !starts_with(sk_r, prefix) {
            return None;
        }
        let rest = slice_subrange(sk_r, prefix.len(), sk_r.len());
        assert(rest@ == sk_r@.skip(vault_prefix().len() as int));
        let path = match str_from_utf8(rest) {
            Some(path) => path,
            None => return None,
        };
        let at = match find_slash(rest) {
            Some(at) => at,
            None => return None,
        };
        proof {
            decode_utf8_encode_utf8(rest@);
            is_char_boundary_iff_is_leading_byte(rest@, at as int);
            assert(is_leading_byte_width_1(rest@[at as int]));
        }
        let (key_type, _) = path.split_at(at);
        assert(key_type@ == decode_utf8(rest@.take(at as int))) by {
            encode_utf8_decode_utf8(key_type@);
            assert(encode_utf8(key_type@) == rest@.take(at as int));
        }
        let digits = slice_subrange(rest, at + 1, rest.len());
        assert(digits@ == rest@.skip(at + 1));
        match read_index(digits) {
            Some(index) => Some((key_type, index)),
            None => None,
        }
    }

    /// The key in the vault that private key bytes stand for: a vault path, and one of
    /// an init key or encryption key.
    pub fn marked_vault_key(sk_r: &[u8]) -> (key: Option<(&str, u32)>)
        ensures
            match key {
                Some((key_type, index)) => marked_key(sk_r@) == Some((key_type@, index)),
                None => marked_key(sk_r@) is None,
            },
    {
        match Self::parse_vault_path(sk_r) {
            Some((key_type, index)) => if same_text(key_type, INIT) || same_text(key_type, ENC) {
                Some((key_type, index))
            } else {
                None
            },
            None => None,
        }
    }
}

} // verus!
