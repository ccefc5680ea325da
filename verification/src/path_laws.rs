//! What holds of vault paths.

use crate::hpke_vault::{is_key_type, ENC, INIT};
use crate::rust_crypto::X25519_LEN;
use crate::vault_path::{
    decimal, decimal_value, is_digit, marked_key, parsed_path, vault_path, vault_prefix,
    without_sign, SLASH, VAULT_PREFIX,
};
use vstd::arithmetic::power::{lemma_pow0, pow};
use vstd::prelude::*;
use vstd::utf8::*;

verus! {

/// The slash is among the bytes of a character's encoding only if the character is
/// the slash.
proof fn slash_in_scalar(c: u32)
    requires
        is_scalar(c),
    ensures
        encode_scalar(c).contains(SLASH) <==> c == 0x2F,
{
    let s = encode_scalar(c);
    if has_width_1_encoding(c) {
        assert(leading_byte_width_1(c) == 0x2F <==> c == 0x2F) by (bit_vector)
            requires
                has_width_1_encoding(c),
        ;
        if c == 0x2F {
            assert(s[0] == SLASH);
        }
    } else if has_width_2_encoding(c) {
        assert(leading_byte_width_2(c) != 0x2F) by (bit_vector)
            requires
                has_width_2_encoding(c),
        ;
        assert(last_continuation_byte(c) != 0x2F) by (bit_vector);
    } else if has_width_3_encoding(c) {
        assert(leading_byte_width_3(c) != 0x2F) by (bit_vector)
            requires
                has_width_3_encoding(c),
        ;
        assert(last_continuation_byte(c) != 0x2F) by (bit_vector);
        assert(second_last_continuation_byte(c) != 0x2F) by (bit_vector);
    } else {
        assert(leading_byte_width_4(c) != 0x2F) by (bit_vector)
            requires
                has_width_4_encoding(c),
        ;
        assert(last_continuation_byte(c) != 0x2F) by (bit_vector);
        assert(second_last_continuation_byte(c) != 0x2F) by (bit_vector);
        assert(third_last_continuation_byte(c) != 0x2F) by (bit_vector);
    }
}

/// The slash is the only character with its code point.
proof fn char_is_the_slash(c: char)
    ensures
        c as u32 == 0x2F <==> c == '/',
{
    char_u32_cast(c, c as u32);
}

/// The slash is among the bytes of a text exactly when it is among its characters.
proof fn slash_in_text(text: Seq<char>)
    ensures
        encode_utf8(text).contains(SLASH) <==> text.contains('/'),
    decreases text.len(),
{
    if text.len() > 0 {
        let head = encode_scalar(text[0] as u32);
        let tail = encode_utf8(text.drop_first());
        char_is_scalar(text[0]);
        slash_in_scalar(text[0] as u32);
        assert(text[0] as u32 == 0x2F <==> text[0] == '/') by {
            char_is_the_slash(text[0]);
        }
        assert(encode_utf8(text) == head + tail);
        slash_in_text(text.drop_first());
        assert(text =~= seq![text[0]] + text.drop_first());
        if head.contains(SLASH) {
            let i = head.index_of(SLASH);
            assert((head + tail)[i] == SLASH);
        }
        if tail.contains(SLASH) {
            let i = tail.index_of(SLASH);
            assert((head + tail)[head.len() + i] == SLASH);
        }
        if (head + tail).contains(SLASH) {
            let i = (head + tail).index_of(SLASH);
            if i < head.len() {
                assert(head[i] == SLASH);
            } else {
                assert(tail[i - head.len()] == SLASH);
            }
        }
        if text.contains('/') {
            let i = text.index_of('/');
            if i > 0 {
                assert(text.drop_first()[i - 1] == '/');
            }
        }
        if text.drop_first().contains('/') {
            let i = text.drop_first().index_of('/');
            assert(text[i + 1] == '/');
        }
        if text[0] == '/' {
            assert(text.contains('/'));
        }
    }
}

/// Decimal digits read back as the number that was written.
proof fn decimal_reads_back(n: nat)
    ensures
        decimal(n).len() > 0,
        forall|i: int| 0 <= i < decimal(n).len() ==> is_digit(#[trigger] decimal(n)[i]),
        decimal_value(decimal(n)) == n,
    decreases n,
{
    if n < 10 {
        assert(decimal(n).drop_last() =~= Seq::empty());
        reveal_with_fuel(decimal_value, 2);
    } else {
        decimal_reads_back(n / 10);
        assert(decimal(n).drop_last() =~= decimal(n / 10));
    }
}

/// Digits are valid UTF-8.
proof fn digits_are_utf8(s: Seq<u8>)
    requires
        forall|i: int| 0 <= i < s.len() ==> #[trigger] s[i] < 0x80,
    ensures
        valid_utf8(s),
    decreases s.len(),
{
    if s.len() > 0 {
        let b = s[0];
        assert(is_leading_byte_width_1(b));
        assert(codepoint_width_1(b) == b) by (bit_vector)
            requires
                b < 0x80,
        ;
        assert(valid_first_scalar(s));
        digits_are_utf8(pop_first_scalar(s));
    }
}

/// An encoded vault path is read back as the key type and index that it was made of,
/// for every key type without a slash.
pub proof fn vault_path_reads_back(key_type: Seq<char>, index: u32)
    requires
        !key_type.contains('/'),
    ensures
        parsed_path(vault_path(key_type, index)) == Some((key_type, index)),
{
    let sk = vault_path(key_type, index);
    let digits = decimal(index as nat);
    let name = encode_utf8(key_type);
    let path = sk.skip(vault_prefix().len() as int);
    assert(path =~= name + (seq![SLASH] + digits));
    assert(vault_prefix().is_prefix_of(sk)) by {
        assert(sk.subrange(0, vault_prefix().len() as int) =~= vault_prefix());
    }
    decimal_reads_back(index as nat);
    assert(valid_utf8(path)) by {
        encode_utf8_valid_utf8(key_type);
        digits_are_utf8(seq![SLASH] + digits);
        valid_utf8_concat(name, seq![SLASH] + digits);
    }
    slash_in_text(key_type);
    let at = path.index_of_first(SLASH).unwrap();
    path.index_of_first_ensures(SLASH);
    assert(path[name.len() as int] == SLASH);
    assert(at == name.len()) by {
        if at < name.len() {
            assert(name[at] == SLASH);
        }
    }
    assert(path.take(at) =~= name);
    assert(path.skip(at + 1) =~= digits);
    encode_utf8_decode_utf8(key_type);
    assert(without_sign(digits) == digits) by {
        assert(is_digit(digits[0]));
    }
}

/// The key type that a vault path names has no slash, so that encoding what was read
/// gives a path that names the same key.
pub proof fn parsed_paths_encode_again(sk: Seq<u8>)
    requires
        parsed_path(sk) is Some,
    ensures
        !parsed_path(sk).unwrap().0.contains('/'),
        parsed_path(vault_path(parsed_path(sk).unwrap().0, parsed_path(sk).unwrap().1))
            == parsed_path(sk),
{
    let (key_type, index) = parsed_path(sk).unwrap();
    let path = sk.skip(vault_prefix().len() as int);
    let at = path.index_of_first(SLASH).unwrap();
    path.index_of_first_ensures(SLASH);
    is_char_boundary_iff_is_leading_byte(path, at);
    assert(is_leading_byte_width_1(path[at]));
    valid_utf8_split(path, at);
    let name = path.take(at);
    assert(name == path.subrange(0, at));
    decode_utf8_encode_utf8(name);
    slash_in_text(key_type);
    if name.contains(SLASH) {
        let i = name.index_of(SLASH);
        assert(path[i] == SLASH);
    }
    vault_path_reads_back(key_type, index);
}

/// A key type with a slash does not read back: its path is taken for none.
pub proof fn slashed_key_types_do_not_read_back(key_type: Seq<char>, index: u32)
    requires
        key_type.contains('/'),
    ensures
        parsed_path(vault_path(key_type, index)) is None,
{
    let sk = vault_path(key_type, index);
    let name = encode_utf8(key_type);
    let path = sk.skip(vault_prefix().len() as int);
    assert(path =~= name + (seq![SLASH] + decimal(index as nat)));
    slash_in_text(key_type);
    let at = path.index_of_first(SLASH).unwrap();
    path.index_of_first_ensures(SLASH);
    let first = name.index_of(SLASH);
    assert(path[first] == SLASH);
    assert(at < name.len());
    let rest = path.skip(at + 1);
    let last = name.len() - at - 1;
    assert(rest[last] == SLASH);
    let digits = without_sign(rest);
    let place = last - (rest.len() - digits.len());
    assert(digits[place] == SLASH);
    assert(!is_digit(digits[place]));
}

/// Different keys have different vault paths.
pub proof fn vault_paths_are_distinct(
    key_type1: Seq<char>,
    index1: u32,
    key_type2: Seq<char>,
    index2: u32,
)
    requires
        key_type1 != key_type2 || index1 != index2,
    ensures
        vault_path(key_type1, index1) != vault_path(key_type2, index2),
{
    let prefix = vault_prefix();
    let name1 = encode_utf8(key_type1);
    let name2 = encode_utf8(key_type2);
    let digits1 = decimal(index1 as nat);
    let digits2 = decimal(index2 as nat);
    let path1 = vault_path(key_type1, index1);
    let path2 = vault_path(key_type2, index2);
    decimal_reads_back(index1 as nat);
    decimal_reads_back(index2 as nat);
    encode_utf8_decode_utf8(key_type1);
    encode_utf8_decode_utf8(key_type2);
    if path1 == path2 {
        let at1 = (prefix.len() + name1.len()) as int;
        let at2 = (prefix.len() + name2.len()) as int;
        assert(path1.len() == at1 + 1 + digits1.len());
        assert(path2.len() == at2 + 1 + digits2.len());
        assert(path1[at1] == SLASH);
        assert(path2[at2] == SLASH);
        if at1 < at2 {
            assert(path1[at2] == digits1[at2 - at1 - 1]);
            assert(is_digit(digits1[at2 - at1 - 1]));
        } else if at2 < at1 {
            assert(path2[at1] == digits2[at1 - at2 - 1]);
            assert(is_digit(digits2[at1 - at2 - 1]));
        }
        assert(name1 =~= path1.subrange(prefix.len() as int, at1));
        assert(name2 =~= path2.subrange(prefix.len() as int, at2));
        assert(digits1 =~= path1.skip(at1 + 1));
        assert(digits2 =~= path2.skip(at2 + 1));
    }
}

/// An index has at most ten digits.
proof fn indices_are_short(n: nat)
    requires
        n <= u32::MAX,
    ensures
        decimal(n).len() <= 10,
{
    reveal_with_fuel(decimal, 11);
}

/// A digit counts for itself.
pub proof fn a_digit_counts_for_itself(b: u8)
    requires
        0x30 <= b <= 0x39,
    ensures
        decimal_value(seq![b]) == b - 0x30,
{
    reveal_with_fuel(decimal_value, 2);
    assert(seq![b].drop_last() =~= Seq::empty());
}

/// Digits in front of others count for as many tens as there are digits behind them.
/// With [`a_digit_counts_for_itself`] this says what every row of digits stands for.
pub proof fn digits_in_front_count_in_tens(front: Seq<u8>, back: Seq<u8>)
    ensures
        decimal_value(front + back) == decimal_value(front) * pow(10, back.len()) + decimal_value(
            back,
        ),
    decreases back.len(),
{
    if back.len() == 0 {
        assert(front + back =~= front);
        lemma_pow0(10);
    } else {
        let less = back.drop_last();
        digits_in_front_count_in_tens(front, less);
        assert((front + back).drop_last() =~= front + less);
        assert((front + back).last() == back.last());
        let value = decimal_value(front) as int;
        let tens = pow(10, less.len());
        reveal(pow);
        assert(pow(10, back.len()) == 10 * tens);
        assert(10 * (value * tens) == value * (10 * tens)) by (nonlinear_arith);
    }
}

/// A number of more than one digit is written without a leading zero.
proof fn decimals_have_no_leading_zero(n: nat)
    ensures
        decimal(n).len() == 1 || decimal(n)[0] != 0x30,
        n > 0 ==> decimal(n)[0] != 0x30,
    decreases n,
{
    if n >= 10 {
        decimals_have_no_leading_zero(n / 10);
        decimal_reads_back(n / 10);
    }
}

/// A vault path is written out: the bytes of `vault:`, the key type, a slash, and the
/// index in digits without a leading zero.
pub proof fn paths_are_written_out(key_type: Seq<char>, index: u32)
    ensures
        exists|digits: Seq<u8>|
            {
                &&& vault_path(key_type, index) == encode_utf8("vault:"@) + encode_utf8(key_type)
                    + seq![0x2Fu8] + digits
                &&& #[trigger] decimal_value(digits) == index
                &&& 0 < digits.len()
                &&& digits.len() == 1 || digits[0] != 0x30
                &&& forall|k: int| 0 <= k < digits.len() ==> 0x30 <= #[trigger] digits[k] <= 0x39
            },
{
    let digits = decimal(index as nat);
    decimal_reads_back(index as nat);
    decimals_have_no_leading_zero(index as nat);
    assert forall|k: int| 0 <= k < digits.len() implies 0x30 <= #[trigger] digits[k] <= 0x39 by {
        assert(is_digit(digits[k]));
    }
    assert(decimal_value(digits) == index);
}

/// What is written out is read: behind `vault:`, a key type without a slash, and a slash,
/// every row of digits is the index that it stands for, with a plus sign before it or
/// without, and with leading zeros or without.
pub proof fn written_out_paths_are_read(key_type: Seq<char>, sign: Seq<u8>, digits: Seq<u8>)
    requires
        !key_type.contains('/'),
        sign == Seq::<u8>::empty() || sign == seq![0x2Bu8],
        0 < digits.len(),
        forall|k: int| 0 <= k < digits.len() ==> 0x30 <= #[trigger] digits[k] <= 0x39,
        decimal_value(digits) <= u32::MAX,
    ensures
        parsed_path(
            encode_utf8("vault:"@) + encode_utf8(key_type) + seq![0x2Fu8] + sign + digits,
        ) == Some((key_type, decimal_value(digits) as u32)),
{
    let sk = encode_utf8("vault:"@) + encode_utf8(key_type) + seq![0x2Fu8] + sign + digits;
    let name = encode_utf8(key_type);
    let spelled = sign + digits;
    let path = sk.skip(vault_prefix().len() as int);
    assert(path =~= name + (seq![SLASH] + spelled));
    assert(vault_prefix().is_prefix_of(sk)) by {
        assert(sk.subrange(0, vault_prefix().len() as int) =~= vault_prefix());
    }
    assert(valid_utf8(path)) by {
        encode_utf8_valid_utf8(key_type);
        assert forall|k: int| 0 <= k < (seq![SLASH] + spelled).len() implies #[trigger] (seq![SLASH]
            + spelled)[k] < 0x80 by {
            if k > sign.len() {
                assert((seq![SLASH] + spelled)[k] == digits[k - 1 - sign.len()]);
            }
        }
        digits_are_utf8(seq![SLASH] + spelled);
        valid_utf8_concat(name, seq![SLASH] + spelled);
    }
    slash_in_text(key_type);
    let at = path.index_of_first(SLASH).unwrap();
    path.index_of_first_ensures(SLASH);
    assert(path[name.len() as int] == SLASH);
    assert(at == name.len()) by {
        if at < name.len() {
            assert(name[at] == SLASH);
        }
    }
    assert(path.take(at) =~= name);
    assert(path.skip(at + 1) =~= spelled);
    encode_utf8_decode_utf8(key_type);
    assert(without_sign(spelled) =~= digits) by {
        if sign.len() == 0 {
            assert(spelled =~= digits);
            assert(digits[0] <= 0x39 && digits[0] >= 0x30);
        } else {
            assert(spelled[0] == 0x2B);
            assert(spelled.skip(1) =~= digits);
        }
    }
    assert forall|k: int| 0 <= k < digits.len() implies is_digit(#[trigger] digits[k]) by {}
}

/// What is read was written out: bytes are a vault path only if they are `vault:`, the
/// key type, which has no slash, a slash, and digits that stand for the index, with a
/// plus sign before them or without.
pub proof fn read_paths_are_written_out(sk: Seq<u8>, key_type: Seq<char>, index: u32)
    requires
        parsed_path(sk) == Some((key_type, index)),
    ensures
        !key_type.contains('/'),
        exists|sign: Seq<u8>, digits: Seq<u8>|
            {
                &&& sk == encode_utf8("vault:"@) + encode_utf8(key_type) + seq![0x2Fu8]
                    + #[trigger] (sign + digits)
                &&& sign == Seq::<u8>::empty() || sign == seq![0x2Bu8]
                &&& 0 < digits.len()
                &&& forall|k: int| 0 <= k < digits.len() ==> 0x30 <= #[trigger] digits[k] <= 0x39
                &&& decimal_value(digits) == index
            },
{
    parsed_paths_encode_again(sk);
    let path = sk.skip(vault_prefix().len() as int);
    let at = path.index_of_first(SLASH).unwrap();
    path.index_of_first_ensures(SLASH);
    is_char_boundary_iff_is_leading_byte(path, at);
    assert(is_leading_byte_width_1(path[at]));
    valid_utf8_split(path, at);
    let name = path.take(at);
    assert(name == path.subrange(0, at));
    decode_utf8_encode_utf8(name);
    let spelled = path.skip(at + 1);
    let digits = without_sign(spelled);
    let sign = spelled.take(spelled.len() - digits.len());
    assert(sign + digits =~= spelled);
    if sign.len() > 0 {
        assert(sign =~= seq![0x2Bu8]);
    } else {
        assert(sign =~= Seq::<u8>::empty());
    }
    assert(vault_prefix() =~= sk.take(vault_prefix().len() as int)) by {
        assert(vault_prefix().is_prefix_of(sk));
    }
    assert(sk =~= vault_prefix() + path);
    assert(path =~= name + seq![SLASH] + spelled);
    assert(sk =~= encode_utf8("vault:"@) + encode_utf8(key_type) + seq![0x2Fu8] + (sign + digits));
    assert forall|k: int| 0 <= k < digits.len() implies 0x30 <= #[trigger] digits[k] <= 0x39 by {
        assert(is_digit(digits[k]));
    }
}

/// Private key bytes stand for a key in the vault just if they are a vault path with the
/// key type `init` or `enc`. All others, and among them all that do not start with
/// `vault:`, stand for none.
pub proof fn marked_keys_are_paths_of_init_and_enc(sk: Seq<u8>, key_type: Seq<char>, index: u32)
    ensures
        marked_key(sk) == Some((key_type, index)) <==> parsed_path(sk) == Some((key_type, index))
            && (key_type == "init"@ || key_type == "enc"@),
        marked_key(sk) is Some ==> encode_utf8("vault:"@).is_prefix_of(sk),
        is_key_type(key_type) <==> key_type == "init"@ || key_type == "enc"@,
{
}

/// The paths of the keys in the vault's key tree read back, as what they are, and all
/// are shorter than a raw X25519 key.
pub proof fn marked_keys_read_back(key_type: Seq<char>, index: u32)
    requires
        is_key_type(key_type),
    ensures
        marked_key(vault_path(key_type, index)) == Some((key_type, index)),
        vault_path(key_type, index).len() < X25519_LEN,
{
    reveal_strlit("vault:");
    reveal_strlit("init");
    reveal_strlit("enc");
    is_ascii_chars_encode_utf8(VAULT_PREFIX@);
    is_ascii_chars_encode_utf8(INIT@);
    is_ascii_chars_encode_utf8(ENC@);
    indices_are_short(index as nat);
    vault_path_reads_back(key_type, index);
}

} // verus!
