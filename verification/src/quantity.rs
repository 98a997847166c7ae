//! The textual number forms of the wire and the key derivation paths:
//! `0x`-prefixed hex quantities, `0x`-prefixed 64-digit transaction
//! hashes, and plain decimal renderings.

use vstd::prelude::*;

use crate::hash::{hex_digit, H256};

verus! {

/// The value of one hex digit character, or -1 where it is none.
pub open spec fn hex_digit_value(c: char) -> int {
    if '0' as int <= c as int && c as int <= '9' as int {
        c as int - '0' as int
    } else if 'a' as int <= c as int && c as int <= 'f' as int {
        10 + c as int - 'a' as int
    } else if 'A' as int <= c as int && c as int <= 'F' as int {
        10 + c as int - 'A' as int
    } else {
        -1
    }
}

/// Whether a character is a hex digit, either case.
pub open spec fn is_hex_digit(c: char) -> bool {
    hex_digit_value(c) >= 0
}

/// The value of one digit, counting a non-digit as zero so that the
/// accumulated value is total.
pub open spec fn digit_val(c: char) -> nat {
    if is_hex_digit(c) {
        hex_digit_value(c) as nat
    } else {
        0
    }
}

/// The number a string of hex digits denotes, most significant first.
pub open spec fn hex_seq_value(s: Seq<char>) -> nat
    decreases s.len(),
{
    if s.len() == 0 {
        0
    } else {
        hex_seq_value(s.drop_last()) * 16 + digit_val(s.last())
    }
}

/// Whether a string is a well-formed quantity: `0x`, then at least one
/// hex digit.
pub open spec fn spec_is_quantity(s: Seq<char>) -> bool {
    &&& s.len() >= 3
    &&& s[0] == '0'
    &&& s[1] == 'x'
    &&& forall|i: int| 2 <= i < s.len() ==> is_hex_digit(#[trigger] s[i])
}

/// Why a quantity string was rejected.
#[derive(Clone, Copy, PartialEq, Eq, Structural, Debug)]
pub enum QuantityError {
    /// Not `0x` followed by hex digits.
    Malformed,
    /// A well-formed quantity beyond the engine's value range.
    Overflow,
}

/// The value of one hex digit character.
fn hex_digit_of(c: char) -> (r: Option<u8>)
    ensures
        r is Some <==> is_hex_digit(c),
        r matches Some(v) ==> v as int == hex_digit_value(c),
{
    let v = c as u32;
    if v >= 48 && v <= 57 {
        Some((v - 48) as u8)
    } else if v >= 97 && v <= 102 {
        Some((v - 97 + 10) as u8)
    } else if v >= 65 && v <= 70 {
        Some((v - 65 + 10) as u8)
    } else {
        None
    }
}

/// A longer digit string never denotes a smaller number.
proof fn lemma_hex_value_monotone(s: Seq<char>, i: int, j: int)
    requires
        0 <= i <= j <= s.len(),
    ensures
        hex_seq_value(s.take(i)) <= hex_seq_value(s.take(j)),
    decreases j - i,
{
    if i < j {
        lemma_hex_value_monotone(s, i, j - 1);
        let t = s.take(j);
        assert(t.drop_last() =~= s.take(j - 1));
        assert(hex_seq_value(s.take(j - 1)) * 16 >= hex_seq_value(s.take(j - 1)))
            by (nonlinear_arith);
    }
}

/// Parses a `0x`-prefixed hex quantity, as the node renders numbers:
/// the denoted value exactly, `Malformed` where the shape is wrong, and
/// `Overflow` where the value does not fit the engine's range.
pub fn parse_hex_quantity(s: &str) -> (r: Result<u128, QuantityError>)
    ensures
        r is Ok <==> spec_is_quantity(s@) && hex_seq_value(s@.skip(2)) <= u128::MAX,
        r matches Ok(v) ==> v == hex_seq_value(s@.skip(2)),
        r == Err::<u128, _>(QuantityError::Malformed) <==> !spec_is_quantity(s@),
        r == Err::<u128, _>(QuantityError::Overflow) <==> spec_is_quantity(s@) && hex_seq_value(
            s@.skip(2),
        ) > u128::MAX,
{
    let len = s.unicode_len();
    if len < 3 {
        return Err(QuantityError::Malformed);
    }
    if s.get_char(0) != '0' || s.get_char(1) != 'x' {
        return Err(QuantityError::Malformed);
    }
    let mut i: usize = 2;
    while i < len
        invariant
            2 <= i <= len,
            len == s@.len(),
            forall|k: int| 2 <= k < i ==> is_hex_digit(#[trigger] s@[k]),
        decreases len - i,
    {
        if hex_digit_of(s.get_char(i)).is_none() {
            return Err(QuantityError::Malformed);
        }
        i = i + 1;
    }
    assert(spec_is_quantity(s@));
    let ghost digits = s@.skip(2);
    let mut acc: u128 = 0;
    let mut j: usize = 2;
    while j < len
        invariant
            2 <= j <= len,
            len == s@.len(),
            spec_is_quantity(s@),
            digits == s@.skip(2),
            acc == hex_seq_value(digits.take(j - 2)),
        decreases len - j,
    {
        let d = match hex_digit_of(s.get_char(j)) {
            Some(d) => d,
            None => {
                proof {
                    assert(is_hex_digit(s@[j as int]));
                }
                return Err(QuantityError::Malformed);
            },
        };
        proof {
            assert(digits.take(j - 2 + 1).drop_last() =~= digits.take(j - 2));
            assert(digits.take(j - 2 + 1).last() == s@[j as int]);
        }
        let next = match acc.checked_mul(16) {
            Some(a) => match a.checked_add(d as u128) {
                Some(b) => b,
                None => {
                    proof {
                        lemma_hex_value_monotone(digits, j - 2 + 1, digits.len() as int);
                        assert(digits.take(digits.len() as int) =~= digits);
                    }
                    return Err(QuantityError::Overflow);
                },
            },
            None => {
                proof {
                    assert(acc * 16 + digit_val(s@[j as int]) >= acc * 16);
                    lemma_hex_value_monotone(digits, j - 2 + 1, digits.len() as int);
                    assert(digits.take(digits.len() as int) =~= digits);
                }
                return Err(QuantityError::Overflow);
            },
        };
        acc = next;
        j = j + 1;
    }
    proof {
        assert(digits.take(len - 2) =~= digits);
    }
    Ok(acc)
}

/// Hex digits of a number, most significant first, no leading zeros
/// (a single `0` for zero).
pub open spec fn spec_hex_digits_of(n: nat) -> Seq<char>
    decreases n,
{
    if n < 16 {
        seq![hex_digit(n as int)]
    } else {
        spec_hex_digits_of(n / 16).push(hex_digit((n % 16) as int))
    }
}

/// The quantity rendering of a number: `0x` before its hex digits.
pub open spec fn spec_quantity(n: nat) -> Seq<char> {
    "0x"@ + spec_hex_digits_of(n)
}

/// The hex digits of a number, as `parse_hex_quantity` reads them back.
pub fn hex_digits_string(n: u128) -> (r: String)
    ensures
        r@ == spec_hex_digits_of(n as nat),
    decreases n,
{
    if n < 16 {
        String::from_str(crate::hash::hex_digit_str((n % 16) as u8))
    } else {
        proof {
            assert(n / 16 < n) by (nonlinear_arith)
                requires
                    n >= 16,
            ;
        }
        let mut s = hex_digits_string(n / 16);
        s.append(crate::hash::hex_digit_str((n % 16) as u8));
        s
    }
}

/// Renders a number as a `0x`-prefixed hex quantity.
pub fn hex_quantity(n: u128) -> (r: String)
    ensures
        r@ == spec_quantity(n as nat),
{
    let mut s = String::from_str("0x");
    let digits = hex_digits_string(n);
    s.append(digits.as_str());
    s
}

/// Every rendered digit is a hex digit, there is at least one, and the
/// digits denote the rendered number.
proof fn lemma_hex_digits_of_valid(n: nat)
    ensures
        spec_hex_digits_of(n).len() >= 1,
        forall|i: int|
            0 <= i < spec_hex_digits_of(n).len() ==> is_hex_digit(#[trigger] spec_hex_digits_of(n)[i]),
        hex_seq_value(spec_hex_digits_of(n)) == n,
    decreases n,
{
    if n < 16 {
        assert(hex_seq_value(spec_hex_digits_of(n)) == hex_seq_value(Seq::<char>::empty()) * 16
            + digit_val(hex_digit(n as int))) by {
            assert(spec_hex_digits_of(n).drop_last() =~= Seq::<char>::empty());
        }
    } else {
        lemma_hex_digits_of_valid(n / 16);
        let t = spec_hex_digits_of(n);
        assert(t.drop_last() =~= spec_hex_digits_of(n / 16));
        assert(hex_seq_value(t) == (n / 16) * 16 + digit_val(hex_digit((n % 16) as int)));
        assert(digit_val(hex_digit((n % 16) as int)) == n % 16);
        assert((n / 16) * 16 + n % 16 == n) by (nonlinear_arith);
        assert forall|i: int| 0 <= i < t.len() implies is_hex_digit(#[trigger] t[i]) by {
            if i < t.len() - 1 {
                assert(t[i] == spec_hex_digits_of(n / 16)[i]);
            }
        }
    }
}

/// Round trip: a rendered quantity is well-formed and denotes the number
/// it was rendered from, so `parse_hex_quantity` returns exactly that
/// number.
pub proof fn lemma_quantity_round_trip(n: u128)
    ensures
        spec_is_quantity(spec_quantity(n as nat)),
        hex_seq_value(spec_quantity(n as nat).skip(2)) == n,
{
    reveal_strlit("0x");
    lemma_hex_digits_of_valid(n as nat);
    let q = spec_quantity(n as nat);
    assert(q.skip(2) =~= spec_hex_digits_of(n as nat));
    assert forall|i: int| 2 <= i < q.len() implies is_hex_digit(#[trigger] q[i]) by {
        assert(q[i] == spec_hex_digits_of(n as nat)[i - 2]);
    }
}

/// The digit character for one value below ten.
pub open spec fn dec_digit(n: int) -> char {
    if n == 0 { '0' } else if n == 1 { '1' } else if n == 2 { '2' }
    else if n == 3 { '3' } else if n == 4 { '4' } else if n == 5 { '5' }
    else if n == 6 { '6' } else if n == 7 { '7' } else if n == 8 { '8' }
    else { '9' }
}

/// Decimal rendering of a number, most significant digit first, without
/// leading zeros.
pub open spec fn spec_dec_digits(n: nat) -> Seq<char>
    decreases n,
{
    if n < 10 {
        seq![dec_digit(n as int)]
    } else {
        spec_dec_digits(n / 10).push(dec_digit((n % 10) as int))
    }
}

/// Decimal rendering of a number padded with leading zeros to `width`
/// digits, keeping only the `width` least significant digits.
pub open spec fn spec_dec_padded(n: nat, width: nat) -> Seq<char>
    decreases width,
{
    if width == 0 {
        Seq::empty()
    } else {
        spec_dec_padded(n / 10, (width - 1) as nat).push(dec_digit((n % 10) as int))
    }
}

/// One decimal digit as a one-character string slice.
fn dec_digit_str(n: u64) -> (r: &'static str)
    requires
        n < 10,
    ensures
        r@ =~= seq![dec_digit(n as int)],
{
    proof {
        reveal_strlit("0"); reveal_strlit("1"); reveal_strlit("2");
        reveal_strlit("3"); reveal_strlit("4"); reveal_strlit("5");
        reveal_strlit("6"); reveal_strlit("7"); reveal_strlit("8");
        reveal_strlit("9");
    }
    match n {
        0 => "0", 1 => "1", 2 => "2", 3 => "3", 4 => "4",
        5 => "5", 6 => "6", 7 => "7", 8 => "8", _ => "9",
    }
}

/// The decimal rendering of a number, without leading zeros.
pub fn dec_string(n: u64) -> (r: String)
    ensures
        r@ == spec_dec_digits(n as nat),
    decreases n,
{
    if n < 10 {
        String::from_str(dec_digit_str(n))
    } else {
        proof {
            assert(n / 10 < n) by (nonlinear_arith)
                requires
                    n >= 10,
            ;
        }
        let mut s = dec_string(n / 10);
        s.append(dec_digit_str(n % 10));
        s
    }
}

/// The decimal rendering of a number, zero-padded to `width` digits.
pub fn dec_string_padded(n: u64, width: u8) -> (r: String)
    ensures
        r@ == spec_dec_padded(n as nat, width as nat),
    decreases width,
{
    if width == 0 {
        String::new()
    } else {
        let mut s = dec_string_padded(n / 10, width - 1);
        s.append(dec_digit_str(n % 10));
        s
    }
}

/// Whether a string is the textual form of a 256-bit hash: `0x`, then
/// exactly 64 hex digits.
pub open spec fn spec_is_hash_text(s: Seq<char>) -> bool {
    &&& s.len() == 66
    &&& s[0] == '0'
    &&& s[1] == 'x'
    &&& forall|i: int| 2 <= i < s.len() ==> is_hex_digit(#[trigger] s[i])
}

/// The hash bytes a well-formed hash text denotes.
pub open spec fn spec_hash_bytes(s: Seq<char>) -> Seq<u8> {
    Seq::new(32, |i: int| (digit_val(s[2 + 2 * i]) * 16 + digit_val(s[3 + 2 * i])) as u8)
}

/// Whether a string is a bare 256-bit hash: exactly 64 hex digits, no
/// prefix, as Bitcoin's wire renders txids and block hashes.
pub open spec fn spec_is_bare_hash_text(s: Seq<char>) -> bool {
    &&& s.len() == 64
    &&& forall|i: int| 0 <= i < s.len() ==> is_hex_digit(#[trigger] s[i])
}

/// The hash bytes a bare hash text denotes.
pub open spec fn spec_bare_hash_bytes(s: Seq<char>) -> Seq<u8> {
    Seq::new(32, |i: int| (digit_val(s[2 * i]) * 16 + digit_val(s[1 + 2 * i])) as u8)
}

/// Parses a bare 64-digit hash, as Bitcoin's wire renders ids.
pub fn parse_bare_hash_text(s: &str) -> (r: Option<H256>)
    ensures
        r is Some <==> spec_is_bare_hash_text(s@),
        r matches Some(h) ==> h@ == spec_bare_hash_bytes(s@),
{
    let len = s.unicode_len();
    if len != 64 {
        return None;
    }
    let mut bytes = [0u8; 32];
    let mut i: usize = 0;
    while i < 32
        invariant
            i <= 32,
            len == s@.len(),
            s@.len() == 64,
            forall|k: int| 0 <= k < 2 * i ==> is_hex_digit(#[trigger] s@[k]),
            forall|k: int|
                0 <= k < i ==> bytes@[k] == (digit_val(s@[2 * k]) * 16 + digit_val(
                    s@[1 + 2 * k],
                )) as u8,
        decreases 32 - i,
    {
        let hi = match hex_digit_of(s.get_char(2 * i)) {
            Some(d) => d,
            None => {
                return None;
            },
        };
        let lo = match hex_digit_of(s.get_char(1 + 2 * i)) {
            Some(d) => d,
            None => {
                return None;
            },
        };
        bytes[i] = hi * 16 + lo;
        proof {
            assert forall|k: int| 0 <= k < 2 * (i + 1) implies is_hex_digit(
                #[trigger] s@[k],
            ) by {
                if k == 2 * i {
                    assert(s@[k] == s@[2 * (i as int)]);
                } else if k == 2 * i + 1 {
                    assert(s@[k] == s@[1 + 2 * (i as int)]);
                }
            }
        }
        i = i + 1;
    }
    proof {
        assert(bytes@ =~= spec_bare_hash_bytes(s@));
    }
    Some(H256::from_hash(bytes))
}

/// Parses the textual form of a 256-bit hash, as the node reports
/// transaction and block ids.
pub fn parse_hash_text(s: &str) -> (r: Option<H256>)
    ensures
        r is Some <==> spec_is_hash_text(s@),
        r matches Some(h) ==> h@ == spec_hash_bytes(s@),
{
    let len = s.unicode_len();
    if len != 66 {
        return None;
    }
    if s.get_char(0) != '0' || s.get_char(1) != 'x' {
        return None;
    }
    let mut bytes = [0u8; 32];
    let mut i: usize = 0;
    while i < 32
        invariant
            i <= 32,
            len == s@.len(),
            s@.len() == 66,
            s@[0] == '0',
            s@[1] == 'x',
            forall|k: int| 0 <= k < 2 * i + 2 - 2 ==> is_hex_digit(#[trigger] s@[k + 2]),
            forall|k: int|
                0 <= k < i ==> bytes@[k] == (digit_val(s@[2 + 2 * k]) * 16 + digit_val(
                    s@[3 + 2 * k],
                )) as u8,
        decreases 32 - i,
    {
        let hi = match hex_digit_of(s.get_char(2 + 2 * i)) {
            Some(d) => d,
            None => {
                return None;
            },
        };
        let lo = match hex_digit_of(s.get_char(3 + 2 * i)) {
            Some(d) => d,
            None => {
                return None;
            },
        };
        bytes[i] = hi * 16 + lo;
        proof {
            assert forall|k: int| 0 <= k < 2 * (i + 1) + 2 - 2 implies is_hex_digit(
                #[trigger] s@[k + 2],
            ) by {
                if k < 2 * i {
                } else if k == 2 * i {
                    assert(s@[k + 2] == s@[2 + 2 * (i as int)]);
                } else {
                    assert(s@[k + 2] == s@[3 + 2 * (i as int)]);
                }
            }
        }
        i = i + 1;
    }
    proof {
        assert forall|k: int| 2 <= k < s@.len() implies is_hex_digit(#[trigger] s@[k]) by {
            assert(s@[k] == s@[(k - 2) + 2]);
        }
        assert(bytes@ =~= spec_hash_bytes(s@));
    }
    Some(H256::from_hash(bytes))
}

} // verus!
