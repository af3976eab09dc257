use vstd::arithmetic::power2::pow2;
use vstd::prelude::*;

verus! {

/// An element of the Stark prime field, held as the 32-byte big-endian
/// encoding of its least non-negative representative.
#[derive(Debug, Clone, Copy, PartialEq, Eq)]
pub struct Felt252 {
    pub bytes: [u8; 32],
}

impl View for Felt252 {
    type V = Seq<u8>;

    open spec fn view(&self) -> Seq<u8> {
        self.bytes@
    }
}

/// The modulus of the Stark prime field: 2^251 + 17 * 2^192 + 1.
pub open spec fn stark_prime() -> nat {
    pow2(251) + 17 * pow2(192) + 1
}

pub open spec fn is_dec_digit(c: char) -> bool {
    '0' <= c && c <= '9'
}

pub open spec fn all_dec_digits(s: Seq<char>) -> bool {
    forall|i: int| 0 <= i < s.len() ==> #[trigger] is_dec_digit(s[i])
}

/// The text without its leading minus sign, if it has one.
pub open spec fn magnitude_text(s: Seq<char>) -> Seq<char> {
    if s.len() > 0 && s[0] == '-' {
        s.drop_first()
    } else {
        s
    }
}

/// An optional minus sign followed by one or more decimal digits.
pub open spec fn is_decimal_literal(s: Seq<char>) -> bool {
    magnitude_text(s).len() > 0 && all_dec_digits(magnitude_text(s))
}

/// The number that a string of decimal digits denotes.
pub open spec fn decimal_value(s: Seq<char>) -> nat
    decreases s.len(),
{
    if s.len() == 0 {
        0
    } else {
        decimal_value(s.drop_last()) * 10 + ((s.last() as int) - ('0' as int)) as nat
    }
}

/// The `len`-byte big-endian encoding of `n` (of `n` modulo 256^len where it
/// does not fit).
pub open spec fn be_bytes(n: nat, len: nat) -> Seq<u8>
    decreases len,
{
    if len == 0 {
        Seq::empty()
    } else {
        be_bytes(n / 256, (len - 1) as nat).push((n % 256) as u8)
    }
}

/// The decimal notation of 2^256 without its last digit, `6`: the 77
/// leading digits of 115792089237316195423570985008687907853269984665640564039457584007913129639936.
pub open spec fn two_pow_256_head() -> Seq<char> {
    "11579208923731619542357098500868790785326998466564056403945758400791312963993"@
}

/// The text without its leading zeros.
pub open spec fn without_leading_zeros(s: Seq<char>) -> Seq<char>
    decreases s.len(),
{
    if s.len() > 0 && s[0] == '0' {
        without_leading_zeros(s.drop_first())
    } else {
        s
    }
}

/// Whether the digits of a text, after an optional minus sign and leading
/// zeros, begin with the decimal notation of 2^256, 2^256 + 1, 2^256 + 2 or
/// 2^256 + 3: the numbers that a prefix of the digits must reach for
/// `UnsignedInteger::from_dec_str` of lambdaworks-math to carry out of its
/// 256 bits in the addition of a digit (a multiple of ten below 2^256 is at
/// most 2^256 - 6).
pub open spec fn accumulator_overflows(text: Seq<char>) -> bool {
    let d = without_leading_zeros(magnitude_text(text));
    &&& d.len() > two_pow_256_head().len()
    &&& d.take(two_pow_256_head().len() as int) == two_pow_256_head()
    &&& '6' <= d[two_pow_256_head().len() as int] && d[two_pow_256_head().len() as int] <= '9'
}

/// The number a decimal literal denotes as a field element: its magnitude
/// modulo the Stark prime, negated modulo the prime where it has a minus
/// sign.
pub open spec fn literal_field_value(text: Seq<char>) -> int {
    let v = decimal_value(magnitude_text(text)) % stark_prime();
    if text.len() > 0 && text[0] == '-' {
        (stark_prime() - v) % (stark_prime() as int)
    } else {
        v as int
    }
}

/// Whether `Felt::from_dec_str` accepts a text: an optional minus sign
/// followed by one or more decimal digits whose number is below 2^256.
pub open spec fn felt_accepts(text: Seq<char>) -> bool {
    is_decimal_literal(text) && decimal_value(magnitude_text(text)) < pow2(256)
}

/// What parsing a text gives: the 32-byte big-endian encoding of its field
/// value where it is accepted and the 256-bit accumulator does not overflow
/// on it; else nothing.
pub open spec fn parsed_felt(text: Seq<char>) -> Option<Seq<u8>> {
    if !accumulator_overflows(text) && felt_accepts(text) {
        Some(be_bytes(literal_field_value(text) as nat, 32))
    } else {
        None
    }
}

/// Parses a decimal text into a field element with
/// `starknet_types_core::felt::Felt::from_dec_str` (the function that
/// cairo-vm re-exports as `Felt252::from_dec_str`) and hands back
/// `Felt::to_bytes_be` of the result.
///
/// A text on which the digit loop of lambdaworks-math's
/// `UnsignedInteger::from_dec_str` carries out of 256 bits in an addition
/// (`accumulator_overflows`) is left out: there its `debug_assert!` panics,
/// or a release build goes on with the wrapped value.
///
/// Claimed of it otherwise, as its source shows: a text is accepted exactly
/// when it is an optional `-` followed by one or more ASCII digits whose
/// number is below 2^256 (a byte that is no digit and a product that leaves
/// 256 bits are refused); and the element is that number modulo the Stark
/// prime, negated where the text has the minus sign (`FieldElement::from`
/// reduces, `neg` subtracts from the modulus), which `to_bytes_be` writes as
/// 32 bytes, most significant first.
#[verifier::external_body]
fn felt_from_dec_chars(text: &[char]) -> (r: Option<[u8; 32]>)
    requires
        !accumulator_overflows(text@),
    ensures
        r is Some <==> felt_accepts(text@),
        r matches Some(b) ==> b@ == be_bytes(literal_field_value(text@) as nat, 32),
{
    let text: String = text.iter().collect();
    starknet_types_core::felt::Felt::from_dec_str(&text).ok().map(|f| f.to_bytes_be())
}

/// Whether `text[start..end]` is a text on which the accumulator of the
/// decimal parser overflows, as `accumulator_overflows` says.
pub fn overflows_accumulator(text: &Vec<char>, start: usize, end: usize) -> (b: bool)
    requires
        start <= end <= text.len(),
    ensures
        b == accumulator_overflows(text@.subrange(start as int, end as int)),
{
    let ghost whole = text@.subrange(start as int, end as int);
    let mut i = start;
    if i < end && text[i] == '-' {
        i = i + 1;
    }
    proof {
        assert(magnitude_text(whole) =~= text@.subrange(i as int, end as int));
    }
    while i < end && text[i] == '0'
        invariant
            start <= i <= end <= text.len(),
            without_leading_zeros(magnitude_text(whole)) == without_leading_zeros(
                text@.subrange(i as int, end as int),
            ),
        decreases end - i,
    {
        proof {
            assert(text@.subrange(i as int, end as int).drop_first() =~= text@.subrange(
                i + 1,
                end as int,
            ));
        }
        i = i + 1;
    }
    let ghost d = text@.subrange(i as int, end as int);
    proof {
        assert(without_leading_zeros(d) == d);
    }
    let head = "11579208923731619542357098500868790785326998466564056403945758400791312963993";
    let n = head.unicode_len();
    if end - i <= n {
        return false;
    }
    let mut j: usize = 0;
    while j < n
        invariant
            n == head@.len(),
            head@ == two_pow_256_head(),
            i + n < end <= text.len(),
            d == text@.subrange(i as int, end as int),
            without_leading_zeros(magnitude_text(whole)) == d,
            whole == text@.subrange(start as int, end as int),
            j <= n,
            forall|k: int| 0 <= k < j ==> text@[i + k] == head@[k],
        decreases n - j,
    {
        if text[i + j] != head.get_char(j) {
            proof {
                assert(d[j as int] == text@[i + j]);
                assert(d.take(n as int)[j as int] != two_pow_256_head()[j as int]);
                assert(d.take(n as int) != two_pow_256_head());
            }
            return false;
        }
        j = j + 1;
    }
    proof {
        assert(d.take(n as int) =~= two_pow_256_head());
    }
    let last = text[i + n];
    '6' <= last && last <= '9'
}

/// Parses the decimal text `text[start..end]` into a field element, as
/// `parsed_felt` says: a text is accepted exactly when the accumulator does
/// not overflow on it and it is an optional `-` followed by decimal digits
/// whose number is below 2^256; the element is that number modulo the Stark
/// prime, negated where the text has the minus sign.
pub fn parse_felt(text: &Vec<char>, start: usize, end: usize) -> (r: Option<Felt252>)
    requires
        start <= end <= text.len(),
    ensures
        match r {
            Some(f) => parsed_felt(text@.subrange(start as int, end as int)) == Some(f@),
            None => parsed_felt(text@.subrange(start as int, end as int)) is None,
        },
{
    if overflows_accumulator(text, start, end) {
        return None;
    }
    let piece = &text.as_slice()[start..end];
    match felt_from_dec_chars(piece) {
        Some(bytes) => Some(Felt252 { bytes }),
        None => None,
    }
}

} // verus!
