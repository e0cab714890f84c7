//! The textual form of a 128-bit UUID.

use vstd::arithmetic::div_mod::lemma_div_denominator;
use vstd::arithmetic::power::{lemma_pow0, lemma_pow_adds, lemma_pow_positive, pow};
use vstd::prelude::*;

verus! {

/// The lower-case hexadecimal digit for a value below sixteen.
pub open spec fn hex_digit(value: int) -> char
    recommends
        0 <= value < 16,
{
    if value < 10 {
        ('0' as int + value) as char
    } else {
        ('a' as int + value - 10) as char
    }
}

/// The `k`-th of the 32 hexadecimal digits of `id`, the most significant first.
pub open spec fn nibble(id: u128, k: int) -> int
    recommends
        0 <= k < 32,
{
    (id as int / pow(16, (31 - k) as nat)) % 16
}

/// How many hyphens stand before position `i` of the hyphenated form.
pub open spec fn hyphens_before(i: int) -> int {
    if i < 8 {
        0
    } else if i < 13 {
        1
    } else if i < 18 {
        2
    } else if i < 23 {
        3
    } else {
        4
    }
}

/// The character at position `i` of the hyphenated form of `id`.
pub open spec fn uuid_char(id: u128, i: int) -> char
    recommends
        0 <= i < 36,
{
    if i == 8 || i == 13 || i == 18 || i == 23 {
        '-'
    } else {
        hex_digit(nibble(id, i - hyphens_before(i)))
    }
}

/// The hyphenated lower-case form of a UUID: 32 hexadecimal digits, the most
/// significant first, in groups of 8, 4, 4, 4 and 12.
pub open spec fn uuid_text(id: u128) -> Seq<char> {
    Seq::new(36, |i: int| uuid_char(id, i))
}

/// The place in the hyphenated form of the `k`-th hexadecimal digit.
pub open spec fn digit_position(k: int) -> int {
    if k < 8 {
        k
    } else if k < 12 {
        k + 1
    } else if k < 16 {
        k + 2
    } else if k < 20 {
        k + 3
    } else {
        k + 4
    }
}

/// The number that the first `n` hexadecimal digits of `id` spell.
pub open spec fn leading(id: u128, n: int) -> int
    recommends
        0 <= n <= 32,
{
    id as int / pow(16, (32 - n) as nat)
}

/// Sixteen to the power of 32 is above every UUID.
proof fn lemma_pow16_32()
    ensures
        pow(16, 32) == 0x1_0000_0000_0000_0000_0000_0000_0000_0000,
{
    let power_1 = pow(16, 1);
    let power_2 = pow(16, 2);
    let power_4 = pow(16, 4);
    let power_8 = pow(16, 8);
    let power_16 = pow(16, 16);
    let power_32 = pow(16, 32);
    assert(power_1 == 16) by {
        reveal_with_fuel(pow, 2);
    }
    lemma_pow_adds(16, 1, 1);
    lemma_pow_adds(16, 2, 2);
    lemma_pow_adds(16, 4, 4);
    lemma_pow_adds(16, 8, 8);
    lemma_pow_adds(16, 16, 16);
    assert(power_2 == 0x100) by (nonlinear_arith)
        requires
            power_1 == 16,
            power_2 == power_1 * power_1,
    ;
    assert(power_4 == 0x1_0000) by (nonlinear_arith)
        requires
            power_2 == 0x100,
            power_4 == power_2 * power_2,
    ;
    assert(power_8 == 0x1_0000_0000) by (nonlinear_arith)
        requires
            power_4 == 0x1_0000,
            power_8 == power_4 * power_4,
    ;
    assert(power_16 == 0x1_0000_0000_0000_0000) by (nonlinear_arith)
        requires
            power_8 == 0x1_0000_0000,
            power_16 == power_8 * power_8,
    ;
    assert(power_32 == 0x1_0000_0000_0000_0000_0000_0000_0000_0000) by (nonlinear_arith)
        requires
            power_16 == 0x1_0000_0000_0000_0000,
            power_32 == power_16 * power_16,
    ;
}

/// One more digit: sixteen times what the digits before it spell, and the
/// digit.
proof fn lemma_leading_step(id: u128, n: int)
    requires
        0 <= n < 32,
    ensures
        leading(id, n + 1) == 16 * leading(id, n) + nibble(id, n),
        0 <= nibble(id, n) < 16,
{
    // With `d` the weight of the digit: the digits before it spell
    // `id / (d * 16)`, which is `(id / d) / 16`, and the digit is `(id / d) % 16`.
    let d = pow(16, (31 - n) as nat);
    lemma_pow_positive(16, (31 - n) as nat);
    assert(pow(16, (32 - n) as nat) == d * 16) by {
        reveal_with_fuel(pow, 2);
    }
    lemma_div_denominator(id as int, d, 16);
}

/// Two UUIDs with the same first `n` digits spell the same number there.
proof fn lemma_leading_by_digits(a: u128, b: u128, n: int)
    requires
        0 <= n <= 32,
        forall|k: int| 0 <= k < n ==> nibble(a, k) == nibble(b, k),
    ensures
        leading(a, n) == leading(b, n),
    decreases n,
{
    if n == 0 {
        // No digit: both numbers are zero, a UUID being below 16^32.
        lemma_pow16_32();
    } else {
        lemma_leading_by_digits(a, b, n - 1);
        lemma_leading_step(a, n - 1);
        lemma_leading_step(b, n - 1);
    }
}

/// The text names its UUID: two UUIDs with the same text are one.
pub proof fn lemma_uuid_text_names_one_uuid(a: u128, b: u128)
    requires
        uuid_text(a) == uuid_text(b),
    ensures
        a == b,
{
    assert forall|k: int| 0 <= k < 32 implies nibble(a, k) == nibble(b, k) by {
        // The two texts show the same digit at the place of the `k`-th, and
        // a digit stands for one value below sixteen.
        let i = digit_position(k);
        assert(uuid_text(a)[i] == hex_digit(nibble(a, k)));
        assert(uuid_text(b)[i] == hex_digit(nibble(b, k)));
    }
    lemma_leading_by_digits(a, b, 32);
    lemma_pow0(16);
}

/// Renders a UUID as text with `uuid::Uuid::to_string`, after `uuid::Uuid::from_u128`
/// has taken `id` as the UUID's sixteen bytes in big-endian order.
///
/// Trusted: the `uuid` crate writes a UUID through its hyphenated lower-case
/// encoder, which is what `uuid_text` spells out.
#[verifier::external_body]
pub(crate) fn uuid_string(id: u128) -> (text: String)
    ensures
        text@ == uuid_text(id),
{
    uuid::Uuid::from_u128(id).to_string()
}

} // verus!
