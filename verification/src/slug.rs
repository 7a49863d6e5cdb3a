//! The slug codec: a bijection between 32-bit IDs below `36^6` and 6-byte
//! base-36 identifiers over the alphabet `[0-9a-z]`, most significant digit
//! first.

use vstd::prelude::*;

verus! {

/// One more than the largest encodable ID: `36^6`.
pub const MAX_SLUGGABLE_ID: u32 = 2176782336;

/// The byte that stands for one base-36 digit: `0-9` then `a-z`.
pub open spec fn digit_byte(d: int) -> u8 {
    if d < 10 {
        (48 + d) as u8
    } else {
        (87 + d) as u8
    }
}

/// Whether a byte is a valid slug byte, i.e. in `[0-9a-z]`.
pub open spec fn is_slug_byte(b: u8) -> bool {
    (48 <= b <= 57) || (97 <= b <= 122)
}

/// The numeric value of a slug byte.
pub open spec fn digit_value(b: u8) -> int {
    if 48 <= b <= 57 {
        b - 48
    } else {
        b - 87
    }
}

/// The 6-byte slug of an ID, most significant base-36 digit first.
pub open spec fn slug_of(id: int) -> Seq<u8> {
    seq![
        digit_byte(id / (36int * 36 * 36 * 36 * 36) % 36),
        digit_byte(id / (36int * 36 * 36 * 36) % 36),
        digit_byte(id / (36int * 36 * 36) % 36),
        digit_byte(id / (36int * 36) % 36),
        digit_byte(id / 36 % 36),
        digit_byte(id % 36),
    ]
}

/// The ID a 6-byte sequence denotes: `Some` exactly when every byte is in the
/// slug alphabet.
pub open spec fn id_of(s: Seq<u8>) -> Option<u32> {
    if s.len() == 6 && (forall|i: int| 0 <= i < 6 ==> is_slug_byte(s[i])) {
        Some(
            (((((digit_value(s[0]) * 36 + digit_value(s[1])) * 36 + digit_value(s[2])) * 36
                + digit_value(s[3])) * 36 + digit_value(s[4])) * 36 + digit_value(s[5])) as u32,
        )
    } else {
        None
    }
}

/// Repeated division by 36 agrees with division by the matching power of 36.
proof fn lemma_div_chain(n: int)
    requires
        0 <= n,
    ensures
        n / 36 / 36 == n / (36int * 36),
        n / 36 / 36 / 36 == n / (36int * 36 * 36),
        n / 36 / 36 / 36 / 36 == n / (36int * 36 * 36 * 36),
        n / 36 / 36 / 36 / 36 / 36 == n / (36int * 36 * 36 * 36 * 36),
{
    vstd::arithmetic::div_mod::lemma_div_denominator(n, 36, 36);
    vstd::arithmetic::div_mod::lemma_div_denominator(n, 36int * 36, 36);
    vstd::arithmetic::div_mod::lemma_div_denominator(n, 36int * 36 * 36, 36);
    vstd::arithmetic::div_mod::lemma_div_denominator(n, 36int * 36 * 36 * 36, 36);
    vstd::arithmetic::div_mod::lemma_div_pos_is_pos(n, 36);
    vstd::arithmetic::div_mod::lemma_div_pos_is_pos(n / 36, 36);
    vstd::arithmetic::div_mod::lemma_div_pos_is_pos(n / 36 / 36, 36);
}

/// A number below `36^6` is the base-36 combination of its six digits.
proof fn lemma_base36_expand(n: int)
    requires
        0 <= n < 2176782336,
    ensures
        ((((n / (36int * 36 * 36 * 36 * 36) % 36 * 36 + n / (36int * 36 * 36 * 36) % 36) * 36 + n
            / (36int * 36 * 36) % 36) * 36 + n / (36int * 36) % 36) * 36 + n / 36 % 36) * 36 + n
            % 36 == n,
{
    let q1 = n / 36;
    let q2 = q1 / 36;
    let q3 = q2 / 36;
    let q4 = q3 / 36;
    let q5 = q4 / 36;
    lemma_div_chain(n);
    vstd::arithmetic::div_mod::lemma_fundamental_div_mod(n, 36);
    vstd::arithmetic::div_mod::lemma_fundamental_div_mod(q1, 36);
    vstd::arithmetic::div_mod::lemma_fundamental_div_mod(q2, 36);
    vstd::arithmetic::div_mod::lemma_fundamental_div_mod(q3, 36);
    vstd::arithmetic::div_mod::lemma_fundamental_div_mod(q4, 36);
    assert(q5 <= 2176782335int / (36int * 36 * 36 * 36 * 36)) by {
        vstd::arithmetic::div_mod::lemma_div_is_ordered(n, 2176782335, 36int * 36 * 36 * 36 * 36);
    }
    assert(0 <= q5 < 36) by {
        vstd::arithmetic::div_mod::lemma_div_pos_is_pos(q4, 36);
    }
    assert(q5 % 36 == q5) by {
        vstd::arithmetic::div_mod::lemma_small_mod(q5 as nat, 36);
    }
}

proof fn lemma_digit_round_trip(d: int)
    requires
        0 <= d < 36,
    ensures
        is_slug_byte(digit_byte(d)),
        digit_value(digit_byte(d)) == d,
{
}

/// Encode an ID as its 6-byte base-36 slug.
pub fn id_to_slug(id: u32) -> (s: [u8; 6])
    requires
        id < MAX_SLUGGABLE_ID,
    ensures
        s@ =~= slug_of(id as int),
        forall|i: int| 0 <= i < 6 ==> is_slug_byte(s@[i]),
{
    let mut slug: [u8; 6] = [0; 6];
    let mut rest: u32 = id;
    let d5: u8 = (rest % 36) as u8;
    slug[5] = d5 + if d5 < 10 { 48u8 } else { 87u8 };
    rest = rest / 36;
    let d4: u8 = (rest % 36) as u8;
    slug[4] = d4 + if d4 < 10 { 48u8 } else { 87u8 };
    rest = rest / 36;
    let d3: u8 = (rest % 36) as u8;
    slug[3] = d3 + if d3 < 10 { 48u8 } else { 87u8 };
    rest = rest / 36;
    let d2: u8 = (rest % 36) as u8;
    slug[2] = d2 + if d2 < 10 { 48u8 } else { 87u8 };
    rest = rest / 36;
    let d1: u8 = (rest % 36) as u8;
    slug[1] = d1 + if d1 < 10 { 48u8 } else { 87u8 };
    rest = rest / 36;
    let d0: u8 = (rest % 36) as u8;
    slug[0] = d0 + if d0 < 10 { 48u8 } else { 87u8 };
    proof {
        lemma_div_chain(id as int);
        assert(forall|d: int| 0 <= d < 36 ==> is_slug_byte(digit_byte(d))) by {
            assert forall|d: int| 0 <= d < 36 implies is_slug_byte(digit_byte(d)) by {
                lemma_digit_round_trip(d);
            }
        }
    }
    slug
}

/// Decode a 6-byte slug back to its ID; `None` on any byte outside `[0-9a-z]`.
pub fn slug_to_id(s: &[u8; 6]) -> (r: Option<u32>)
    ensures
        r == id_of(s@),
{
    let mut val: u32 = 0;
    let mut i: usize = 0;
    while i < 6
        invariant
            0 <= i <= 6,
            forall|j: int| 0 <= j < i ==> is_slug_byte(s@[j]),
            val < 2176782336,
            i == 0 ==> val == 0,
            i == 1 ==> val == digit_value(s@[0]),
            i == 2 ==> val == digit_value(s@[0]) * 36 + digit_value(s@[1]),
            i == 3 ==> val == (digit_value(s@[0]) * 36 + digit_value(s@[1])) * 36 + digit_value(
                s@[2],
            ),
            i == 4 ==> val == ((digit_value(s@[0]) * 36 + digit_value(s@[1])) * 36 + digit_value(
                s@[2],
            )) * 36 + digit_value(s@[3]),
            i == 5 ==> val == (((digit_value(s@[0]) * 36 + digit_value(s@[1])) * 36 + digit_value(
                s@[2],
            )) * 36 + digit_value(s@[3])) * 36 + digit_value(s@[4]),
            i == 6 ==> val == ((((digit_value(s@[0]) * 36 + digit_value(s@[1])) * 36 + digit_value(
                s@[2],
            )) * 36 + digit_value(s@[3])) * 36 + digit_value(s@[4])) * 36 + digit_value(s@[5]),
        decreases 6 - i,
    {
        let b: u8 = s[i];
        let d: u8 = if 48 <= b && b <= 57 {
            b - 48
        } else if 97 <= b && b <= 122 {
            b - 87
        } else {
            return None;
        };
        assert(is_slug_byte(b) && d == digit_value(b));
        assert(val * 36 + d < 2176782336) by {
            assert(val <= 60466175);
        }
        val = val * 36 + d as u32;
        i = i + 1;
    }
    Some(val)
}

/// The slug codec round-trips: decoding the slug of any ID below `36^6` gives
/// back that ID, and every byte of the slug is in the alphabet `[0-9a-z]`.
pub proof fn lemma_slug_round_trip(id: u32)
    requires
        id < MAX_SLUGGABLE_ID,
    ensures
        id_of(slug_of(id as int)) == Some(id),
        forall|i: int| 0 <= i < 6 ==> is_slug_byte(slug_of(id as int)[i]),
{
    let n = id as int;
    lemma_digit_round_trip(n / (36int * 36 * 36 * 36 * 36) % 36);
    lemma_digit_round_trip(n / (36int * 36 * 36 * 36) % 36);
    lemma_digit_round_trip(n / (36int * 36 * 36) % 36);
    lemma_digit_round_trip(n / (36int * 36) % 36);
    lemma_digit_round_trip(n / 36 % 36);
    lemma_digit_round_trip(n % 36);
    lemma_base36_expand(n);
}

} // verus!
