//! Bit numbering of the analyzer's wire format: bit 0 is the most
//! significant bit of the first byte. Every header field is a run of bits in
//! that numbering, read as an unsigned number with its first bit worth most.

use vstd::prelude::*;
use vstd::arithmetic::power2::{lemma2_to64, lemma_pow2_strictly_increases, lemma_pow2_unfold, pow2};

verus! {

/// Mask that selects bit `k` of a byte, counting from the most significant.
pub open spec fn bit_mask(k: u8) -> u8 {
    0x80u8 >> k
}

/// Bit `i` of `bytes`.
pub open spec fn bit_at(bytes: Seq<u8>, i: int) -> bool {
    bytes[i / 8] & bit_mask((i % 8) as u8) != 0
}

/// `bytes` with bit `i` set to `on`.
pub open spec fn with_bit(bytes: Seq<u8>, i: int, on: bool) -> Seq<u8> {
    bytes.update(
        i / 8,
        if on {
            bytes[i / 8] | bit_mask((i % 8) as u8)
        } else {
            bytes[i / 8] & !bit_mask((i % 8) as u8)
        },
    )
}

/// The number that bits `first..=last` of `bytes` spell, bit `first` worth
/// most. An empty run spells 0.
pub open spec fn field(bytes: Seq<u8>, first: int, last: int) -> nat
    decreases last - first + 1,
{
    if last < first {
        0
    } else {
        2 * field(bytes, first, last - 1) + if bit_at(bytes, last) {
            1nat
        } else {
            0nat
        }
    }
}

/// Binary digit `k` of `value`, digit 0 being the lowest.
pub open spec fn digit(value: nat, k: nat) -> bool
    decreases k,
{
    if k == 0 {
        value % 2 == 1
    } else {
        digit(value / 2, (k - 1) as nat)
    }
}

/// `bytes` with bits `first..=last` spelling the low digits of `value`.
pub open spec fn with_field(bytes: Seq<u8>, first: int, last: int, value: nat) -> Seq<u8>
    decreases last - first + 1,
{
    if last < first {
        bytes
    } else {
        with_field(with_bit(bytes, last, value % 2 == 1), first, last - 1, value / 2)
    }
}

proof fn lemma_byte_bit_update(x: u8, i: u8, j: u8)
    by (bit_vector)
    requires
        i < 8,
        j < 8,
    ensures
        ((x | (0x80u8 >> i)) & (0x80u8 >> j) != 0) == (i == j || x & (0x80u8 >> j) != 0),
        ((x & !(0x80u8 >> i)) & (0x80u8 >> j) != 0) == (i != j && x & (0x80u8 >> j) != 0),
{
}

proof fn lemma_byte_from_bits(x: u8, y: u8)
    by (bit_vector)
    requires
        (x & (0x80u8 >> 0u8) != 0) == (y & (0x80u8 >> 0u8) != 0),
        (x & (0x80u8 >> 1u8) != 0) == (y & (0x80u8 >> 1u8) != 0),
        (x & (0x80u8 >> 2u8) != 0) == (y & (0x80u8 >> 2u8) != 0),
        (x & (0x80u8 >> 3u8) != 0) == (y & (0x80u8 >> 3u8) != 0),
        (x & (0x80u8 >> 4u8) != 0) == (y & (0x80u8 >> 4u8) != 0),
        (x & (0x80u8 >> 5u8) != 0) == (y & (0x80u8 >> 5u8) != 0),
        (x & (0x80u8 >> 6u8) != 0) == (y & (0x80u8 >> 6u8) != 0),
        (x & (0x80u8 >> 7u8) != 0) == (y & (0x80u8 >> 7u8) != 0),
    ensures
        x == y,
{
}

/// Setting one bit changes that bit and no other.
pub proof fn lemma_with_bit(bytes: Seq<u8>, i: int, on: bool)
    requires
        0 <= i < 8 * bytes.len(),
    ensures
        with_bit(bytes, i, on).len() == bytes.len(),
        forall|j: int|
            0 <= j < 8 * bytes.len() ==> #[trigger] bit_at(with_bit(bytes, i, on), j) == (if j
                == i {
                on
            } else {
                bit_at(bytes, j)
            }),
{
    assert forall|j: int| 0 <= j < 8 * bytes.len() implies #[trigger] bit_at(
        with_bit(bytes, i, on),
        j,
    ) == (if j == i {
        on
    } else {
        bit_at(bytes, j)
    }) by {
        if i / 8 == j / 8 {
            lemma_byte_bit_update(bytes[i / 8], (i % 8) as u8, (j % 8) as u8);
        }
    }
}

/// Two byte strings of one length with the same bits are equal.
pub proof fn lemma_bits_determine_bytes(a: Seq<u8>, b: Seq<u8>)
    requires
        a.len() == b.len(),
        forall|j: int| 0 <= j < 8 * a.len() ==> bit_at(a, j) == bit_at(b, j),
    ensures
        a == b,
{
    assert forall|n: int| 0 <= n < a.len() implies a[n] == b[n] by {
        assert(bit_at(a, 8 * n) == bit_at(b, 8 * n));
        assert(bit_at(a, 8 * n + 1) == bit_at(b, 8 * n + 1));
        assert(bit_at(a, 8 * n + 2) == bit_at(b, 8 * n + 2));
        assert(bit_at(a, 8 * n + 3) == bit_at(b, 8 * n + 3));
        assert(bit_at(a, 8 * n + 4) == bit_at(b, 8 * n + 4));
        assert(bit_at(a, 8 * n + 5) == bit_at(b, 8 * n + 5));
        assert(bit_at(a, 8 * n + 6) == bit_at(b, 8 * n + 6));
        assert(bit_at(a, 8 * n + 7) == bit_at(b, 8 * n + 7));
        lemma_byte_from_bits(a[n], b[n]);
    }
    assert(a =~= b);
}

/// Writing a field changes the bits of the field, which then spell the
/// digits of the value, and no other bit.
pub proof fn lemma_with_field(bytes: Seq<u8>, first: int, last: int, value: nat)
    requires
        0 <= first,
        last < 8 * bytes.len(),
    ensures
        with_field(bytes, first, last, value).len() == bytes.len(),
        forall|j: int|
            0 <= j < 8 * bytes.len() ==> #[trigger] bit_at(
                with_field(bytes, first, last, value),
                j,
            ) == (if first <= j <= last {
                digit(value, (last - j) as nat)
            } else {
                bit_at(bytes, j)
            }),
    decreases last - first + 1,
{
    if first <= last {
        let inner = with_bit(bytes, last, value % 2 == 1);
        lemma_with_bit(bytes, last, value % 2 == 1);
        lemma_with_field(inner, first, last - 1, value / 2);
        assert forall|j: int| 0 <= j < 8 * bytes.len() implies #[trigger] bit_at(
            with_field(bytes, first, last, value),
            j,
        ) == (if first <= j <= last {
            digit(value, (last - j) as nat)
        } else {
            bit_at(bytes, j)
        }) by {
            assert(bit_at(with_field(inner, first, last - 1, value / 2), j) == (if first <= j
                <= last - 1 {
                digit(value / 2, (last - 1 - j) as nat)
            } else {
                bit_at(inner, j)
            }));
        }
    }
}

/// A field is less than two to the power of its width.
pub proof fn lemma_field_bound(bytes: Seq<u8>, first: int, last: int)
    requires
        first <= last + 1,
    ensures
        field(bytes, first, last) < pow2((last - first + 1) as nat),
    decreases last - first + 1,
{
    if first <= last {
        lemma_field_bound(bytes, first, last - 1);
        lemma_pow2_unfold((last - first + 1) as nat);
    } else {
        lemma2_to64();
    }
}

/// The digits of a field are its bits, the last bit being digit 0.
pub proof fn lemma_field_digits(bytes: Seq<u8>, first: int, last: int, j: int)
    requires
        first <= j <= last,
    ensures
        digit(field(bytes, first, last), (last - j) as nat) == bit_at(bytes, j),
    decreases last - first + 1,
{
    if j < last {
        lemma_field_digits(bytes, first, last - 1, j);
        assert(field(bytes, first, last) / 2 == field(bytes, first, last - 1));
    }
}

/// A field whose bits are the digits of a value that fits its width spells
/// that value.
pub proof fn lemma_field_from_digits(bytes: Seq<u8>, first: int, last: int, value: nat)
    requires
        first <= last + 1,
        value < pow2((last - first + 1) as nat),
        forall|j: int| first <= j <= last ==> bit_at(bytes, j) == digit(value, (last - j) as nat),
    ensures
        field(bytes, first, last) == value,
    decreases last - first + 1,
{
    if first <= last {
        lemma_pow2_unfold((last - first + 1) as nat);
        assert forall|j: int| first <= j <= last - 1 implies bit_at(bytes, j) == digit(
            value / 2,
            (last - 1 - j) as nat,
        ) by {
            assert(digit(value, (last - j) as nat) == digit(value / 2, (last - j - 1) as nat));
        }
        lemma_field_from_digits(bytes, first, last - 1, value / 2);
        assert(bit_at(bytes, last) == digit(value, 0));
    } else {
        lemma2_to64();
    }
}

/// Reads bit `i` of `bytes`.
pub fn read_bit(bytes: &[u8], i: usize) -> (on: bool)
    requires
        i < 8 * bytes@.len(),
    ensures
        on == bit_at(bytes@, i as int),
{
    let k: u8 = (i % 8) as u8;
    bytes[i / 8] & (0x80u8 >> k) != 0
}

/// Reads the field in bits `first..=last` of `bytes`. A field is at most 32
/// bits wide.
pub fn read_field(bytes: &[u8], first: usize, last: usize) -> (value: u32)
    requires
        first <= last,
        last < 8 * bytes@.len(),
        last - first < 32,
    ensures
        value == field(bytes@, first as int, last as int),
{
    let width: usize = last - first + 1;
    let mut value: u32 = 0;
    let mut k: usize = 0;
    proof {
        lemma2_to64();
    }
    while k < width
        invariant
            k <= width,
            width == last - first + 1,
            width <= 32,
            last < 8 * bytes@.len(),
            value == field(bytes@, first as int, first + k - 1),
            value < pow2(k as nat),
        decreases width - k,
    {
        let bit: u32 = if read_bit(bytes, first + k) {
            1
        } else {
            0
        };
        proof {
            lemma2_to64();
            if k < 31 {
                lemma_pow2_strictly_increases(k as nat, 31);
            }
            lemma_pow2_unfold((k + 1) as nat);
            assert((value << 1) | bit == 2 * value + bit) by (bit_vector)
                requires
                    value < 0x8000_0000u32,
                    bit <= 1,
            ;
        }
        value = (value << 1) | bit;
        k = k + 1;
    }
    value
}

/// Sets bit `i` of `bytes` to `on`.
pub fn write_bit(bytes: &mut [u8], i: usize, on: bool)
    requires
        i < 8 * old(bytes)@.len(),
    ensures
        final(bytes)@ == with_bit(old(bytes)@, i as int, on),
{
    let k: u8 = (i % 8) as u8;
    let mask: u8 = 0x80u8 >> k;
    let byte: u8 = bytes[i / 8];
    if on {
        bytes[i / 8] = byte | mask;
    } else {
        bytes[i / 8] = byte & !mask;
    }
}

/// Writes the low digits of `value` into bits `first..=last` of `bytes`. A
/// field is at most 32 bits wide.
pub fn write_field(bytes: &mut [u8], first: usize, last: usize, value: u32)
    requires
        first <= last,
        last < 8 * old(bytes)@.len(),
        last - first < 32,
    ensures
        final(bytes)@ == with_field(old(bytes)@, first as int, last as int, value as nat),
{
    let width: usize = last - first + 1;
    let mut rest: u32 = value;
    let mut k: usize = 0;
    while k < width
        invariant
            k <= width,
            width == last - first + 1,
            bytes@.len() == old(bytes)@.len(),
            last < 8 * bytes@.len(),
            with_field(bytes@, first as int, last - k, rest as nat) == with_field(
                old(bytes)@,
                first as int,
                last as int,
                value as nat,
            ),
        decreases width - k,
    {
        assert((rest & 1 == 1) == (rest % 2 == 1) && rest >> 1 == rest / 2) by (bit_vector);
        write_bit(bytes, last - k, rest & 1 == 1);
        rest = rest >> 1;
        k = k + 1;
    }
}

} // verus!
