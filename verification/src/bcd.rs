//! Binary-coded decimal: each nibble of an unsigned integer is one decimal
//! digit, the lowest nibble the units.
use vstd::prelude::*;

verus! {

/// The decimal value of the lowest `nibbles` nibbles of `packed`, each nibble
/// read as a digit (nibbles above 9 count as their binary value).
pub open spec fn bcd_value(packed: nat, nibbles: nat) -> nat
    decreases nibbles,
{
    if nibbles == 0 {
        0
    } else {
        packed % 16 + 10 * bcd_value(packed / 16, (nibbles - 1) as nat)
    }
}

/// Ten to the power `n`.
pub open spec fn pow10(n: nat) -> nat
    decreases n,
{
    if n == 0 {
        1
    } else {
        10 * pow10((n - 1) as nat)
    }
}

/// A decimal value of `n` nibbles is at most `15 * (10^n - 1) / 9`, so it
/// stays below twice `10^n`.
pub proof fn lemma_bcd_value_bound(packed: nat, n: nat)
    ensures
        9 * bcd_value(packed, n) + 15 <= 15 * pow10(n),
        bcd_value(packed, n) < 2 * pow10(n),
    decreases n,
{
    if n > 0 {
        lemma_bcd_value_bound(packed / 16, (n - 1) as nat);
    }
}

/// Powers of ten up to `10^16` fit in a `u64`.
proof fn lemma_pow10_bound(n: nat)
    requires
        n <= 16,
    ensures
        pow10(n) <= 10_000_000_000_000_000,
    decreases 16 - n,
{
    if n < 16 {
        lemma_pow10_bound(n + 1);
    } else {
        reveal_with_fuel(pow10, 17);
        assert(pow10(16) == 10_000_000_000_000_000);
    }
}

/// Reads the lowest `nibbles` nibbles of `packed` as decimal digits.
fn decode_bcd(packed: u64, nibbles: usize) -> (r: u64)
    requires
        nibbles <= 16,
    ensures
        r == bcd_value(packed as nat, nibbles as nat),
{
    let mut rest: u64 = packed;
    let mut acc: u64 = 0;
    let mut scale: u64 = 1;
    let mut i: usize = 0;
    proof {
        lemma_bcd_value_bound(packed as nat, nibbles as nat);
    }
    while i < nibbles
        invariant
            i <= nibbles <= 16,
            scale == pow10(i as nat),
            acc < 2 * scale,
            acc + scale * bcd_value(rest as nat, (nibbles - i) as nat) == bcd_value(packed as nat, nibbles as nat),
        decreases nibbles - i,
    {
        let digit: u64 = rest & 0xF;
        let next: u64 = rest >> 4u64;
        assert(digit == rest % 16 && next == rest / 16) by (bit_vector)
            requires
                digit == rest & 0xF,
                next == rest >> 4u64,
        ;
        proof {
            lemma_pow10_bound((i + 1) as nat);
            let m = (nibbles - i - 1) as nat;
            let x = bcd_value(next as nat, m);
            assert(bcd_value(rest as nat, (nibbles - i) as nat) == digit + 10 * x);
            assert(scale * (digit + 10 * x) == scale * digit + (scale * 10) * x) by (nonlinear_arith);
            assert(digit * scale <= 15 * scale) by (nonlinear_arith)
                requires
                    digit <= 15,
            ;
        }
        acc = acc + digit * scale;
        scale = scale * 10;
        rest = next;
        i = i + 1;
    }
    assert(bcd_value(rest as nat, 0) == 0);
    assert(scale * 0 == 0);
    acc
}

/// An unsigned integer whose nibbles can be read as decimal digits.
pub trait PackedBcd: Sized + Copy {
    /// The value `bcd` gives: all nibbles of `self` read as decimal digits.
    spec fn bcd_spec(self) -> Self;

    /// Reads all nibbles of `self` as decimal digits.
    fn unpack_bcd(self) -> (r: Self)
        ensures
            r == self.bcd_spec(),
    ;
}

impl PackedBcd for u8 {
    open spec fn bcd_spec(self) -> u8 {
        bcd_value(self as nat, 2) as u8
    }

    fn unpack_bcd(self) -> (r: u8) {
        proof {
            lemma_bcd_value_bound(self as nat, 2);
            reveal_with_fuel(pow10, 3);
        }
        decode_bcd(self as u64, 2) as u8
    }
}

impl PackedBcd for u16 {
    open spec fn bcd_spec(self) -> u16 {
        bcd_value(self as nat, 4) as u16
    }

    fn unpack_bcd(self) -> (r: u16) {
        proof {
            lemma_bcd_value_bound(self as nat, 4);
            reveal_with_fuel(pow10, 5);
        }
        decode_bcd(self as u64, 4) as u16
    }
}

impl PackedBcd for u32 {
    open spec fn bcd_spec(self) -> u32 {
        bcd_value(self as nat, 8) as u32
    }

    fn unpack_bcd(self) -> (r: u32) {
        proof {
            lemma_bcd_value_bound(self as nat, 8);
            reveal_with_fuel(pow10, 9);
        }
        decode_bcd(self as u64, 8) as u32
    }
}

impl PackedBcd for u64 {
    open spec fn bcd_spec(self) -> u64 {
        bcd_value(self as nat, 16) as u64
    }

    fn unpack_bcd(self) -> (r: u64) {
        proof {
            lemma_bcd_value_bound(self as nat, 16);
            lemma_pow10_bound(16);
        }
        decode_bcd(self, 16)
    }
}

/// A byte holds two decimal digits, the high nibble the tens.
pub proof fn lemma_bcd_u8_digits(v: u8)
    ensures
        v.bcd_spec() == (v / 16) * 10 + v % 16,
{
    reveal_with_fuel(bcd_value, 3);
    lemma_bcd_value_bound(v as nat, 2);
    reveal_with_fuel(pow10, 3);
}

/// A word holds four decimal digits, the highest nibble the thousands.
pub proof fn lemma_bcd_u16_digits(v: u16)
    ensures
        v.bcd_spec() == (v / 4096) * 1000 + (v / 256 % 16) * 100 + (v / 16 % 16) * 10 + v % 16,
{
    reveal_with_fuel(bcd_value, 5);
    lemma_bcd_value_bound(v as nat, 4);
    reveal_with_fuel(pow10, 5);
    assert(v as nat / 16 / 16 == v as nat / 256);
    assert(v as nat / 16 / 16 / 16 == v as nat / 4096);
}

/// Reads every nibble of `packed` as a decimal digit, the lowest nibble the
/// units: `0x3456` becomes `3456`.
pub fn bcd<T: PackedBcd>(packed: T) -> (r: T)
    ensures
        r == packed.bcd_spec(),
{
    packed.unpack_bcd()
}

} // verus!
