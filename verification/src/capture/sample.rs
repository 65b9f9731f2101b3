//! One audio sample, and its conversion to and from 16-bit PCM.
//!
//! A sample is a number in IEEE 754 single precision, kept as its 32 bits:
//! one sign bit, eight exponent bits, twenty-three fraction bits. Every
//! finite number of that format is a whole multiple of 2^-149, so its size
//! can be stated in those units with integers alone.

use vstd::prelude::*;
use vstd::arithmetic::power2::{
    lemma2_to64, lemma2_to64_rest, lemma_pow2_adds, lemma_pow2_pos, lemma_pow2_strictly_increases,
    lemma_pow2_unfold, pow2,
};
use vstd::arithmetic::div_mod::{
    lemma_basic_div, lemma_div_by_multiple, lemma_div_is_ordered,
    lemma_div_multiples_vanish_quotient, lemma_fundamental_div_mod_converse,
};

verus! {

/// One sample, as the bits of a single-precision number.
#[derive(Debug, Clone, Copy, PartialEq, Eq, Structural)]
pub struct Sample {
    pub bits: u32,
}

/// The exponent field of the bits.
pub open spec fn exponent_of(bits: u32) -> nat {
    ((bits / 0x80_0000) % 256) as nat
}

/// The fraction field of the bits.
pub open spec fn fraction_of(bits: u32) -> nat {
    (bits % 0x80_0000) as nat
}

/// Whether the sign bit is set.
pub open spec fn is_negative(bits: u32) -> bool {
    bits >= 0x8000_0000
}

/// Whether the bits stand for no number at all.
pub open spec fn is_nan(bits: u32) -> bool {
    exponent_of(bits) == 255 && fraction_of(bits) != 0
}

/// The size of the number in units of 2^-149. For an infinity this is a
/// value above that of every finite number.
pub open spec fn units(bits: u32) -> nat {
    if exponent_of(bits) == 0 {
        fraction_of(bits)
    } else {
        (0x80_0000 + fraction_of(bits)) * pow2((exponent_of(bits) - 1) as nat)
    }
}

/// The size of the sample times 32767, rounded to the nearest whole number,
/// halves away from zero.
pub open spec fn scaled_size(bits: u32) -> nat {
    (2 * units(bits) * 32767 + pow2(149)) / pow2(150)
}

/// The 16-bit PCM value of a sample `s`: `s * 32767` rounded to the nearest
/// whole number and clamped to `-32768 ..= 32767`. What is no number gives 0.
pub open spec fn pcm_of(bits: u32) -> int {
    if is_nan(bits) {
        0
    } else if is_negative(bits) {
        if scaled_size(bits) > 32768 {
            -32768
        } else {
            -(scaled_size(bits) as int)
        }
    } else {
        if scaled_size(bits) > 32767 {
            32767
        } else {
            scaled_size(bits) as int
        }
    }
}

/// Whether the bits stand for exactly `value / 32768`.
pub open spec fn is_normalized(bits: u32, value: int) -> bool {
    &&& !is_nan(bits)
    &&& exponent_of(bits) < 255
    &&& is_negative(bits) == (value < 0)
    &&& units(bits) == (if value < 0 {
        -value
    } else {
        value
    }) * pow2(134)
}

proof fn lemma_scaled_size_large(bits: u32)
    requires
        exponent_of(bits) >= 128,
    ensures
        scaled_size(bits) >= 65534,
{
    let e = exponent_of(bits);
    let p = pow2((e - 1) as nat);
    lemma_pow2_pos(150);
    lemma_pow2_pos(149);
    lemma_pow2_adds(23, 127);
    lemma2_to64();
    if e > 128 {
        lemma_pow2_strictly_increases(127, (e - 1) as nat);
    }
    assert(p >= pow2(127));
    assert(units(bits) >= pow2(150)) by (nonlinear_arith)
        requires
            units(bits) == (0x80_0000 + fraction_of(bits)) * p,
            p >= pow2(127),
            pow2(150) == 0x80_0000 * pow2(127),
    ;
    let numerator = 2 * units(bits) * 32767 + pow2(149);
    assert(numerator >= 65534 * pow2(150)) by (nonlinear_arith)
        requires
            numerator == 2 * units(bits) * 32767 + pow2(149),
            units(bits) >= pow2(150),
            pow2(149) > 0,
    ;
    lemma_div_is_ordered(65534 * pow2(150) as int, numerator as int, pow2(150) as int);
    lemma_div_by_multiple(65534, pow2(150) as int);
}

proof fn lemma_scaled_size_small(bits: u32)
    requires
        exponent_of(bits) < 110,
    ensures
        scaled_size(bits) == 0,
{
    let e = exponent_of(bits);
    lemma2_to64();
    lemma_pow2_pos(149);
    lemma_pow2_adds(16, 133);
    lemma_pow2_adds(24, 109);
    lemma_pow2_unfold(150);
    assert(units(bits) < pow2(133)) by {
        if e == 0 {
            lemma_pow2_strictly_increases(23, 133);
        } else {
            let p = pow2((e - 1) as nat);
            lemma_pow2_pos((e - 1) as nat);
            if e - 1 < 108 {
                lemma_pow2_strictly_increases((e - 1) as nat, 108);
            }
            lemma_pow2_unfold(109);
            assert(p <= pow2(108));
            assert((0x80_0000 + fraction_of(bits)) * p < pow2(24) * pow2(109)) by (nonlinear_arith)
                requires
                    fraction_of(bits) < 0x80_0000,
                    pow2(24) == 0x100_0000,
                    0 < p <= pow2(108),
                    pow2(109) == 2 * pow2(108),
            ;
        }
    }
    let numerator = 2 * units(bits) * 32767 + pow2(149);
    assert(numerator < pow2(150)) by (nonlinear_arith)
        requires
            numerator == 2 * units(bits) * 32767 + pow2(149),
            units(bits) < pow2(133),
            pow2(149) == pow2(16) * pow2(133),
            pow2(16) == 0x10000,
            pow2(150) == 2 * pow2(149),
    ;
    lemma_basic_div(numerator as int, pow2(150) as int);
}

proof fn lemma_scaled_size_middle(bits: u32)
    requires
        110 <= exponent_of(bits) <= 127,
    ensures
        scaled_size(bits) == (2 * ((0x80_0000 + fraction_of(bits)) * 32767) + pow2(
            (150 - exponent_of(bits)) as nat,
        )) / (2 * pow2((150 - exponent_of(bits)) as nat)),
{
    let e = exponent_of(bits);
    let k = (150 - e) as nat;
    let x = pow2((e - 1) as nat);
    let n = (0x80_0000 + fraction_of(bits)) * 32767;
    lemma_pow2_pos((e - 1) as nat);
    lemma_pow2_pos(k);
    lemma_pow2_adds((e - 1) as nat, k);
    lemma_pow2_adds((e - 1) as nat, k + 1);
    lemma_pow2_unfold(k + 1);
    let a = 2 * n + pow2(k);
    let d = 2 * pow2(k);
    assert(2 * units(bits) * 32767 + pow2(149) == x * a) by (nonlinear_arith)
        requires
            units(bits) == (0x80_0000 + fraction_of(bits)) * x,
            n == (0x80_0000 + fraction_of(bits)) * 32767,
            pow2(149) == x * pow2(k),
            a == 2 * n + pow2(k),
    ;
    assert(pow2(150) == x * d) by (nonlinear_arith)
        requires
            pow2(150) == x * pow2(k + 1),
            pow2(k + 1) == 2 * pow2(k),
            d == 2 * pow2(k),
    ;
    lemma_div_multiples_vanish_quotient(x as int, a as int, d as int);
}

/// The PCM value of every sample lies in the 16-bit range. A sample of 1 or
/// more has the largest value and a sample of -1 or less one of the two
/// smallest; from 2 on, in size, the value is the extreme of its sign. A
/// zero of either sign has the value 0.
pub proof fn law_pcm_is_clamped(bits: u32)
    ensures
        -32768 <= pcm_of(bits) <= 32767,
        !is_nan(bits) && !is_negative(bits) && units(bits) >= pow2(149) ==> pcm_of(bits) == 32767,
        !is_nan(bits) && is_negative(bits) && units(bits) >= pow2(149) ==> pcm_of(bits) <= -32767,
        !is_nan(bits) && exponent_of(bits) >= 128 ==> pcm_of(bits) == (if is_negative(bits) {
            -32768int
        } else {
            32767int
        }),
        !is_nan(bits) && units(bits) == 0 ==> pcm_of(bits) == 0,
{
    lemma_pow2_pos(149);
    lemma_pow2_pos(150);
    lemma_pow2_unfold(150);
    let numerator = 2 * units(bits) * 32767 + pow2(149);
    if units(bits) >= pow2(149) {
        assert(numerator >= 32767 * pow2(150)) by (nonlinear_arith)
            requires
                numerator == 2 * units(bits) * 32767 + pow2(149),
                units(bits) >= pow2(149),
                pow2(150) == 2 * pow2(149),
        ;
        lemma_div_is_ordered(32767 * pow2(150) as int, numerator as int, pow2(150) as int);
        lemma_div_by_multiple(32767, pow2(150) as int);
    }
    if exponent_of(bits) >= 128 {
        lemma_scaled_size_large(bits);
    }
    if units(bits) == 0 {
        assert(numerator == pow2(149));
        lemma_basic_div(numerator as int, pow2(150) as int);
    }
}

/// Two to the power `k`.
fn power_of_two(k: u32) -> (r: u64)
    requires
        k <= 62,
    ensures
        r == pow2(k as nat),
{
    let mut r: u64 = 1;
    let mut i: u32 = 0;
    proof {
        lemma2_to64();
        lemma2_to64_rest();
    }
    while i < k
        invariant
            i <= k <= 62,
            r == pow2(i as nat),
            r <= pow2(62),
        decreases k - i,
    {
        proof {
            lemma_pow2_unfold((i + 1) as nat);
            lemma2_to64_rest();
            if i + 1 < 62 {
                lemma_pow2_strictly_increases((i + 1) as nat, 62);
            }
        }
        r = r * 2;
        i += 1;
    }
    r
}

impl Sample {
    /// The sample with the given bits.
    pub fn from_bits(bits: u32) -> (r: Sample)
        ensures
            r.bits == bits,
    {
        Sample { bits }
    }

    /// The bits of the sample.
    pub fn to_bits(self) -> (r: u32)
        ensures
            r == self.bits,
    {
        self.bits
    }

    /// The sample that stands for `value / 32768`, which single precision
    /// holds exactly.
    pub fn from_pcm(value: i16) -> (r: Sample)
        ensures
            is_normalized(r.bits, value as int),
    {
        if value == 0 {
            assert(0u32 / 0x80_0000 == 0 && 0u32 % 0x80_0000 == 0);
            return Sample { bits: 0 };
        }
        let negative = value < 0;
        let size: u32 = if negative {
            (-(value as i32)) as u32
        } else {
            value as u32
        };
        let mut p: u32 = 0;
        let mut top: u32 = 1;
        proof {
            lemma2_to64();
        }
        while top * 2 <= size
            invariant
                1 <= size <= 32768,
                top == pow2(p as nat),
                top <= size,
                p <= 15,
            decreases size - top,
        {
            proof {
                lemma_pow2_unfold((p + 1) as nat);
                lemma2_to64();
                if p + 1 > 15 {
                    lemma_pow2_strictly_increases(15, (p + 1) as nat);
                }
            }
            top = top * 2;
            p += 1;
        }
        let scale: u64 = power_of_two(23 - p);
        let ghost e = (p + 112) as nat;
        proof {
            lemma2_to64();
            lemma_pow2_adds(p as nat, (23 - p) as nat);
            lemma_pow2_unfold((p + 1) as nat);
            assert(0x80_0000 <= size * scale < 0x100_0000) by (nonlinear_arith)
                requires
                    top <= size < 2 * top,
                    top * scale == 0x80_0000,
                    scale > 0,
            ;
        }
        let significand: u32 = (size as u64 * scale) as u32;
        let sign: u32 = if negative {
            0x8000_0000
        } else {
            0
        };
        let body: u32 = (p + 112) * 0x80_0000 + (significand - 0x80_0000);
        let bits: u32 = sign + body;
        proof {
            let q = if negative {
                256 + e
            } else {
                e
            };
            lemma_fundamental_div_mod_converse(
                bits as int,
                0x80_0000,
                q as int,
                significand - 0x80_0000,
            );
            assert(exponent_of(bits) == e);
            assert(fraction_of(bits) == significand - 0x80_0000);
            lemma_pow2_adds((23 - p) as nat, (p + 111) as nat);
            assert(units(bits) == size * pow2(134)) by (nonlinear_arith)
                requires
                    units(bits) == significand * pow2((p + 111) as nat),
                    significand == size * scale,
                    scale * pow2((p + 111) as nat) == pow2(134),
            ;
        }
        Sample { bits }
    }

    /// The 16-bit PCM value of the sample.
    pub fn to_pcm(self) -> (r: i16)
        ensures
            r == pcm_of(self.bits),
    {
        let e: u32 = (self.bits / 0x80_0000) % 256;
        let f: u32 = self.bits % 0x80_0000;
        let negative = self.bits >= 0x8000_0000;
        if e == 255 && f != 0 {
            return 0;
        }
        let size: u64 = if e >= 128 {
            proof {
                lemma_scaled_size_large(self.bits);
            }
            32768
        } else if e < 110 {
            proof {
                lemma_scaled_size_small(self.bits);
            }
            0
        } else {
            let n: u64 = (0x80_0000 + f as u64) * 32767;
            let p: u64 = power_of_two(150 - e);
            proof {
                lemma_scaled_size_middle(self.bits);
                lemma2_to64();
                lemma_pow2_strictly_increases_to_40((150 - e) as nat);
            }
            let q = (2 * n + p) / (2 * p);
            if q > 32768 {
                32768
            } else {
                q
            }
        };
        assert(size == if scaled_size(self.bits) > 32768 {
            32768
        } else {
            scaled_size(self.bits)
        });
        if negative {
            if size >= 32768 {
                -32768
            } else {
                -(size as i16)
            }
        } else {
            if size >= 32767 {
                32767
            } else {
                size as i16
            }
        }
    }
}

proof fn lemma_pow2_strictly_increases_to_40(k: nat)
    requires
        k <= 40,
    ensures
        0 < pow2(k) <= 0x100_0000_0000,
{
    lemma2_to64_rest();
    lemma_pow2_pos(k);
    if k < 40 {
        lemma_pow2_strictly_increases(k, 40);
    }
}

/// The 32-bit word that four bytes spell, in the given byte order.
pub open spec fn word_of(b0: u8, b1: u8, b2: u8, b3: u8, little_endian: bool) -> u32 {
    if little_endian {
        (b0 + 0x100 * b1 + 0x1_0000 * b2 + 0x100_0000 * b3) as u32
    } else {
        (b3 + 0x100 * b2 + 0x1_0000 * b1 + 0x100_0000 * b0) as u32
    }
}

/// The samples that raw frame data holds: one for each full group of four
/// bytes, in order. Bytes left over at the end are not part of any sample.
pub open spec fn decoded(data: Seq<u8>, little_endian: bool) -> Seq<Sample> {
    Seq::new(
        (data.len() / 4) as nat,
        |i: int|
            Sample {
                bits: word_of(
                    data[4 * i],
                    data[4 * i + 1],
                    data[4 * i + 2],
                    data[4 * i + 3],
                    little_endian,
                ),
            },
    )
}

/// Reads the samples out of raw frame data.
pub fn decode_samples(data: &[u8], little_endian: bool) -> (r: Vec<Sample>)
    ensures
        r@ == decoded(data@, little_endian),
{
    let count: usize = data.len() / 4;
    let mut out: Vec<Sample> = Vec::new();
    let mut i: usize = 0;
    while i < count
        invariant
            i <= count,
            count == data.len() / 4,
            out.len() == i,
            forall|j: int| 0 <= j < i ==> out@[j] == decoded(data@, little_endian)[j],
        decreases count - i,
    {
        let b0 = data[4 * i];
        let b1 = data[4 * i + 1];
        let b2 = data[4 * i + 2];
        let b3 = data[4 * i + 3];
        let bits: u32 = if little_endian {
            b0 as u32 + 0x100 * (b1 as u32) + 0x1_0000 * (b2 as u32) + 0x100_0000 * (b3 as u32)
        } else {
            b3 as u32 + 0x100 * (b2 as u32) + 0x1_0000 * (b1 as u32) + 0x100_0000 * (b0 as u32)
        };
        out.push(Sample { bits });
        i += 1;
    }
    assert(out@ =~= decoded(data@, little_endian));
    out
}

} // verus!
