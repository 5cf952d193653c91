//! The numeric side of converting SafeTensors weights into an `.apr` model:
//! half-precision to single-precision bit patterns, tensor payload decoding,
//! and the GPT-2 byte decoder used to read tokenizer files.
use vstd::prelude::*;
use vstd::arithmetic::power2::{
    pow2, lemma_pow2_unfold, lemma_pow2_adds, lemma_pow2_strictly_increases, lemma2_to64,
};

verus! {

// ---------------------------------------------------------------------------
// Half precision to single precision
// ---------------------------------------------------------------------------

/// Sign bit of a half-precision value.
pub open spec fn f16_sign(b: u16) -> int {
    b as int / 0x8000
}

/// Biased exponent field of a half-precision value.
pub open spec fn f16_exp(b: u16) -> int {
    (b as int / 0x400) % 32
}

/// Fraction field of a half-precision value.
pub open spec fn f16_frac(b: u16) -> int {
    b as int % 0x400
}

/// Sign bit of a single-precision bit pattern.
pub open spec fn f32_sign(r: u32) -> int {
    r as int / 0x8000_0000
}

/// Biased exponent field of a single-precision bit pattern.
pub open spec fn f32_exp(r: u32) -> int {
    (r as int / 0x80_0000) % 256
}

/// Fraction field of a single-precision bit pattern.
pub open spec fn f32_frac(r: u32) -> int {
    r as int % 0x80_0000
}

/// How many doublings bring a non-zero fraction `f < 1024` to at least 1024.
pub open spec fn norm_shift(f: int) -> nat
    decreases 2048 - f,
{
    if f <= 0 || f >= 1024 {
        0
    } else {
        1 + norm_shift(2 * f)
    }
}

/// The fraction `f` doubled until it reaches at least 1024.
pub open spec fn normalized(f: int) -> int
    decreases 2048 - f,
{
    if f <= 0 || f >= 1024 {
        f
    } else {
        normalized(2 * f)
    }
}

/// The single-precision bit pattern of the value that a half-precision
/// bit pattern denotes: zeros keep their sign, subnormals are normalized,
/// infinities and NaNs keep their fraction, normal values are re-biased.
pub open spec fn f16_to_f32_spec(b: u16) -> u32 {
    let s = f16_sign(b);
    let ex = f16_exp(b);
    let fr = f16_frac(b);
    let e32: int = if ex == 0 {
        if fr == 0 {
            0
        } else {
            113 - norm_shift(fr)
        }
    } else if ex == 31 {
        255
    } else {
        ex + 112
    };
    let m32: int = if ex == 0 && fr != 0 {
        (normalized(fr) - 1024) * 0x2000
    } else {
        fr * 0x2000
    };
    (s * 0x8000_0000 + e32 * 0x80_0000 + m32) as u32
}

proof fn lemma_normalized_bounds(f: int)
    requires
        0 < f < 1024,
    ensures
        1024 <= normalized(f) < 2048,
        1 <= norm_shift(f) <= 10,
        normalized(f) == f * pow2(norm_shift(f)),
    decreases 1024 - f,
{
    if 2 * f < 1024 {
        lemma_normalized_bounds(2 * f);
        lemma_pow2_unfold(norm_shift(f));
        assert(norm_shift(f) == 1 + norm_shift(2 * f));
        assert(pow2(norm_shift(f)) == 2 * pow2(norm_shift(2 * f)));
        assert(f * pow2(norm_shift(f)) == (2 * f) * pow2(norm_shift(2 * f))) by (nonlinear_arith)
            requires
                pow2(norm_shift(f)) == 2 * pow2(norm_shift(2 * f)),
        ;
        if f >= 512 {
            assert(false);
        }
        lemma_shift_at_most_ten(f, norm_shift(f));
    } else {
        assert(norm_shift(2 * f) == 0);
        assert(normalized(2 * f) == 2 * f);
        lemma2_to64();
    }
}

proof fn lemma_shift_at_most_ten(f: int, k: nat)
    requires
        f >= 1,
        f * pow2(k) < 2048,
    ensures
        k <= 10,
{
    if k > 10 {
        lemma2_to64();
        if k > 11 {
            lemma_pow2_strictly_increases(11, k);
        }
        assert(pow2(k) >= 2048);
        assert(f * pow2(k) >= 2048) by (nonlinear_arith)
            requires
                f >= 1,
                pow2(k) >= 2048,
        ;
    }
}

/// Convert IEEE 754 half-precision (f16) bits to the bits of the f32 with the
/// same value.
pub fn f16_to_f32_bits(bits: u16) -> (r: u32)
    ensures
        r == f16_to_f32_spec(bits),
{
    assert((bits >> 15u16) as int == bits as int / 0x8000) by (bit_vector);
    assert(((bits >> 10u16) & 0x1f) as int == (bits as int / 0x400) % 32) by (bit_vector);
    assert((bits & 0x3ff) as int == bits as int % 0x400) by (bit_vector);
    let sign: u32 = (bits >> 15u16) as u32;
    let exp: u32 = ((bits >> 10u16) & 0x1f) as u32;
    let frac: u32 = (bits & 0x3ff) as u32;
    let e32: u32;
    let m32: u32;
    if exp == 0 {
        if frac == 0 {
            e32 = 0;
            m32 = 0;
        } else {
            let mut e: u32 = 0;
            let mut f: u32 = frac;
            proof {
                lemma_normalized_bounds(frac as int);
            }
            while (f & 0x400) == 0
                invariant
                    0 < frac < 1024,
                    0 < f < 2048,
                    normalized(f as int) == normalized(frac as int),
                    e + norm_shift(f as int) == norm_shift(frac as int),
                    norm_shift(frac as int) <= 10,
                decreases 2048 - f,
            {
                assert(f < 2048 ==> ((f & 0x400) == 0 <==> f % 2048 < 1024)) by (bit_vector);
                assert(f << 1u32 == 2 * f) by (bit_vector)
                    requires
                        f < 2048,
                ;
                f = f << 1u32;
                e = e + 1;
            }
            assert(f < 2048 ==> ((f & 0x400) == 0 <==> f < 1024)) by (bit_vector);
            assert(f & 0x3ff == f - 1024) by (bit_vector)
                requires
                    1024 <= f < 2048,
            ;
            e32 = 113 - e;
            m32 = f & 0x3ff;
        }
    } else if exp == 31 {
        e32 = 255;
        m32 = frac;
    } else {
        e32 = exp + 112;
        m32 = frac;
    }
    assert((sign << 31u32) | (e32 << 23u32) | (m32 << 13u32) == sign * 0x8000_0000 + e32
        * 0x80_0000 + m32 * 0x2000) by (bit_vector)
        requires
            sign < 2,
            e32 < 256,
            m32 < 1024,
    ;
    (sign << 31u32) | (e32 << 23u32) | (m32 << 13u32)
}

proof fn lemma_f32_fields(s: int, e: int, m: int)
    requires
        0 <= s < 2,
        0 <= e < 256,
        0 <= m < 0x80_0000,
    ensures
        ({
            let r = (s * 0x8000_0000 + e * 0x80_0000 + m) as u32;
            &&& f32_sign(r) == s
            &&& f32_exp(r) == e
            &&& f32_frac(r) == m
        }),
{
    let x = s * 0x8000_0000 + e * 0x80_0000 + m;
    assert(0 <= x < 0x1_0000_0000) by (nonlinear_arith)
        requires
            0 <= s < 2,
            0 <= e < 256,
            0 <= m < 0x80_0000,
            x == s * 0x8000_0000 + e * 0x80_0000 + m,
    ;
    assert(x / 0x8000_0000 == s && (x / 0x80_0000) % 256 == e && x % 0x80_0000 == m)
        by (nonlinear_arith)
        requires
            0 <= s < 2,
            0 <= e < 256,
            0 <= m < 0x80_0000,
            x == s * 0x8000_0000 + e * 0x80_0000 + m,
    ;
}

/// The conversion keeps the value: the sign is kept; a zero stays a zero; a
/// normal value keeps its unbiased exponent and fraction; a subnormal value
/// `frac * 2^-24` becomes the normal value `(2^23 + fraction) * 2^(exponent - 150)`,
/// which is the same number; infinities stay infinities and NaNs stay NaNs.
pub proof fn lemma_f16_to_f32_same_value(b: u16)
    ensures
        ({
            let r = f16_to_f32_spec(b);
            &&& f32_sign(r) == f16_sign(b)
            &&& f16_exp(b) == 0 && f16_frac(b) == 0 ==> f32_exp(r) == 0 && f32_frac(r) == 0
            &&& 0 < f16_exp(b) < 31 ==> f32_exp(r) - 127 == f16_exp(b) - 15 && f32_frac(r)
                == f16_frac(b) * 0x2000
            &&& f16_exp(b) == 0 && f16_frac(b) != 0 ==> 0 < f32_exp(r) < 255 && 0x80_0000
                + f32_frac(r) == f16_frac(b) * pow2((126 - f32_exp(r)) as nat)
            &&& f16_exp(b) == 31 ==> f32_exp(r) == 255 && (f32_frac(r) == 0 <==> f16_frac(b)
                == 0)
        }),
{
    let s = f16_sign(b);
    let ex = f16_exp(b);
    let fr = f16_frac(b);
    assert(0 <= s < 2 && 0 <= ex < 32 && 0 <= fr < 1024) by (nonlinear_arith)
        requires
            s == b as int / 0x8000,
            ex == (b as int / 0x400) % 32,
            fr == b as int % 0x400,
            0 <= b < 0x1_0000,
    ;
    if ex == 0 && fr != 0 {
        lemma_normalized_bounds(fr);
        let k = norm_shift(fr);
        let e32 = 113 - k;
        let m32 = (normalized(fr) - 1024) * 0x2000;
        lemma_f32_fields(s, e32, m32);
        lemma_pow2_adds(13, k);
        lemma2_to64();
        assert((126 - e32) as nat == 13 + k);
        assert(0x80_0000 + m32 == fr * pow2(13 + k)) by (nonlinear_arith)
            requires
                m32 == (normalized(fr) - 1024) * 0x2000,
                normalized(fr) == fr * pow2(k),
                pow2(13 + k) == pow2(13) * pow2(k),
                pow2(13) == 0x2000,
        ;
    } else if ex == 0 {
        lemma_f32_fields(s, 0, 0);
    } else if ex == 31 {
        lemma_f32_fields(s, 255, fr * 0x2000);
    } else {
        lemma_f32_fields(s, ex + 112, fr * 0x2000);
    }
}

/// Convert bfloat16 bits to the bits of the f32 with the same value: the
/// bfloat16 pattern is the upper half of the f32 pattern.
pub fn bf16_to_f32_bits(bits: u16) -> (r: u32)
    ensures
        r == bits as int * 0x1_0000,
{
    assert(((bits as u32) << 16u32) == bits as int * 0x1_0000) by (bit_vector);
    (bits as u32) << 16u32
}

// ---------------------------------------------------------------------------
// Tensor payloads
// ---------------------------------------------------------------------------

/// Element types of SafeTensors tensors, as far as conversion tells them apart.
#[derive(Debug, Clone, Copy, PartialEq, Eq, Structural)]
pub enum TensorDtype {
    F32,
    F16,
    BF16,
    /// Any other element type; such tensors cannot be converted.
    Other,
}

/// Bytes per element of a convertible element type.
pub open spec fn dtype_width(d: TensorDtype) -> int {
    match d {
        TensorDtype::F32 => 4,
        _ => 2,
    }
}

/// The little-endian integer of two bytes.
pub open spec fn le_u16(b0: u8, b1: u8) -> int {
    b0 as int + 0x100 * b1 as int
}

/// The little-endian integer of four bytes.
pub open spec fn le_u32(b0: u8, b1: u8, b2: u8, b3: u8) -> int {
    b0 as int + 0x100 * b1 as int + 0x1_0000 * b2 as int + 0x100_0000 * b3 as int
}

/// The f32 bit pattern of element `i` of a tensor payload.
pub open spec fn element_bits(data: Seq<u8>, d: TensorDtype, i: int) -> u32 {
    match d {
        TensorDtype::F32 => le_u32(data[4 * i], data[4 * i + 1], data[4 * i + 2], data[4 * i + 3])
            as u32,
        TensorDtype::F16 => f16_to_f32_spec(le_u16(data[2 * i], data[2 * i + 1]) as u16),
        _ => (le_u16(data[2 * i], data[2 * i + 1]) * 0x1_0000) as u32,
    }
}

/// The f32 bit patterns of a tensor payload: one per whole element (a
/// trailing partial element is ignored); `None` for an unconvertible type.
pub open spec fn tensor_bits_spec(data: Seq<u8>, d: TensorDtype) -> Option<Seq<u32>> {
    if d == TensorDtype::Other {
        None
    } else {
        Some(Seq::new((data.len() as int / dtype_width(d)) as nat, |i: int| element_bits(data, d, i)))
    }
}

/// Decodes a SafeTensors payload of the given element type into the f32 bit
/// patterns of its elements, little-endian; `None` for an unsupported type.
pub fn tensor_to_f32_bits(data: &[u8], dtype: TensorDtype) -> (r: Option<Vec<u32>>)
    ensures
        match (r, tensor_bits_spec(data@, dtype)) {
            (None, None) => true,
            (Some(v), Some(s)) => v@ == s,
            _ => false,
        },
        // Element `i` of an F32 payload is the little-endian word of bytes
        // `4i .. 4i + 4`; a trailing partial word is dropped.
        dtype == TensorDtype::F32 ==> (r matches Some(v) && v@.len() == data@.len() / 4 && forall|
            i: int,
        |
            0 <= i < v@.len() ==> #[trigger] v@[i] as int == data@[4 * i] as int + 0x100
                * data@[4 * i + 1] as int + 0x1_0000 * data@[4 * i + 2] as int + 0x100_0000
                * data@[4 * i + 3] as int),
        // Element `i` of an F16 payload is the half-precision value of the
        // little-endian half-word of bytes `2i, 2i + 1`.
        dtype == TensorDtype::F16 ==> (r matches Some(v) && v@.len() == data@.len() / 2 && forall|
            i: int,
        |
            0 <= i < v@.len() ==> #[trigger] v@[i] == f16_to_f32_spec(
                (data@[2 * i] as int + 0x100 * data@[2 * i + 1] as int) as u16,
            )),
        // Element `i` of a BF16 payload is the little-endian half-word of
        // bytes `2i, 2i + 1` in the upper half of the word.
        dtype == TensorDtype::BF16 ==> (r matches Some(v) && v@.len() == data@.len() / 2 && forall|
            i: int,
        |
            0 <= i < v@.len() ==> #[trigger] v@[i] as int == (data@[2 * i] as int + 0x100
                * data@[2 * i + 1] as int) * 0x1_0000),
        dtype == TensorDtype::Other ==> r is None,
{
    if dtype == TensorDtype::Other {
        return None;
    }
    let width: usize = if dtype == TensorDtype::F32 {
        4
    } else {
        2
    };
    let count = data.len() / width;
    let mut out: Vec<u32> = Vec::new();
    let mut i: usize = 0;
    while i < count
        invariant
            dtype != TensorDtype::Other,
            width == dtype_width(dtype),
            count == data@.len() as int / dtype_width(dtype),
            i <= count,
            out@ == Seq::new(i as nat, |k: int| element_bits(data@, dtype, k)),
        decreases count - i,
    {
        assert(width * i + width <= data@.len()) by (nonlinear_arith)
            requires
                i < count,
                count == data@.len() as int / (width as int),
                width == 2 || width == 4,
        ;
        assert(data@.len() == data.len());
        assert((width as int) * (i as int) + (width as int) <= data.len());
        let base = width * i;
        let bits: u32 = if dtype == TensorDtype::F32 {
            let b0 = data[base];
            let b1 = data[base + 1];
            let b2 = data[base + 2];
            let b3 = data[base + 3];
            b0 as u32 + 0x100 * (b1 as u32) + 0x1_0000 * (b2 as u32) + 0x100_0000 * (b3 as u32)
        } else {
            let half: u16 = data[base] as u16 + 0x100 * (data[base + 1] as u16);
            if dtype == TensorDtype::F16 {
                f16_to_f32_bits(half)
            } else {
                bf16_to_f32_bits(half)
            }
        };
        out.push(bits);
        assert(out@ =~= Seq::new((i + 1) as nat, |k: int| element_bits(data@, dtype, k)));
        i = i + 1;
    }
    proof {
        lemma_tensor_elements(data@, dtype);
    }
    Some(out)
}

/// The elements of a payload are read from consecutive, non-overlapping
/// little-endian chunks of the element's width: four bytes per F32 element,
/// two per F16 or BF16 element, with a trailing partial chunk dropped.
pub proof fn lemma_tensor_elements(data: Seq<u8>, d: TensorDtype)
    ensures
        d == TensorDtype::Other <==> tensor_bits_spec(data, d) is None,
        d == TensorDtype::F32 ==> (tensor_bits_spec(data, d) matches Some(v) && v.len()
            == data.len() / 4 && forall|i: int|
            0 <= i < v.len() ==> #[trigger] v[i] as int == data[4 * i] as int + 0x100 * data[4
                * i + 1] as int + 0x1_0000 * data[4 * i + 2] as int + 0x100_0000 * data[4 * i
                + 3] as int),
        d == TensorDtype::F16 ==> (tensor_bits_spec(data, d) matches Some(v) && v.len()
            == data.len() / 2 && forall|i: int|
            0 <= i < v.len() ==> #[trigger] v[i] == f16_to_f32_spec(
                (data[2 * i] as int + 0x100 * data[2 * i + 1] as int) as u16,
            )),
        d == TensorDtype::BF16 ==> (tensor_bits_spec(data, d) matches Some(v) && v.len()
            == data.len() / 2 && forall|i: int|
            0 <= i < v.len() ==> #[trigger] v[i] as int == (data[2 * i] as int + 0x100 * data[2
                * i + 1] as int) * 0x1_0000),
{
    if d != TensorDtype::Other {
        let v = tensor_bits_spec(data, d)->0;
        let w = dtype_width(d);
        assert forall|i: int| 0 <= i < v.len() implies w * i + w <= data.len() && #[trigger] v[i]
            == element_bits(data, d, i) by {
            assert(w * i + w <= data.len()) by (nonlinear_arith)
                requires
                    0 <= i < data.len() as int / w,
                    w == 2 || w == 4,
            ;
        }
        if d == TensorDtype::F32 {
            assert forall|i: int| 0 <= i < v.len() implies #[trigger] v[i] as int == data[4 * i] as int
                + 0x100 * data[4 * i + 1] as int + 0x1_0000 * data[4 * i + 2] as int
                + 0x100_0000 * data[4 * i + 3] as int by {
                let x = le_u32(data[4 * i], data[4 * i + 1], data[4 * i + 2], data[4 * i + 3]);
                assert(0 <= x < 0x1_0000_0000);
            }
        }
        if d == TensorDtype::BF16 {
            assert forall|i: int| 0 <= i < v.len() implies #[trigger] v[i] as int == (data[2 * i] as int
                + 0x100 * data[2 * i + 1] as int) * 0x1_0000 by {
                let x = le_u16(data[2 * i], data[2 * i + 1]) * 0x1_0000;
                assert(0 <= x < 0x1_0000_0000);
            }
        }
    }
}

// ---------------------------------------------------------------------------
// GPT-2 byte decoder
// ---------------------------------------------------------------------------

/// Bytes that GPT-2's byte-level tokenizer shows as themselves: printable
/// ASCII and most of Latin-1.
pub open spec fn gpt2_printable(b: int) -> bool {
    (0x21 <= b && b <= 0x7e) || (0xa1 <= b && b <= 0xac) || (0xae <= b && b <= 0xff)
}

/// How many of the bytes below `b` are not shown as themselves.
pub open spec fn unprintable_below(b: int) -> nat
    decreases b,
{
    if b <= 0 {
        0
    } else {
        unprintable_below(b - 1) + if gpt2_printable(b - 1) {
            0nat
        } else {
            1nat
        }
    }
}

/// The code point under which GPT-2 shows byte `b`: the byte itself when it
/// is printable, else the next unused code point from U+0100 on, in byte order.
pub open spec fn gpt2_code(b: u8) -> u32 {
    if gpt2_printable(b as int) {
        b as u32
    } else {
        (256 + unprintable_below(b as int)) as u32
    }
}

/// The byte shown under code point `c`, if any.
pub open spec fn gpt2_byte_of(c: u32) -> Option<u8> {
    if exists|b: u8| gpt2_code(b) == c {
        Some(choose|b: u8| gpt2_code(b) == c)
    } else {
        None
    }
}

proof fn lemma_unprintable_below_bounds(a: int, b: int)
    requires
        0 <= a <= b,
    ensures
        unprintable_below(a) <= unprintable_below(b),
        unprintable_below(b) <= b,
        a < b && !gpt2_printable(a) ==> unprintable_below(a) < unprintable_below(b),
    decreases b - a,
{
    if a < b {
        lemma_unprintable_below_bounds(a, b - 1);
    } else {
        lemma_unprintable_below_le(b);
    }
}

proof fn lemma_unprintable_below_le(b: int)
    requires
        0 <= b,
    ensures
        unprintable_below(b) <= b,
    decreases b,
{
    if b > 0 {
        lemma_unprintable_below_le(b - 1);
    }
}

/// No two bytes share a code point, so the decoder maps back to every one
/// of the 256 bytes exactly once.
pub proof fn lemma_gpt2_code_injective(x: u8, y: u8)
    ensures
        gpt2_code(x) == gpt2_code(y) ==> x == y,
{
    if x != y {
        let (a, b) = if x < y {
            (x, y)
        } else {
            (y, x)
        };
        lemma_unprintable_below_bounds(a as int, b as int);
        lemma_unprintable_below_bounds(0, b as int);
    }
}

/// The byte decoder maps each code point of `gpt2_code` back to its byte.
pub proof fn lemma_gpt2_byte_of_code(b: u8)
    ensures
        gpt2_byte_of(gpt2_code(b)) == Some(b),
{
    let c = gpt2_code(b);
    assert(gpt2_code(b) == c);
    let w = choose|x: u8| gpt2_code(x) == c;
    lemma_gpt2_code_injective(w, b);
}

proof fn lemma_unprintable_below_values(b: int)
    requires
        0 <= b <= 0x100,
    ensures
        b <= 0x21 ==> unprintable_below(b) == b,
        0x21 <= b <= 0x7f ==> unprintable_below(b) == 0x21,
        0x7f <= b <= 0xa1 ==> unprintable_below(b) == 0x21 + (b - 0x7f),
        0xa1 <= b <= 0xad ==> unprintable_below(b) == 0x43,
        0xae <= b ==> unprintable_below(b) == 0x44,
    decreases b,
{
    if b > 0 {
        lemma_unprintable_below_values(b - 1);
    }
}

/// The code point of each byte, by the byte's range: the bytes shown as
/// themselves keep their value; 0x00..=0x20 become U+0100..=U+0120,
/// 0x7F..=0xA0 become U+0121..=U+0142 and the soft hyphen 0xAD becomes U+0143.
proof fn lemma_gpt2_code_table(b: u8)
    ensures
        (0x21 <= b <= 0x7e || 0xa1 <= b <= 0xac || 0xae <= b) ==> gpt2_code(b) == b as u32,
        b < 0x21 ==> gpt2_code(b) == 0x100 + b as u32,
        0x7f <= b <= 0xa0 ==> gpt2_code(b) == b as u32 + 0xa2,
        b == 0xad ==> gpt2_code(b) == 0x143,
{
    lemma_unprintable_below_values(b as int);
}

/// GPT-2's byte decoder table: the code points 0x21..=0x7E, 0xA1..=0xAC and
/// 0xAE..=0xFF stand for the byte of the same value; the other 68 bytes, in
/// byte order, stand under U+0100..=U+0143 (so U+0143 is the soft hyphen
/// 0xAD); no other code point stands for a byte.
pub proof fn lemma_gpt2_byte_table()
    ensures
        forall|c: u32|
            (0x21 <= c <= 0x7e || 0xa1 <= c <= 0xac || 0xae <= c <= 0xff) ==> #[trigger] gpt2_byte_of(c)
                == Some(c as u8),
        forall|b: u32| b < 0x21 ==> #[trigger] gpt2_byte_of((0x100 + b) as u32) == Some(b as u8),
        forall|b: u32| 0x7f <= b <= 0xa0 ==> #[trigger] gpt2_byte_of((b + 0xa2) as u32) == Some(b as u8),
        gpt2_byte_of(0x143) == Some(0xadu8),
        forall|c: u32|
            (c < 0x21 || (0x7f <= c <= 0xa0) || c == 0xad || c > 0x143) ==> #[trigger] gpt2_byte_of(
                c,
            ) is None,
{
    assert forall|c: u32|
        (0x21 <= c <= 0x7e || 0xa1 <= c <= 0xac || 0xae <= c <= 0xff) implies #[trigger] gpt2_byte_of(c)
            == Some(c as u8) by {
        lemma_gpt2_code_table(c as u8);
        lemma_gpt2_byte_of_code(c as u8);
    }
    assert forall|b: u32| b < 0x21 implies #[trigger] gpt2_byte_of((0x100 + b) as u32) == Some(b as u8) by {
        lemma_gpt2_code_table(b as u8);
        lemma_gpt2_byte_of_code(b as u8);
    }
    assert forall|b: u32| 0x7f <= b <= 0xa0 implies #[trigger] gpt2_byte_of((b + 0xa2) as u32) == Some(
        b as u8,
    ) by {
        lemma_gpt2_code_table(b as u8);
        lemma_gpt2_byte_of_code(b as u8);
    }
    lemma_gpt2_code_table(0xad);
    lemma_gpt2_byte_of_code(0xad);
    assert forall|c: u32|
        (c < 0x21 || (0x7f <= c <= 0xa0) || c == 0xad || c > 0x143) implies #[trigger] gpt2_byte_of(
            c,
        ) is None by {
        assert forall|b: u8| gpt2_code(b) != c by {
            lemma_gpt2_code_table(b);
        }
    }
}

/// Builds the GPT-2 byte decoder: code point (as `u32`) to byte value.
pub fn build_gpt2_byte_decoder() -> (r: std::collections::HashMap<u32, u8>)
    ensures
        forall|c: u32| #[trigger] r@.contains_key(c) <==> gpt2_byte_of(c) is Some,
        forall|c: u32| r@.contains_key(c) ==> Some(#[trigger] r@[c]) == gpt2_byte_of(c),
{
    broadcast use vstd::std_specs::hash::group_hash_axioms;

    let mut decoder: std::collections::HashMap<u32, u8> = std::collections::HashMap::new();
    let mut seen: Vec<bool> = Vec::new();
    let mut k: usize = 0;
    while k < 256
        invariant
            k <= 256,
            seen@.len() == k,
            forall|j: int| 0 <= j < k ==> !seen@[j],
        decreases 256 - k,
    {
        seen.push(false);
        k = k + 1;
    }
    // Printable ASCII and most of Latin-1 map to themselves.
    let mut b: u32 = 0x21;
    while b <= 0x7e
        invariant
            0x21 <= b <= 0x7f,
            seen@.len() == 256,
            forall|c: u32| #[trigger] decoder@.contains_key(c) <==> (gpt2_printable(c as int) && c < b),
            forall|c: u32| decoder@.contains_key(c) ==> #[trigger] decoder@[c] == c,
            forall|j: int| 0 <= j < 256 ==> (#[trigger] seen@[j] <==> (gpt2_printable(j) && j < b)),
        decreases 0x7f - b,
    {
        decoder.insert(b, b as u8);
        seen.set(b as usize, true);
        b = b + 1;
    }
    let mut b: u32 = 0xa1;
    while b <= 0xac
        invariant
            0xa1 <= b <= 0xad,
            seen@.len() == 256,
            forall|c: u32| #[trigger] decoder@.contains_key(c) <==> (gpt2_printable(c as int) && c < b),
            forall|c: u32| decoder@.contains_key(c) ==> #[trigger] decoder@[c] == c,
            forall|j: int| 0 <= j < 256 ==> (#[trigger] seen@[j] <==> (gpt2_printable(j) && j < b)),
        decreases 0xad - b,
    {
        decoder.insert(b, b as u8);
        seen.set(b as usize, true);
        b = b + 1;
    }
    let mut b: u32 = 0xae;
    while b <= 0xff
        invariant
            0xae <= b <= 0x100,
            seen@.len() == 256,
            forall|c: u32| #[trigger] decoder@.contains_key(c) <==> (gpt2_printable(c as int) && c < b),
            forall|c: u32| decoder@.contains_key(c) ==> #[trigger] decoder@[c] == c,
            forall|j: int| 0 <= j < 256 ==> (#[trigger] seen@[j] <==> (gpt2_printable(j) && j < b)),
        decreases 0x100 - b,
    {
        decoder.insert(b, b as u8);
        seen.set(b as usize, true);
        b = b + 1;
    }
    // The other bytes get the code points from U+0100 on, in byte order.
    proof {
        assert forall|c: u32| #[trigger] decoder@.contains_key(c) implies c < 256 && exists|x: u8|
            gpt2_code(x) == c by {
            let x = c as u8;
            assert(gpt2_code(x) == c);
        }
    }
    let mut n: u32 = 0;
    let mut b: u32 = 0;
    while b <= 255
        invariant
            b <= 256,
            seen@.len() == 256,
            n == unprintable_below(b as int),
            n <= b,
            forall|j: int| 0 <= j < 256 ==> (#[trigger] seen@[j] <==> gpt2_printable(j)),
            forall|x: u8| (x < b || gpt2_printable(x as int)) ==> decoder@.contains_key(
                #[trigger] gpt2_code(x),
            ) && decoder@[gpt2_code(x)] == x,
            forall|c: u32| #[trigger] decoder@.contains_key(c) ==> c < 256 + n && exists|x: u8|
                gpt2_code(x) == c,
        decreases 256 - b,
    {
        proof {
            lemma_unprintable_below_le(b as int);
        }
        if !seen[b as usize] {
            let ghost old_map = decoder@;
            decoder.insert(256 + n, b as u8);
            proof {
                let bx = b as u8;
                assert(gpt2_code(bx) == 256 + n);
                assert forall|x: u8| (x < b + 1 || gpt2_printable(x as int)) implies decoder@.contains_key(
                    #[trigger] gpt2_code(x),
                ) && decoder@[gpt2_code(x)] == x by {
                    if x != bx {
                        assert(old_map.contains_key(gpt2_code(x)));
                    }
                }
                assert forall|c: u32| #[trigger] decoder@.contains_key(c) implies c < 256 + n + 1
                    && exists|x: u8| gpt2_code(x) == c by {
                    if c != 256 + n {
                        assert(old_map.contains_key(c));
                    } else {
                        assert(gpt2_code(bx) == c);
                    }
                }
            }
            n = n + 1;
        } else {
            proof {
                assert forall|x: u8| (x < b + 1 || gpt2_printable(x as int)) implies decoder@.contains_key(
                    #[trigger] gpt2_code(x),
                ) && decoder@[gpt2_code(x)] == x by {
                    if x == b {
                        assert(gpt2_printable(x as int));
                    }
                }
            }
        }
        b = b + 1;
    }
    proof {
        assert forall|c: u32| #[trigger] decoder@.contains_key(c) <==> gpt2_byte_of(c) is Some by {
            if gpt2_byte_of(c) is Some {
                let x = choose|x: u8| gpt2_code(x) == c;
                assert(gpt2_code(x) == c);
                assert(x < 256);
            }
        }
        assert forall|c: u32| decoder@.contains_key(c) implies Some(#[trigger] decoder@[c])
            == gpt2_byte_of(c) by {
            let x = choose|x: u8| gpt2_code(x) == c;
            assert(gpt2_code(x) == c);
            lemma_gpt2_byte_of_code(x);
            assert(x < 256);
        }
    }
    decoder
}

} // verus!
