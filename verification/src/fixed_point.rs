//! The 256-bit Q64.96 fixed-point representation of a square-root price,
//! and its decoding into an arbitrary-precision decimal rendering.

use vstd::prelude::*;

verus! {

/// A 256-bit unsigned integer, stored as four 64-bit limbs from least
/// significant (`w0`) to most significant (`w3`).
///
/// The exchange stores a pool's square-root price in this form, in Q64.96
/// format: the mathematical ratio is the stored integer divided by `2^96`.
#[derive(Clone, Copy, PartialEq, Eq, Structural, Debug)]
pub struct U256 {
    pub w0: u64,
    pub w1: u64,
    pub w2: u64,
    pub w3: u64,
}

impl View for U256 {
    type V = nat;

    /// The integer value: the weighted sum of the four limbs.
    open spec fn view(&self) -> nat {
        (self.w0 + self.w1 * 0x1_0000_0000_0000_0000
            + self.w2 * 0x1_0000_0000_0000_0000_0000_0000_0000_0000
            + self.w3 * 0x1_0000_0000_0000_0000_0000_0000_0000_0000_0000_0000_0000_0000) as nat
    }
}

impl U256 {
    /// The zero value.
    pub fn zero() -> (r: U256)
        ensures
            r@ == 0,
            r == (U256 { w0: 0u64, w1: 0u64, w2: 0u64, w3: 0u64 }),
    {
        U256 { w0: 0, w1: 0, w2: 0, w3: 0 }
    }

    /// Whether the value is zero, which is the case exactly when every limb
    /// is zero.
    pub fn is_zero(&self) -> (r: bool)
        ensures
            r == (self@ == 0),
    {
        proof {
            lemma_value_zero_iff_limbs_zero(*self);
        }
        self.w0 == 0 && self.w1 == 0 && self.w2 == 0 && self.w3 == 0
    }
}

/// The weighted limb sum is zero exactly when each limb is zero.
proof fn lemma_value_zero_iff_limbs_zero(v: U256)
    ensures
        (v@ == 0) <==> (v.w0 == 0 && v.w1 == 0 && v.w2 == 0 && v.w3 == 0),
{
    assert(v.w1 * 0x1_0000_0000_0000_0000 >= 0);
    assert(v.w2 * 0x1_0000_0000_0000_0000_0000_0000_0000_0000 >= 0);
    assert(v.w3
        * 0x1_0000_0000_0000_0000_0000_0000_0000_0000_0000_0000_0000_0000 >= 0);
    if v.w1 != 0 {
        assert(v.w1 * 0x1_0000_0000_0000_0000 >= 0x1_0000_0000_0000_0000);
    }
    if v.w2 != 0 {
        assert(v.w2 * 0x1_0000_0000_0000_0000_0000_0000_0000_0000
            >= 0x1_0000_0000_0000_0000_0000_0000_0000_0000);
    }
    if v.w3 != 0 {
        assert(v.w3 * 0x1_0000_0000_0000_0000_0000_0000_0000_0000_0000_0000_0000_0000
            >= 0x1_0000_0000_0000_0000_0000_0000_0000_0000_0000_0000_0000_0000);
    }
}

/// The decimal rendering, at the decimal engine's forty significant digits,
/// of `v / 2^96`: what decoding the Q64.96 value `v` produces.
pub uninterp spec fn q64_96_repr(v: nat) -> Seq<char>;

/// Takes a Q64.96 fixed-point number and renders the ratio it encodes as an
/// arbitrary-precision decimal in scientific notation.
///
/// Relies on `num_bigfloat::BigFloat` (`From<u64>`, `pow`, `mul`, `add`,
/// `div` and its `Display` rendering): the result is the forty-digit decimal
/// engine's value of `(w0 + w1*2^64 + w2*2^128 + w3*2^192) / 2^96`, and
/// depends on the limbs alone.
#[verifier::external_body]
pub fn convert(q64_96: &U256) -> (r: String)
    ensures
        r@ == q64_96_repr(q64_96@),
{
    let two = num_bigfloat::BigFloat::from(2u8);
    let weighted = num_bigfloat::BigFloat::from(q64_96.w3)
        .mul(&two.pow(&num_bigfloat::BigFloat::from(192u8)))
        .add(&num_bigfloat::BigFloat::from(q64_96.w2)
            .mul(&two.pow(&num_bigfloat::BigFloat::from(128u8))))
        .add(&num_bigfloat::BigFloat::from(q64_96.w1)
            .mul(&two.pow(&num_bigfloat::BigFloat::from(64u8))))
        .add(&num_bigfloat::BigFloat::from(q64_96.w0));
    weighted.div(&two.pow(&num_bigfloat::BigFloat::from(96u8))).to_string()
}

} // verus!
