//! Fixed-point decimal numbers, as prices and sizes travel on the wire.

use crate::text::nat_text;
use vstd::prelude::*;

verus! {

/// The largest magnitude of a mantissa: 96 bits.
pub const MAX_MANTISSA: i128 = 79228162514264337593543950335;

/// The largest number of fractional digits.
pub const MAX_SCALE: u32 = 28;

/// The decimal text of `mantissa / 10^scale`: every digit of the mantissa,
/// zero-padded on the left to at least `scale` digits, the point placed
/// `scale` digits from the right (a lone `0` before it when nothing is left
/// of it, no point when `scale` is 0), and `-` in front when negative.
pub open spec fn decimal_text(mantissa: int, scale: nat) -> Seq<char> {
    let digits = nat_text((if mantissa < 0 { -mantissa } else { mantissa }) as nat);
    let padded = if digits.len() < scale {
        Seq::new((scale - digits.len()) as nat, |i: int| '0') + digits
    } else {
        digits
    };
    let cut = padded.len() - scale;
    let whole = padded.subrange(0, cut);
    let body = if scale == 0 {
        padded
    } else {
        (if whole.len() == 0 { seq!['0'] } else { whole }) + seq!['.'] + padded.subrange(cut, padded.len() as int)
    };
    if mantissa < 0 {
        seq!['-'] + body
    } else {
        body
    }
}

/// Relies on `rust_decimal::Decimal::from_i128_with_scale`, which panics outside
/// a 96-bit mantissa and a scale of 28, and on its `Display`, which writes the
/// text that `decimal_text` describes.
#[verifier::external_body]
fn decimal_to_text(mantissa: i128, scale: u32) -> (r: String)
    requires
        -MAX_MANTISSA <= mantissa <= MAX_MANTISSA,
        scale <= MAX_SCALE,
    ensures
        r@ == decimal_text(mantissa as int, scale as nat),
{
    rust_decimal::Decimal::from_i128_with_scale(mantissa, scale).to_string()
}

/// A decimal number `mantissa / 10^scale`; the scale is kept, so `600.0` and
/// `600` are told apart as they are on the wire.
#[derive(Debug, Clone, Copy)]
pub struct Decimal {
    mantissa: i128,
    scale: u32,
}

impl Decimal {
    #[verifier::type_invariant]
    spec fn in_range(self) -> bool {
        -MAX_MANTISSA <= self.mantissa <= MAX_MANTISSA && self.scale <= MAX_SCALE
    }

    pub closed spec fn mantissa_spec(self) -> int {
        self.mantissa as int
    }

    pub closed spec fn scale_spec(self) -> nat {
        self.scale as nat
    }

    /// The wire text of the number.
    pub open spec fn text_spec(self) -> Seq<char> {
        decimal_text(self.mantissa_spec(), self.scale_spec())
    }

    /// The number `mantissa / 10^scale`, if the mantissa fits 96 bits and the
    /// scale is at most 28.
    pub fn from_parts(mantissa: i128, scale: u32) -> (r: Option<Decimal>)
        ensures
            r is Some <==> (-MAX_MANTISSA <= mantissa <= MAX_MANTISSA && scale <= MAX_SCALE),
            r matches Some(d) ==> d.mantissa_spec() == mantissa && d.scale_spec() == scale,
    {
        if -MAX_MANTISSA <= mantissa && mantissa <= MAX_MANTISSA && scale <= MAX_SCALE {
            Some(Decimal { mantissa, scale })
        } else {
            None
        }
    }

    pub fn mantissa(&self) -> (r: i128)
        ensures
            r == self.mantissa_spec(),
    {
        self.mantissa
    }

    pub fn scale(&self) -> (r: u32)
        ensures
            r == self.scale_spec(),
    {
        self.scale
    }

    /// The wire text of the number.
    pub fn to_text(&self) -> (r: String)
        ensures
            r@ == self.text_spec(),
    {
        proof {
            use_type_invariant(self);
        }
        decimal_to_text(self.mantissa, self.scale)
    }
}

} // verus!
