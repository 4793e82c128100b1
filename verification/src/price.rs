//! Spot price computation: squares the decoded square-root price, normalizes
//! it for the two tokens' decimal precisions, and inverts the ratio when the
//! caller's first token is not the pool's exchange-assigned token zero.

use vstd::prelude::*;

use crate::errors::PoolError;
use crate::fixed_point::convert;
use crate::fixed_point::q64_96_repr;
use crate::fixed_point::U256;
use crate::tokens::Address;
use crate::tokens::Token;

verus! {

/// The decimal rendering of `d^2 / 10^(-diff)`, where `d` is the decimal
/// number that `decoded` renders: what scaling a decoded square-root price
/// produces when the caller's first token is the pool's token zero.
pub uninterp spec fn scaled_price_repr(decoded: Seq<char>, diff_decimals: int) -> Seq<char>;

/// The decimal rendering of `1 / (d^2 / 10^diff)`, where `d` is the decimal
/// number that `decoded` renders: the reciprocal orientation, used when the
/// caller's first token is not the pool's token zero.
pub uninterp spec fn inverse_scaled_price_repr(
    decoded: Seq<char>,
    diff_decimals: int,
) -> Seq<char>;

/// Squares the decoded square-root price and divides by `10^(-diff)`.
///
/// Relies on `num_bigfloat::BigFloat` (`parse`, `pow`, `div`, `From<i16>`
/// and its `Display` rendering): the result depends on the arguments alone.
#[verifier::external_body]
fn scale_price(decoded: &str, diff_decimals: i16) -> (r: String)
    ensures
        r@ == scaled_price_repr(decoded@, diff_decimals as int),
{
    let sqrt = num_bigfloat::BigFloat::parse(decoded).unwrap_or(num_bigfloat::NAN);
    let raw = sqrt.pow(&num_bigfloat::TWO);
    let diff = num_bigfloat::BigFloat::from(diff_decimals);
    raw.div(&num_bigfloat::BigFloat::from(10i16).pow(&diff.inv_sign())).to_string()
}

/// Squares the decoded square-root price, divides by `10^diff`, and takes
/// the reciprocal.
///
/// Relies on `num_bigfloat::BigFloat` (`parse`, `pow`, `div`, `From<i16>`
/// and its `Display` rendering): the result depends on the arguments alone.
#[verifier::external_body]
fn invert_scaled_price(decoded: &str, diff_decimals: i16) -> (r: String)
    ensures
        r@ == inverse_scaled_price_repr(decoded@, diff_decimals as int),
{
    let sqrt = num_bigfloat::BigFloat::parse(decoded).unwrap_or(num_bigfloat::NAN);
    let raw = sqrt.pow(&num_bigfloat::TWO);
    let diff = num_bigfloat::BigFloat::from(diff_decimals);
    num_bigfloat::ONE.div(&raw.div(&num_bigfloat::BigFloat::from(10i16).pow(&diff))).to_string()
}

/// The signed difference of the two tokens' decimal precisions.
pub open spec fn decimals_diff(token_0: Token, token_1: Token) -> int {
    token_0.decimals - token_1.decimals
}

/// What `compute_price` returns: the normalized spot price of the pair, or
/// `UninitializedPool` when the reciprocal orientation would divide by a
/// square-root price of zero.
pub open spec fn spec_price(
    token_0: Token,
    token_1: Token,
    sqrt_price_x96: nat,
    pool_token_0: Address,
) -> Result<Seq<char>, PoolError> {
    if pool_token_0 == token_0.address {
        Ok(scaled_price_repr(q64_96_repr(sqrt_price_x96), decimals_diff(token_0, token_1)))
    } else if sqrt_price_x96 == 0 {
        Err(PoolError::UninitializedPool)
    } else {
        Ok(
            inverse_scaled_price_repr(
                q64_96_repr(sqrt_price_x96),
                decimals_diff(token_0, token_1),
            ),
        )
    }
}

/// The view of a computed price: the rendering's characters on success, the
/// error unchanged on failure.
pub open spec fn price_result_view(r: Result<String, PoolError>) -> Result<Seq<char>, PoolError> {
    match r {
        Ok(s) => Ok(s@),
        Err(e) => Err(e),
    }
}

/// Takes the two tokens in caller order, a Q64.96 square-root price, and the
/// exchange-assigned token-zero address, and computes the normalized spot
/// price as a decimal rendering.
///
/// The square-root price is decoded, squared, and scaled by the difference
/// of the tokens' decimal precisions; when the caller's first token is not
/// the pool's token zero the ratio is inverted, and a square-root price of
/// zero is rejected there as `UninitializedPool` rather than divided by.
pub fn compute_price(tokens: &(Token, Token), sqrt_price_x96: &U256, pool_token_0: &Address) -> (r:
    Result<String, PoolError>)
    ensures
        price_result_view(r) == spec_price(tokens.0, tokens.1, sqrt_price_x96@, *pool_token_0),
{
    let diff_decimals: i16 = tokens.0.decimals as i16 - tokens.1.decimals as i16;
    let decoded = convert(sqrt_price_x96);
    if *pool_token_0 == tokens.0.address {
        Ok(scale_price(decoded.as_str(), diff_decimals))
    } else if sqrt_price_x96.is_zero() {
        Err(PoolError::UninitializedPool)
    } else {
        Ok(invert_scaled_price(decoded.as_str(), diff_decimals))
    }
}

} // verus!
