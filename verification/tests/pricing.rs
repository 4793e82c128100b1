//! Fixed-point decoding and normalized price computation, including the
//! state machine's derived prices.

use clairvoyance::errors::PoolError;
use clairvoyance::fixed_point::convert;
use clairvoyance::fixed_point::U256;
use clairvoyance::machine::PoolStateMachine;
use clairvoyance::pool::Pool;
use clairvoyance::pool::PoolState;
use clairvoyance::pool::SignedAmount;
use clairvoyance::pool::SwapEvent;
use clairvoyance::price::compute_price;
use clairvoyance::tokens::Address;
use clairvoyance::tokens::Token;

use num_bigfloat::BigFloat;

fn token(symbol: &str, lo: u128, decimals: u8) -> Token {
    Token {
        symbol: symbol.to_string(),
        address: Address { hi: 0, lo },
        decimals,
    }
}

fn amount(lo: u64) -> SignedAmount {
    SignedAmount {
        negative: false,
        magnitude: U256 {
            w0: lo,
            w1: 0,
            w2: 0,
            w3: 0,
        },
    }
}

fn event(tick: i32, liquidity: u128, sqrt_price_x96: U256) -> SwapEvent {
    SwapEvent {
        sender: Address { hi: 0, lo: 0xaa },
        recipient: Address { hi: 0, lo: 0xbb },
        amount_0: amount(1),
        amount_1: amount(2),
        liquidity,
        tick,
        sqrt_price_x96,
    }
}

/// The Q64.96 encoding of the ratio one: `2^96` is limb one times `2^32`.
fn sqrt_price_one() -> U256 {
    U256 {
        w0: 0,
        w1: 1u64 << 32,
        w2: 0,
        w3: 0,
    }
}

/// Reconstructs the 256-bit value of the four limbs in the decimal engine.
fn big_value(v: &U256) -> BigFloat {
    let two = BigFloat::from(2u8);
    BigFloat::from(v.w3) * two.pow(&BigFloat::from(192u8))
        + BigFloat::from(v.w2) * two.pow(&BigFloat::from(128u8))
        + BigFloat::from(v.w1) * two.pow(&BigFloat::from(64u8))
        + BigFloat::from(v.w0)
}

/// Decoding then multiplying back by `2^96` returns the input within the
/// engine's forty-digit precision.
#[test]
fn decode_round_trip() {
    let two = BigFloat::from(2u8);
    let pow96 = two.pow(&BigFloat::from(96u8));
    let eps = BigFloat::parse("1.0e-37").unwrap();
    let cases = [
        U256 { w0: 1, w1: 0, w2: 0, w3: 0 },
        U256 { w0: 0, w1: 1, w2: 0, w3: 0 },
        sqrt_price_one(),
        U256 { w0: u64::MAX, w1: u64::MAX, w2: 0xffff_ffff, w3: 0 },
        U256 { w0: u64::MAX, w1: u64::MAX, w2: u64::MAX, w3: u64::MAX },
        U256 { w0: 0x1234_5678_9abc_def0, w1: 0xfeed_face_cafe_beef, w2: 7, w3: 3 },
    ];
    for v in cases {
        let decoded = BigFloat::parse(&convert(&v)).unwrap();
        let back = decoded * pow96;
        let expected = big_value(&v);
        let rel = (back - expected).abs() / expected;
        assert!(rel < eps, "relative error {:?} too large", rel.to_string());
    }
}

/// Decoding zero yields the engine's rendering of zero.
#[test]
fn decode_zero() {
    let z = U256::zero();
    assert_eq!(convert(&z), "0.0");
    assert!(z.is_zero());
    assert!(!sqrt_price_one().is_zero());
}

/// A square-root price of exactly `2^96` decodes to the ratio one, squares
/// to one, and with equal token decimals normalizes to one.
#[test]
fn unit_sqrt_price_decodes_to_one() {
    let one_rendered = format!("1.{}", "0".repeat(39));
    let decoded = convert(&sqrt_price_one());
    assert_eq!(decoded, one_rendered);
    let parsed = BigFloat::parse(&decoded).unwrap();
    assert_eq!(parsed, BigFloat::from(1u8));
    let squared = parsed.pow(&num_bigfloat::TWO);
    assert_eq!(squared, BigFloat::from(1u8));

    let t0 = token("USDC", 1, 6);
    let t1 = token("USDT", 2, 6);
    let pool_token_0 = t0.address;
    let price = compute_price(&(t0, t1), &sqrt_price_one(), &pool_token_0).unwrap();
    assert_eq!(BigFloat::parse(&price).unwrap(), BigFloat::from(1u8));
    assert_eq!(price, one_rendered);
}

/// Tokens with decimals 18 and 6, the 18-decimal token being the pool's
/// token zero, and a square-root price of exactly `2^96`: the normalized
/// price is exactly `10^12`.
#[test]
fn end_to_end_eighteen_six_decimals() {
    let weth = token("WETH", 1, 18);
    let usdc = token("USDC", 2, 6);
    let pool_token_0 = weth.address;
    let price = compute_price(&(weth, usdc), &sqrt_price_one(), &pool_token_0).unwrap();
    let expected_literal = format!("1.{}e+12", "0".repeat(39));
    assert_eq!(price, expected_literal);
    assert_eq!(
        BigFloat::parse(&price).unwrap(),
        BigFloat::from(10u8).pow(&BigFloat::from(12u8))
    );
}

/// The reciprocal orientation: the caller's first token is not the pool's
/// token zero, so the ratio is inverted.
#[test]
fn reciprocal_orientation_inverts() {
    let usdc = token("USDC", 2, 6);
    let weth = token("WETH", 1, 18);
    let pool_token_0 = weth.address;
    let price = compute_price(&(usdc, weth), &sqrt_price_one(), &pool_token_0).unwrap();
    let expected_literal = format!("1.{}e-12", "0".repeat(39));
    assert_eq!(price, expected_literal);
}

/// The reciprocal orientation rejects a square-root price of zero instead
/// of dividing by it; the direct orientation renders the price zero.
#[test]
fn zero_sqrt_price_in_reciprocal_orientation_fails() {
    let usdc = token("USDC", 2, 6);
    let weth = token("WETH", 1, 18);
    let zero = U256 { w0: 0, w1: 0, w2: 0, w3: 0 };
    let r = compute_price(&(usdc.clone(), weth.clone()), &zero, &weth.address);
    match r {
        Err(PoolError::UninitializedPool) => {}
        other => panic!("expected UninitializedPool, got {:?}", other),
    }
    let direct = compute_price(&(weth, usdc), &zero, &Address { hi: 0, lo: 1 }).unwrap();
    assert_eq!(direct, "0.0");
}

fn fresh_pool() -> Pool {
    Pool {
        token_0: token("WETH", 1, 18),
        token_1: token("USDC", 2, 6),
        bp: 30,
        address: Address { hi: 0, lo: 0x99 },
        state: PoolState::baseline(),
    }
}

/// Applying three events leaves exactly the third event's fields, not a
/// merge of all three.
#[test]
fn three_events_last_one_wins() {
    let mut pool = fresh_pool();
    let s1 = U256 { w0: 11, w1: 0, w2: 0, w3: 0 };
    let s2 = U256 { w0: 22, w1: 0, w2: 0, w3: 0 };
    let s3 = U256 { w0: 0, w1: 33, w2: 0, w3: 44 };
    pool.apply(&event(5, 1000, s1));
    pool.apply(&event(-7, 2000, s2));
    pool.apply(&event(42, 3000, s3));
    assert_eq!(pool.get_tick(), 42);
    assert_eq!(pool.get_liquidity(), 3000);
    assert_eq!(pool.get_sqrt_price_x96(), s3);
}

/// Before any event the price query fails with `UninitializedPool`; after
/// an event with square-root price `S` it equals the price computation fed
/// with the decoded `S`, recomputed independently here.
#[test]
fn current_price_uninitialized_then_tracks_events() {
    let pool = fresh_pool();
    let exchange_token_0 = pool.token_0.address;
    let mut machine = PoolStateMachine::new(pool, exchange_token_0);
    match machine.current_price() {
        Err(PoolError::UninitializedPool) => {}
        other => panic!("expected UninitializedPool, got {:?}", other),
    }

    // S = 2^97: the ratio decodes to 2, the raw price is 4.
    let s = U256 { w0: 0, w1: 1u64 << 33, w2: 0, w3: 0 };
    let obs = machine.apply_event(&event(17, 500, s)).unwrap();
    assert_eq!(obs.tick, 17);
    assert_eq!(obs.liquidity, 500);
    assert_eq!(obs.sender, Address { hi: 0, lo: 0xaa });
    assert_eq!(obs.recipient, Address { hi: 0, lo: 0xbb });

    let decoded = BigFloat::parse(&convert(&s)).unwrap();
    let raw = decoded.pow(&num_bigfloat::TWO);
    let diff = BigFloat::from(18i16 - 6i16);
    let expected = raw
        .div(&BigFloat::from(10i16).pow(&diff.inv_sign()))
        .to_string();
    assert_eq!(machine.current_price().unwrap(), expected);
    assert_eq!(obs.price, expected);
    assert_eq!(
        BigFloat::parse(&expected).unwrap(),
        BigFloat::from(4u8) * BigFloat::from(10u8).pow(&BigFloat::from(12u8))
    );
}

/// A malformed event (zero square-root price in the reciprocal orientation)
/// halts the session; end-of-stream closes it gracefully.
#[test]
fn machine_halts_on_malformed_event_and_closes() {
    let pool = Pool {
        token_0: token("USDC", 2, 6),
        token_1: token("WETH", 1, 18),
        bp: 30,
        address: Address { hi: 0, lo: 0x99 },
        state: PoolState::baseline(),
    };
    // The exchange assigned WETH as token zero, not the caller's first token.
    let mut machine = PoolStateMachine::new(pool, Address { hi: 0, lo: 1 });
    let zero = U256 { w0: 0, w1: 0, w2: 0, w3: 0 };
    match machine.apply_event(&event(1, 10, zero)) {
        Err(PoolError::UninitializedPool) => {}
        other => panic!("expected UninitializedPool, got {:?}", other),
    }
    assert!(machine.closed);
    // The state still reflects the applied event.
    assert_eq!(machine.pool.get_tick(), 1);
    assert_eq!(machine.pool.get_liquidity(), 10);

    let mut fresh = PoolStateMachine::new(fresh_pool(), Address { hi: 0, lo: 1 });
    assert!(!fresh.closed);
    fresh.close();
    assert!(fresh.closed);
}

/// A refresh outside the event-driven path overwrites the state and counts
/// as an observation.
#[test]
fn refresh_overwrites_state() {
    let mut pool = fresh_pool();
    pool.refresh(sqrt_price_one(), -100, 12345);
    assert_eq!(pool.get_tick(), -100);
    assert_eq!(pool.get_liquidity(), 12345);
    assert_eq!(pool.get_sqrt_price_x96(), sqrt_price_one());
    let exchange_token_0 = pool.token_0.address;
    let machine = PoolStateMachine::new(pool, exchange_token_0);
    let price = machine.current_price().unwrap();
    assert_eq!(price, format!("1.{}e+12", "0".repeat(39)));
}
