//! Pools and their derived state: swap events, the state record they
//! overwrite, and pool construction with its validation steps.

use vstd::prelude::*;

use crate::errors::PoolError;
use crate::fixed_point::U256;
use crate::tokens::Address;
use crate::tokens::first_match;
use crate::tokens::Token;
use crate::tokens::TokenRegistry;

verus! {

/// A signed 256-bit token amount delta, as a sign and a magnitude.
#[derive(Clone, Copy, PartialEq, Eq, Structural, Debug)]
pub struct SignedAmount {
    pub negative: bool,
    pub magnitude: U256,
}

/// An immutable swap record observed from the external event stream: who
/// swapped, the two amount deltas, and the pool state that resulted.
#[derive(Clone, Copy, PartialEq, Eq, Structural, Debug)]
pub struct SwapEvent {
    pub sender: Address,
    pub recipient: Address,
    pub amount_0: SignedAmount,
    pub amount_1: SignedAmount,
    pub liquidity: u128,
    pub tick: i32,
    pub sqrt_price_x96: U256,
}

/// A pool's derived state: tick, liquidity and square-root price, together
/// with whether any real observation has been applied yet. Until one has,
/// the fields hold the well-defined unset baseline and must not be treated
/// as a real observation.
#[derive(Clone, Copy, PartialEq, Eq, Structural, Debug)]
pub struct PoolState {
    pub tick: i32,
    pub liquidity: u128,
    pub sqrt_price_x96: U256,
    pub initialized: bool,
}

impl PoolState {
    /// The unset baseline: tick zero, liquidity zero, square-root price
    /// zero, no observation yet.
    pub open spec fn spec_baseline() -> PoolState {
        PoolState {
            tick: 0i32,
            liquidity: 0u128,
            sqrt_price_x96: U256 { w0: 0u64, w1: 0u64, w2: 0u64, w3: 0u64 },
            initialized: false,
        }
    }

    /// Builds the unset baseline state.
    pub fn baseline() -> (r: PoolState)
        ensures
            r == PoolState::spec_baseline(),
    {
        PoolState {
            tick: 0,
            liquidity: 0,
            sqrt_price_x96: U256 { w0: 0, w1: 0, w2: 0, w3: 0 },
            initialized: false,
        }
    }

    /// The state after an event: the event's carried fields, nothing merged.
    pub open spec fn spec_apply(s: PoolState, e: SwapEvent) -> PoolState {
        PoolState {
            tick: e.tick,
            liquidity: e.liquidity,
            sqrt_price_x96: e.sqrt_price_x96,
            initialized: true,
        }
    }

    /// Overwrites all three state fields with the values the event carries:
    /// the event's post-swap tick, liquidity and square-root price are the
    /// new state, with no merge or delta logic.
    pub fn apply(&mut self, event: &SwapEvent)
        ensures
            *final(self) == PoolState::spec_apply(*old(self), *event),
    {
        self.tick = event.tick;
        self.liquidity = event.liquidity;
        self.sqrt_price_x96 = event.sqrt_price_x96;
        self.initialized = true;
    }
}

/// The state after a whole sequence of events, applied in delivery order.
pub open spec fn spec_apply_all(s: PoolState, events: Seq<SwapEvent>) -> PoolState
    decreases events.len(),
{
    if events.len() == 0 {
        s
    } else {
        spec_apply_all(PoolState::spec_apply(s, events[0]), events.skip(1))
    }
}

/// Event application keeps no history: after any nonempty sequence of
/// events, the state is exactly the last event's carried fields, whatever
/// the starting state and the earlier events were.
pub proof fn lemma_apply_all_last_event_wins(s: PoolState, events: Seq<SwapEvent>)
    requires
        events.len() > 0,
    ensures
        spec_apply_all(s, events) == PoolState::spec_apply(s, events.last()),
    decreases events.len(),
{
    let stepped = PoolState::spec_apply(s, events[0]);
    if events.len() == 1 {
        assert(events.skip(1).len() == 0);
        assert(spec_apply_all(stepped, events.skip(1)) == stepped);
        assert(events.last() == events[0]);
    } else {
        lemma_apply_all_last_event_wins(stepped, events.skip(1));
        assert(events.skip(1).last() == events.last());
    }
}

/// Applying a sequence of three events leaves exactly the third event's
/// tick, liquidity and square-root price, not a merge of all three, and
/// marks the state observed.
pub proof fn lemma_apply_three_events(s: PoolState, e1: SwapEvent, e2: SwapEvent, e3: SwapEvent)
    ensures
        ({
            let end = PoolState::spec_apply(
                PoolState::spec_apply(PoolState::spec_apply(s, e1), e2),
                e3,
            );
            &&& end.tick == e3.tick
            &&& end.liquidity == e3.liquidity
            &&& end.sqrt_price_x96 == e3.sqrt_price_x96
            &&& end.initialized
        }),
{
}

/// The closed set of valid fee tiers, in basis points.
pub open spec fn valid_fee_tier(bp: u32) -> bool {
    bp == 1 || bp == 5 || bp == 30 || bp == 100
}

/// Whether the fee tier is one of the four the exchange offers.
pub fn check_fee_tier(bp: u32) -> (r: bool)
    ensures
        r == valid_fee_tier(bp),
{
    bp == 1 || bp == 5 || bp == 30 || bp == 100
}

/// A validated construction request: the pair in caller order and a fee
/// tier already checked against the closed set, ready for the external
/// pool resolver.
#[derive(Clone, Debug)]
pub struct PoolRequest {
    pub token_0: Token,
    pub token_1: Token,
    pub bp: u32,
}

impl PoolRequest {
    /// A request is well formed when its fee tier is valid.
    pub open spec fn wf(&self) -> bool {
        valid_fee_tier(self.bp)
    }

    /// The fee in the resolver's unit: hundredths of a basis point.
    pub fn fee_units(&self) -> (r: u32)
        requires
            self.wf(),
        ensures
            r == self.bp * 100,
    {
        self.bp * 100
    }
}

/// Validates a construction attempt before anything external is contacted:
/// a fee tier outside the closed set fails with `InvalidFeeTier`, and
/// nothing else is checked here.
pub fn request_pool(token_0: Token, token_1: Token, bp: u32) -> (r: Result<
    PoolRequest,
    PoolError,
>)
    ensures
        valid_fee_tier(bp) ==> (r matches Ok(q) && q == (PoolRequest { token_0, token_1, bp })),
        !valid_fee_tier(bp) ==> r == Err::<PoolRequest, PoolError>(PoolError::InvalidFeeTier { bp }),
{
    if check_fee_tier(bp) {
        Ok(PoolRequest { token_0, token_1, bp })
    } else {
        Err(PoolError::InvalidFeeTier { bp })
    }
}

/// Resolves the two symbols of a pair against the registry, in order, and
/// fails with `TokenNotFound` naming the first symbol the registry lacks.
pub fn lookup_pair(registry: &TokenRegistry, token_0_symbol: &String, token_1_symbol: &String) -> (r:
    Result<(Token, Token), PoolError>)
    ensures
        match first_match(registry.tokens@, token_0_symbol@) {
            None => r matches Err(e) && (e matches PoolError::TokenNotFound { symbol }
                && symbol@ == token_0_symbol@),
            Some(i) => match first_match(registry.tokens@, token_1_symbol@) {
                None => r matches Err(e) && (e matches PoolError::TokenNotFound { symbol }
                    && symbol@ == token_1_symbol@),
                Some(j) => r matches Ok(pair) && pair.0 == registry.tokens@[i] && pair.1
                    == registry.tokens@[j],
            },
        },
{
    let token_0 = match registry.resolve(token_0_symbol) {
        Some(t) => t.duplicate(),
        None => {
            return Err(PoolError::TokenNotFound { symbol: token_0_symbol.clone() });
        },
    };
    let token_1 = match registry.resolve(token_1_symbol) {
        Some(t) => t.duplicate(),
        None => {
            return Err(PoolError::TokenNotFound { symbol: token_1_symbol.clone() });
        },
    };
    Ok((token_0, token_1))
}

/// A pool: its immutable identity (the pair in caller order, the fee tier,
/// the resolved address) and its derived state. The identity never changes
/// after construction; the derived state changes only through event
/// application or an explicit one-shot refresh.
#[derive(Clone, Debug)]
pub struct Pool {
    pub token_0: Token,
    pub token_1: Token,
    pub bp: u32,
    pub address: Address,
    pub state: PoolState,
}

/// Completes construction once the external resolver has answered. A
/// request whose fee tier was never validated is rejected again; the
/// sentinel zero address means the pool does not exist and is fatal; any
/// other address yields a pool at the unset baseline state.
pub fn construct_pool(request: PoolRequest, resolved_address: Address) -> (r: Result<
    Pool,
    PoolError,
>)
    ensures
        !valid_fee_tier(request.bp) ==> r == Err::<Pool, PoolError>(
            PoolError::InvalidFeeTier { bp: request.bp },
        ),
        valid_fee_tier(request.bp) && resolved_address == (Address { hi: 0u32, lo: 0u128 })
            ==> (r matches Err(e) && (e matches PoolError::PoolDoesNotExist {
            token_0_symbol,
            token_1_symbol,
            bp,
        } && token_0_symbol@ == request.token_0.symbol@ && token_1_symbol@
            == request.token_1.symbol@ && bp == request.bp)),
        valid_fee_tier(request.bp) && resolved_address != (Address { hi: 0u32, lo: 0u128 })
            ==> (r matches Ok(p) && p == (Pool {
            token_0: request.token_0,
            token_1: request.token_1,
            bp: request.bp,
            address: resolved_address,
            state: PoolState::spec_baseline(),
        })),
{
    if !check_fee_tier(request.bp) {
        return Err(PoolError::InvalidFeeTier { bp: request.bp });
    }
    if resolved_address.is_zero() {
        return Err(
            PoolError::PoolDoesNotExist {
                token_0_symbol: request.token_0.symbol.clone(),
                token_1_symbol: request.token_1.symbol.clone(),
                bp: request.bp,
            },
        );
    }
    Ok(
        Pool {
            token_0: request.token_0,
            token_1: request.token_1,
            bp: request.bp,
            address: resolved_address,
            state: PoolState::baseline(),
        },
    )
}

impl Pool {
    /// The pool address.
    pub fn get_address(&self) -> (r: Address)
        ensures
            r == self.address,
    {
        self.address
    }

    /// The current tick.
    pub fn get_tick(&self) -> (r: i32)
        ensures
            r == self.state.tick,
    {
        self.state.tick
    }

    /// The current liquidity.
    pub fn get_liquidity(&self) -> (r: u128)
        ensures
            r == self.state.liquidity,
    {
        self.state.liquidity
    }

    /// The two pool tokens, in caller order.
    pub fn get_tokens(&self) -> (r: (Token, Token))
        ensures
            r.0 == self.token_0,
            r.1 == self.token_1,
    {
        (self.token_0.duplicate(), self.token_1.duplicate())
    }

    /// The fee tier in basis points.
    pub fn get_bp(&self) -> (r: u32)
        ensures
            r == self.bp,
    {
        self.bp
    }

    /// The current square-root price in Q64.96 form.
    pub fn get_sqrt_price_x96(&self) -> (r: U256)
        ensures
            r == self.state.sqrt_price_x96,
    {
        self.state.sqrt_price_x96
    }

    /// Applies a swap event: the derived state becomes exactly the fields
    /// the event carries, and the identity fields stay untouched.
    pub fn apply(&mut self, event: &SwapEvent)
        ensures
            final(self).state == PoolState::spec_apply(old(self).state, *event),
            final(self).token_0 == old(self).token_0,
            final(self).token_1 == old(self).token_1,
            final(self).bp == old(self).bp,
            final(self).address == old(self).address,
    {
        self.state.apply(event);
    }

    /// Overwrites the derived state from a one-shot external read of the
    /// pool contract, outside the event-driven path. A successful read is a
    /// real observation, so the state counts as initialized afterwards.
    pub fn refresh(&mut self, sqrt_price_x96: U256, tick: i32, liquidity: u128)
        ensures
            final(self).state == (PoolState { tick, liquidity, sqrt_price_x96, initialized: true }),
            final(self).token_0 == old(self).token_0,
            final(self).token_1 == old(self).token_1,
            final(self).bp == old(self).bp,
            final(self).address == old(self).address,
    {
        self.state.tick = tick;
        self.state.liquidity = liquidity;
        self.state.sqrt_price_x96 = sqrt_price_x96;
        self.state.initialized = true;
    }
}

} // verus!
