//! The driver that consumes an ordered swap-event sequence for one pool:
//! it applies each event to the pool state, derives an observation with the
//! freshly computed normalized price, and closes when the stream ends or a
//! malformed event halts it.

use vstd::prelude::*;

use crate::errors::PoolError;
use crate::pool::Pool;
use crate::pool::PoolState;
use crate::pool::SignedAmount;
use crate::pool::SwapEvent;
use crate::price::compute_price;
use crate::price::price_result_view;
use crate::price::spec_price;
use crate::tokens::Address;

verus! {

/// The derived record emitted for one applied swap event: the pool address,
/// the parties, the two amount deltas, the post-swap liquidity and tick,
/// and the normalized price computed from the event's square-root price.
#[derive(Clone, Debug)]
pub struct Observation {
    pub address: Address,
    pub sender: Address,
    pub recipient: Address,
    pub amount_0: SignedAmount,
    pub amount_1: SignedAmount,
    pub liquidity: u128,
    pub tick: i32,
    pub price: String,
}

/// One pool's monitoring session. It owns the pool exclusively, knows which
/// token the exchange assigned as token zero, and is closed once the event
/// stream ends or a malformed event halts it; a closed machine accepts no
/// further events.
pub struct PoolStateMachine {
    pub pool: Pool,
    pub exchange_token_0: Address,
    pub closed: bool,
}

impl PoolStateMachine {
    /// Starts a session over a constructed pool. The exchange-assigned
    /// token-zero address fixes the orientation of every price the session
    /// derives.
    pub fn new(pool: Pool, exchange_token_0: Address) -> (r: PoolStateMachine)
        ensures
            r.pool == pool,
            r.exchange_token_0 == exchange_token_0,
            !r.closed,
    {
        PoolStateMachine { pool, exchange_token_0, closed: false }
    }

    /// Applies one event and derives its observation. The pool state becomes
    /// exactly the event's carried fields before anything is emitted; the
    /// observation repeats the event's parties, amounts, liquidity and tick,
    /// and carries the price computed from the event's square-root price. An
    /// event whose price cannot be derived (a zero square-root price in the
    /// reciprocal orientation) is malformed: the state still reflects it,
    /// but the session halts and the error is handed back.
    pub fn apply_event(&mut self, event: &SwapEvent) -> (r: Result<Observation, PoolError>)
        requires
            !old(self).closed,
        ensures
            final(self).pool.state == PoolState::spec_apply(old(self).pool.state, *event),
            final(self).pool.token_0 == old(self).pool.token_0,
            final(self).pool.token_1 == old(self).pool.token_1,
            final(self).pool.bp == old(self).pool.bp,
            final(self).pool.address == old(self).pool.address,
            final(self).exchange_token_0 == old(self).exchange_token_0,
            match r {
                Ok(obs) => {
                    &&& !final(self).closed
                    &&& obs.address == old(self).pool.address
                    &&& obs.sender == event.sender
                    &&& obs.recipient == event.recipient
                    &&& obs.amount_0 == event.amount_0
                    &&& obs.amount_1 == event.amount_1
                    &&& obs.liquidity == event.liquidity
                    &&& obs.tick == event.tick
                    &&& Ok::<Seq<char>, PoolError>(obs.price@) == spec_price(
                        old(self).pool.token_0,
                        old(self).pool.token_1,
                        event.sqrt_price_x96@,
                        old(self).exchange_token_0,
                    )
                },
                Err(e) => {
                    &&& final(self).closed
                    &&& Err::<Seq<char>, PoolError>(e) == spec_price(
                        old(self).pool.token_0,
                        old(self).pool.token_1,
                        event.sqrt_price_x96@,
                        old(self).exchange_token_0,
                    )
                },
            },
    {
        let tokens = self.pool.get_tokens();
        self.pool.apply(event);
        let price = compute_price(&tokens, &event.sqrt_price_x96, &self.exchange_token_0);
        match price {
            Ok(p) => Ok(
                Observation {
                    address: self.pool.get_address(),
                    sender: event.sender,
                    recipient: event.recipient,
                    amount_0: event.amount_0,
                    amount_1: event.amount_1,
                    liquidity: event.liquidity,
                    tick: event.tick,
                    price: p,
                },
            ),
            Err(e) => {
                self.closed = true;
                Err(e)
            },
        }
    }

    /// Ends the session: the event stream terminated. End-of-stream is a
    /// graceful shutdown, not an error, and leaves the pool untouched.
    pub fn close(&mut self)
        ensures
            final(self).closed,
            final(self).pool == old(self).pool,
            final(self).exchange_token_0 == old(self).exchange_token_0,
    {
        self.closed = true;
    }

    /// The current normalized price of the pool: `UninitializedPool` until
    /// a first observation has been applied, afterwards exactly the price
    /// computation over the pool's current square-root price, the tokens'
    /// decimal precisions, and the session's orientation.
    pub fn current_price(&self) -> (r: Result<String, PoolError>)
        ensures
            !self.pool.state.initialized ==> r == Err::<String, PoolError>(
                PoolError::UninitializedPool,
            ),
            self.pool.state.initialized ==> price_result_view(r) == spec_price(
                self.pool.token_0,
                self.pool.token_1,
                self.pool.state.sqrt_price_x96@,
                self.exchange_token_0,
            ),
    {
        if !self.pool.state.initialized {
            return Err(PoolError::UninitializedPool);
        }
        let tokens = self.pool.get_tokens();
        compute_price(&tokens, &self.pool.get_sqrt_price_x96(), &self.exchange_token_0)
    }
}

} // verus!
