//! The collaborators that the bridge calls: venues, the venue directory and
//! the aggregator.
//!
//! Nothing is assumed of what a collaborator answers. The bridge reaches it
//! through [`Recorded`], which keeps, as a mathematical value, the list of
//! exchanges made, so that a contract can say which calls were made, with
//! what, and what came back.
use vstd::prelude::*;
use crate::types::{Address, AggregatorStep, EsdtTokenPayment, PaymentModel, TokenAmount, TokenId, VenueError};

verus! {

/// Access to pair venues, each reached by its address.
pub trait Pair {
    /// Asks `venue` to swap all of `deposit` into `token_out`, for at least
    /// `amount_out_min` of it.
    fn swap_tokens_fixed_input(
        &mut self,
        venue: &Address,
        deposit: &EsdtTokenPayment,
        token_out: &TokenId,
        amount_out_min: u128,
    ) -> Result<EsdtTokenPayment, VenueError>;
}

/// The directory of pair venues.
pub trait FactoryModule {
    fn get_pair(&self, first_token_id: &TokenId, second_token_id: &TokenId) -> EsdtTokenPayment;
}

/// The aggregator venue, which runs a list of steps by itself.
pub trait AggregatorModule {
    /// Runs `steps` under `limits` and returns the payments that came out.
    fn aggregate(&mut self, steps: &Vec<AggregatorStep>, limits: &Vec<TokenAmount>) -> Result<
        Vec<EsdtTokenPayment>,
        VenueError,
    >;
}

/// One exchange with a pair venue: what it was asked and what it answered.
pub struct SwapCall {
    pub venue: Seq<u8>,
    pub deposit: PaymentModel,
    pub token_out: Seq<u8>,
    pub amount_out_min: u128,
    pub reply: Result<PaymentModel, VenueError>,
}

/// One exchange with the aggregator: what it was asked and what it answered.
pub struct AggregateCall {
    pub steps: Seq<AggregatorStep>,
    pub limits: Seq<TokenAmount>,
    pub reply: Result<Vec<EsdtTokenPayment>, VenueError>,
}

/// A venue's answer as plain values.
pub open spec fn reply_model(reply: Result<EsdtTokenPayment, VenueError>) -> Result<PaymentModel, VenueError> {
    match reply {
        Ok(p) => Ok(p@),
        Err(e) => Err(e),
    }
}

/// A collaborator together with the list of the exchanges made through this
/// value. The collaborator is reached only through the methods here, each of
/// which adds its exchange to the list.
pub struct Recorded<T> {
    inner: T,
    swaps: Ghost<Seq<SwapCall>>,
    aggregations: Ghost<Seq<AggregateCall>>,
}

impl<T> Recorded<T> {
    /// The collaborator inside.
    pub closed spec fn collaborator(&self) -> T {
        self.inner
    }

    /// The swaps asked so far, oldest first.
    pub closed spec fn swaps(&self) -> Seq<SwapCall> {
        self.swaps@
    }

    /// The aggregations asked so far, oldest first.
    pub closed spec fn aggregations(&self) -> Seq<AggregateCall> {
        self.aggregations@
    }

    /// Wraps `inner`, with nothing asked yet.
    pub fn new(inner: T) -> (r: Self)
        ensures
            r.collaborator() == inner,
            r.swaps() == Seq::<SwapCall>::empty(),
            r.aggregations() == Seq::<AggregateCall>::empty(),
    {
        Recorded { inner, swaps: Ghost(Seq::empty()), aggregations: Ghost(Seq::empty()) }
    }

    pub fn inner(&self) -> (r: &T)
        ensures
            *r == self.collaborator(),
    {
        &self.inner
    }

    pub fn into_inner(self) -> (r: T)
        ensures
            r == self.collaborator(),
    {
        self.inner
    }
}

impl<P: Pair> Recorded<P> {
    /// Asks `venue` to swap all of `deposit` into `token_out`, for at least
    /// `amount_out_min` of it, and records the exchange.
    pub fn swap_tokens_fixed_input(
        &mut self,
        venue: &Address,
        deposit: &EsdtTokenPayment,
        token_out: &TokenId,
        amount_out_min: u128,
    ) -> (r: Result<EsdtTokenPayment, VenueError>)
        ensures
            final(self).swaps() == old(self).swaps().push(
                SwapCall {
                    venue: venue@,
                    deposit: deposit@,
                    token_out: token_out@,
                    amount_out_min,
                    reply: reply_model(r),
                },
            ),
            final(self).aggregations() == old(self).aggregations(),
    {
        let r = self.inner.swap_tokens_fixed_input(venue, deposit, token_out, amount_out_min);
        proof {
            self.swaps@ = self.swaps@.push(
                SwapCall {
                    venue: venue@,
                    deposit: deposit@,
                    token_out: token_out@,
                    amount_out_min,
                    reply: reply_model(r),
                },
            );
        }
        r
    }
}

impl<A: AggregatorModule> Recorded<A> {
    /// Runs `steps` under `limits` on the aggregator and records the exchange.
    pub fn aggregate(&mut self, steps: &Vec<AggregatorStep>, limits: &Vec<TokenAmount>) -> (r: Result<
        Vec<EsdtTokenPayment>,
        VenueError,
    >)
        ensures
            final(self).aggregations() == old(self).aggregations().push(
                AggregateCall { steps: steps@, limits: limits@, reply: r },
            ),
            final(self).swaps() == old(self).swaps(),
    {
        let r = self.inner.aggregate(steps, limits);
        proof {
            self.aggregations@ = self.aggregations@.push(
                AggregateCall { steps: steps@, limits: limits@, reply: r },
            );
        }
        r
    }
}

} // verus!
