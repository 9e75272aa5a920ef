//! The bridge's entry points: the pause gate, the operator allow-list and
//! the two routing paths.
use vstd::prelude::*;
use crate::model::{BridgeModel, Transfer};
use crate::route::{
    absorb, check_steps, check_swap, fed_to, first_payment, hop_floor, is_hop, steps_shape, swap_shape, threaded,
    verdict,
};
use crate::types::{
    Address, AggregatorStep, BridgeError, EsdtTokenPayment, Permissions, Status, TokenAmount, TokenId, VenueError,
};
use crate::venue::{AggregatorModule, Pair, Recorded};

verus! {

/// What an aggregator request returns for each reply of the aggregator.
pub open spec fn aggregate_outcome(reply: Result<Vec<EsdtTokenPayment>, VenueError>) -> Result<
    (),
    BridgeError,
> {
    match reply {
        Err(e) => Err(BridgeError::VenueCallFailed(e)),
        Ok(payments) => if payments@.len() == 0 {
            Err(BridgeError::EmptyResult)
        } else {
            Ok(())
        },
    }
}

/// A bridge over some store and ledger.
///
/// An implementation supplies the six primitives at the top: reads and
/// writes of the persisted state, and the ledger's transfer. The entry points
/// are provided, and proved against the primitives' contracts.
#[allow(non_snake_case)]
pub trait BridgeNew {
    /// The persisted state and the payouts made so far.
    spec fn model(&self) -> BridgeModel;

    /// Reads the pause flag.
    fn status(&self) -> (r: Status)
        ensures
            r == self.model().status,
    ;

    /// Reads the role of `address`.
    fn permissions(&self, address: &Address) -> (r: Permissions)
        ensures
            r == self.model().permission_of(address@),
    ;

    /// Whether `address` owns the bridge.
    fn is_owner(&self, address: &Address) -> (r: bool)
        ensures
            r == (address@ == self.model().owner),
    ;

    /// Writes the pause flag.
    fn store_status(&mut self, status: Status)
        ensures
            final(self).model() == old(self).model().with_status(status),
    ;

    /// Writes the role of `address`.
    fn store_permissions(&mut self, address: &Address, role: Permissions)
        ensures
            final(self).model() == old(self).model().with_permission(address@, role),
    ;

    /// Transfers `amount` of `token` with `nonce` to `to`. The ledger either
    /// completes the transfer or abandons the whole transaction.
    fn pay(&mut self, to: &Address, token: &TokenId, nonce: u64, amount: u128)
        ensures
            final(self).model() == old(self).model().with_payment(
                Transfer { to: to@, token: token@, nonce, amount },
            ),
    ;

    /// Sets the bridge up at deployment: the deployer, who owns it, becomes
    /// an operator.
    fn init(&mut self, caller: &Address) -> (r: Result<(), BridgeError>)
        ensures
            r == old(self).model().owner_gate(caller@),
            final(self).model() == old(self).model().owner_sets_permission(
                caller@,
                caller@,
                Permissions::Operator,
            ),
    {
        self.add_operator(caller, caller)
    }

    /// Pauses the bridge, for its owner.
    fn pause(&mut self, caller: &Address) -> (r: Result<(), BridgeError>)
        ensures
            r == old(self).model().owner_gate(caller@),
            final(self).model() == old(self).model().owner_sets_status(caller@, Status::Paused),
    {
        if !self.is_owner(caller) {
            return Err(BridgeError::OwnerOnly);
        }
        self.store_status(Status::Paused);
        Ok(())
    }

    /// Unpauses the bridge, for its owner.
    fn unpause(&mut self, caller: &Address) -> (r: Result<(), BridgeError>)
        ensures
            r == old(self).model().owner_gate(caller@),
            final(self).model() == old(self).model().owner_sets_status(caller@, Status::Unpaused),
    {
        if !self.is_owner(caller) {
            return Err(BridgeError::OwnerOnly);
        }
        self.store_status(Status::Unpaused);
        Ok(())
    }

    /// Grants `addr` the operator role, for the owner.
    fn add_operator(&mut self, caller: &Address, addr: &Address) -> (r: Result<(), BridgeError>)
        ensures
            r == old(self).model().owner_gate(caller@),
            final(self).model() == old(self).model().owner_sets_permission(
                caller@,
                addr@,
                Permissions::Operator,
            ),
    {
        if !self.is_owner(caller) {
            return Err(BridgeError::OwnerOnly);
        }
        self.store_permissions(addr, Permissions::Operator);
        Ok(())
    }

    /// Takes the operator role from `addr`, for the owner.
    fn remove_operator(&mut self, caller: &Address, addr: &Address) -> (r: Result<(), BridgeError>)
        ensures
            r == old(self).model().owner_gate(caller@),
            final(self).model() == old(self).model().owner_sets_permission(
                caller@,
                addr@,
                Permissions::Unset,
            ),
    {
        if !self.is_owner(caller) {
            return Err(BridgeError::OwnerOnly);
        }
        self.store_permissions(addr, Permissions::Unset);
        Ok(())
    }

    /// Succeeds exactly for an operator.
    fn check_operator(&self, addr: &Address) -> (r: Result<(), BridgeError>)
        ensures
            r is Ok <==> self.model().is_operator(addr@),
            r is Err ==> r == Err::<(), BridgeError>(BridgeError::PermissionDenied),
    {
        match self.permissions(addr) {
            Permissions::Operator => Ok(()),
            Permissions::Unset => Err(BridgeError::PermissionDenied),
        }
    }

    /// Passes a routing request from `caller` whose own shape has the verdict
    /// `shape`: the role is checked first, then the pause flag, then the shape.
    fn gate(&self, caller: &Address, shape: Result<(), BridgeError>) -> (r: Result<(), BridgeError>)
        ensures
            match shape {
                Ok(_) => r == verdict(self.model().refusal(caller@, None)),
                Err(e) => r == verdict(self.model().refusal(caller@, Some(e))),
            },
    {
        match self.check_operator(caller) {
            Err(e) => Err(e),
            Ok(()) => match self.status() {
                Status::Paused => Err(BridgeError::ContractPaused),
                Status::Unpaused => match shape {
                    Ok(_) => Ok(()),
                    Err(e) => Err(e),
                },
            },
        }
    }

    /// Swaps the deposit through `pairs` in order and pays the outcome to `to`.
    ///
    /// `token_route` names the token held before and after each hop. Every
    /// hop hands the venue the whole running balance, which starts as
    /// `amount_in` of the first token and is replaced by what the venue
    /// returns. `amount_out_min` is asked of the last hop only.
    ///
    /// A refused request touches neither the venues nor the bridge. Otherwise
    /// the venues were asked hop by hop, up to the first that failed. A
    /// venue's failure ends the swap before any payout and is returned. On
    /// success exactly one payout was made, to `to`, of what the last venue
    /// returned, and its amount is the result.
    fn swap_xExchange_endpoint<P: Pair>(
        &mut self,
        venues: &mut Recorded<P>,
        caller: &Address,
        deposit: EsdtTokenPayment,
        amount_in: u128,
        pairs: &Vec<Address>,
        token_route: &Vec<TokenId>,
        amount_out_min: u128,
        to: &Address,
    ) -> (r: Result<u128, BridgeError>)
        ensures
            match old(self).model().refusal(
                caller@,
                swap_shape(pairs@.len(), token_route@, deposit@, amount_in),
            ) {
                Some(e) => r == Err::<u128, BridgeError>(e) && final(self).model() == old(self).model()
                    && *final(venues) == *old(venues),
                None => {
                    let hops = final(venues).swaps().len() - old(venues).swaps().len();
                    let last = final(venues).swaps().last().reply;
                    &&& threaded(
                        old(venues).swaps(),
                        final(venues).swaps(),
                        pairs@,
                        token_route@,
                        amount_in,
                        amount_out_min,
                        hops,
                    )
                    &&& hops >= 1
                    &&& match r {
                        Ok(amount) => {
                            &&& hops == pairs@.len()
                            &&& last is Ok
                            &&& amount == last->Ok_0.amount
                            &&& final(self).model() == old(self).model().with_payment(
                                Transfer {
                                    to: to@,
                                    token: last->Ok_0.token,
                                    nonce: last->Ok_0.nonce,
                                    amount,
                                },
                            )
                        },
                        Err(e) => {
                            &&& last is Err
                            &&& e == BridgeError::VenueCallFailed(last->Err_0)
                            &&& final(self).model() == old(self).model()
                        },
                    }
                },
            },
    {
        let n: usize = pairs.len();
        let ghost log0 = venues.swaps();
        let ghost complaint = self.model().refusal(
            caller@,
            swap_shape(pairs@.len(), token_route@, deposit@, amount_in),
        );
        let shape = check_swap(n, token_route, &deposit, amount_in);
        match self.gate(caller, shape) {
            Err(e) => {
                return Err(e);
            },
            Ok(()) => {},
        }
        let mut running = EsdtTokenPayment {
            token_identifier: deposit.token_identifier,
            token_nonce: 0,
            amount: amount_in,
        };
        let mut i: usize = 0;
        proof {
            assert(log0.take(log0.len() as int) =~= log0);
        }
        while i < n
            invariant
                i <= n,
                n == pairs.len(),
                token_route.len() == n + 1,
                complaint is None,
                complaint == old(self).model().refusal(
                    caller@,
                    swap_shape(pairs@.len(), token_route@, deposit@, amount_in),
                ),
                self.model() == old(self).model(),
                log0 == old(venues).swaps(),
                threaded(log0, venues.swaps(), pairs@, token_route@, amount_in, amount_out_min, i as int),
                running@ == fed_to(venues.swaps(), log0.len() as int, token_route@, amount_in, i as int),
                i > 0 ==> venues.swaps().last().reply is Ok,
            decreases n - i,
        {
            let floor = hop_floor(i, n, amount_out_min);
            let ghost log = venues.swaps();
            let reply = venues.swap_tokens_fixed_input(&pairs[i], &running, &token_route[i + 1], floor);
            proof {
                let now = venues.swaps();
                let start = log0.len() as int;
                assert(now.take(start) =~= log.take(start));
                assert forall|j: int| 0 <= j < i + 1 implies #[trigger] is_hop(
                    now,
                    start,
                    pairs@,
                    token_route@,
                    amount_in,
                    amount_out_min,
                    j,
                ) by {
                    if j < i {
                        assert(is_hop(log, start, pairs@, token_route@, amount_in, amount_out_min, j));
                    }
                }
            }
            match absorb(reply) {
                Ok(payment) => {
                    running = payment;
                },
                Err(e) => {
                    return Err(e);
                },
            }
            i += 1;
        }
        self.pay(to, &running.token_identifier, running.token_nonce, running.amount);
        Ok(running.amount)
    }

    /// Hands `steps` and `limits` to the aggregator in one call and pays the
    /// first payment it returns to `to`.
    ///
    /// A refused request touches neither the aggregator nor the bridge. A
    /// failure of the aggregator, or a reply without a payment, ends the
    /// request before any payout.
    fn swap_ashswap_endpoint<A: AggregatorModule>(
        &mut self,
        aggregator: &mut Recorded<A>,
        caller: &Address,
        steps: &Vec<AggregatorStep>,
        limits: &Vec<TokenAmount>,
        to: &Address,
    ) -> (r: Result<(), BridgeError>)
        ensures
            match old(self).model().refusal(caller@, steps_shape(steps@.len())) {
                Some(e) => r == Err::<(), BridgeError>(e) && final(self).model() == old(self).model()
                    && *final(aggregator) == *old(aggregator),
                None => {
                    let call = final(aggregator).aggregations().last();
                    &&& final(aggregator).aggregations() == old(aggregator).aggregations().push(call)
                    &&& call.steps == steps@
                    &&& call.limits == limits@
                    &&& r == aggregate_outcome(call.reply)
                    &&& final(self).model() == match call.reply {
                        Ok(payments) if payments@.len() > 0 => old(self).model().with_payment(
                            Transfer {
                                to: to@,
                                token: payments@[0]@.token,
                                nonce: payments@[0]@.nonce,
                                amount: payments@[0]@.amount,
                            },
                        ),
                        _ => old(self).model(),
                    }
                },
            },
    {
        let shape = check_steps(steps.len());
        match self.gate(caller, shape) {
            Err(e) => {
                return Err(e);
            },
            Ok(()) => {},
        }
        match aggregator.aggregate(steps, limits) {
            Err(e) => Err(BridgeError::VenueCallFailed(e)),
            Ok(payments) => match first_payment(&payments) {
                Err(e) => Err(e),
                Ok(first) => {
                    self.pay(to, &first.token_identifier, first.token_nonce, first.amount);
                    Ok(())
                },
            },
        }
    }
}

} // verus!
