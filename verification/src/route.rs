//! The shape of a routing request and the decisions taken hop by hop.
use vstd::prelude::*;
use crate::model::BridgeModel;
use crate::types::{Address, BridgeError, EsdtTokenPayment, PaymentModel, TokenId, VenueError};
use crate::venue::SwapCall;

verus! {

/// One hop as plain values: the venue, the token it takes, the token it gives.
pub struct SwapLegModel {
    pub venue: Seq<u8>,
    pub token_in: Seq<u8>,
    pub token_out: Seq<u8>,
}

/// One hop of a route: the venue, the token it takes, the token it gives.
#[derive(Clone, Debug, PartialEq, Eq)]
pub struct SwapLeg {
    pub venue: Address,
    pub token_in: TokenId,
    pub token_out: TokenId,
}

impl View for SwapLeg {
    type V = SwapLegModel;

    open spec fn view(&self) -> SwapLegModel {
        SwapLegModel { venue: self.venue@, token_in: self.token_in@, token_out: self.token_out@ }
    }
}

/// A route has at least one venue, and names the token held before and
/// after each hop.
pub open spec fn well_shaped(n_pairs: nat, n_route: nat) -> bool {
    n_pairs > 0 && n_route == n_pairs + 1
}

/// Hop `i` of a route, read off by position.
pub open spec fn leg_at(pairs: Seq<Address>, route: Seq<TokenId>, i: int) -> SwapLegModel {
    SwapLegModel { venue: pairs[i]@, token_in: route[i]@, token_out: route[i + 1]@ }
}

/// What is wrong with the lengths of a route, if anything. A length mismatch
/// is reported before an empty path.
pub open spec fn route_shape(n_pairs: nat, n_route: nat) -> Option<BridgeError> {
    if n_route != n_pairs + 1 {
        Some(BridgeError::RouteLengthMismatch)
    } else if n_pairs == 0 {
        Some(BridgeError::EmptyPath)
    } else {
        None
    }
}

/// What is wrong with a sequential swap request, if anything: first the
/// lengths, then whether the deposit is `amount_in` of the route's first token.
pub open spec fn swap_shape(
    n_pairs: nat,
    route: Seq<TokenId>,
    deposit: PaymentModel,
    amount_in: u128,
) -> Option<BridgeError> {
    if route_shape(n_pairs, route.len()) is Some {
        route_shape(n_pairs, route.len())
    } else if deposit.token != route[0]@ || deposit.amount != amount_in {
        Some(BridgeError::DepositMismatch)
    } else {
        None
    }
}

/// What is wrong with an aggregator request, if anything.
pub open spec fn steps_shape(n_steps: nat) -> Option<BridgeError> {
    if n_steps == 0 {
        Some(BridgeError::EmptyPath)
    } else {
        None
    }
}

/// The minimum output asked of hop `i` out of `n`: the caller's floor on the
/// last hop, zero on every hop before it.
pub open spec fn floor_at(i: int, n: int, amount_out_min: u128) -> u128 {
    if i + 1 == n {
        amount_out_min
    } else {
        0
    }
}

/// What hop `j` of a swap is fed, when the swap's calls start at `start` in
/// `log`: the deposit on the first hop, and afterwards what the hop before
/// returned.
pub open spec fn fed_to(log: Seq<SwapCall>, start: int, route: Seq<TokenId>, amount_in: u128, j: int) -> PaymentModel {
    if j == 0 {
        PaymentModel { token: route[0]@, nonce: 0, amount: amount_in }
    } else {
        log[start + j - 1].reply->Ok_0
    }
}

/// Whether the call at `start + j` in `log` is hop `j` of the swap: made to
/// the venue of that leg, for the token of that leg, with the whole running
/// balance as deposit, after a hop that succeeded, and with the caller's
/// floor on the last hop only.
pub open spec fn is_hop(
    log: Seq<SwapCall>,
    start: int,
    pairs: Seq<Address>,
    route: Seq<TokenId>,
    amount_in: u128,
    amount_out_min: u128,
    j: int,
) -> bool {
    let call = log[start + j];
    &&& call.venue == leg_at(pairs, route, j).venue
    &&& call.token_out == leg_at(pairs, route, j).token_out
    &&& call.amount_out_min == floor_at(j, pairs.len() as int, amount_out_min)
    &&& call.deposit == fed_to(log, start, route, amount_in, j)
    &&& j > 0 ==> log[start + j - 1].reply is Ok
}

/// Whether `after` is `before` followed by the first `k` hops of the swap,
/// in order and with nothing between them.
pub open spec fn threaded(
    before: Seq<SwapCall>,
    after: Seq<SwapCall>,
    pairs: Seq<Address>,
    route: Seq<TokenId>,
    amount_in: u128,
    amount_out_min: u128,
    k: int,
) -> bool {
    &&& 0 <= k <= pairs.len()
    &&& after.len() == before.len() + k
    &&& after.take(before.len() as int) == before
    &&& forall|j: int|
        0 <= j < k ==> #[trigger] is_hop(after, before.len() as int, pairs, route, amount_in, amount_out_min, j)
}

/// The verdict `Ok` for no complaint, and the complaint otherwise.
pub open spec fn verdict(complaint: Option<BridgeError>) -> Result<(), BridgeError> {
    match complaint {
        Some(e) => Err(e),
        None => Ok(()),
    }
}

pub fn check_route(n_pairs: usize, n_route: usize) -> (r: Result<(), BridgeError>)
    ensures
        r == verdict(route_shape(n_pairs as nat, n_route as nat)),
        r is Ok <==> well_shaped(n_pairs as nat, n_route as nat),
{
    if n_route == 0 || n_route - 1 != n_pairs {
        Err(BridgeError::RouteLengthMismatch)
    } else if n_pairs == 0 {
        Err(BridgeError::EmptyPath)
    } else {
        Ok(())
    }
}

pub fn check_swap(
    n_pairs: usize,
    token_route: &Vec<TokenId>,
    deposit: &EsdtTokenPayment,
    amount_in: u128,
) -> (r: Result<(), BridgeError>)
    ensures
        r == verdict(swap_shape(n_pairs as nat, token_route@, deposit@, amount_in)),
{
    match check_route(n_pairs, token_route.len()) {
        Err(e) => Err(e),
        Ok(()) => {
            if deposit.amount != amount_in || !deposit.token_identifier.same_as(&token_route[0]) {
                Err(BridgeError::DepositMismatch)
            } else {
                Ok(())
            }
        },
    }
}

pub fn check_steps(n_steps: usize) -> (r: Result<(), BridgeError>)
    ensures
        r == verdict(steps_shape(n_steps as nat)),
{
    if n_steps == 0 {
        Err(BridgeError::EmptyPath)
    } else {
        Ok(())
    }
}

/// Hop `i` of a well-shaped route.
pub fn swap_leg(pairs: &Vec<Address>, token_route: &Vec<TokenId>, i: usize) -> (leg: SwapLeg)
    requires
        i < pairs.len(),
        token_route.len() == pairs.len() + 1,
    ensures
        leg@ == leg_at(pairs@, token_route@, i as int),
{
    SwapLeg {
        venue: pairs[i],
        token_in: token_route[i].duplicate(),
        token_out: token_route[i + 1].duplicate(),
    }
}

pub fn hop_floor(i: usize, n: usize, amount_out_min: u128) -> (r: u128)
    ensures
        r == floor_at(i as int, n as int, amount_out_min),
{
    if i < n && i + 1 == n {
        amount_out_min
    } else {
        0
    }
}

/// The running balance after a venue's reply: the payment it returned, or
/// the end of the swap with the venue's failure inside.
pub fn absorb(reply: Result<EsdtTokenPayment, VenueError>) -> (r: Result<EsdtTokenPayment, BridgeError>)
    ensures
        match reply {
            Ok(p) => r == Ok::<EsdtTokenPayment, BridgeError>(p),
            Err(e) => r == Err::<EsdtTokenPayment, BridgeError>(BridgeError::VenueCallFailed(e)),
        },
{
    match reply {
        Ok(p) => Ok(p),
        Err(e) => Err(BridgeError::VenueCallFailed(e)),
    }
}

/// The payment to settle out of an aggregator's reply: its first one.
pub fn first_payment(payments: &Vec<EsdtTokenPayment>) -> (r: Result<&EsdtTokenPayment, BridgeError>)
    ensures
        payments@.len() == 0 ==> r == Err::<&EsdtTokenPayment, BridgeError>(BridgeError::EmptyResult),
        payments@.len() > 0 ==> r == Ok::<&EsdtTokenPayment, BridgeError>(&payments@[0]),
{
    if payments.len() == 0 {
        Err(BridgeError::EmptyResult)
    } else {
        Ok(&payments[0])
    }
}

/// Along a well-shaped route the token that one hop gives is the token that
/// the next hop takes, and the hops' venues are the given ones in order.
pub proof fn lemma_legs_chain(pairs: Seq<Address>, route: Seq<TokenId>, i: int)
    requires
        well_shaped(pairs.len(), route.len()),
        0 <= i,
        i + 1 < pairs.len(),
    ensures
        leg_at(pairs, route, i).token_out == leg_at(pairs, route, i + 1).token_in,
        leg_at(pairs, route, i).venue == pairs[i]@,
        leg_at(pairs, route, 0).token_in == route[0]@,
        leg_at(pairs, route, pairs.len() - 1).token_out == route.last()@,
{
}

/// In a swap's calls the running token keeps its identity: every hop but
/// the first is fed exactly the payment that the hop before returned, so the
/// token that one hop gave is the token that the next one takes. The first
/// hop is fed `amount_in` of the route's first token.
pub proof fn lemma_running_balance_is_threaded(
    before: Seq<SwapCall>,
    after: Seq<SwapCall>,
    pairs: Seq<Address>,
    route: Seq<TokenId>,
    amount_in: u128,
    amount_out_min: u128,
    k: int,
    j: int,
)
    requires
        threaded(before, after, pairs, route, amount_in, amount_out_min, k),
        0 <= j,
        j + 1 < k,
    ensures
        after[before.len() + j].reply is Ok,
        after[before.len() + j + 1].deposit == after[before.len() + j].reply->Ok_0,
        after[before.len() + j + 1].deposit.token == after[before.len() + j].reply->Ok_0.token,
        after[before.len() as int].deposit == (PaymentModel { token: route[0]@, nonce: 0, amount: amount_in }),
        after[before.len() + j].venue == pairs[j]@,
        after[before.len() + j].token_out == route[j + 1]@,
{
    assert(is_hop(after, before.len() as int, pairs, route, amount_in, amount_out_min, j + 1));
    assert(is_hop(after, before.len() as int, pairs, route, amount_in, amount_out_min, j));
    assert(is_hop(after, before.len() as int, pairs, route, amount_in, amount_out_min, 0));
}

/// A route whose lengths do not fit is refused as such, whatever its deposit
/// and whether or not it names a venue, when an operator sends it to a bridge
/// that is not paused. (Anyone else is denied first, and a paused bridge
/// says so first.)
pub proof fn lemma_length_mismatch(
    m: BridgeModel,
    caller: Seq<u8>,
    n_pairs: nat,
    route: Seq<TokenId>,
    deposit: PaymentModel,
    amount_in: u128,
)
    requires
        route.len() != n_pairs + 1,
        m.is_operator(caller),
        m.status == crate::types::Status::Unpaused,
    ensures
        swap_shape(n_pairs, route, deposit, amount_in) == Some(BridgeError::RouteLengthMismatch),
        m.refusal(caller, swap_shape(n_pairs, route, deposit, amount_in)) == Some(
            BridgeError::RouteLengthMismatch,
        ),
{
}

} // verus!
