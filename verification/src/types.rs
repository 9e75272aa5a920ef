//! Plain values that cross the bridge's boundary.
use vstd::prelude::*;

verus! {

/// Whether the bridge currently accepts routing requests.
#[derive(Clone, Copy, Debug, PartialEq, Eq, Structural)]
pub enum Status {
    Paused,
    Unpaused,
}

/// The role an account holds on the bridge. An account without a record
/// reads as `Unset`.
#[derive(Clone, Copy, Debug, PartialEq, Eq, Structural)]
pub enum Permissions {
    Unset,
    Operator,
}

/// A failure reported by a venue or by the aggregator, carried through as is.
#[derive(Clone, Copy, Debug, PartialEq, Eq, Structural)]
pub struct VenueError {
    pub code: u64,
}

/// Why an entry point refused or abandoned a request.
#[derive(Clone, Copy, Debug, PartialEq, Eq, Structural)]
pub enum BridgeError {
    /// The caller is not the owner of the bridge.
    OwnerOnly,
    /// The caller does not hold the operator role.
    PermissionDenied,
    /// The bridge is paused.
    ContractPaused,
    /// No venue, or no aggregator step, was given.
    EmptyPath,
    /// The token route is not one longer than the list of venues.
    RouteLengthMismatch,
    /// The deposit is not `amount_in` of the first token of the route.
    DepositMismatch,
    /// The aggregator returned no payment.
    EmptyResult,
    /// A venue or the aggregator failed; its report is inside.
    VenueCallFailed(VenueError),
}

/// A 32-byte account address.
#[derive(Clone, Copy, Debug, PartialEq, Eq)]
pub struct Address {
    pub bytes: [u8; 32],
}

impl View for Address {
    type V = Seq<u8>;

    open spec fn view(&self) -> Seq<u8> {
        self.bytes@
    }
}

impl Address {
    pub fn new(bytes: [u8; 32]) -> (r: Self)
        ensures
            r@ == bytes@,
    {
        Address { bytes }
    }

    /// Byte-wise equality.
    pub fn same_as(&self, other: &Address) -> (r: bool)
        ensures
            r == (self@ == other@),
    {
        let mut i: usize = 0;
        while i < 32
            invariant
                i <= 32,
                forall|j: int| 0 <= j < i ==> self.bytes@[j] == other.bytes@[j],
            decreases 32 - i,
        {
            if self.bytes[i] != other.bytes[i] {
                return false;
            }
            i += 1;
        }
        assert(self@ =~= other@);
        true
    }
}

/// A token identifier, as the bytes of its name.
#[derive(Clone, Debug, PartialEq, Eq)]
pub struct TokenId {
    pub name: Vec<u8>,
}

impl View for TokenId {
    type V = Seq<u8>;

    open spec fn view(&self) -> Seq<u8> {
        self.name@
    }
}

impl TokenId {
    pub fn new(name: Vec<u8>) -> (r: Self)
        ensures
            r@ == name@,
    {
        TokenId { name }
    }

    /// Byte-wise equality.
    pub fn same_as(&self, other: &TokenId) -> (r: bool)
        ensures
            r == (self@ == other@),
    {
        let n: usize = self.name.len();
        if other.name.len() != n {
            return false;
        }
        let mut i: usize = 0;
        while i < n
            invariant
                i <= n,
                n == self.name@.len(),
                n == other.name@.len(),
                forall|j: int| 0 <= j < i ==> self.name@[j] == other.name@[j],
            decreases n - i,
        {
            if self.name[i] != other.name[i] {
                return false;
            }
            i += 1;
        }
        assert(self@ =~= other@);
        true
    }

    /// A fresh identifier with the same bytes.
    pub fn duplicate(&self) -> (r: TokenId)
        ensures
            r@ == self@,
    {
        let n: usize = self.name.len();
        let mut name: Vec<u8> = Vec::new();
        let mut i: usize = 0;
        while i < n
            invariant
                i <= n,
                n == self.name@.len(),
                name@ == self.name@.take(i as int),
            decreases n - i,
        {
            name.push(self.name[i]);
            assert(name@ =~= self.name@.take(i + 1));
            i += 1;
        }
        assert(name@ =~= self.name@);
        TokenId { name }
    }
}

/// What a payment is, as plain mathematical values.
pub struct PaymentModel {
    pub token: Seq<u8>,
    pub nonce: u64,
    pub amount: u128,
}

/// An amount of one token instance: identifier, nonce and quantity.
#[derive(Clone, Debug, PartialEq, Eq)]
pub struct EsdtTokenPayment {
    pub token_identifier: TokenId,
    pub token_nonce: u64,
    pub amount: u128,
}

impl View for EsdtTokenPayment {
    type V = PaymentModel;

    open spec fn view(&self) -> PaymentModel {
        PaymentModel { token: self.token_identifier@, nonce: self.token_nonce, amount: self.amount }
    }
}

impl EsdtTokenPayment {
    pub fn new(token_identifier: TokenId, token_nonce: u64, amount: u128) -> (r: Self)
        ensures
            r@ == (PaymentModel { token: token_identifier@, nonce: token_nonce, amount }),
    {
        EsdtTokenPayment { token_identifier, token_nonce, amount }
    }
}

/// A token identifier with a quantity: a limit handed to the aggregator.
#[derive(Clone, Debug, PartialEq, Eq)]
pub struct TokenAmount {
    pub token: TokenId,
    pub amount: u128,
}

/// One instruction for the aggregator. The bridge forwards it unread.
#[derive(Clone, Debug, PartialEq, Eq)]
pub struct AggregatorStep {
    pub token_in: TokenId,
    pub token_out: TokenId,
    pub amount_in: u128,
    pub pool_address: Address,
}

} // verus!
