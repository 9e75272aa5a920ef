//! The mathematical state of a bridge, and the laws of its transitions.
use vstd::prelude::*;
use crate::types::{BridgeError, Permissions, Status};

verus! {

/// A payout made by the bridge.
pub struct Transfer {
    pub to: Seq<u8>,
    pub token: Seq<u8>,
    pub nonce: u64,
    pub amount: u128,
}

/// Everything the bridge persists, plus the payouts it has made.
pub struct BridgeModel {
    pub owner: Seq<u8>,
    pub status: Status,
    pub permissions: Map<Seq<u8>, Permissions>,
    pub paid: Seq<Transfer>,
}

impl BridgeModel {
    /// The role of `who`; an account without a record has none.
    pub open spec fn permission_of(self, who: Seq<u8>) -> Permissions {
        if self.permissions.dom().contains(who) {
            self.permissions[who]
        } else {
            Permissions::Unset
        }
    }

    pub open spec fn is_operator(self, who: Seq<u8>) -> bool {
        self.permission_of(who) == Permissions::Operator
    }

    pub open spec fn with_status(self, status: Status) -> BridgeModel {
        BridgeModel { status, ..self }
    }

    pub open spec fn with_permission(self, who: Seq<u8>, role: Permissions) -> BridgeModel {
        BridgeModel { permissions: self.permissions.insert(who, role), ..self }
    }

    pub open spec fn with_payment(self, t: Transfer) -> BridgeModel {
        BridgeModel { paid: self.paid.push(t), ..self }
    }

    /// The state after the owner's request to install `status`, and the
    /// unchanged state after anyone else's.
    pub open spec fn owner_sets_status(self, caller: Seq<u8>, status: Status) -> BridgeModel {
        if caller == self.owner {
            self.with_status(status)
        } else {
            self
        }
    }

    /// The state after the owner's request to give `who` the role `role`, and
    /// the unchanged state after anyone else's.
    pub open spec fn owner_sets_permission(self, caller: Seq<u8>, who: Seq<u8>, role: Permissions) -> BridgeModel {
        if caller == self.owner {
            self.with_permission(who, role)
        } else {
            self
        }
    }

    /// `Ok` for the owner, `OwnerOnly` for anyone else.
    pub open spec fn owner_gate(self, caller: Seq<u8>) -> Result<(), BridgeError> {
        if caller == self.owner {
            Ok(())
        } else {
            Err(BridgeError::OwnerOnly)
        }
    }

    /// Why a routing request from `caller` is refused before any venue is
    /// called, if it is. The checks run in this order: role, pause flag, then
    /// the shape of the request (`shape` is its own verdict).
    pub open spec fn refusal(self, caller: Seq<u8>, shape: Option<BridgeError>) -> Option<BridgeError> {
        if !self.is_operator(caller) {
            Some(BridgeError::PermissionDenied)
        } else if self.status == Status::Paused {
            Some(BridgeError::ContractPaused)
        } else {
            shape
        }
    }
}

/// Pausing is idempotent: a second `pause` by the owner leaves the state that
/// the first one made, and that state is paused. The same holds of `unpause`.
pub proof fn lemma_status_idempotent(m: BridgeModel, status: Status)
    ensures
        m.owner_sets_status(m.owner, status).status == status,
        m.owner_sets_status(m.owner, status).owner_sets_status(m.owner, status)
            == m.owner_sets_status(m.owner, status),
{
}

/// Only the owner moves the pause flag or a role: a request by anyone else
/// leaves the whole state as it was.
pub proof fn lemma_owner_only(m: BridgeModel, caller: Seq<u8>, who: Seq<u8>, status: Status, role: Permissions)
    requires
        caller != m.owner,
    ensures
        m.owner_sets_status(caller, status) == m,
        m.owner_sets_permission(caller, who, role) == m,
{
}

/// An account that never held the operator role, or lost it, is refused with
/// `PermissionDenied` whatever else holds of the request or of the pause flag.
pub proof fn lemma_non_operator_denied(m: BridgeModel, caller: Seq<u8>, shape: Option<BridgeError>)
    requires
        !m.is_operator(caller),
    ensures
        m.refusal(caller, shape) == Some(BridgeError::PermissionDenied),
{
}

/// After the owner revokes `who`, every routing request from `who` is refused
/// with `PermissionDenied`, and every other account keeps its role. Before
/// the revocation, an operator's request on an unpaused bridge is refused
/// only for its shape.
pub proof fn lemma_revocation(m: BridgeModel, who: Seq<u8>, shape: Option<BridgeError>)
    ensures
        m.owner_sets_permission(m.owner, who, Permissions::Unset).refusal(who, shape)
            == Some(BridgeError::PermissionDenied),
        forall|other: Seq<u8>| other != who ==>
            #[trigger] m.owner_sets_permission(m.owner, who, Permissions::Unset).permission_of(other)
                == m.permission_of(other),
        m.is_operator(who) && m.status == Status::Unpaused ==> m.refusal(who, shape) == shape,
{
}

/// After the owner grants `who` the operator role, `who` is an operator and
/// every other account keeps its role.
pub proof fn lemma_grant(m: BridgeModel, who: Seq<u8>)
    ensures
        m.owner_sets_permission(m.owner, who, Permissions::Operator).is_operator(who),
        forall|other: Seq<u8>| other != who ==>
            #[trigger] m.owner_sets_permission(m.owner, who, Permissions::Operator).permission_of(other)
                == m.permission_of(other),
{
}

/// A paused bridge refuses every operator's routing request with
/// `ContractPaused`, whatever its shape.
pub proof fn lemma_paused_blocks(m: BridgeModel, caller: Seq<u8>, shape: Option<BridgeError>)
    requires
        m.is_operator(caller),
    ensures
        m.owner_sets_status(m.owner, Status::Paused).refusal(caller, shape)
            == Some(BridgeError::ContractPaused),
{
}

} // verus!
