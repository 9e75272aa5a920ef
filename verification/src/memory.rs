//! A bridge whose store and ledger are held in memory.
use vstd::prelude::*;
use crate::bridge::BridgeNew;
use crate::model::{BridgeModel, Transfer};
use crate::types::{Address, EsdtTokenPayment, Permissions, Status, TokenId};

verus! {

/// The role written for one address. Where a list holds several records for
/// an address, the last one counts.
#[derive(Clone, Copy, Debug, PartialEq, Eq)]
pub struct PermissionRecord {
    pub address: Address,
    pub role: Permissions,
}

/// A payout: the recipient and what it received.
#[derive(Clone, Debug, PartialEq, Eq)]
pub struct Payout {
    pub to: Address,
    pub payment: EsdtTokenPayment,
}

impl View for Payout {
    type V = Transfer;

    open spec fn view(&self) -> Transfer {
        Transfer {
            to: self.to@,
            token: self.payment.token_identifier@,
            nonce: self.payment.token_nonce,
            amount: self.payment.amount,
        }
    }
}

/// Whether `records` holds a write for `who`.
pub open spec fn has_record(records: Seq<PermissionRecord>, who: Seq<u8>) -> bool {
    exists|i: int| 0 <= i < records.len() && (#[trigger] records[i]).address@ == who
}

/// The role that the latest write for `who` gave, `Unset` without one.
pub open spec fn latest_role(records: Seq<PermissionRecord>, who: Seq<u8>) -> Permissions
    decreases records.len(),
{
    if records.len() == 0 {
        Permissions::Unset
    } else if records.last().address@ == who {
        records.last().role
    } else {
        latest_role(records.drop_last(), who)
    }
}

/// The records as a map from address to role.
pub open spec fn roles(records: Seq<PermissionRecord>) -> Map<Seq<u8>, Permissions> {
    Map::new(|who: Seq<u8>| has_record(records, who), |who: Seq<u8>| latest_role(records, who))
}

proof fn lemma_no_record_no_role(records: Seq<PermissionRecord>, who: Seq<u8>)
    requires
        !has_record(records, who),
    ensures
        latest_role(records, who) == Permissions::Unset,
    decreases records.len(),
{
    if records.len() > 0 {
        let rest = records.drop_last();
        assert(records[records.len() - 1].address@ != who);
        assert forall|i: int| 0 <= i < rest.len() implies (#[trigger] rest[i]).address@ != who by {
            assert(rest[i] == records[i]);
        }
        lemma_no_record_no_role(rest, who);
    }
}

proof fn lemma_push_is_insert(records: Seq<PermissionRecord>, rec: PermissionRecord)
    ensures
        roles(records.push(rec)) == roles(records).insert(rec.address@, rec.role),
{
    let after = records.push(rec);
    assert(after.drop_last() =~= records);
    assert(after.last() == rec);
    assert forall|who: Seq<u8>| has_record(after, who) <==> (who == rec.address@ || has_record(records, who)) by {
        if has_record(records, who) {
            let i = choose|i: int| 0 <= i < records.len() && (#[trigger] records[i]).address@ == who;
            assert(after[i] == records[i]);
        }
        if who == rec.address@ {
            assert(after[after.len() - 1].address@ == who);
        }
        if has_record(after, who) && who != rec.address@ {
            let i = choose|i: int| 0 <= i < after.len() && (#[trigger] after[i]).address@ == who;
            assert(i < records.len());
            assert(records[i] == after[i]);
        }
    }
    assert forall|who: Seq<u8>| #[trigger] latest_role(after, who) == (if who == rec.address@ {
        rec.role
    } else {
        latest_role(records, who)
    }) by {}
    assert(roles(after) =~= roles(records).insert(rec.address@, rec.role));
}

/// The record at `i` is the last one for `who`.
pub open spec fn is_last_record(records: Seq<PermissionRecord>, who: Seq<u8>, i: int) -> bool {
    &&& 0 <= i < records.len()
    &&& records[i].address@ == who
    &&& forall|j: int| i < j < records.len() ==> (#[trigger] records[j]).address@ != who
}

proof fn lemma_last_record_gives_role(records: Seq<PermissionRecord>, who: Seq<u8>, i: int)
    requires
        is_last_record(records, who, i),
    ensures
        latest_role(records, who) == records[i].role,
    decreases records.len(),
{
    if i != records.len() - 1 {
        let rest = records.drop_last();
        assert(records[records.len() - 1].address@ != who);
        assert forall|j: int| i < j < rest.len() implies (#[trigger] rest[j]).address@ != who by {
            assert(rest[j] == records[j]);
        }
        lemma_last_record_gives_role(rest, who, i);
    }
}

proof fn lemma_other_roles_stay(records: Seq<PermissionRecord>, i: int, rec: PermissionRecord, other: Seq<u8>)
    requires
        0 <= i < records.len(),
        records[i].address@ == rec.address@,
        other != rec.address@,
    ensures
        latest_role(records.update(i, rec), other) == latest_role(records, other),
    decreases records.len(),
{
    let after = records.update(i, rec);
    if i == records.len() - 1 {
        assert(after.drop_last() =~= records.drop_last());
    } else {
        assert(after.last() == records.last());
        assert(after.drop_last() =~= records.drop_last().update(i, rec));
        lemma_other_roles_stay(records.drop_last(), i, rec, other);
    }
}

proof fn lemma_update_is_insert(records: Seq<PermissionRecord>, i: int, rec: PermissionRecord)
    requires
        is_last_record(records, rec.address@, i),
    ensures
        roles(records.update(i, rec)) == roles(records).insert(rec.address@, rec.role),
{
    let after = records.update(i, rec);
    assert forall|j: int| 0 <= j < after.len() implies (#[trigger] after[j]).address@ == records[j].address@ by {}
    assert forall|who: Seq<u8>| has_record(after, who) <==> (who == rec.address@ || has_record(records, who)) by {
        if has_record(records, who) {
            let j = choose|j: int| 0 <= j < records.len() && (#[trigger] records[j]).address@ == who;
            assert(after[j].address@ == who);
        }
        if who == rec.address@ {
            assert(after[i].address@ == who);
        }
        if has_record(after, who) {
            let j = choose|j: int| 0 <= j < after.len() && (#[trigger] after[j]).address@ == who;
            assert(records[j].address@ == who);
        }
    }
    assert forall|who: Seq<u8>| #[trigger] latest_role(after, who) == (if who == rec.address@ {
        rec.role
    } else {
        latest_role(records, who)
    }) by {
        if who == rec.address@ {
            assert(is_last_record(after, who, i));
            lemma_last_record_gives_role(after, who, i);
        } else {
            lemma_other_roles_stay(records, i, rec, who);
        }
    }
    assert(roles(after) =~= roles(records).insert(rec.address@, rec.role));
}

/// A bridge that keeps its state and its payouts in memory.
pub struct MemoryBridge {
    owner: Address,
    status: Status,
    records: Vec<PermissionRecord>,
    payouts: Vec<Payout>,
}

impl MemoryBridge {
    /// A bridge owned by `owner`, with an empty store: no account has a role,
    /// nothing was paid, and the pause flag reads as `Paused`.
    pub fn new(owner: Address) -> (r: Self)
        ensures
            r.model().owner == owner@,
            r.model().status == Status::Paused,
            r.model().permissions == Map::<Seq<u8>, Permissions>::empty(),
            r.model().paid == Seq::<Transfer>::empty(),
    {
        let r = MemoryBridge { owner, status: Status::Paused, records: Vec::new(), payouts: Vec::new() };
        proof {
            assert(roles(r.records@) =~= Map::<Seq<u8>, Permissions>::empty());
            assert(r.payouts@.map_values(|p: Payout| p@) =~= Seq::<Transfer>::empty());
        }
        r
    }

    /// The place of the record that counts for `address`, if it has one.
    fn find(&self, address: &Address) -> (r: Option<usize>)
        ensures
            match r {
                Some(i) => is_last_record(self.records@, address@, i as int),
                None => !has_record(self.records@, address@),
            },
    {
        let mut i: usize = self.records.len();
        while i > 0
            invariant
                i <= self.records.len(),
                forall|j: int| i <= j < self.records.len() ==> (#[trigger] self.records@[j]).address@ != address@,
            decreases i,
        {
            if self.records[i - 1].address.same_as(address) {
                return Some(i - 1);
            }
            i -= 1;
        }
        None
    }

    /// The payouts made so far, oldest first.
    pub fn payouts(&self) -> (r: &Vec<Payout>)
        ensures
            r@.map_values(|p: Payout| p@) == self.model().paid,
    {
        &self.payouts
    }
}

impl BridgeNew for MemoryBridge {
    closed spec fn model(&self) -> BridgeModel {
        BridgeModel {
            owner: self.owner@,
            status: self.status,
            permissions: roles(self.records@),
            paid: self.payouts@.map_values(|p: Payout| p@),
        }
    }

    fn status(&self) -> (r: Status) {
        self.status
    }

    fn permissions(&self, address: &Address) -> (r: Permissions) {
        match self.find(address) {
            Some(i) => {
                proof {
                    lemma_last_record_gives_role(self.records@, address@, i as int);
                }
                self.records[i].role
            },
            None => {
                proof {
                    lemma_no_record_no_role(self.records@, address@);
                }
                Permissions::Unset
            },
        }
    }

    fn is_owner(&self, address: &Address) -> (r: bool) {
        address.same_as(&self.owner)
    }

    fn store_status(&mut self, status: Status) {
        self.status = status;
    }

    fn store_permissions(&mut self, address: &Address, role: Permissions) {
        let rec = PermissionRecord { address: *address, role };
        match self.find(address) {
            Some(i) => {
                proof {
                    lemma_update_is_insert(self.records@, i as int, rec);
                }
                self.records.set(i, rec);
            },
            None => {
                proof {
                    lemma_push_is_insert(self.records@, rec);
                }
                self.records.push(rec);
            },
        }
    }

    fn pay(&mut self, to: &Address, token: &TokenId, nonce: u64, amount: u128) {
        let payout = Payout {
            to: *to,
            payment: EsdtTokenPayment { token_identifier: token.duplicate(), token_nonce: nonce, amount },
        };
        self.payouts.push(payout);
        proof {
            assert(self.payouts@.map_values(|p: Payout| p@) =~= old(self).payouts@.map_values(
                |p: Payout| p@,
            ).push(payout@));
        }
    }
}

} // verus!
