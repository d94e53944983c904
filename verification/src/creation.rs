//! The creation flow, between its external calls.
//!
//! Creating a box or a miner runs: validate the request, read the
//! caller's allowance, check it covers the award plus one fee, consume
//! the next subaccount index, pull the funds, stand up the worker, record
//! the entity, arm its timer. The external legs (allowance query, funds
//! pull, provisioning, timer) suspend; the decisions between them stand
//! here. The subaccount counter advances only after the allowance check
//! has passed, so a request rejected for validation or allowance leaves
//! no gap in the counter.
//!
//! A miner request does not check that the staked-into box exists or is
//! still open; a stake against a vanished or settled box is swept to the
//! platform by its own settlement.

use vstd::prelude::*;

use crate::account::{create_subaccount, subaccount_bytes, SUBACCOUNT_LEN};
use crate::config::{FEE, LOTTERY_TIME, MINER_TIME, MIN_BOX_COST, MIN_MINER_COST, NANOS_PER_SEC};
use crate::errors::{Error, ValidationReason};
use crate::registry::{display_name_of, LotteryState};
use crate::types::{BoxInfo, BoxWithCount, Miner};

verus! {

/// Decides whether a granted allowance covers pulling `award` into
/// escrow plus the one ledger fee the pull itself costs.
pub fn check_allowance(allowance: u64, award: u64) -> (r: Result<(), Error>)
    ensures
        r is Ok <==> allowance >= award + FEE,
        r is Err ==> r == Err::<(), Error>(Error::Allowance),
{
    if award <= u64::MAX - FEE && allowance >= award + FEE {
        Ok(())
    } else {
        Err(Error::Allowance)
    }
}

impl LotteryState {
    /// Validates a box request before any external call: the award must
    /// reach the box minimum and the caller must be registered.
    pub fn validate_box_request(&self, caller: &String, award: u64) -> (r: Result<(), Error>)
        ensures
            r is Ok <==> award >= MIN_BOX_COST && self.spec_has_user(caller@),
            award < MIN_BOX_COST ==> r == Err::<(), Error>(
                Error::Validation(ValidationReason::BelowMinimum(MIN_BOX_COST)),
            ),
            award >= MIN_BOX_COST && !self.spec_has_user(caller@) ==> r == Err::<(), Error>(
                Error::Validation(ValidationReason::UnknownUser),
            ),
    {
        if award < MIN_BOX_COST {
            return Err(Error::Validation(ValidationReason::BelowMinimum(MIN_BOX_COST)));
        }
        match self.get_user_by_princ(caller.clone()) {
            Some(_) => Ok(()),
            None => Err(Error::Validation(ValidationReason::UnknownUser)),
        }
    }

    /// Validates a miner request: the award must reach the miner minimum
    /// and the caller must be registered.
    pub fn validate_miner_request(&self, caller: &String, award: u64) -> (r: Result<(), Error>)
        ensures
            r is Ok <==> award >= MIN_MINER_COST && self.spec_has_user(caller@),
            award < MIN_MINER_COST ==> r == Err::<(), Error>(
                Error::Validation(ValidationReason::BelowMinimum(MIN_MINER_COST)),
            ),
            award >= MIN_MINER_COST && !self.spec_has_user(caller@) ==> r == Err::<(), Error>(
                Error::Validation(ValidationReason::UnknownUser),
            ),
    {
        if award < MIN_MINER_COST {
            return Err(Error::Validation(ValidationReason::BelowMinimum(MIN_MINER_COST)));
        }
        match self.get_user_by_princ(caller.clone()) {
            Some(_) => Ok(()),
            None => Err(Error::Validation(ValidationReason::UnknownUser)),
        }
    }

    /// Consumes the next counter value and derives the custodial
    /// subaccount for it. The counter strictly increases and a value is
    /// never handed out twice, which is all the collision protection the
    /// derivation relies on.
    pub fn allocate_subaccount(&mut self, owner: &Vec<u8>) -> (sub: Vec<u8>)
        requires
            old(self).sub_index < u32::MAX,
        ensures
            final(self).sub_index == old(self).sub_index + 1,
            sub@ == subaccount_bytes(owner@, (old(self).sub_index + 1) as u32),
            sub@.len() == SUBACCOUNT_LEN,
            final(self).users == old(self).users,
            final(self).boxes == old(self).boxes,
            final(self).miners == old(self).miners,
            final(self).box_miner == old(self).box_miner,
    {
        self.sub_index = self.sub_index + 1;
        create_subaccount(owner, self.sub_index)
    }

    /// Records a freshly provisioned box whose award is already in
    /// escrow, and builds the summary returned to its creator: no miner
    /// has staked yet.
    pub fn record_box(&mut self, caller: String, canister_id: String, now: u64) -> (summary:
        BoxWithCount)
        requires
            old(self).wf(),
            !old(self).spec_has_box(canister_id@),
            now + LOTTERY_TIME * NANOS_PER_SEC <= u64::MAX,
        ensures
            final(self).wf(),
            final(self).boxes@ == old(self).boxes@.push(
                BoxInfo {
                    user: caller,
                    canister_id: canister_id,
                    reg_date: now,
                    end_date: (now + LOTTERY_TIME * NANOS_PER_SEC) as u64,
                    is_end: false,
                },
            ),
            final(self).users == old(self).users,
            final(self).miners == old(self).miners,
            final(self).box_miner == old(self).box_miner,
            final(self).sub_index == old(self).sub_index,
            summary@.username == display_name_of(old(self).users@, caller@),
            summary@.miner_count == 0,
            summary@.end_date == now + LOTTERY_TIME * NANOS_PER_SEC,
            summary@.reg_date == now,
            summary@.canister_id == canister_id@,
    {
        let end_date = now + LOTTERY_TIME * NANOS_PER_SEC;
        let username = self.lookup_display_name(&caller);
        let info = BoxInfo {
            user: caller,
            canister_id: canister_id,
            reg_date: now,
            end_date: end_date,
            is_end: false,
        };
        let summary = BoxWithCount {
            username: username,
            miner_count: 0,
            end_date: end_date,
            reg_date: now,
            canister_id: info.canister_id.clone(),
        };
        proof {
            assert forall|i: int, j: int|
                0 <= i < j < self.boxes@.push(info).len() implies self.boxes@.push(
                info,
            )[i].canister_id@ != self.boxes@.push(info)[j].canister_id@ by {
                if j == self.boxes@.len() {
                    assert(self.boxes@[i].canister_id@ != canister_id@);
                }
            }
        }
        self.boxes.push(info);
        summary
    }

    /// Records a freshly provisioned miner whose stake is already in
    /// escrow, together with its entry in the miner-to-box index.
    pub fn record_miner(&mut self, caller: String, box_id: String, canister_id: String, now: u64)
        requires
            old(self).wf(),
            !old(self).spec_has_miner(canister_id@),
            now + MINER_TIME * NANOS_PER_SEC <= u64::MAX,
        ensures
            final(self).wf(),
            final(self).miners@ == old(self).miners@.push(
                Miner {
                    user: caller,
                    box_id: box_id,
                    canister_id: canister_id,
                    reg_date: now,
                    end_date: (now + MINER_TIME * NANOS_PER_SEC) as u64,
                    is_end: false,
                },
            ),
            final(self).box_miner@ == old(self).box_miner@.push((canister_id, box_id)),
            final(self).users == old(self).users,
            final(self).boxes == old(self).boxes,
            final(self).sub_index == old(self).sub_index,
    {
        let end_date = now + MINER_TIME * NANOS_PER_SEC;
        let index_entry = (canister_id.clone(), box_id.clone());
        let miner = Miner {
            user: caller,
            box_id: box_id,
            canister_id: canister_id,
            reg_date: now,
            end_date: end_date,
            is_end: false,
        };
        proof {
            assert forall|i: int, j: int|
                0 <= i < j < self.miners@.push(miner).len() implies self.miners@.push(
                miner,
            )[i].canister_id@ != self.miners@.push(miner)[j].canister_id@ by {
                if j == self.miners@.len() {
                    assert(self.miners@[i].canister_id@ != miner.canister_id@);
                }
            }
        }
        self.miners.push(miner);
        self.box_miner.push(index_entry);
    }

    /// The display name for `principal`: the registered nickname, or the
    /// placeholder when the identity is unknown.
    pub fn lookup_display_name(&self, principal: &String) -> (name: String)
        requires
            self.wf(),
        ensures
            name@ == display_name_of(self.users@, principal@),
    {
        match self.get_user_by_princ(principal.clone()) {
            Some(u) => {
                proof {
                    let iw = choose|i: int|
                        0 <= i < self.users@.len() && self.users@[i].0@ == principal@;
                    let ih = choose|i: int|
                        0 <= i < self.users@.len() && self.users@[i].0@ == principal@
                            && self.users@[i].1 == u;
                    if iw != ih {
                        assert(self.users@[iw].0@ == self.users@[ih].0@);
                        assert(false);
                    }
                }
                u.nickname
            },
            None => String::from_str("Unknown"),
        }
    }
}

} // verus!
