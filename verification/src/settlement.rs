//! Settlement: the one-shot, timer-triggered disbursement of escrowed
//! funds.
//!
//! When a box expires, its settlement marks it ended, draws a winner
//! among the currently eligible miners and pays the custodial balance
//! (minus one fee) to the winner, or back to the creator when nobody
//! staked. When a miner expires, its settlement marks it ended and
//! splits the stake three ways — prize pool, box creator, platform —
//! unless the owning box has already ended, in which case the whole
//! remainder is swept to the platform. Every leg is attempted
//! independently; a failed leg is reported and never rolled back, and
//! the plans here never move more out of a subaccount than was escrowed
//! into it.

use vstd::prelude::*;

use crate::config::{FEE, MIN_MINER_COST};
use crate::registry::{eligible_miners_of, mark_miner_seq, LotteryState};
use crate::types::Miner;

verus! {

/// Who a leg of a miner settlement pays.
#[derive(Clone, Copy, Debug, PartialEq, Eq)]
pub enum Recipient {
    /// The platform's own account.
    Platform,
    /// The creator of the box the miner staked into.
    BoxCreator,
    /// The box's custodial subaccount, growing the eventual draw.
    PrizePool,
}

/// One transfer leg of a settlement plan: how much, and to whom.
#[derive(Clone, Copy, Debug, PartialEq, Eq)]
pub struct PayoutLeg {
    pub amount: u64,
    pub recipient: Recipient,
}

/// What a plan drains from the custodial subaccount when every leg
/// succeeds: each leg's amount plus the ledger fee that leg costs.
pub open spec fn plan_outflow(legs: Seq<PayoutLeg>) -> int
    decreases legs.len(),
{
    if legs.len() == 0 {
        0
    } else {
        plan_outflow(legs.drop_last()) + legs.last().amount + FEE
    }
}

/// The unsigned little-endian value of the first 8 bytes.
pub open spec fn le_u64_of(bytes: Seq<u8>) -> int {
    bytes[0] + bytes[1] * 0x100 + bytes[2] * 0x1_0000 + bytes[3] * 0x100_0000 + bytes[4]
        * 0x1_0000_0000 + bytes[5] * 0x100_0000_0000 + bytes[6] * 0x1_0000_0000_0000 + bytes[7]
        * 0x100_0000_0000_0000
}

/// Reads the first 8 bytes of a randomness payload as an unsigned
/// little-endian integer.
pub fn le_u64_from_bytes(bytes: &Vec<u8>) -> (v: u64)
    requires
        bytes@.len() >= 8,
    ensures
        v == le_u64_of(bytes@),
{
    (bytes[0] as u64) + (bytes[1] as u64) * 0x100 + (bytes[2] as u64) * 0x1_0000 + (bytes[3]
        as u64) * 0x100_0000 + (bytes[4] as u64) * 0x1_0000_0000 + (bytes[5] as u64)
        * 0x100_0000_0000 + (bytes[6] as u64) * 0x1_0000_0000_0000 + (bytes[7] as u64)
        * 0x100_0000_0000_0000
}

/// The three-way split of a matured stake: a quarter to the prize pool,
/// 65 hundredths to the box creator, and the remainder to the platform.
/// The parts always sum exactly to the award.
pub fn miner_split(award: u64) -> (r: (u64, u64, u64))
    ensures
        r.0 == award * 25 / 100,
        r.1 == award * 65 / 100,
        r.2 == award - r.0 - r.1,
        r.0 + r.1 + r.2 == award,
{
    proof {
        assert((award as int) * 25 / 100 >= 0 && (award as int) * 65 / 100 >= 0 && (award as int)
            * 25 / 100 + (award as int) * 65 / 100 <= award as int) by (nonlinear_arith);
    }
    let prize: u64 = ((award as u128) * 25 / 100) as u64;
    let creator_share: u64 = ((award as u128) * 65 / 100) as u64;
    let admin: u64 = award - prize - creator_share;
    (prize, creator_share, admin)
}

/// The payout plan of a matured miner whose stake was `award`. When the
/// owning box has already ended there is no pool left to join, and the
/// whole stake minus one fee is swept to the platform; otherwise the
/// three-way split runs, each leg reduced by its own fee.
pub open spec fn miner_plan(award: u64, box_ended: bool) -> Seq<PayoutLeg> {
    if box_ended {
        seq![PayoutLeg { amount: (award - FEE) as u64, recipient: Recipient::Platform }]
    } else {
        let prize = award * 25 / 100;
        let creator_share = award * 65 / 100;
        let admin = award - prize - creator_share;
        seq![
            PayoutLeg { amount: (admin - FEE) as u64, recipient: Recipient::Platform },
            PayoutLeg { amount: (creator_share - FEE) as u64, recipient: Recipient::BoxCreator },
            PayoutLeg { amount: (prize - FEE) as u64, recipient: Recipient::PrizePool },
        ]
    }
}

/// Builds the transfer legs a matured miner's settlement will attempt.
/// The stake award met the creation-time minimum, so every leg can bear
/// its own fee.
pub fn miner_settlement_plan(award: u64, box_ended: bool) -> (legs: Vec<PayoutLeg>)
    requires
        award >= MIN_MINER_COST,
    ensures
        legs@ == miner_plan(award, box_ended),
        plan_outflow(legs@) == award,
{
    let mut legs: Vec<PayoutLeg> = Vec::new();
    if box_ended {
        legs.push(PayoutLeg { amount: award - FEE, recipient: Recipient::Platform });
        proof {
            assert(legs@ =~= miner_plan(award, true));
        }
    } else {
        let (prize, creator_share, admin) = miner_split(award);
        proof {
            lemma_split_parts_cover_fee(award);
        }
        legs.push(PayoutLeg { amount: admin - FEE, recipient: Recipient::Platform });
        legs.push(PayoutLeg { amount: creator_share - FEE, recipient: Recipient::BoxCreator });
        legs.push(PayoutLeg { amount: prize - FEE, recipient: Recipient::PrizePool });
        proof {
            assert(legs@ =~= miner_plan(award, false));
        }
    }
    proof {
        lemma_settlement_conserves_escrow(award, box_ended);
    }
    legs
}

/// Each part of the split of an award that met the miner minimum covers
/// at least the ledger fee of its own transfer leg.
pub proof fn lemma_split_parts_cover_fee(award: u64)
    requires
        award >= MIN_MINER_COST,
    ensures
        award * 25 / 100 >= FEE,
        award * 65 / 100 >= FEE,
        award - award * 25 / 100 - award * 65 / 100 >= FEE,
        award * 25 / 100 + award * 65 / 100 <= award,
{
    assert(award * 25 / 100 >= 10_000 && award * 65 / 100 >= 10_000 && award as int - (award
        as int) * 25 / 100 - (award as int) * 65 / 100 >= 10_000) by (nonlinear_arith)
        requires
            award >= 500_000,
    ;
    assert((award as int) * 25 / 100 + (award as int) * 65 / 100 <= award as int)
        by (nonlinear_arith);
}

/// Money conservation for miner settlements: the legs' amounts plus one
/// ledger fee per leg sum to exactly the escrowed award — no plan ever
/// moves more out of a custodial subaccount than was escrowed into it.
pub proof fn lemma_settlement_conserves_escrow(award: u64, box_ended: bool)
    requires
        award >= MIN_MINER_COST,
    ensures
        plan_outflow(miner_plan(award, box_ended)) == award,
{
    reveal_with_fuel(plan_outflow, 5);
    let legs = miner_plan(award, box_ended);
    if box_ended {
        assert(legs.drop_last() =~= Seq::<PayoutLeg>::empty());
        assert(plan_outflow(legs) == legs.last().amount + FEE);
    } else {
        lemma_split_parts_cover_fee(award);
        let two = legs.drop_last();
        let one = two.drop_last();
        assert(one.drop_last() =~= Seq::<PayoutLeg>::empty());
        assert(plan_outflow(one) == one.last().amount + FEE);
        assert(plan_outflow(two) == plan_outflow(one) + two.last().amount + FEE);
        assert(plan_outflow(legs) == plan_outflow(two) + legs.last().amount + FEE);
    }
}

/// The single transfer a settled box issues: the custodial balance minus
/// one fee, to the winner when one was drawn, back to the creator when
/// no miner was eligible. Never more than the balance leaves the
/// subaccount, fee included.
pub fn box_settlement_payout(balance: u64, winner: &Option<Miner>, creator: &String) -> (r: (
    u64,
    String,
))
    requires
        balance >= FEE,
    ensures
        r.0 == balance - FEE,
        r.0 + FEE == balance,
        match winner {
            Some(m) => r.1@ == m.user@,
            None => r.1@ == creator@,
        },
{
    match winner {
        Some(m) => (balance - FEE, m.user.clone()),
        None => (balance - FEE, creator.clone()),
    }
}

impl LotteryState {
    /// Draws the winner of box `box_id` from its currently eligible
    /// miners, driven by a fresh randomness payload: none when nobody is
    /// eligible, otherwise the miner at the first 8 random bytes taken
    /// modulo the number of candidates.
    pub fn choose_random_miner(&self, box_id: String, random_bytes: &Vec<u8>) -> (r: Option<
        Miner,
    >)
        requires
            random_bytes@.len() >= 8,
        ensures
            ({
                let eligible = eligible_miners_of(self.miners@, box_id@);
                &&& (r is None <==> eligible.len() == 0)
                &&& (eligible.len() > 0 ==> r == Some(
                    eligible[le_u64_of(random_bytes@) % eligible.len() as int],
                ))
            }),
    {
        let filtered_miners = self.get_active_miners(box_id);
        if filtered_miners.len() == 0 {
            return None;
        }
        let rand_num = le_u64_from_bytes(random_bytes);
        let idx = (rand_num % (filtered_miners.len() as u64)) as usize;
        Some(filtered_miners[idx].clone())
    }

    /// The in-registry part of a miner settlement: mark the miner
    /// ended, then re-read the owning box's terminal flag. The box and
    /// miner timers race independently; whichever fired first, this
    /// read decides between the three-way split and the whole-stake
    /// sweep.
    pub fn miner_settlement_begin(&mut self, miner_id: &String, box_id: &String) -> (box_ended:
        bool)
        requires
            old(self).wf(),
        ensures
            final(self).miners@ == mark_miner_seq(old(self).miners@, miner_id@),
            final(self).users == old(self).users,
            final(self).boxes == old(self).boxes,
            final(self).box_miner == old(self).box_miner,
            final(self).sub_index == old(self).sub_index,
            final(self).wf(),
            box_ended == spec_box_ended_or_gone(*final(self), box_id@),
    {
        self.mark_miner_ended(miner_id);
        self.box_ended_for_miner(box_id)
    }

    /// The owning box's terminal flag, re-read at miner fire time: a box
    /// that has settled — or is not on record at all — counts as ended,
    /// and the maturing stake has no pool left to join.
    pub fn box_ended_for_miner(&self, box_id: &String) -> (r: bool)
        requires
            self.wf(),
        ensures
            r == spec_box_ended_or_gone(*self, box_id@),
    {
        match self.get_box(box_id) {
            Some(b) => {
                proof {
                    let iw = choose|i: int|
                        0 <= i < self.boxes@.len() && self.boxes@[i].canister_id@ == box_id@;
                    let ih = choose|i: int|
                        0 <= i < self.boxes@.len() && self.boxes@[i].canister_id@ == box_id@
                            && self.boxes@[i] == b;
                    if iw != ih {
                        assert(self.boxes@[iw].canister_id@ == self.boxes@[ih].canister_id@);
                        assert(false);
                    }
                }
                b.is_end
            },
            None => true,
        }
    }
}

/// Whether the box recorded under `id` has ended; a box that is gone
/// counts as ended.
pub open spec fn spec_box_ended_or_gone(s: LotteryState, id: Seq<char>) -> bool {
    if s.spec_has_box(id) {
        s.boxes@[choose|i: int| 0 <= i < s.boxes@.len() && s.boxes@[i].canister_id@ == id].is_end
    } else {
        true
    }
}

} // verus!
