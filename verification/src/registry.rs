//! The escrow registry: the authoritative records for users, boxes and
//! miners, the miner-to-box index, and the subaccount counter.
//!
//! All mutation of shared state goes through this one owner object. The
//! mark operations are idempotent in effect: the scheduler fires once,
//! but a duplicate invocation must not disturb the records — the payout
//! planning, not the flag flip, guards against double spending.

use vstd::prelude::*;

use crate::errors::{Error, ValidationReason};
use crate::types::{BoxInfo, Miner, User};

verus! {

/// No two registered users share an identity string.
pub open spec fn user_keys_unique(users: Seq<(String, User)>) -> bool {
    forall|i: int, j: int|
        0 <= i < j < users.len() ==> users[i].0@ != users[j].0@
}

/// No two boxes share a handle.
pub open spec fn box_ids_unique(boxes: Seq<BoxInfo>) -> bool {
    forall|i: int, j: int|
        0 <= i < j < boxes.len() ==> boxes[i].canister_id@ != boxes[j].canister_id@
}

/// No two miners share a handle.
pub open spec fn miner_ids_unique(miners: Seq<Miner>) -> bool {
    forall|i: int, j: int|
        0 <= i < j < miners.len() ==> miners[i].canister_id@ != miners[j].canister_id@
}

/// A miner counts toward a box's draw while its own terminal flag is
/// still clear at the moment eligibility is evaluated.
pub open spec fn eligible_miners_of(miners: Seq<Miner>, box_id: Seq<char>) -> Seq<Miner> {
    miners.filter(|m: Miner| m.box_id@ == box_id && !m.is_end)
}

/// The display name shown for an identity: the registered nickname, or a
/// placeholder when nobody registered under it.
pub open spec fn display_name_of(users: Seq<(String, User)>, key: Seq<char>) -> Seq<char> {
    if exists|i: int| 0 <= i < users.len() && users[i].0@ == key {
        users[choose|i: int| 0 <= i < users.len() && users[i].0@ == key].1.nickname@
    } else {
        "Unknown"@
    }
}

/// `b` with its terminal flag set; every other field kept.
pub open spec fn with_box_ended(b: BoxInfo) -> BoxInfo {
    BoxInfo { is_end: true, ..b }
}

/// `m` with its terminal flag set; every other field kept.
pub open spec fn with_miner_ended(m: Miner) -> Miner {
    Miner { is_end: true, ..m }
}

/// `boxes` after ending the box recorded under `id`: the matching entry
/// has its flag set, every other entry is untouched.
pub open spec fn mark_box_seq(boxes: Seq<BoxInfo>, id: Seq<char>) -> Seq<BoxInfo> {
    boxes.map_values(
        |b: BoxInfo| if b.canister_id@ == id {
            with_box_ended(b)
        } else {
            b
        },
    )
}

/// `miners` after ending the miner recorded under `id`.
pub open spec fn mark_miner_seq(miners: Seq<Miner>, id: Seq<char>) -> Seq<Miner> {
    miners.map_values(
        |m: Miner| if m.canister_id@ == id {
            with_miner_ended(m)
        } else {
            m
        },
    )
}

/// Marking a box ended twice is marking it once: the duplicate fire that
/// the scheduler is defended against is a no-op on the records.
pub proof fn lemma_mark_box_idempotent(boxes: Seq<BoxInfo>, id: Seq<char>)
    ensures
        mark_box_seq(mark_box_seq(boxes, id), id) == mark_box_seq(boxes, id),
{
    assert(mark_box_seq(mark_box_seq(boxes, id), id) =~= mark_box_seq(boxes, id));
}

/// Marking a miner ended twice is marking it once.
pub proof fn lemma_mark_miner_idempotent(miners: Seq<Miner>, id: Seq<char>)
    ensures
        mark_miner_seq(mark_miner_seq(miners, id), id) == mark_miner_seq(miners, id),
{
    assert(mark_miner_seq(mark_miner_seq(miners, id), id) =~= mark_miner_seq(miners, id));
}

/// The terminal flag is monotone under marking: an ended box stays ended,
/// and no mark operation touches any other field of any entry.
pub proof fn lemma_mark_box_monotone(boxes: Seq<BoxInfo>, id: Seq<char>, i: int)
    requires
        0 <= i < boxes.len(),
    ensures
        mark_box_seq(boxes, id)[i].is_end == (boxes[i].is_end || boxes[i].canister_id@ == id),
        mark_box_seq(boxes, id)[i].user == boxes[i].user,
        mark_box_seq(boxes, id)[i].canister_id == boxes[i].canister_id,
        mark_box_seq(boxes, id)[i].reg_date == boxes[i].reg_date,
        mark_box_seq(boxes, id)[i].end_date == boxes[i].end_date,
{
}

/// The terminal flag of a miner is monotone under marking, and marking
/// touches nothing else.
pub proof fn lemma_mark_miner_monotone(miners: Seq<Miner>, id: Seq<char>, i: int)
    requires
        0 <= i < miners.len(),
    ensures
        mark_miner_seq(miners, id)[i].is_end == (miners[i].is_end || miners[i].canister_id@
            == id),
        mark_miner_seq(miners, id)[i].user == miners[i].user,
        mark_miner_seq(miners, id)[i].box_id == miners[i].box_id,
        mark_miner_seq(miners, id)[i].canister_id == miners[i].canister_id,
        mark_miner_seq(miners, id)[i].reg_date == miners[i].reg_date,
        mark_miner_seq(miners, id)[i].end_date == miners[i].end_date,
{
}

/// The complete durable state of the service. Scheduler timers are
/// deliberately not part of it: they do not survive a restart.
pub struct LotteryState {
    /// identity string -> display record, insertion order.
    pub users: Vec<(String, User)>,
    /// The boxes, keyed by their own `canister_id` field.
    pub boxes: Vec<BoxInfo>,
    /// The miners, keyed by their own `canister_id` field.
    pub miners: Vec<Miner>,
    /// Reverse index: miner handle -> box handle.
    pub box_miner: Vec<(String, String)>,
    /// The monotonic subaccount counter; never reused, never reset.
    pub sub_index: u32,
}

impl LotteryState {
    /// Well-formedness: every registry is keyed uniquely.
    pub open spec fn wf(self) -> bool {
        &&& user_keys_unique(self.users@)
        &&& box_ids_unique(self.boxes@)
        &&& miner_ids_unique(self.miners@)
    }

    /// There is a user registered under `key`.
    pub open spec fn spec_has_user(self, key: Seq<char>) -> bool {
        exists|i: int| 0 <= i < self.users@.len() && self.users@[i].0@ == key
    }

    /// There is a box recorded under `id`.
    pub open spec fn spec_has_box(self, id: Seq<char>) -> bool {
        exists|i: int| 0 <= i < self.boxes@.len() && self.boxes@[i].canister_id@ == id
    }

    /// There is a miner recorded under `id`.
    pub open spec fn spec_has_miner(self, id: Seq<char>) -> bool {
        exists|i: int| 0 <= i < self.miners@.len() && self.miners@[i].canister_id@ == id
    }

    /// The empty registry a fresh deployment starts from.
    pub fn new() -> (s: Self)
        ensures
            s.wf(),
            s.users@ =~= Seq::<(String, User)>::empty(),
            s.boxes@ =~= Seq::<BoxInfo>::empty(),
            s.miners@ =~= Seq::<Miner>::empty(),
            s.box_miner@ =~= Seq::<(String, String)>::empty(),
            s.sub_index == 0,
    {
        LotteryState {
            users: Vec::new(),
            boxes: Vec::new(),
            miners: Vec::new(),
            box_miner: Vec::new(),
            sub_index: 0,
        }
    }

    /// Looks a user up by identity string.
    pub fn get_user_by_princ(&self, principal: String) -> (r: Option<User>)
        ensures
            match r {
                Some(u) => exists|i: int|
                    0 <= i < self.users@.len() && self.users@[i].0@ == principal@
                        && self.users@[i].1 == u,
                None => !self.spec_has_user(principal@),
            },
    {
        let n = self.users.len();
        let mut i: usize = 0;
        while i < n
            invariant
                i <= n == self.users@.len(),
                forall|j: int| 0 <= j < i ==> self.users@[j].0@ != principal@,
            decreases n - i,
        {
            if self.users[i].0 == principal {
                return Some(self.users[i].1.clone());
            }
            i += 1;
        }
        None
    }

    /// The query endpoint behind user lookup: the record for `principal`,
    /// or a validation error when nobody registered under it.
    pub fn get_user(&self, principal: String) -> (r: Result<User, Error>)
        ensures
            match r {
                Ok(u) => exists|i: int|
                    0 <= i < self.users@.len() && self.users@[i].0@ == principal@
                        && self.users@[i].1 == u,
                Err(e) => !self.spec_has_user(principal@) && e == Error::Validation(
                    ValidationReason::UnknownUser,
                ),
            },
    {
        match self.get_user_by_princ(principal) {
            Some(u) => Ok(u),
            None => Err(Error::Validation(ValidationReason::UnknownUser)),
        }
    }

    /// Every registered user with its identity string, in registry order.
    pub fn show_all_users(&self) -> (r: Vec<(String, User)>)
        ensures
            r@ == self.users@,
    {
        let n = self.users.len();
        let mut out: Vec<(String, User)> = Vec::new();
        let mut i: usize = 0;
        while i < n
            invariant
                i <= n == self.users@.len(),
                out@ =~= self.users@.take(i as int),
            decreases n - i,
        {
            out.push((self.users[i].0.clone(), self.users[i].1.clone()));
            proof {
                assert(out@ =~= self.users@.take(i + 1));
            }
            i += 1;
        }
        proof {
            assert(self.users@.take(n as int) =~= self.users@);
        }
        out
    }

    /// Registers the caller once; a second registration is rejected and
    /// leaves the registry untouched.
    pub fn register(&mut self, principal: String, nickname: String) -> (r: Result<User, Error>)
        ensures
            final(self).boxes == old(self).boxes,
            final(self).miners == old(self).miners,
            final(self).box_miner == old(self).box_miner,
            final(self).sub_index == old(self).sub_index,
            old(self).spec_has_user(principal@) ==> {
                &&& r == Err::<User, Error>(Error::Validation(ValidationReason::AlreadyRegistered))
                &&& final(self).users == old(self).users
            },
            !old(self).spec_has_user(principal@) ==> {
                &&& r == Ok::<User, Error>(User { nickname: nickname })
                &&& final(self).users@ == old(self).users@.push(
                    (principal, User { nickname: nickname }),
                )
            },
            old(self).wf() ==> final(self).wf(),
    {
        let already = self.get_user_by_princ(principal.clone());
        if already.is_some() {
            return Err(Error::Validation(ValidationReason::AlreadyRegistered));
        }
        let user = User { nickname };
        let out = user.clone();
        self.users.push((principal, user));
        Ok(out)
    }

    /// Looks a box up by its handle.
    pub fn get_box(&self, id: &String) -> (r: Option<BoxInfo>)
        ensures
            match r {
                Some(b) => exists|i: int|
                    0 <= i < self.boxes@.len() && self.boxes@[i].canister_id@ == id@
                        && self.boxes@[i] == b,
                None => !self.spec_has_box(id@),
            },
    {
        let n = self.boxes.len();
        let mut i: usize = 0;
        while i < n
            invariant
                i <= n == self.boxes@.len(),
                forall|j: int| 0 <= j < i ==> self.boxes@[j].canister_id@ != id@,
            decreases n - i,
        {
            if self.boxes[i].canister_id == *id {
                return Some(self.boxes[i].clone());
            }
            i += 1;
        }
        None
    }

    /// The miners currently eligible for the draw of box `box_id`: those
    /// staked into it whose own settlement has not yet ended them.
    pub fn get_active_miners(&self, box_id: String) -> (r: Vec<Miner>)
        ensures
            r@ == eligible_miners_of(self.miners@, box_id@),
    {
        let n = self.miners.len();
        let mut out: Vec<Miner> = Vec::new();
        let mut i: usize = 0;
        proof {
            assert(out@ =~= eligible_miners_of(self.miners@.take(0), box_id@)) by {
                reveal(Seq::filter);
            }
        }
        while i < n
            invariant
                i <= n == self.miners@.len(),
                out@ =~= eligible_miners_of(self.miners@.take(i as int), box_id@),
            decreases n - i,
        {
            let m = &self.miners[i];
            if m.box_id == box_id && !m.is_end {
                out.push(m.clone());
            }
            proof {
                reveal(Seq::filter);
                assert(self.miners@.take(i + 1).drop_last() =~= self.miners@.take(i as int));
                assert(self.miners@.take(i + 1).last() == self.miners@[i as int]);
                assert(out@ =~= eligible_miners_of(self.miners@.take(i + 1), box_id@));
            }
            i += 1;
        }
        proof {
            assert(self.miners@.take(n as int) =~= self.miners@);
        }
        out
    }

    /// Ends the box recorded under `id`, if any. A duplicate invocation
    /// finds the flag already set and changes nothing.
    pub fn mark_box_ended(&mut self, id: &String)
        ensures
            final(self).boxes@ == mark_box_seq(old(self).boxes@, id@),
            final(self).users == old(self).users,
            final(self).miners == old(self).miners,
            final(self).box_miner == old(self).box_miner,
            final(self).sub_index == old(self).sub_index,
            old(self).wf() ==> final(self).wf(),
    {
        let n = self.boxes.len();
        let mut updated: Vec<BoxInfo> = Vec::new();
        let mut i: usize = 0;
        while i < n
            invariant
                i <= n == self.boxes@.len(),
                updated@ =~= mark_box_seq(self.boxes@.take(i as int), id@),
            decreases n - i,
        {
            let b = &self.boxes[i];
            if b.canister_id == *id {
                updated.push(
                    BoxInfo {
                        user: b.user.clone(),
                        canister_id: b.canister_id.clone(),
                        reg_date: b.reg_date,
                        end_date: b.end_date,
                        is_end: true,
                    },
                );
            } else {
                updated.push(b.clone());
            }
            proof {
                assert(updated@ =~= mark_box_seq(self.boxes@.take(i + 1), id@));
            }
            i += 1;
        }
        proof {
            assert(self.boxes@.take(n as int) =~= self.boxes@);
            assert(updated@ =~= mark_box_seq(self.boxes@, id@));
        }
        self.boxes = updated;
    }

    /// Ends the miner recorded under `id`, if any; idempotent in effect.
    pub fn mark_miner_ended(&mut self, id: &String)
        ensures
            final(self).miners@ == mark_miner_seq(old(self).miners@, id@),
            final(self).users == old(self).users,
            final(self).boxes == old(self).boxes,
            final(self).box_miner == old(self).box_miner,
            final(self).sub_index == old(self).sub_index,
            old(self).wf() ==> final(self).wf(),
    {
        let n = self.miners.len();
        let mut updated: Vec<Miner> = Vec::new();
        let mut i: usize = 0;
        while i < n
            invariant
                i <= n == self.miners@.len(),
                updated@ =~= mark_miner_seq(self.miners@.take(i as int), id@),
            decreases n - i,
        {
            let m = &self.miners[i];
            if m.canister_id == *id {
                updated.push(
                    Miner {
                        user: m.user.clone(),
                        box_id: m.box_id.clone(),
                        canister_id: m.canister_id.clone(),
                        reg_date: m.reg_date,
                        end_date: m.end_date,
                        is_end: true,
                    },
                );
            } else {
                updated.push(m.clone());
            }
            proof {
                assert(updated@ =~= mark_miner_seq(self.miners@.take(i + 1), id@));
            }
            i += 1;
        }
        proof {
            assert(self.miners@.take(n as int) =~= self.miners@);
            assert(updated@ =~= mark_miner_seq(self.miners@, id@));
        }
        self.miners = updated;
    }

    /// Looks a miner up by its handle.
    pub fn get_miner(&self, id: &String) -> (r: Option<Miner>)
        ensures
            match r {
                Some(m) => exists|i: int|
                    0 <= i < self.miners@.len() && self.miners@[i].canister_id@ == id@
                        && self.miners@[i] == m,
                None => !self.spec_has_miner(id@),
            },
    {
        let n = self.miners.len();
        let mut i: usize = 0;
        while i < n
            invariant
                i <= n == self.miners@.len(),
                forall|j: int| 0 <= j < i ==> self.miners@[j].canister_id@ != id@,
            decreases n - i,
        {
            if self.miners[i].canister_id == *id {
                return Some(self.miners[i].clone());
            }
            i += 1;
        }
        None
    }
}

} // verus!
