//! The data model of the escrow core: participants, prize boxes, staking
//! miners, and the summaries served to listing queries.

use vstd::prelude::*;

verus! {

/// A registered participant. Keyed in the registry by identity string;
/// immutable after registration and never deleted.
#[derive(Debug, PartialEq, Eq)]
pub struct User {
    pub nickname: String,
}

impl Clone for User {
    fn clone(&self) -> (res: Self)
        ensures
            res == *self,
    {
        User { nickname: self.nickname.clone() }
    }
}

/// A prize box: a pool with a fixed lifetime, created when `user` locked an
/// award into the custodial subaccount bound to `canister_id`. `is_end`
/// flips false to true exactly once, by the box's own settlement.
#[derive(Debug, PartialEq, Eq)]
pub struct BoxInfo {
    pub user: String,
    pub canister_id: String,
    pub reg_date: u64,
    pub end_date: u64,
    pub is_end: bool,
}

impl Clone for BoxInfo {
    fn clone(&self) -> (res: Self)
        ensures
            res == *self,
    {
        BoxInfo {
            user: self.user.clone(),
            canister_id: self.canister_id.clone(),
            reg_date: self.reg_date,
            end_date: self.end_date,
            is_end: self.is_end,
        }
    }
}

/// A staking position against one box. A miner may outlive its box; the
/// two settlements race independently and both orders are tolerated.
#[derive(Debug, PartialEq, Eq)]
pub struct Miner {
    pub user: String,
    pub box_id: String,
    pub canister_id: String,
    pub reg_date: u64,
    pub end_date: u64,
    pub is_end: bool,
}

impl Clone for Miner {
    fn clone(&self) -> (res: Self)
        ensures
            res == *self,
    {
        Miner {
            user: self.user.clone(),
            box_id: self.box_id.clone(),
            canister_id: self.canister_id.clone(),
            reg_date: self.reg_date,
            end_date: self.end_date,
            is_end: self.is_end,
        }
    }
}

/// The summary of a live box served to listing queries: the creator's
/// display name and the number of currently eligible miners.
#[derive(Debug, PartialEq, Eq)]
pub struct BoxWithCount {
    pub username: String,
    pub miner_count: u32,
    pub end_date: u64,
    pub reg_date: u64,
    pub canister_id: String,
}

impl Clone for BoxWithCount {
    fn clone(&self) -> (res: Self)
        ensures
            res == *self,
    {
        BoxWithCount {
            username: self.username.clone(),
            miner_count: self.miner_count,
            end_date: self.end_date,
            reg_date: self.reg_date,
            canister_id: self.canister_id.clone(),
        }
    }
}

/// The mathematical content of a `BoxWithCount`, used by contracts.
pub ghost struct BoxSummaryView {
    pub username: Seq<char>,
    pub miner_count: u32,
    pub end_date: u64,
    pub reg_date: u64,
    pub canister_id: Seq<char>,
}

impl View for BoxWithCount {
    type V = BoxSummaryView;

    open spec fn view(&self) -> BoxSummaryView {
        BoxSummaryView {
            username: self.username@,
            miner_count: self.miner_count,
            end_date: self.end_date,
            reg_date: self.reg_date,
            canister_id: self.canister_id@,
        }
    }
}

/// Argument of the ledger's balance query: a raw account identifier.
pub struct AccountBalanceArgs {
    pub account: Vec<u8>,
}

/// Answer of the ledger's balance query: a balance in e8s units.
pub struct BalanceArgs {
    pub e8s: u64,
}

} // verus!
