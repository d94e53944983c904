use miner_backend::config::FEE;
use miner_backend::registry::LotteryState;
use miner_backend::settlement::{
    box_settlement_payout, le_u64_from_bytes, miner_settlement_plan, miner_split, Recipient,
};
use miner_backend::types::{BoxInfo, Miner};

fn demo_miner(id: &str, box_id: &str, owner: &str, ended: bool) -> Miner {
    Miner {
        user: owner.to_string(),
        box_id: box_id.to_string(),
        canister_id: id.to_string(),
        reg_date: 1,
        end_date: 2,
        is_end: ended,
    }
}

fn rand_bytes(first: u8) -> Vec<u8> {
    let mut b = vec![0u8; 32];
    b[0] = first;
    b
}

#[test]
fn le_u64_reads_little_endian() {
    assert_eq!(le_u64_from_bytes(&vec![1, 0, 0, 0, 0, 0, 0, 0]), 1);
    assert_eq!(le_u64_from_bytes(&vec![0, 1, 0, 0, 0, 0, 0, 0]), 256);
    assert_eq!(
        le_u64_from_bytes(&vec![0xFF; 8]),
        u64::MAX
    );
    // bytes past the eighth are ignored
    assert_eq!(le_u64_from_bytes(&vec![2, 0, 0, 0, 0, 0, 0, 0, 0xFF]), 2);
}

#[test]
fn split_is_exact_on_the_minimum() {
    let (prize, creator, admin) = miner_split(500_000);
    assert_eq!(prize, 125_000);
    assert_eq!(creator, 325_000);
    assert_eq!(admin, 50_000);
    assert_eq!(prize + creator + admin, 500_000);
}

#[test]
fn split_remainder_absorbs_rounding() {
    let (prize, creator, admin) = miner_split(1_000_001);
    assert_eq!(prize, 250_000);
    assert_eq!(creator, 650_000);
    assert_eq!(admin, 100_001);
    assert_eq!(prize + creator + admin, 1_000_001);
}

#[test]
fn matured_miner_splits_three_ways_while_box_is_open() {
    let legs = miner_settlement_plan(500_000, false);
    assert_eq!(legs.len(), 3);
    assert_eq!(legs[0].amount, 50_000 - FEE);
    assert_eq!(legs[0].recipient, Recipient::Platform);
    assert_eq!(legs[1].amount, 325_000 - FEE);
    assert_eq!(legs[1].recipient, Recipient::BoxCreator);
    assert_eq!(legs[2].amount, 125_000 - FEE);
    assert_eq!(legs[2].recipient, Recipient::PrizePool);
    // conservation: amounts plus one fee per leg sum to the stake
    let outflow: u64 = legs.iter().map(|l| l.amount + FEE).sum();
    assert_eq!(outflow, 500_000);
}

#[test]
fn matured_miner_sweeps_whole_stake_when_box_already_ended() {
    let legs = miner_settlement_plan(750_000, true);
    assert_eq!(legs.len(), 1);
    assert_eq!(legs[0].amount, 750_000 - FEE);
    assert_eq!(legs[0].recipient, Recipient::Platform);
    assert_eq!(legs[0].amount + FEE, 750_000);
}

#[test]
fn box_payout_goes_to_winner_or_back_to_creator() {
    let winner = Some(demo_miner("m-1", "box-1", "winner-id", false));
    let (amount, to) = box_settlement_payout(1_000_000, &winner, &"creator-id".to_string());
    assert_eq!(amount, 1_000_000 - FEE);
    assert_eq!(to, "winner-id");

    let (amount2, to2) = box_settlement_payout(1_000_000, &None, &"creator-id".to_string());
    assert_eq!(amount2, 1_000_000 - FEE);
    assert_eq!(to2, "creator-id");
}

#[test]
fn draw_on_empty_pool_returns_none() {
    let state = LotteryState::new();
    let r = state.choose_random_miner("box-1".to_string(), &rand_bytes(0));
    assert!(r.is_none());
}

#[test]
fn draw_picks_by_randomness_modulo_pool_size() {
    let mut state = LotteryState::new();
    state.miners.push(demo_miner("m-1", "box-1", "a", false));
    state.miners.push(demo_miner("m-2", "box-1", "b", false));

    let first = state.choose_random_miner("box-1".to_string(), &rand_bytes(0));
    assert_eq!(first.unwrap().canister_id, "m-1");
    let second = state.choose_random_miner("box-1".to_string(), &rand_bytes(1));
    assert_eq!(second.unwrap().canister_id, "m-2");
    let wrapped = state.choose_random_miner("box-1".to_string(), &rand_bytes(4));
    assert_eq!(wrapped.unwrap().canister_id, "m-1");
}

#[test]
fn draw_ignores_ended_and_foreign_miners() {
    let mut state = LotteryState::new();
    state.miners.push(demo_miner("m-1", "box-1", "a", true));
    state.miners.push(demo_miner("m-2", "box-2", "b", false));
    state.miners.push(demo_miner("m-3", "box-1", "c", false));

    for first in 0..8u8 {
        let r = state.choose_random_miner("box-1".to_string(), &rand_bytes(first));
        assert_eq!(r.unwrap().canister_id, "m-3");
    }
}

#[test]
fn draw_reaches_every_pool_member() {
    let mut state = LotteryState::new();
    state.miners.push(demo_miner("m-1", "box-1", "a", false));
    state.miners.push(demo_miner("m-2", "box-1", "b", false));
    state.miners.push(demo_miner("m-3", "box-1", "c", false));

    let mut hits = [0u32; 3];
    for first in 0..255u8 {
        let r = state
            .choose_random_miner("box-1".to_string(), &rand_bytes(first))
            .unwrap();
        match r.canister_id.as_str() {
            "m-1" => hits[0] += 1,
            "m-2" => hits[1] += 1,
            "m-3" => hits[2] += 1,
            _ => panic!("drew a miner outside the pool"),
        }
    }
    assert!(hits.iter().all(|&h| h == 85));
}

#[test]
fn box_ended_reread_tolerates_both_settlement_orders() {
    let mut state = LotteryState::new();
    state.boxes.push(BoxInfo {
        user: "creator".to_string(),
        canister_id: "box-1".to_string(),
        reg_date: 1,
        end_date: 10,
        is_end: false,
    });
    assert!(!state.box_ended_for_miner(&"box-1".to_string()));
    state.mark_box_ended(&"box-1".to_string());
    assert!(state.box_ended_for_miner(&"box-1".to_string()));
    // a box that was never recorded counts as ended: sweep, don't split
    assert!(state.box_ended_for_miner(&"box-gone".to_string()));
}
