//! Derivation of custodial subaccounts.
//!
//! Every box and every miner escrows its funds in an isolated sub-ledger
//! account derived from the service's own identity bytes and a process-wide
//! monotonic counter. Collision freedom rests on the counter never
//! repeating a value; the derivation itself is a pure, total function.

use vstd::prelude::*;

verus! {

/// Width in bytes of a custodial subaccount identifier.
pub const SUBACCOUNT_LEN: usize = 32;

/// The subaccount derived from an owner identity and a counter value:
/// byte 0 carries the low byte of the index, bytes 1.. carry the owner's
/// canonical bytes (truncated to fit), and the remainder stays zero.
pub open spec fn subaccount_bytes(owner: Seq<u8>, index: u32) -> Seq<u8> {
    Seq::new(
        SUBACCOUNT_LEN as nat,
        |k: int|
            if k == 0 {
                (index % 256) as u8
            } else if k - 1 < owner.len() {
                owner[k - 1]
            } else {
                0u8
            },
    )
}

/// Derives the fixed-width custodial subaccount for `user_id` at counter
/// value `index`. Total on every input: an identity longer than the
/// available width is truncated, never rejected.
pub fn create_subaccount(user_id: &Vec<u8>, index: u32) -> (sub: Vec<u8>)
    ensures
        sub@ == subaccount_bytes(user_id@, index),
        sub@.len() == SUBACCOUNT_LEN,
{
    let mut sub: Vec<u8> = Vec::new();
    sub.push((index % 256) as u8);
    let mut k: usize = 1;
    while k < SUBACCOUNT_LEN
        invariant
            1 <= k <= SUBACCOUNT_LEN,
            sub@.len() == k,
            sub@[0] == (index % 256) as u8,
            forall|j: int|
                1 <= j < k ==> sub@[j] == (if j - 1 < user_id@.len() {
                    user_id@[j - 1]
                } else {
                    0u8
                }),
        decreases SUBACCOUNT_LEN - k,
    {
        if k - 1 < user_id.len() {
            sub.push(user_id[k - 1]);
        } else {
            sub.push(0);
        }
        k += 1;
    }
    proof {
        assert(sub@ =~= subaccount_bytes(user_id@, index));
    }
    sub
}

/// Two counter values whose low bytes differ always derive distinct
/// subaccounts for the same owner. The low byte alone reaches the
/// identifier, so indices that agree modulo 256 are outside this claim.
pub proof fn lemma_subaccount_injective(owner: Seq<u8>, i: u32, j: u32)
    requires
        i % 256 != j % 256,
    ensures
        subaccount_bytes(owner, i) != subaccount_bytes(owner, j),
{
    assert(subaccount_bytes(owner, i)[0] == (i % 256) as u8);
    assert(subaccount_bytes(owner, j)[0] == (j % 256) as u8);
}

} // verus!
