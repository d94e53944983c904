//! The listing query: every box whose lottery is still running, as a
//! summary row, sorted by expiry with the latest end first.

use vstd::prelude::*;
use vstd::multiset::Multiset;
use vstd::seq_lib::to_multiset_insert;

use crate::registry::{display_name_of, eligible_miners_of, LotteryState};
use crate::types::{BoxInfo, BoxSummaryView, BoxWithCount};

verus! {

/// Sorted by expiry, latest end first.
pub open spec fn sorted_by_end_date_desc(s: Seq<BoxWithCount>) -> bool {
    forall|i: int, j: int| 0 <= i < j < s.len() ==> s[i].end_date >= s[j].end_date
}

/// The summary row a box contributes to the listing: its creator's
/// display name and its count of currently eligible miners.
pub open spec fn summary_view_of(s: LotteryState, b: BoxInfo) -> BoxSummaryView {
    BoxSummaryView {
        username: display_name_of(s.users@, b.user@),
        miner_count: eligible_miners_of(s.miners@, b.canister_id@).len() as u32,
        end_date: b.end_date,
        reg_date: b.reg_date,
        canister_id: b.canister_id@,
    }
}

/// The summaries of the not-yet-ended boxes among the first `n`
/// recorded, as a multiset: the listing promises content, the order is
/// promised separately.
pub open spec fn active_summary_views(s: LotteryState, n: int) -> Multiset<BoxSummaryView>
    decreases n,
{
    if n <= 0 {
        Multiset::empty()
    } else if s.boxes@[n - 1].is_end {
        active_summary_views(s, n - 1)
    } else {
        active_summary_views(s, n - 1).insert(summary_view_of(s, s.boxes@[n - 1]))
    }
}

/// The rows' mathematical content, element for element.
pub open spec fn views_of(s: Seq<BoxWithCount>) -> Seq<BoxSummaryView> {
    s.map_values(|b: BoxWithCount| b@)
}

/// Inserts a row into a descending-sorted listing, keeping it sorted.
fn sorted_insert(v: &mut Vec<BoxWithCount>, x: BoxWithCount) -> (pos: usize)
    requires
        sorted_by_end_date_desc(old(v)@),
        old(v)@.len() < usize::MAX,
    ensures
        pos <= old(v)@.len(),
        final(v)@ == old(v)@.insert(pos as int, x),
        sorted_by_end_date_desc(final(v)@),
{
    let mut i: usize = 0;
    while i < v.len() && v[i].end_date >= x.end_date
        invariant
            i <= v@.len(),
            v == old(v),
            forall|j: int| 0 <= j < i ==> v@[j].end_date >= x.end_date,
        decreases v@.len() - i,
    {
        i += 1;
    }
    proof {
        assert forall|a: int, b: int|
            0 <= a < b < old(v)@.insert(i as int, x).len() implies old(v)@.insert(
            i as int,
            x,
        )[a].end_date >= old(v)@.insert(i as int, x)[b].end_date by {
            let s = old(v)@.insert(i as int, x);
            if a < i && b == i {
                assert(s[a] == old(v)@[a]);
            } else if a == i && b > i {
                assert(s[b] == old(v)@[b - 1]);
                assert(old(v)@[i as int].end_date < x.end_date || i == old(v)@.len());
            }
        }
    }
    v.insert(i, x);
    i
}

impl LotteryState {
    /// Lists every box whose lottery is still running: one summary row
    /// per live box, sorted by expiry with the latest end first.
    pub fn get_all_boxes(&self) -> (r: Vec<BoxWithCount>)
        requires
            self.wf(),
            self.miners@.len() <= u32::MAX,
        ensures
            views_of(r@).to_multiset() == active_summary_views(*self, self.boxes@.len() as int),
            sorted_by_end_date_desc(r@),
    {
        let n = self.boxes.len();
        let mut result: Vec<BoxWithCount> = Vec::new();
        let mut i: usize = 0;
        proof {
            broadcast use vstd::seq_lib::group_to_multiset_ensures;

            assert(views_of(result@) =~= Seq::<BoxSummaryView>::empty());
            assert(views_of(result@).to_multiset() =~= Multiset::<BoxSummaryView>::empty());
        }
        while i < n
            invariant
                i <= n == self.boxes@.len(),
                self.wf(),
                self.miners@.len() <= u32::MAX,
                result@.len() <= i,
                views_of(result@).to_multiset() == active_summary_views(*self, i as int),
                sorted_by_end_date_desc(result@),
            decreases n - i,
        {
            let b = &self.boxes[i];
            if !b.is_end {
                let active = self.get_active_miners(b.canister_id.clone());
                let username = self.lookup_display_name(&b.user);
                let summary = BoxWithCount {
                    username: username,
                    miner_count: active.len() as u32,
                    end_date: b.end_date,
                    reg_date: b.reg_date,
                    canister_id: b.canister_id.clone(),
                };
                proof {
                    assert(summary@ == summary_view_of(*self, self.boxes@[i as int]));
                }
                let ghost before = result@;
                let pos = sorted_insert(&mut result, summary);
                proof {
                    assert(views_of(result@) =~= views_of(before).insert(pos as int, summary@));
                    to_multiset_insert::<BoxSummaryView>(views_of(before), pos as int, summary@);
                }
            }
            i += 1;
            proof {
                assert(views_of(result@).to_multiset() == active_summary_views(*self, i as int));
            }
        }
        result
    }
}

} // verus!
