//! Abstract model of the control plane: the playlist, the id counter, the
//! currently active item and the session flag, together with the switch
//! controller's transition rules and the laws proved about them.

use vstd::prelude::*;
use vstd::arithmetic::div_mod::{
    lemma_add_mod_noop_right, lemma_mod_division_less_than_divisor, lemma_small_mod,
};
use crate::models::PlaylistItem;

verus! {

/// The whole control-plane state, as the contracts speak of it.
pub struct ControlState {
    /// The playlist, in playback order.
    pub items: Seq<PlaylistItem>,
    /// The id the next added item receives; larger than every id handed out.
    pub next_id: u64,
    /// The id of the item presently selected as the active input, if any.
    /// "Active" means "selected", not "confirmed flowing downstream".
    pub current: Option<u64>,
    /// Whether a streaming session (a processing graph) is up.
    pub running: bool,
}

/// No two items share an id.
pub open spec fn unique_ids(items: Seq<PlaylistItem>) -> bool {
    forall|i: int, j: int|
        0 <= i < j < items.len() ==> (#[trigger] items[i]).id != (#[trigger] items[j]).id
}

/// Some item carries this id.
pub open spec fn has_id(items: Seq<PlaylistItem>, id: u64) -> bool {
    exists|i: int| 0 <= i < items.len() && (#[trigger] items[i]).id == id
}

/// The position of the item with this id; meaningful when `has_id` holds,
/// and then unique under `unique_ids`.
pub open spec fn position_of(items: Seq<PlaylistItem>, id: u64) -> int {
    choose|i: int| 0 <= i < items.len() && (#[trigger] items[i]).id == id
}

impl ControlState {
    /// Well-formedness: ids are unique, and all of them were handed out
    /// by the counter, so the counter never reuses one.
    pub open spec fn wf(self) -> bool {
        &&& unique_ids(self.items)
        &&& forall|i: int|
            0 <= i < self.items.len() ==> (#[trigger] self.items[i]).id < self.next_id
    }

    /// A switch can pick an item exactly when the playlist is non-empty.
    pub open spec fn can_advance(self) -> bool {
        self.items.len() > 0
    }

    /// Round-robin choice of the next playback position: the slot after the
    /// current item, wrapping at the end. When nothing is current, or the
    /// current item has been removed from the playlist, restart at the head.
    pub open spec fn next_index(self) -> int {
        if self.current is Some && has_id(self.items, self.current->Some_0) {
            (position_of(self.items, self.current->Some_0) + 1) % (self.items.len() as int)
        } else {
            0
        }
    }

    /// The state after one successful switch: the chosen item is now current.
    pub open spec fn advanced(self) -> ControlState {
        ControlState { current: Some(self.items[self.next_index()].id), ..self }
    }

    /// The state after `stop`: no session, nothing current, playlist kept.
    pub open spec fn stopped(self) -> ControlState {
        ControlState { current: None, running: false, ..self }
    }
}

/// The state after `n` successive successful switches.
pub open spec fn advanced_times(s: ControlState, n: nat) -> ControlState
    decreases n,
{
    if n == 0 {
        s
    } else {
        advanced_times(s, (n - 1) as nat).advanced()
    }
}

/// Under unique ids, `position_of` is the one position that carries the id.
pub proof fn lemma_position_of_unique(items: Seq<PlaylistItem>, id: u64, i: int)
    requires
        unique_ids(items),
        0 <= i < items.len(),
        items[i].id == id,
    ensures
        position_of(items, id) == i,
{
    assert(has_id(items, id));
    let j = position_of(items, id);
    assert(0 <= j < items.len() && items[j].id == id);
}

/// The chosen position of a switch is always inside the playlist.
pub proof fn lemma_next_index_in_range(s: ControlState)
    requires
        s.can_advance(),
    ensures
        0 <= s.next_index() < s.items.len(),
{
    if s.current is Some && has_id(s.items, s.current->Some_0) {
        lemma_mod_division_less_than_divisor(
            position_of(s.items, s.current->Some_0) + 1,
            s.items.len() as int,
        );
    }
}

/// A switch changes which item is current and nothing else.
pub proof fn lemma_advanced_frame(s: ControlState)
    ensures
        s.advanced().items == s.items,
        s.advanced().next_id == s.next_id,
        s.advanced().running == s.running,
        s.wf() ==> s.advanced().wf(),
{
}

/// Round-robin law: from an idle selection, the `k+1`-th switch activates
/// the item at position `k` modulo the playlist length. In particular the
/// first `N` switches activate the items in insertion order, and the
/// `N+1`-th wraps around to the head again.
pub proof fn lemma_round_robin(s: ControlState, k: int)
    requires
        s.wf(),
        s.current is None,
        s.can_advance(),
        0 <= k,
    ensures
        advanced_times(s, (k + 1) as nat).items == s.items,
        advanced_times(s, (k + 1) as nat).next_id == s.next_id,
        advanced_times(s, (k + 1) as nat).current
            == Some(s.items[k % (s.items.len() as int)].id),
    decreases k,
{
    let n = s.items.len() as int;
    if k == 0 {
        assert(advanced_times(s, 1) == s.advanced());
        assert(s.next_index() == 0);
        lemma_small_mod(0, n as nat);
    } else {
        lemma_round_robin(s, k - 1);
        let t = advanced_times(s, k as nat);
        assert(advanced_times(s, (k + 1) as nat) == t.advanced());
        let p = (k - 1) % n;
        lemma_mod_division_less_than_divisor(k - 1, n);
        let id = s.items[p].id;
        assert(t.current == Some(id));
        assert(has_id(t.items, id));
        lemma_position_of_unique(t.items, id, p);
        assert(t.next_index() == (p + 1) % n);
        lemma_add_mod_noop_right(1, k - 1, n);
        assert((1 + (k - 1) % n) % n == k % n);
        assert(t.advanced().current == Some(s.items[k % n].id));
    }
}

/// Removing the current item's id makes the next switch restart at the head.
pub proof fn lemma_removed_current_restarts(s: ControlState, id: u64)
    requires
        s.current == Some(id),
        !has_id(s.items, id),
    ensures
        s.next_index() == 0,
{
}

/// Every element of a filtered sequence is an element of the original.
pub proof fn lemma_filter_members(items: Seq<PlaylistItem>, pred: spec_fn(PlaylistItem) -> bool)
    ensures
        forall|k: int|
            0 <= k < items.filter(pred).len() ==> items.contains(#[trigger] items.filter(pred)[k]),
    decreases items.len(),
{
    reveal(Seq::filter);
    if items.len() > 0 {
        let rest = items.drop_last();
        lemma_filter_members(rest, pred);
        assert forall|k: int|
            0 <= k < items.filter(pred).len() implies items.contains(
            #[trigger] items.filter(pred)[k],
        ) by {
            if pred(items.last()) && k == items.filter(pred).len() - 1 {
                assert(items[items.len() - 1] == items.filter(pred)[k]);
            } else {
                assert(items.filter(pred)[k] == rest.filter(pred)[k]);
                let m = choose|m: int| 0 <= m < rest.len() && rest[m] == rest.filter(pred)[k];
                assert(items[m] == items.filter(pred)[k]);
            }
        }
    }
}

/// Filtering keeps ids unique: the kept items stand in their old order and
/// no id is introduced.
pub proof fn lemma_filter_keeps_unique_ids(
    items: Seq<PlaylistItem>,
    pred: spec_fn(PlaylistItem) -> bool,
)
    requires
        unique_ids(items),
    ensures
        unique_ids(items.filter(pred)),
    decreases items.len(),
{
    reveal(Seq::filter);
    if items.len() > 0 {
        let rest = items.drop_last();
        assert(unique_ids(rest)) by {
            assert(forall|i: int| 0 <= i < rest.len() ==> rest[i] == items[i]);
        }
        lemma_filter_keeps_unique_ids(rest, pred);
        if pred(items.last()) {
            lemma_filter_members(rest, pred);
            let out = items.filter(pred);
            assert forall|i: int, j: int|
                0 <= i < j < out.len() implies (#[trigger] out[i]).id != (#[trigger] out[j]).id by {
                if j == out.len() - 1 {
                    assert(rest.contains(out[i]));
                    let m = choose|m: int| 0 <= m < rest.len() && rest[m] == out[i];
                    assert(items[m] == out[i]);
                    assert(items[items.len() - 1] == out[j]);
                } else {
                    assert(out[i] == rest.filter(pred)[i]);
                    assert(out[j] == rest.filter(pred)[j]);
                }
            }
        }
    }
}

/// After filtering an id out, no item carries it: together with
/// `lemma_removed_current_restarts`, removing the current item's id makes
/// the next switch select the head of the remaining items.
pub proof fn lemma_remove_erases_id(items: Seq<PlaylistItem>, id: u64)
    ensures
        !has_id(items.filter(|it: PlaylistItem| it.id != id), id),
{
    let pred = |it: PlaylistItem| it.id != id;
    items.filter_lemma(pred);
}

/// Moving one item, that is removing it and reinserting it elsewhere,
/// keeps the state well formed.
pub proof fn lemma_move_keeps_wf(s: ControlState, i: int, j: int)
    requires
        s.wf(),
        0 <= i < s.items.len(),
        0 <= j < s.items.len(),
    ensures
        (ControlState { items: s.items.remove(i).insert(j, s.items[i]), ..s }).wf(),
{
    let removed = s.items.remove(i);
    s.items.remove_ensures(i);
    assert(unique_ids(removed)) by {
        assert forall|p: int, q: int|
            0 <= p < q < removed.len() implies (#[trigger] removed[p]).id != (
        #[trigger] removed[q]).id by {
            assert(removed[p] == if p < i { s.items[p] } else { s.items[p + 1] });
            assert(removed[q] == if q < i { s.items[q] } else { s.items[q + 1] });
        }
    }
    assert(!has_id(removed, s.items[i].id)) by {
        assert forall|p: int| 0 <= p < removed.len() implies (#[trigger] removed[p]).id
            != s.items[i].id by {
            assert(removed[p] == if p < i { s.items[p] } else { s.items[p + 1] });
        }
    }
    let moved = removed.insert(j, s.items[i]);
    removed.insert_ensures(j, s.items[i]);
    assert(unique_ids(moved)) by {
        assert forall|p: int, q: int|
            0 <= p < q < moved.len() implies (#[trigger] moved[p]).id != (#[trigger] moved[q]).id by {
            if p != j && q != j {
                let p0: int = if p < j { p } else { p - 1 };
                let q0: int = if q < j { q } else { q - 1 };
                assert(moved[p] == removed[p0]);
                assert(moved[q] == removed[q0]);
            }
        }
    }
    assert forall|p: int| 0 <= p < moved.len() implies (#[trigger] moved[p]).id < s.next_id by {
        if p != j {
            let p0: int = if p < j { p } else { p - 1 };
            assert(moved[p] == removed[p0]);
            assert(removed[p0] == if p0 < i { s.items[p0] } else { s.items[p0 + 1] });
        }
    }
}

/// Stopping twice is the same as stopping once: `stopped` is idempotent.
pub proof fn lemma_stop_idempotent(s: ControlState)
    ensures
        s.stopped().stopped() == s.stopped(),
{
}

} // verus!
