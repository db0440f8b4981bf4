//! Properties that relate several controller operations, proved once and for
//! all from the operations' contracts.

use vstd::prelude::*;

use crate::app::{advance_rel, iter_next_position, reorder_rel, App};
use crate::play_mode::PlayMode;
use crate::playlist::{identity_seq, is_index_permutation};

verus! {

/// However many mode changes and navigations have run, a well-formed
/// controller's playlist is a permutation of the catalog indices `0..len`:
/// every operation keeps `wf`, and `wf` contains exactly this.
pub proof fn lemma_playlist_is_permutation(a: App)
    requires
        a.wf(),
    ensures
        is_index_permutation(a.playlist@, a.songs@.len()),
{
}

/// Four successive mode toggles starting from Normal return the mode to
/// Normal and the ordering to the initial ascending one.
pub proof fn lemma_mode_cycle_restores_order(a0: App, a1: App, a2: App, a3: App, a4: App)
    requires
        a0.play_mode == PlayMode::Normal,
        reorder_rel(a0, a1),
        reorder_rel(a1, a2),
        reorder_rel(a2, a3),
        reorder_rel(a3, a4),
    ensures
        a4.play_mode == PlayMode::Normal,
        a4.songs@ == a0.songs@,
        a4.playlist@ == identity_seq(a0.songs@.len()),
{
}

/// `k` forward steps land on the start plus `k`, wrapped once past the end.
pub proof fn lemma_iter_next_position_closed_form(pos: int, len: int, k: nat)
    requires
        0 <= pos < len,
        k <= len,
    ensures
        iter_next_position(pos, len, k) == if pos + k < len {
            pos + k
        } else {
            pos + k - len
        },
    decreases k,
{
    if k > 0 {
        lemma_iter_next_position_closed_form(pos, len, (k - 1) as nat);
    }
}

/// Along a chain of advances (none under RepeatOne), the playlist, catalog
/// and mode never change, and the cursor walks `next_position` step by step.
proof fn lemma_advance_chain_prefix(states: Seq<App>, k: int)
    requires
        0 <= k < states.len(),
        states[0].songs@.len() > 0,
        states[0].play_mode != PlayMode::RepeatOne,
        forall|i: int|
            0 <= i < states.len() - 1 ==> advance_rel(#[trigger] states[i], states[i + 1]),
    ensures
        states[k].playlist == states[0].playlist,
        states[k].songs == states[0].songs,
        states[k].play_mode == states[0].play_mode,
        states[k].playlist_position as int == iter_next_position(
            states[0].playlist_position as int,
            states[0].playlist@.len() as int,
            k as nat,
        ),
    decreases k,
{
    if k > 0 {
        lemma_advance_chain_prefix(states, k - 1);
        assert(advance_rel(states[k - 1], states[k]));
    }
}

/// Advancing as many times as the playlist has slots returns the cursor to
/// its starting slot, for every mode but RepeatOne. (Under RepeatOne a
/// single advance already changes nothing: `advance_rel` says so directly.)
pub proof fn lemma_advance_circular(states: Seq<App>)
    requires
        states.len() == states[0].playlist@.len() + 1,
        states[0].wf(),
        states[0].songs@.len() > 0,
        states[0].play_mode != PlayMode::RepeatOne,
        forall|i: int|
            0 <= i < states.len() - 1 ==> advance_rel(#[trigger] states[i], states[i + 1]),
    ensures
        states[states.len() - 1].playlist_position == states[0].playlist_position,
        states[states.len() - 1].playlist == states[0].playlist,
{
    let len = states[0].playlist@.len() as int;
    crate::playlist::lemma_perm_facts(states[0].playlist@, states[0].songs@.len());
    lemma_advance_chain_prefix(states, len);
    lemma_iter_next_position_closed_form(
        states[0].playlist_position as int,
        len,
        len as nat,
    );
}

} // verus!
