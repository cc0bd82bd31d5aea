//! Laws of the play queue, over the specifications of its operations.
use vstd::prelude::*;

use crate::playlist::{
    head_of, log_entries, next_mode, present_only, requeued, resolved, saved_tracks, tail_of,
    cycled_queue, is_present, Loop,
};
use crate::text::{joined_lines, lemma_lines_of_joined, lines_of, single_line};
use crate::track::{text_of, Episode, Track};

verus! {

/// Advancing (`Playlist::handle_current_track`) a playlist that holds one
/// track in all, current or queued, neither copies nor loses it: it is the one
/// track held afterwards, unless it was playing in Queue mode, which drops it.
pub proof fn lemma_advance_keeps_single_track(m: Loop, current: Option<Track>, q: Seq<Track>)
    requires
        saved_tracks(current, q).len() == 1,
    ensures
        ({
            let after = saved_tracks(head_of(q), requeued(m, current, tail_of(q)));
            if m == Loop::Queue && current is Some {
                after.len() == 0
            } else {
                after == saved_tracks(current, q)
            }
        }),
{
    match current {
        Some(c) => {
            assert(q.len() == 0);
            assert(seq![c] + Seq::<Track>::empty() == seq![c]);
            assert(Seq::<Track>::empty().push(c) == seq![c]);
        },
        None => {
            assert(q.len() == 1);
            assert(q.drop_first() == Seq::<Track>::empty());
            assert(seq![q[0]] + Seq::<Track>::empty() == q);
        },
    }
}

/// Cycling the loop mode three times (`Playlist::cycle_loop_mode`) comes back
/// to the same mode and the same queue, in the same order.
pub proof fn lemma_cycle_three_times(m: Loop, q: Seq<Track>)
    ensures
        next_mode(next_mode(next_mode(m))) == m,
        cycled_queue(next_mode(next_mode(m)), cycled_queue(next_mode(m), cycled_queue(m, q))) == q,
        cycled_queue(
            next_mode(next_mode(m)),
            cycled_queue(next_mode(m), cycled_queue(m, q)),
        ).to_multiset() == q.to_multiset(),
{
    if q.len() > 0 {
        let b = seq![q.last()] + q.drop_last();
        assert(b.len() == q.len());
        assert(b[0] == q.last());
        assert(b.drop_first() == q.drop_last());
        assert(q.drop_last().push(q.last()) == q);
    }
    let r = cycled_queue(next_mode(next_mode(m)), cycled_queue(next_mode(m), cycled_queue(m, q)));
    assert(r == q);
}

proof fn lemma_entries_are_files(ts: Seq<Track>)
    requires
        forall|i: int| 0 <= i < ts.len() ==> (#[trigger] ts[i]).file is Some,
    ensures
        log_entries(ts).len() == ts.len(),
        forall|i: int| 0 <= i < ts.len() ==> log_entries(ts)[i] == (#[trigger] ts[i]).file.unwrap()@,
    decreases ts.len(),
{
    if ts.len() > 0 {
        let init = ts.drop_last();
        assert forall|i: int| 0 <= i < init.len() implies (#[trigger] init[i]).file is Some by {
            assert(init[i] == ts[i]);
        }
        lemma_entries_are_files(init);
        assert(ts[ts.len() - 1].file is Some);
        assert forall|i: int| 0 <= i < ts.len() implies log_entries(ts)[i] == (
        #[trigger] ts[i]).file.unwrap()@ by {
            if i < ts.len() - 1 {
                assert(init[i] == ts[i]);
            }
        }
    }
}

proof fn lemma_resolved_local(
    lines: Seq<Seq<char>>,
    local: Seq<Option<Track>>,
    eps: Seq<Episode>,
    n: int,
)
    requires
        0 <= n <= local.len(),
        forall|i: int| 0 <= i < local.len() ==> (#[trigger] local[i]) is Some,
    ensures
        resolved(lines, local, eps, n).len() == n,
        forall|i: int|
            0 <= i < n ==> #[trigger] resolved(lines, local, eps, n)[i] == local[i].unwrap(),
    decreases n,
{
    if n > 0 {
        lemma_resolved_local(lines, local, eps, n - 1);
        assert(local[n - 1] is Some);
    }
}

/// Saving the playlist log (`Playlist::log_text`) and loading it back
/// (`Playlist::load`) gives the same tracks in the same order, when every
/// track is a local file whose path holds no line break and the loader reads
/// each line back into a track for that same file.
pub proof fn lemma_save_load_round_trip(
    current: Option<Track>,
    queue: Seq<Track>,
    local: Seq<Option<Track>>,
    eps: Seq<Episode>,
)
    requires
        forall|i: int|
            0 <= i < saved_tracks(current, queue).len() ==> {
                let t = #[trigger] saved_tracks(current, queue)[i];
                t.file is Some && single_line(t.file.unwrap()@)
            },
        local.len() == saved_tracks(current, queue).len(),
        forall|i: int|
            0 <= i < local.len() ==> (#[trigger] local[i]) is Some && text_of(local[i].unwrap().file)
                == text_of(saved_tracks(current, queue)[i].file),
    ensures
        ({
            let saved = saved_tracks(current, queue);
            let lines = lines_of(joined_lines(log_entries(saved)));
            let back = resolved(lines, local, eps, lines.len() as int);
            &&& lines.len() == saved.len()
            &&& back.len() == saved.len()
            &&& forall|i: int|
                0 <= i < saved.len() ==> text_of((#[trigger] back[i]).file) == text_of(saved[i].file)
        }),
{
    let saved = saved_tracks(current, queue);
    assert forall|i: int| 0 <= i < saved.len() implies (#[trigger] saved[i]).file is Some by {}
    lemma_entries_are_files(saved);
    let entries = log_entries(saved);
    assert forall|i: int| 0 <= i < entries.len() implies single_line(#[trigger] entries[i]) by {
        assert(entries[i] == saved[i].file.unwrap()@);
    }
    lemma_lines_of_joined(entries);
    lemma_resolved_local(entries, local, eps, entries.len() as int);
    let back = resolved(entries, local, eps, entries.len() as int);
    assert forall|i: int| 0 <= i < saved.len() implies text_of((#[trigger] back[i]).file) == text_of(
        saved[i].file,
    ) by {
        assert(back[i] == local[i].unwrap());
    }
}

proof fn lemma_present_only_all_present(q: Seq<Track>, on_disk: Set<Seq<char>>)
    ensures
        forall|i: int|
            0 <= i < present_only(q, on_disk).len() ==> is_present(
                #[trigger] present_only(q, on_disk)[i],
                on_disk,
            ),
        present_only(q, on_disk).len() <= q.len(),
    decreases q.len(),
{
    if q.len() > 0 {
        lemma_present_only_all_present(q.drop_last(), on_disk);
    }
}

proof fn lemma_present_only_keeps(q: Seq<Track>, on_disk: Set<Seq<char>>)
    requires
        forall|i: int| 0 <= i < q.len() ==> is_present(#[trigger] q[i], on_disk),
    ensures
        present_only(q, on_disk) == q,
    decreases q.len(),
{
    if q.len() > 0 {
        let init = q.drop_last();
        assert forall|i: int| 0 <= i < init.len() implies is_present(#[trigger] init[i], on_disk) by {
            assert(init[i] == q[i]);
        }
        lemma_present_only_keeps(init, on_disk);
        assert(is_present(q[q.len() - 1], on_disk));
        assert(init.push(q.last()) == q);
    }
}

/// Removing the tracks whose files are gone (`Playlist::remove_missing`, and
/// so `Playlist::remove_deleted_items`) a second time, with the same files on
/// disk, changes nothing.
pub proof fn lemma_remove_missing_idempotent(q: Seq<Track>, on_disk: Set<Seq<char>>)
    ensures
        present_only(present_only(q, on_disk), on_disk) == present_only(q, on_disk),
{
    lemma_present_only_all_present(q, on_disk);
    lemma_present_only_keeps(present_only(q, on_disk), on_disk);
}

} // verus!
