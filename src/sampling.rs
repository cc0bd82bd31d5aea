//! Random picks from the metadata index, for filling the queue.
use vstd::prelude::*;

use rand::seq::SliceRandom;

use crate::model::Model;
use crate::text::same_text;
use crate::track::{filetype_supported, supported};
use crate::track_db::{Indexable, TrackDB};

verus! {

/// How many random draws one pick may take before it gives up; this bounds
/// the retries when few records, or none, qualify.
pub const DRAW_LIMIT: u32 = 10000;

/// Relies on rand's SliceRandom::choose, with the thread-local generator: one
/// item of the slice, or none when the slice is empty.
#[verifier::external_body]
fn choose_record(records: &Vec<TrackDB>) -> (r: Option<&TrackDB>)
    ensures
        r is None <==> records@.len() == 0,
        r matches Some(x) ==> records@.contains(*x),
{
    records.choose(&mut rand::thread_rng())
}

/// A record that random track selection takes: it has a real title and a
/// file of a supported kind.
pub open spec fn track_eligible(r: TrackDB) -> bool {
    r.title_text() is Some && supported(r.file@)
}

/// The records of `rs` on album `a`, in order.
pub open spec fn album_members(rs: Seq<TrackDB>, a: Seq<char>) -> Seq<TrackDB>
    decreases rs.len(),
{
    if rs.len() == 0 {
        rs
    } else {
        let init = album_members(rs.drop_last(), a);
        if rs.last().album@ == a {
            init.push(rs.last())
        } else {
            init
        }
    }
}

/// The records of `records` on album `album` (see `album_members`).
pub fn tracks_of_album(records: &Vec<TrackDB>, album: &str) -> (r: Vec<TrackDB>)
    ensures
        r@ == album_members(records@, album@),
{
    let mut out: Vec<TrackDB> = Vec::new();
    let mut i: usize = 0;
    assert(records@.subrange(0, 0) == Seq::<TrackDB>::empty());
    while i < records.len()
        invariant
            i <= records@.len(),
            out@ == album_members(records@.subrange(0, i as int), album@),
        decreases records@.len() - i,
    {
        let ghost q = records@.subrange(0, i + 1);
        assert(q.drop_last() == records@.subrange(0, i as int));
        assert(q.last() == records@[i as int]);
        if same_text(records[i].album.as_str(), album) {
            out.push(records[i].duplicate());
        }
        i = i + 1;
    }
    assert(records@.subrange(0, i as int) == records@);
    out
}

/// Records drawn at random from `records` (see
/// `Model::playlist_get_random_tracks`): at most `quantity`, each from the
/// index and qualifying; exactly `quantity` when the index is not empty, every
/// record qualifies and the draws cannot run out first.
pub open spec fn random_track_pick(records: Seq<TrackDB>, quantity: u32, r: Seq<TrackDB>) -> bool {
    &&& r.len() <= quantity
    &&& forall|i: int| 0 <= i < r.len() ==> records.contains(#[trigger] r[i]) && track_eligible(r[i])
    &&& (records.len() > 0 && quantity <= DRAW_LIMIT && (forall|i: int|
        0 <= i < records.len() ==> track_eligible(#[trigger] records[i]))) ==> r.len() == quantity
}

/// Every record of `records` is on a real album with at least `quantity`
/// records.
pub open spec fn every_album_qualifies(records: Seq<TrackDB>, quantity: u32) -> bool {
    forall|v: TrackDB|
        #[trigger] records.contains(v) ==> v.album_text() is Some && album_members(
            records,
            v.album@,
        ).len() >= quantity
}

/// An album drawn at random from `records` (see
/// `Model::playlist_get_random_album_tracks`): nothing, or all the records of
/// a real album with at least `quantity` of them; never nothing when the index
/// is not empty and every record's album qualifies.
pub open spec fn random_album_pick(records: Seq<TrackDB>, quantity: u32, r: Seq<TrackDB>) -> bool {
    &&& r.len() == 0 || exists|v: TrackDB|
        #![trigger records.contains(v)]
        {
            &&& records.contains(v)
            &&& v.album_text() is Some
            &&& r == album_members(records, v.album@)
            &&& r.len() >= quantity
        }
    &&& (records.len() > 0 && every_album_qualifies(records, quantity)) ==> r.len() > 0
}

/// A record of `rs` is among its album's records.
proof fn lemma_member_of_own_album(rs: Seq<TrackDB>, v: TrackDB)
    requires
        rs.contains(v),
    ensures
        album_members(rs, v.album@).len() > 0,
    decreases rs.len(),
{
    let init = rs.drop_last();
    if rs.last() != v {
        let i = choose|i: int| 0 <= i < rs.len() && rs[i] == v;
        assert(i < rs.len() - 1);
        assert(init[i] == v);
        lemma_member_of_own_album(init, v);
    }
}

/// One draw of random track selection: `drawn` joins `result` when it
/// qualifies (see `track_eligible`).
pub fn take_draw(result: &mut Vec<TrackDB>, drawn: &TrackDB)
    ensures
        final(result)@ == if track_eligible(*drawn) {
            old(result)@.push(*drawn)
        } else {
            old(result)@
        },
{
    if drawn.meta_title().is_some() && filetype_supported(drawn.file.as_str()) {
        result.push(drawn.duplicate());
    }
}

/// One draw of random album selection: all the records of the album of
/// `drawn`, when that album has a real name and at least `quantity` records.
pub fn album_choice(records: &Vec<TrackDB>, drawn: &TrackDB, quantity: u32) -> (r: Option<
    Vec<TrackDB>,
>)
    ensures
        match r {
            Some(m) => drawn.album_text() is Some && m@ == album_members(records@, drawn.album@)
                && m@.len() >= quantity,
            None => !(drawn.album_text() is Some && album_members(records@, drawn.album@).len()
                >= quantity),
        },
{
    if drawn.meta_album().is_some() {
        let members = tracks_of_album(records, drawn.album.as_str());
        if (members.len() as u64) >= (quantity as u64) {
            return Some(members);
        }
    }
    None
}

impl Model {
    /// Up to `quantity` records drawn at random from `records`, the whole index,
    /// skipping those that do not qualify (see `track_eligible`); a record may
    /// come more than once. Fewer come back only when the draws run out (see
    /// `DRAW_LIMIT`), and none when no record qualifies.
    pub fn playlist_get_random_tracks(&self, records: &Vec<TrackDB>, quantity: u32) -> (r: Vec<
        TrackDB,
    >)
        ensures
            random_track_pick(records@, quantity, r@),
    {
        let ghost all_ok = records@.len() > 0 && (forall|i: int|
            0 <= i < records@.len() ==> track_eligible(#[trigger] records@[i]));
        let mut result: Vec<TrackDB> = Vec::new();
        let mut draws: u32 = 0;
        while (result.len() as u64) < (quantity as u64) && draws < DRAW_LIMIT
            invariant
                result@.len() <= quantity,
                draws <= DRAW_LIMIT,
                all_ok == (records@.len() > 0 && (forall|i: int|
                    0 <= i < records@.len() ==> track_eligible(#[trigger] records@[i]))),
                all_ok ==> result@.len() == draws,
                forall|i: int|
                    0 <= i < result@.len() ==> records@.contains(#[trigger] result@[i])
                        && track_eligible(result@[i]),
            decreases DRAW_LIMIT - draws,
        {
            draws = draws + 1;
            if let Some(record) = choose_record(records) {
                let ghost before = result@;
                proof {
                    if all_ok {
                        let k = choose|k: int| 0 <= k < records@.len() && records@[k] == *record;
                        assert(track_eligible(records@[k]));
                    }
                }
                take_draw(&mut result, record);
                assert(forall|i: int| 0 <= i < before.len() ==> result@[i] == before[i]);
            }
        }
        result
    }

    /// All the records of one album drawn at random from `records`, the whole
    /// index: an album with a real name and at least `quantity` records; records
    /// of albums too small are drawn again. Empty when the draws run out (see
    /// `DRAW_LIMIT`).
    pub fn playlist_get_random_album_tracks(&self, records: &Vec<TrackDB>, quantity: u32) -> (r: Vec<
        TrackDB,
    >)
        ensures
            random_album_pick(records@, quantity, r@),
    {
        let ghost all_ok = records@.len() > 0 && every_album_qualifies(records@, quantity);
        let mut draws: u32 = 0;
        while draws < DRAW_LIMIT
            invariant
                all_ok == (records@.len() > 0 && every_album_qualifies(records@, quantity)),
                all_ok ==> draws == 0,
            decreases DRAW_LIMIT - draws,
        {
            draws = draws + 1;
            if let Some(v) = choose_record(records) {
                proof {
                    lemma_member_of_own_album(records@, *v);
                }
                if let Some(members) = album_choice(records, v, quantity) {
                    return members;
                }
            } else {
                assert(records@.len() == 0);
            }
        }
        Vec::new()
    }
}

} // verus!
