//! The recognition history: an insertion-ordered, deduplicated sequence of
//! songs, most recent first.
//!
//! No two entries ever share an identifier. Committing a song whose
//! identifier is already present moves it to the front with the newly
//! supplied metadata rather than appending a duplicate. Durable storage is
//! an external collaborator: [`HistoryStore::snapshot`] hands it the
//! current entries in order, and [`HistoryStore::from_records`] rebuilds
//! the store from whatever it returns, deduplicating defensively.

use vstd::prelude::*;
use vstd::seq_lib::group_seq_lib_default;

use crate::song::{Song, SongModel};

verus! {

broadcast use group_seq_lib_default;

/// The entries of a store, as their mathematical models, in order.
pub open spec fn models_of(entries: Seq<Song>) -> Seq<SongModel> {
    entries.map_values(|s: Song| s@)
}

/// Whether some entry of `h` carries the identifier `id`.
pub open spec fn contains_id(h: Seq<SongModel>, id: Seq<char>) -> bool {
    exists|i: int| 0 <= i < h.len() && h[i].id == id
}

/// Whether no two entries of `h` share an identifier.
pub open spec fn unique_ids(h: Seq<SongModel>) -> bool {
    forall|i: int, j: int| 0 <= i < j < h.len() ==> h[i].id != h[j].id
}

/// The predicate that keeps every entry whose identifier differs from `id`.
pub open spec fn keeps(id: Seq<char>) -> spec_fn(SongModel) -> bool {
    |e: SongModel| e.id != id
}

/// `h` with every entry carrying `id` removed, order preserved.
pub open spec fn without_id(h: Seq<SongModel>, id: Seq<char>) -> Seq<SongModel> {
    h.filter(keeps(id))
}

/// What a commit leaves: the committed song at the front, every entry with
/// a different identifier kept behind it in its previous order.
pub open spec fn committed(h: Seq<SongModel>, song: SongModel) -> Seq<SongModel> {
    seq![song] + without_id(h, song.id)
}

/// `m` with its transient newly-recognized flag cleared.
pub open spec fn observed(m: SongModel) -> SongModel {
    SongModel { is_newly_recognized: false, ..m }
}

/// `h` after a consumer observed the entry carrying `id`: that entry's
/// transient flag is cleared, everything else — entries, order,
/// metadata — is untouched.
pub open spec fn with_observed(h: Seq<SongModel>, id: Seq<char>) -> Seq<SongModel> {
    h.map_values(
        |e: SongModel|
            if e.id == id {
                observed(e)
            } else {
                e
            },
    )
}

/// Left-to-right deduplication by identifier: the first occurrence of each
/// identifier is kept in place, later ones are dropped.
pub open spec fn dedup_by_id(h: Seq<SongModel>) -> Seq<SongModel>
    decreases h.len(),
{
    if h.len() == 0 {
        Seq::empty()
    } else {
        let prefix = dedup_by_id(h.drop_last());
        if contains_id(prefix, h.last().id) {
            prefix
        } else {
            prefix.push(h.last())
        }
    }
}

/// Every entry of a filtered sequence comes from the unfiltered one.
proof fn lemma_filter_is_subset(h: Seq<SongModel>, pred: spec_fn(SongModel) -> bool)
    ensures
        forall|i: int|
            0 <= i < h.filter(pred).len() ==> exists|j: int|
                0 <= j < h.len() && h[j] == #[trigger] h.filter(pred)[i],
    decreases h.len(),
{
    reveal(Seq::filter);
    if h.len() > 0 {
        lemma_filter_is_subset(h.drop_last(), pred);
        let f = h.filter(pred);
        let fd = h.drop_last().filter(pred);
        assert forall|i: int| 0 <= i < f.len() implies exists|j: int|
            0 <= j < h.len() && h[j] == #[trigger] f[i] by {
            if i < fd.len() {
                let j = choose|j: int| 0 <= j < h.drop_last().len() && h.drop_last()[j] == fd[i];
                assert(h[j] == f[i]);
            } else {
                assert(h[h.len() - 1] == f[i]);
            }
        }
    }
}

/// Removing an identifier keeps the remaining identifiers unique.
proof fn lemma_without_id_unique(h: Seq<SongModel>, id: Seq<char>)
    requires
        unique_ids(h),
    ensures
        unique_ids(without_id(h, id)),
    decreases h.len(),
{
    reveal(Seq::filter);
    if h.len() > 0 {
        lemma_without_id_unique(h.drop_last(), id);
        let f = without_id(h, id);
        let fd = without_id(h.drop_last(), id);
        if keeps(id)(h.last()) {
            lemma_filter_is_subset(h.drop_last(), keeps(id));
            assert forall|i: int, j: int| 0 <= i < j < f.len() implies f[i].id != f[j].id by {
                if j < fd.len() {
                    assert(fd[i] == f[i] && fd[j] == f[j]);
                } else {
                    assert(f[i] == fd[i]);
                    let k = choose|k: int|
                        0 <= k < h.drop_last().len() && h.drop_last()[k] == fd[i];
                    assert(h[k] == fd[i]);
                    assert(h[k].id != h[h.len() - 1].id);
                }
            }
        }
    }
}

/// A commit leaves the identifiers unique: the committed identifier is
/// gone from the tail, and the tail was unique already.
proof fn lemma_committed_unique(h: Seq<SongModel>, song: SongModel)
    requires
        unique_ids(h),
    ensures
        unique_ids(committed(h, song)),
{
    lemma_without_id_unique(h, song.id);
    let c = committed(h, song);
    let w = without_id(h, song.id);
    assert forall|i: int, j: int| 0 <= i < j < c.len() implies c[i].id != c[j].id by {
        if i == 0 {
            assert(c[j] == w[j - 1]);
            assert(keeps(song.id)(w[j - 1])) by {
                h.lemma_filter_pred(keeps(song.id), j - 1);
            }
        } else {
            assert(c[i] == w[i - 1] && c[j] == w[j - 1]);
        }
    }
}

/// However commits are sequenced, a history that started with unique
/// identifiers keeps at most one entry per identifier, and the most
/// recently committed song stands at the front.
pub proof fn lemma_commit_dedupes_and_fronts(h: Seq<SongModel>, song: SongModel)
    requires
        unique_ids(h),
    ensures
        unique_ids(committed(h, song)),
        committed(h, song).len() >= 1,
        committed(h, song)[0] == song,
{
    lemma_committed_unique(h, song);
}

/// Deduplication always yields unique identifiers.
proof fn lemma_dedup_unique(h: Seq<SongModel>)
    ensures
        unique_ids(dedup_by_id(h)),
    decreases h.len(),
{
    if h.len() > 0 {
        lemma_dedup_unique(h.drop_last());
        let prefix = dedup_by_id(h.drop_last());
        if !contains_id(prefix, h.last().id) {
            let d = prefix.push(h.last());
            assert forall|i: int, j: int| 0 <= i < j < d.len() implies d[i].id != d[j].id by {
                if j == d.len() - 1 {
                    assert(d[i] == prefix[i]);
                }
            }
        }
    }
}

/// Reloading a store from its own persisted entries reproduces them
/// exactly: deduplication leaves a sequence of unique identifiers alone.
/// This is the round-trip guarantee of persist-then-reload.
pub proof fn lemma_persistence_round_trip(h: Seq<SongModel>)
    requires
        unique_ids(h),
    ensures
        dedup_by_id(h) == h,
    decreases h.len(),
{
    if h.len() > 0 {
        lemma_persistence_round_trip(h.drop_last());
        let prefix = dedup_by_id(h.drop_last());
        assert(prefix == h.drop_last());
        assert(!contains_id(prefix, h.last().id)) by {
            assert(forall|i: int|
                0 <= i < h.drop_last().len() ==> h.drop_last()[i] == h[i]);
        }
        assert(prefix.push(h.last()) =~= h);
    }
}

/// The ordered, deduplicated history of recognized songs, most recent
/// first.
pub struct HistoryStore {
    entries: Vec<Song>,
}

impl View for HistoryStore {
    type V = Seq<SongModel>;

    closed spec fn view(&self) -> Seq<SongModel> {
        models_of(self.entries@)
    }
}

impl HistoryStore {
    /// Well-formedness: no two entries share an identifier.
    pub open spec fn wf(&self) -> bool {
        unique_ids(self@)
    }

    /// An empty history.
    pub fn new() -> (r: HistoryStore)
        ensures
            r@ == Seq::<SongModel>::empty(),
            r.wf(),
    {
        let r = HistoryStore { entries: Vec::new() };
        proof {
            assert(r@ =~= Seq::<SongModel>::empty());
        }
        r
    }

    /// How many songs the history holds.
    pub fn len(&self) -> (n: usize)
        ensures
            n == self@.len(),
    {
        self.entries.len()
    }

    /// The entry at position `i`, front first.
    pub fn get(&self, i: usize) -> (s: &Song)
        requires
            i < self@.len(),
        ensures
            s@ == self@[i as int],
    {
        &self.entries[i]
    }

    /// Whether some entry carries the identifier `id`.
    pub fn contains(&self, id: &String) -> (r: bool)
        ensures
            r == contains_id(self@, id@),
    {
        let n = self.entries.len();
        let mut i: usize = 0;
        while i < n
            invariant
                n == self@.len(),
                i <= n,
                forall|j: int| 0 <= j < i ==> self@[j].id != id@,
            decreases n - i,
        {
            if self.entries[i].has_id(id) {
                proof {
                    assert(self@[i as int].id == id@);
                }
                return true;
            }
            i += 1;
        }
        false
    }

    /// Removes every entry carrying `id`, keeping the rest in order.
    pub fn remove(&mut self, id: &String)
        ensures
            final(self)@ == without_id(old(self)@, id@),
            old(self).wf() ==> final(self).wf(),
    {
        let ghost pre = self@;
        let mut kept: Vec<Song> = Vec::new();
        let n = self.entries.len();
        let mut i: usize = 0;
        proof {
            reveal(Seq::filter);
            assert(models_of(kept@) =~= without_id(pre.take(0), id@));
        }
        while i < n
            invariant
                n == self.entries@.len(),
                i <= n,
                self@ == pre,
                models_of(kept@) == without_id(pre.take(i as int), id@),
            decreases n - i,
        {
            let ghost kept_pre = models_of(kept@);
            if !self.entries[i].has_id(id) {
                kept.push(self.entries[i].clone());
            }
            proof {
                reveal(Seq::filter);
                assert(pre.take(i + 1).drop_last() =~= pre.take(i as int));
                assert(pre.take(i + 1).last() == pre[i as int]);
                if keeps(id@)(pre[i as int]) {
                    assert(models_of(kept@) =~= kept_pre.push(pre[i as int]));
                }
            }
            i += 1;
        }
        self.entries = kept;
        proof {
            assert(pre.take(n as int) =~= pre);
            if unique_ids(pre) {
                lemma_without_id_unique(pre, id@);
            }
        }
    }

    /// Merges-or-inserts `song` at the front: any existing entry with the
    /// same identifier is replaced by the given record, every other entry
    /// keeps its relative order behind it.
    pub fn commit(&mut self, song: Song)
        requires
            old(self).wf(),
        ensures
            final(self)@ == committed(old(self)@, song@),
            final(self).wf(),
            final(self)@[0] == song@,
            final(self)@.len() >= 1,
    {
        let ghost pre = self@;
        self.remove(&song.id);
        proof {
            lemma_committed_unique(pre, song@);
        }
        self.entries.insert(0, song);
        proof {
            assert(self@ =~= committed(pre, song@));
        }
    }

    /// Empties the history.
    pub fn clear(&mut self)
        ensures
            final(self)@ == Seq::<SongModel>::empty(),
            final(self).wf(),
    {
        self.entries.clear();
        proof {
            assert(self@ =~= Seq::<SongModel>::empty());
        }
    }

    /// Clears the transient newly-recognized flag on the entry carrying
    /// `id`, once a consumer has observed it. Order, identifiers and all
    /// other metadata stay untouched.
    pub fn mark_observed(&mut self, id: &String)
        ensures
            final(self)@ == with_observed(old(self)@, id@),
            old(self).wf() ==> final(self).wf(),
    {
        let ghost pre = self@;
        let mut out: Vec<Song> = Vec::new();
        let n = self.entries.len();
        let mut i: usize = 0;
        proof {
            assert(models_of(out@) =~= with_observed(pre.take(0), id@));
        }
        while i < n
            invariant
                n == self.entries@.len(),
                i <= n,
                self@ == pre,
                models_of(out@) == with_observed(pre.take(i as int), id@),
            decreases n - i,
        {
            let ghost out_pre = models_of(out@);
            let mut entry = self.entries[i].clone();
            if entry.has_id(id) {
                entry.is_newly_recognized = false;
            }
            let ghost entry_model = entry@;
            out.push(entry);
            proof {
                assert(models_of(out@) =~= out_pre.push(entry_model));
                assert(with_observed(pre.take(i + 1), id@) =~= with_observed(
                    pre.take(i as int),
                    id@,
                ).push(entry_model));
            }
            i += 1;
        }
        self.entries = out;
        proof {
            assert(pre.take(n as int) =~= pre);
            if unique_ids(pre) {
                assert forall|a: int, b: int|
                    0 <= a < b < self@.len() implies self@[a].id != self@[b].id by {
                    assert(self@[a].id == pre[a].id && self@[b].id == pre[b].id);
                }
            }
        }
    }

    /// A copy of the current entries in order, for persistence or for a
    /// consumer iterating over a stable snapshot while the store may keep
    /// changing.
    pub fn snapshot(&self) -> (r: Vec<Song>)
        ensures
            models_of(r@) == self@,
    {
        let n = self.entries.len();
        let mut out: Vec<Song> = Vec::new();
        let mut i: usize = 0;
        proof {
            assert(models_of(out@) =~= self@.take(0));
        }
        while i < n
            invariant
                n == self@.len(),
                i <= n,
                models_of(out@) == self@.take(i as int),
            decreases n - i,
        {
            let ghost out_pre = models_of(out@);
            out.push(self.entries[i].clone());
            proof {
                assert(models_of(out@) =~= out_pre.push(self@[i as int]));
                assert(self@.take(i + 1) =~= self@.take(i as int).push(self@[i as int]));
            }
            i += 1;
        }
        proof {
            assert(self@.take(n as int) =~= self@);
        }
        out
    }

    /// Rebuilds a history from persisted records, keeping the first
    /// occurrence of each identifier in order and dropping later ones,
    /// so that even a corrupted backing store yields a well-formed
    /// history.
    pub fn from_records(records: Vec<Song>) -> (r: HistoryStore)
        ensures
            r@ == dedup_by_id(models_of(records@)),
            r.wf(),
    {
        let ghost all = models_of(records@);
        let mut store = HistoryStore { entries: Vec::new() };
        let n = records.len();
        let mut i: usize = 0;
        proof {
            assert(store@ =~= dedup_by_id(all.take(0)));
        }
        while i < n
            invariant
                n == records@.len(),
                all == models_of(records@),
                i <= n,
                store@ == dedup_by_id(all.take(i as int)),
            decreases n - i,
        {
            let ghost store_pre = store@;
            proof {
                assert(all.take(i + 1).drop_last() =~= all.take(i as int));
                assert(all.take(i + 1).last() == all[i as int]);
            }
            if !store.contains(&records[i].id) {
                store.entries.push(records[i].clone());
                proof {
                    assert(store@ =~= store_pre.push(all[i as int]));
                }
            }
            i += 1;
        }
        proof {
            assert(all.take(n as int) =~= all);
            lemma_dedup_unique(all);
        }
        store
    }
}

} // verus!
