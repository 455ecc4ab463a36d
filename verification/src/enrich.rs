//! The enrichment pipeline over the inventory table.
//!
//! Enrichment runs in three phases: a snapshot of the ids that still lack
//! metadata, taken under exclusive access; one independent fetch per
//! snapshotted id, performed outside the library with no access held; and
//! one atomic merge per completed fetch. `snapshot_pending` and `merge`
//! are those two table-side phases; the spec functions here say exactly
//! what each does, and the lemmas state the pipeline-wide guarantees:
//! per-entry failure isolation, absent-id merges as no-ops, wholesale
//! metadata replacement, and preservation of user-owned fields.

use vstd::prelude::*;

use crate::api::Manga;
use crate::api::ResponseError;
use crate::api::ResponseType;
use crate::inventory::InventoryManga;
use crate::inventory::MangaTable;

verus! {

/// The ids of exactly the entries that lack metadata, in table order.
pub open spec fn pending_ids(entries: Seq<InventoryManga>) -> Seq<Seq<char>>
    decreases entries.len(),
{
    if entries.len() == 0 {
        Seq::empty()
    } else if entries.last().manga_data is None {
        pending_ids(entries.drop_last()).push(entries.last().id@)
    } else {
        pending_ids(entries.drop_last())
    }
}

/// The metadata a successful fetch carries: the first returned record,
/// or nothing when the service returned an empty record list.
pub open spec fn first_of(data: Vec<Manga>) -> Option<Manga> {
    if data@.len() > 0 {
        Some(data@[0])
    } else {
        None
    }
}

/// The metadata an outcome would store: a failure stores none.
pub open spec fn outcome_metadata(outcome: ResponseType) -> Option<Manga> {
    match outcome {
        ResponseType::Success(data) => first_of(data),
        ResponseType::Failure(_) => None,
    }
}

/// The error a merge surfaces: exactly the failures, with their payload.
pub open spec fn failure_report(outcome: ResponseType) -> Option<ResponseError> {
    match outcome {
        ResponseType::Success(_) => None,
        ResponseType::Failure(err) => Some(err),
    }
}

/// An entry with its metadata replaced wholesale; user fields kept.
pub open spec fn with_metadata(e: InventoryManga, md: Option<Manga>) -> InventoryManga {
    InventoryManga { id: e.id, num_read: e.num_read, is_favorite: e.is_favorite, manga_data: md }
}

/// The table contents after one merge step: a failure changes nothing;
/// a success replaces the metadata of the entries keyed by `id` (at most
/// one, in a well-formed table) and touches no other entry.
pub open spec fn merged(
    entries: Seq<InventoryManga>,
    id: Seq<char>,
    outcome: ResponseType,
) -> Seq<InventoryManga> {
    match outcome {
        ResponseType::Failure(_) => entries,
        ResponseType::Success(data) => Seq::new(
            entries.len(),
            |i: int|
                if entries[i].id@ == id {
                    with_metadata(entries[i], first_of(data))
                } else {
                    entries[i]
                },
        ),
    }
}

/// The table contents after the fan-in completes: the merges of all the
/// listed outcomes, keyed by their ids, landed in the given order. The
/// pipeline guarantees nothing about that order, and the lemmas below
/// hold for every one.
pub open spec fn apply_outcomes(
    entries: Seq<InventoryManga>,
    outcomes: Seq<(String, ResponseType)>,
) -> Seq<InventoryManga>
    decreases outcomes.len(),
{
    if outcomes.len() == 0 {
        entries
    } else {
        apply_outcomes(merged(entries, outcomes[0].0@, outcomes[0].1), outcomes.drop_first())
    }
}

/// The errors that merging the listed outcomes surfaces, in landing
/// order: exactly the failures, each with its payload.
pub open spec fn failures_of(outcomes: Seq<(String, ResponseType)>) -> Seq<ResponseError>
    decreases outcomes.len(),
{
    if outcomes.len() == 0 {
        Seq::empty()
    } else {
        match outcomes[0].1 {
            ResponseType::Success(_) => failures_of(outcomes.drop_first()),
            ResponseType::Failure(err) => seq![err] + failures_of(outcomes.drop_first()),
        }
    }
}

/// A merge never touches an entry's id or user-editable fields: after
/// any merge, they equal their pre-merge values; only metadata changes.
pub proof fn lemma_merge_preserves_user_fields(
    entries: Seq<InventoryManga>,
    id: Seq<char>,
    outcome: ResponseType,
)
    ensures
        merged(entries, id, outcome).len() == entries.len(),
        forall|i: int|
            0 <= i < entries.len() ==> #[trigger] merged(entries, id, outcome)[i].id == entries[i].id
                && merged(entries, id, outcome)[i].num_read == entries[i].num_read
                && merged(entries, id, outcome)[i].is_favorite == entries[i].is_favorite,
{
}

/// A merge writes metadata wholesale: every entry's metadata after a
/// merge is either its prior value or exactly the fetched record; no
/// observer sees a half-updated entry.
pub proof fn lemma_no_partial_write(
    entries: Seq<InventoryManga>,
    id: Seq<char>,
    outcome: ResponseType,
)
    ensures
        forall|i: int|
            0 <= i < entries.len() ==> #[trigger] merged(entries, id, outcome)[i].manga_data
                == entries[i].manga_data || merged(entries, id, outcome)[i].manga_data
                == outcome_metadata(outcome),
{
}

/// Merging an outcome for an id that is absent from the table (for
/// instance, removed while its fetch was in flight) is a no-op: no
/// error, and no other entry is altered.
pub proof fn lemma_merge_absent_id(
    entries: Seq<InventoryManga>,
    id: Seq<char>,
    outcome: ResponseType,
)
    requires
        forall|i: int| 0 <= i < entries.len() ==> entries[i].id@ != id,
    ensures
        merged(entries, id, outcome) == entries,
{
    match outcome {
        ResponseType::Failure(_) => {},
        ResponseType::Success(data) => {
            assert(merged(entries, id, outcome) =~= entries);
        },
    }
}

/// The fan-in keeps the table's shape: applying any outcomes preserves
/// the number of entries and every entry's id and user fields.
pub proof fn lemma_apply_preserves_user_fields(
    entries: Seq<InventoryManga>,
    outcomes: Seq<(String, ResponseType)>,
)
    ensures
        apply_outcomes(entries, outcomes).len() == entries.len(),
        forall|i: int|
            0 <= i < entries.len() ==> #[trigger] apply_outcomes(entries, outcomes)[i].id
                == entries[i].id && apply_outcomes(entries, outcomes)[i].num_read
                == entries[i].num_read && apply_outcomes(entries, outcomes)[i].is_favorite
                == entries[i].is_favorite,
    decreases outcomes.len(),
{
    if outcomes.len() > 0 {
        lemma_merge_preserves_user_fields(entries, outcomes[0].0@, outcomes[0].1);
        lemma_apply_preserves_user_fields(
            merged(entries, outcomes[0].0@, outcomes[0].1),
            outcomes.drop_first(),
        );
    }
}

/// An entry whose id none of the outcomes carries comes out of the
/// fan-in exactly as it went in.
pub proof fn lemma_apply_unmatched(
    entries: Seq<InventoryManga>,
    outcomes: Seq<(String, ResponseType)>,
    i: int,
)
    requires
        0 <= i < entries.len(),
        forall|j: int| 0 <= j < outcomes.len() ==> #[trigger] outcomes[j].0@ != entries[i].id@,
    ensures
        apply_outcomes(entries, outcomes)[i] == entries[i],
    decreases outcomes.len(),
{
    if outcomes.len() > 0 {
        let next = merged(entries, outcomes[0].0@, outcomes[0].1);
        lemma_merge_preserves_user_fields(entries, outcomes[0].0@, outcomes[0].1);
        assert(next[i] == entries[i]);
        lemma_apply_unmatched(next, outcomes.drop_first(), i);
    }
}

/// Per-entry failure isolation: whatever the other outcomes are (any
/// number of failures among them), an entry keyed by a successful
/// outcome ends the fan-in carrying exactly that outcome's metadata.
/// The outcomes must be for distinct ids, as one fan-out produces at
/// most one outcome per snapshotted id.
pub proof fn lemma_fetch_isolation(
    entries: Seq<InventoryManga>,
    outcomes: Seq<(String, ResponseType)>,
    k: int,
    i: int,
)
    requires
        0 <= k < outcomes.len(),
        0 <= i < entries.len(),
        forall|a: int, b: int|
            0 <= a < b < outcomes.len() ==> outcomes[a].0@ != outcomes[b].0@,
        entries[i].id@ == outcomes[k].0@,
        outcomes[k].1 matches ResponseType::Success(_),
    ensures
        apply_outcomes(entries, outcomes)[i].manga_data == outcome_metadata(outcomes[k].1),
    decreases k,
{
    let next = merged(entries, outcomes[0].0@, outcomes[0].1);
    lemma_merge_preserves_user_fields(entries, outcomes[0].0@, outcomes[0].1);
    if k == 0 {
        assert(next[i].manga_data == outcome_metadata(outcomes[0].1));
        assert(forall|j: int|
            0 <= j < outcomes.drop_first().len()
                ==> #[trigger] outcomes.drop_first()[j].0@ != next[i].id@);
        lemma_apply_unmatched(next, outcomes.drop_first(), i);
    } else {
        assert(next[i] == entries[i]);
        lemma_fetch_isolation(next, outcomes.drop_first(), k - 1, i);
    }
}

/// Merges for different ids commute: no ordering between the completion
/// of different entries' fetches is required, since the table ends the
/// same whichever merge lands first.
pub proof fn lemma_merge_commutes(
    entries: Seq<InventoryManga>,
    id1: Seq<char>,
    outcome1: ResponseType,
    id2: Seq<char>,
    outcome2: ResponseType,
)
    requires
        id1 != id2,
    ensures
        merged(merged(entries, id1, outcome1), id2, outcome2) == merged(
            merged(entries, id2, outcome2),
            id1,
            outcome1,
        ),
{
    lemma_merge_preserves_user_fields(entries, id1, outcome1);
    lemma_merge_preserves_user_fields(entries, id2, outcome2);
    assert(merged(merged(entries, id1, outcome1), id2, outcome2) =~= merged(
        merged(entries, id2, outcome2),
        id1,
        outcome1,
    ));
}

/// Snapshot scoping: an id is snapshotted for fetching exactly when some
/// entry carries it and still lacks metadata; entries that already had
/// metadata when the snapshot was taken are never refetched.
pub proof fn lemma_snapshot_scope(entries: Seq<InventoryManga>, id: Seq<char>)
    ensures
        pending_ids(entries).contains(id) <==> (exists|i: int|
            0 <= i < entries.len() && (#[trigger] entries[i].id@) == id
                && entries[i].manga_data is None),
    decreases entries.len(),
{
    if entries.len() > 0 {
        lemma_snapshot_scope(entries.drop_last(), id);
        let prefix = pending_ids(entries.drop_last());
        let last = entries.last();
        if last.manga_data is None {
            assert(pending_ids(entries) == prefix.push(last.id@));
            if pending_ids(entries).contains(id) {
                let j = choose|j: int|
                    0 <= j < pending_ids(entries).len() && pending_ids(entries)[j] == id;
                if j < prefix.len() {
                    assert(prefix[j] == id);
                    assert(prefix.contains(id));
                } else {
                    assert(id == last.id@);
                    assert(entries[entries.len() - 1].id@ == id);
                }
            }
            if exists|i: int|
                0 <= i < entries.len() && (#[trigger] entries[i].id@) == id
                    && entries[i].manga_data is None {
                let i = choose|i: int|
                    0 <= i < entries.len() && (#[trigger] entries[i].id@) == id
                        && entries[i].manga_data is None;
                if i < entries.len() - 1 {
                    assert(entries.drop_last()[i].id@ == id);
                    assert(prefix.contains(id));
                    let j = choose|j: int| 0 <= j < prefix.len() && prefix[j] == id;
                    assert(pending_ids(entries)[j] == id);
                } else {
                    assert(pending_ids(entries)[prefix.len() as int] == id);
                }
            }
        } else {
            assert(pending_ids(entries) == prefix);
            if prefix.contains(id) {
                let i = choose|i: int|
                    0 <= i < entries.drop_last().len()
                        && (#[trigger] entries.drop_last()[i].id@) == id
                        && entries.drop_last()[i].manga_data is None;
                assert(entries[i].id@ == id && entries[i].manga_data is None);
            }
            if exists|i: int|
                0 <= i < entries.len() && (#[trigger] entries[i].id@) == id
                    && entries[i].manga_data is None {
                let i = choose|i: int|
                    0 <= i < entries.len() && (#[trigger] entries[i].id@) == id
                        && entries[i].manga_data is None;
                assert(i < entries.len() - 1);
                assert(entries.drop_last()[i].id@ == id
                    && entries.drop_last()[i].manga_data is None);
            }
        }
    }
}

/// A well-formed table snapshots each pending id once, so the fan-out
/// launches at most one fetch, and thus at most one merge, per entry:
/// exactly what `lemma_fetch_isolation` asks of the outcomes.
pub proof fn lemma_snapshot_distinct(entries: Seq<InventoryManga>)
    requires
        forall|i: int, j: int|
            0 <= i < j < entries.len() ==> entries[i].id@ != entries[j].id@,
    ensures
        forall|a: int, b: int|
            0 <= a < b < pending_ids(entries).len()
                ==> pending_ids(entries)[a] != pending_ids(entries)[b],
    decreases entries.len(),
{
    if entries.len() > 0 {
        let prefix_entries = entries.drop_last();
        assert(forall|i: int, j: int|
            0 <= i < j < prefix_entries.len()
                ==> #[trigger] prefix_entries[i].id@ != #[trigger] prefix_entries[j].id@);
        lemma_snapshot_distinct(prefix_entries);
        let last = entries.last();
        if last.manga_data is None {
            let prefix = pending_ids(prefix_entries);
            assert(pending_ids(entries) == prefix.push(last.id@));
            assert(!prefix.contains(last.id@)) by {
                lemma_snapshot_scope(prefix_entries, last.id@);
                if prefix.contains(last.id@) {
                    let i = choose|i: int|
                        0 <= i < prefix_entries.len() && (#[trigger] prefix_entries[i].id@)
                            == last.id@ && prefix_entries[i].manga_data is None;
                    assert(entries[i].id@ == entries[entries.len() - 1].id@);
                }
            }
            assert(forall|a: int, b: int|
                0 <= a < b < pending_ids(entries).len()
                    ==> pending_ids(entries)[a] != pending_ids(entries)[b]) by {
                assert(forall|a: int|
                    0 <= a < prefix.len() ==> #[trigger] prefix[a] != last.id@);
            }
        }
    }
}

impl MangaTable {
    /// Snapshot phase of enrichment: the ids of every entry currently
    /// lacking metadata, copied out by value so that no access to the
    /// table is held while the fetches run. Entries that already carry
    /// metadata are not refetched, and entries added later are not seen.
    pub fn snapshot_pending(&self) -> (ids: Vec<String>)
        ensures
            ids@.map_values(|s: String| s@) == pending_ids(self.manga_list@),
    {
        let mut ids: Vec<String> = Vec::new();
        let mut i: usize = 0;
        while i < self.manga_list.len()
            invariant
                i <= self.manga_list@.len(),
                ids@.map_values(|s: String| s@) == pending_ids(self.manga_list@.take(i as int)),
            decreases self.manga_list@.len() - i,
        {
            proof {
                assert(self.manga_list@.take(i + 1).drop_last() =~= self.manga_list@.take(i as int));
                assert(self.manga_list@.take(i + 1).last() == self.manga_list@[i as int]);
            }
            let entry = &self.manga_list[i];
            if entry.manga_data.is_none() {
                ids.push(entry.id.clone());
                proof {
                    assert(ids@.map_values(|s: String| s@) =~= pending_ids(
                        self.manga_list@.take(i + 1),
                    ));
                }
            }
            i += 1;
        }
        proof {
            assert(self.manga_list@.take(self.manga_list@.len() as int) =~= self.manga_list@);
        }
        ids
    }

    /// Merge phase of enrichment: consumes one fetch outcome for `id`,
    /// atomically replaces that entry's metadata on success, changes
    /// nothing on failure or when the entry has been removed meanwhile,
    /// and hands back the error to surface, if any.
    pub fn merge(&mut self, id: &String, outcome: ResponseType) -> (report: Option<ResponseError>)
        requires
            old(self).wf(),
        ensures
            final(self).wf(),
            final(self).reversed == old(self).reversed,
            final(self).manga_list@ == merged(old(self).manga_list@, id@, outcome),
            report == failure_report(outcome),
    {
        match outcome {
            ResponseType::Failure(err) => Some(err),
            ResponseType::Success(mut data) => {
                let ghost data0 = data;
                let md: Option<Manga> = if data.len() > 0 {
                    Some(data.remove(0))
                } else {
                    None
                };
                match self.index_of(id) {
                    Some(i) => {
                        let mut entry = self.manga_list.remove(i);
                        entry.manga_data = md;
                        self.manga_list.insert(i, entry);
                        proof {
                            assert(self.manga_list@ =~= merged(
                                old(self).manga_list@,
                                id@,
                                ResponseType::Success(data0),
                            ));
                        }
                    },
                    None => {
                        proof {
                            assert(self.manga_list@ =~= merged(
                                old(self).manga_list@,
                                id@,
                                ResponseType::Success(data0),
                            ));
                        }
                    },
                }
                None
            },
        }
    }

    /// The whole fan-in, run to completion in one landing order: merges
    /// every listed outcome and collects the surfaced errors. This is the
    /// coordinator's merge loop for a backend that completes fetches one
    /// at a time; the lemmas above hold of `apply_outcomes`, so they
    /// apply to this function's result.
    pub fn merge_all(&mut self, outcomes: Vec<(String, ResponseType)>) -> (reports: Vec<
        ResponseError,
    >)
        requires
            old(self).wf(),
        ensures
            final(self).wf(),
            final(self).reversed == old(self).reversed,
            final(self).manga_list@ == apply_outcomes(old(self).manga_list@, outcomes@),
            reports@ == failures_of(outcomes@),
    {
        let mut remaining = outcomes;
        let mut reports: Vec<ResponseError> = Vec::new();
        while remaining.len() > 0
            invariant
                self.wf(),
                self.reversed == old(self).reversed,
                apply_outcomes(self.manga_list@, remaining@) == apply_outcomes(
                    old(self).manga_list@,
                    outcomes@,
                ),
                reports@ + failures_of(remaining@) == failures_of(outcomes@),
            decreases remaining@.len(),
        {
            let ghost rem0 = remaining@;
            let ghost reports0 = reports@;
            let (id, outcome) = remaining.remove(0);
            let ghost outcome0 = outcome;
            proof {
                assert(remaining@ =~= rem0.drop_first());
                assert((id, outcome) == rem0[0]);
            }
            if let Some(err) = self.merge(&id, outcome) {
                reports.push(err);
                proof {
                    assert(outcome0 == rem0[0].1);
                    assert(failures_of(rem0) == seq![err] + failures_of(rem0.drop_first()));
                    assert(reports@ =~= reports0 + seq![err]);
                    assert(reports0 + (seq![err] + failures_of(remaining@)) =~= (reports0 + seq![
                        err,
                    ]) + failures_of(remaining@));
                }
            }
        }
        proof {
            assert(reports@ + failures_of(remaining@) =~= reports@);
        }
        reports
    }
}

} // verus!
