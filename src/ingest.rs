//! Duplicate suppression of an ingest batch.
use vstd::prelude::*;

use crate::models::Document;
use crate::report::AddDocumentsReport;

verus! {

/// The ids of a batch, in order.
pub open spec fn batch_ids(docs: Seq<Document>) -> Seq<Seq<char>> {
    docs.map_values(|d: Document| d.id@)
}

/// Whether position `i` holds the first occurrence of its id in the batch.
pub open spec fn first_occurrence(ids: Seq<Seq<char>>, i: int) -> bool {
    forall|j: int| 0 <= j < i ==> ids[j] != ids[i]
}

/// Whether the document at `i` is written: its id is new to the batch and was not found
/// in the index.
pub open spec fn spec_keep(ids: Seq<Seq<char>>, in_index: Seq<bool>, i: int) -> bool {
    first_occurrence(ids, i) && !in_index[i]
}

/// How many of the first `n` positions are written.
pub open spec fn count_kept(ids: Seq<Seq<char>>, in_index: Seq<bool>, n: int) -> nat
    decreases n,
{
    if n <= 0 {
        0
    } else {
        count_kept(ids, in_index, n - 1) + if spec_keep(ids, in_index, n - 1) {
            1nat
        } else {
            0nat
        }
    }
}

/// The decisions on one batch: which documents to write, and the counts.
pub struct IngestPlan {
    pub keep: Vec<bool>,
    pub report: AddDocumentsReport,
}

proof fn lemma_count_kept_bound(ids: Seq<Seq<char>>, in_index: Seq<bool>, n: int)
    requires
        n >= 0,
    ensures
        count_kept(ids, in_index, n) <= n,
    decreases n,
{
    if n > 0 {
        lemma_count_kept_bound(ids, in_index, n - 1);
    }
}

/// Decides, in batch order, which documents of a batch are written. A document is skipped
/// when an earlier document of the batch has the same id, or when `in_index` says the
/// index already holds its id; all others are written. Every document is counted once,
/// as added or as skipped.
pub fn plan_ingest(docs: &Vec<Document>, in_index: &Vec<bool>) -> (r: IngestPlan)
    requires
        in_index@.len() == docs@.len(),
    ensures
        r.keep@.len() == docs@.len(),
        forall|i: int|
            0 <= i < docs@.len() ==> #[trigger] r.keep@[i] == spec_keep(
                batch_ids(docs@),
                in_index@,
                i,
            ),
        r.report.total == docs@.len(),
        r.report.added == count_kept(batch_ids(docs@), in_index@, docs@.len() as int),
        r.report.added + r.report.skipped_duplicates == r.report.total,
{
    let ghost ids = batch_ids(docs@);
    let mut keep: Vec<bool> = Vec::new();
    let mut report = AddDocumentsReport::new();
    let mut i: usize = 0;
    while i < docs.len()
        invariant
            0 <= i <= docs@.len(),
            in_index@.len() == docs@.len(),
            ids == batch_ids(docs@),
            keep@.len() == i,
            forall|k: int| 0 <= k < i ==> #[trigger] keep@[k] == spec_keep(ids, in_index@, k),
            report.total == i,
            report.added == count_kept(ids, in_index@, i as int),
            report.added + report.skipped_duplicates == i,
        decreases docs@.len() - i,
    {
        proof {
            lemma_count_kept_bound(ids, in_index@, i as int);
        }
        report.record_total();
        let mut seen = false;
        let mut j: usize = 0;
        while j < i
            invariant
                0 <= j <= i < docs@.len(),
                ids == batch_ids(docs@),
                seen == exists|k: int| 0 <= k < j && ids[k] == ids[i as int],
            decreases i - j,
        {
            assert(ids[j as int] == docs@[j as int].id@);
            assert(ids[i as int] == docs@[i as int].id@);
            if same_id(&docs[j].id, &docs[i].id) {
                seen = true;
            }
            j = j + 1;
        }
        let k = !seen && !in_index[i];
        if k {
            report.record_added();
        } else {
            report.record_skipped();
        }
        keep.push(k);
        i = i + 1;
    }
    IngestPlan { keep, report }
}

fn same_id(a: &String, b: &String) -> (r: bool)
    ensures
        r == (a@ == b@),
{
    *a == *b
}

/// Every id of the batch is visible after the batch: the committed ids together with
/// the written ones are the committed ids together with all ids of the batch.
pub proof fn lemma_dedup_covers_batch(ids: Seq<Seq<char>>, committed: Set<Seq<char>>)
    ensures
        committed + Set::new(
            |t: Seq<char>|
                exists|i: int|
                    0 <= i < ids.len() && spec_keep(
                        ids,
                        Seq::new(ids.len(), |k: int| committed.contains(ids[k])),
                        i,
                    ) && ids[i] == t,
        ) == committed + ids.to_set(),
{
    let in_index = Seq::new(ids.len(), |k: int| committed.contains(ids[k]));
    let written = Set::new(
        |t: Seq<char>|
            exists|i: int| 0 <= i < ids.len() && spec_keep(ids, in_index, i) && ids[i] == t,
    );
    assert forall|t: Seq<char>| ids.to_set().contains(t) && !committed.contains(t) implies written.contains(
        t,
    ) by {
        let i = choose|i: int| 0 <= i < ids.len() && ids[i] == t;
        let f = first_index(ids, t, i);
        assert(spec_keep(ids, in_index, f));
    }
    assert forall|t: Seq<char>| written.contains(t) implies ids.to_set().contains(t) by {
        let i = choose|i: int| 0 <= i < ids.len() && spec_keep(ids, in_index, i) && ids[i] == t;
        assert(ids.contains(t));
    }
    assert(committed + written =~= committed + ids.to_set());
}

/// The first position holding `t`, given some position `i` that holds it.
proof fn first_index(ids: Seq<Seq<char>>, t: Seq<char>, i: int) -> (f: int)
    requires
        0 <= i < ids.len(),
        ids[i] == t,
    ensures
        0 <= f <= i,
        ids[f] == t,
        first_occurrence(ids, f),
    decreases i,
{
    if exists|j: int| 0 <= j < i && ids[j] == t {
        let j = choose|j: int| 0 <= j < i && ids[j] == t;
        first_index(ids, t, j)
    } else {
        i
    }
}

/// Ingesting a batch again right after it was ingested writes nothing: when every id of
/// the batch is already in the index, nothing is kept and every document is skipped.
pub proof fn lemma_reingest_adds_nothing(ids: Seq<Seq<char>>, in_index: Seq<bool>)
    requires
        in_index.len() == ids.len(),
        forall|i: int| 0 <= i < in_index.len() ==> #[trigger] in_index[i],
    ensures
        forall|i: int| 0 <= i < ids.len() ==> !#[trigger] spec_keep(ids, in_index, i),
        count_kept(ids, in_index, ids.len() as int) == 0,
{
    lemma_count_zero(ids, in_index, ids.len() as int);
}

proof fn lemma_count_zero(ids: Seq<Seq<char>>, in_index: Seq<bool>, n: int)
    requires
        0 <= n <= in_index.len(),
        forall|i: int| 0 <= i < in_index.len() ==> #[trigger] in_index[i],
    ensures
        count_kept(ids, in_index, n) == 0,
    decreases n,
{
    if n > 0 {
        lemma_count_zero(ids, in_index, n - 1);
    }
}

} // verus!
