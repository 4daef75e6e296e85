use vstd::prelude::*;
use crate::iter::{advance_code, advance_iter, advance_rec, fresh_iter, RawEntry, RecordsIter};
use crate::record::RecordView;
use crate::reader::Reader;

verus! {

/// An entry the tokenizer produced (not its end) that decodes to exactly
/// three fields: the only kind of entry an advance accepts.
pub open spec fn is_well_shaped(e: Option<RawEntry>) -> bool {
    e matches Some(Ok(fields)) && fields@.len() == 3
}

/// The record contents a well-shaped entry decodes to. Meaningful only for
/// well-shaped entries; anything else maps to three empty columns.
pub open spec fn entry_view(e: Option<RawEntry>) -> RecordView {
    match e {
        Some(Ok(fields)) => RecordView {
            host: fields@[0]@,
            start_ts: fields@[1]@,
            end_ts: fields@[2]@,
        },
        _ => RecordView {
            host: Seq::<u8>::empty(),
            start_ts: Seq::<u8>::empty(),
            end_ts: Seq::<u8>::empty(),
        },
    }
}

/// The two slots after a sequence of advances that consumes `entries` in
/// order, starting from `it` and `rec`.
pub open spec fn run_state(
    it: Option<RecordsIter>,
    rec: Option<RecordView>,
    entries: Seq<Option<RawEntry>>,
) -> (Option<RecordsIter>, Option<RecordView>)
    decreases entries.len(),
{
    if entries.len() == 0 {
        (it, rec)
    } else {
        run_state(
            advance_iter(it, rec, entries[0]),
            advance_rec(it, rec, entries[0]),
            entries.drop_first(),
        )
    }
}

/// The status codes that same sequence of advances reports, in order.
pub open spec fn run_codes(
    it: Option<RecordsIter>,
    rec: Option<RecordView>,
    entries: Seq<Option<RawEntry>>,
) -> Seq<int>
    decreases entries.len(),
{
    if entries.len() == 0 {
        Seq::<int>::empty()
    } else {
        seq![advance_code(it, rec, entries[0])] + run_codes(
            advance_iter(it, rec, entries[0]),
            advance_rec(it, rec, entries[0]),
            entries.drop_first(),
        )
    }
}

/// Exhaustion is terminal and sticky: once an iterator is exhausted, every
/// later advance with a live record slot reports the exhaustion code and
/// leaves both slots exactly as they were, whatever entries are offered.
pub proof fn lemma_exhaustion_sticky(
    it: RecordsIter,
    rec: Option<RecordView>,
    entries: Seq<Option<RawEntry>>,
)
    requires
        it.is_exhausted(),
        rec is Some,
    ensures
        run_state(Some(it), rec, entries) == (Some(it), rec),
        run_codes(Some(it), rec, entries).len() == entries.len(),
        forall|k: int|
            0 <= k < entries.len() ==> #[trigger] run_codes(Some(it), rec, entries)[k] == 1,
    decreases entries.len(),
{
    if entries.len() > 0 {
        let e0 = entries[0];
        assert(advance_code(Some(it), rec, e0) == 1);
        assert(advance_iter(Some(it), rec, e0) == Some(it));
        assert(advance_rec(Some(it), rec, e0) == rec);
        lemma_exhaustion_sticky(it, rec, entries.drop_first());
        let rest = run_codes(Some(it), rec, entries.drop_first());
        assert(run_codes(Some(it), rec, entries) =~= seq![1int] + rest);
        assert forall|k: int|
            0 <= k < entries.len() implies #[trigger] run_codes(Some(it), rec, entries)[k]
            == 1 by {
            if k > 0 {
                assert((seq![1int] + rest)[k] == rest[k - 1]);
            }
        }
    }
}

/// A successful advance overwrites all three columns together: the entry
/// had exactly three fields, and each column afterwards holds exactly the
/// bytes of the corresponding source field, so each column's length equals
/// that field's byte length.
pub proof fn lemma_success_overwrites(
    it: Option<RecordsIter>,
    rec: Option<RecordView>,
    entry: Option<RawEntry>,
)
    requires
        advance_code(it, rec, entry) == 0,
    ensures
        is_well_shaped(entry),
        advance_rec(it, rec, entry) == Some(entry_view(entry)),
        advance_rec(it, rec, entry) matches Some(rv)
            && rv.host.len() == entry_view(entry).host.len()
            && rv.start_ts.len() == entry_view(entry).start_ts.len()
            && rv.end_ts.len() == entry_view(entry).end_ts.len(),
{
}

/// An entry that is malformed or does not decode to exactly three fields
/// reports the decode error, leaves the record byte-identical to before the
/// call, and leaves the iterator live and callable again.
pub proof fn lemma_bad_entry_changes_nothing(
    it: RecordsIter,
    rec: Option<RecordView>,
    entry: Option<RawEntry>,
)
    requires
        rec is Some,
        !it.is_exhausted(),
        entry is Some,
        !is_well_shaped(entry),
    ensures
        advance_code(Some(it), rec, entry) == -3,
        advance_rec(Some(it), rec, entry) == rec,
        advance_iter(Some(it), rec, entry) == Some(it),
{
}

/// An absent iterator handle reports its own code and touches neither the
/// record nor anything else, whatever entry is offered.
pub proof fn lemma_missing_iterator(rec: Option<RecordView>, entry: Option<RawEntry>)
    requires
        rec is Some,
    ensures
        advance_code(None, rec, entry) == -2,
        advance_rec(None, rec, entry) == rec,
        advance_iter(None, rec, entry) is None,
{
}

/// An absent record handle reports its own code, checked before anything
/// else, and nothing at all is touched.
pub proof fn lemma_missing_record(it: Option<RecordsIter>, entry: Option<RawEntry>)
    ensures
        advance_code(it, None, entry) == -1,
        advance_rec(it, None, entry) is None,
        advance_iter(it, None, entry) == it,
{
}

/// A reader over an immediately empty source still hands out a live
/// iterator: the first advance on it reports the exhaustion code, leaves
/// the record untouched, and only then is the iterator exhausted.
pub proof fn lemma_empty_source(r: Reader, rec: Option<RecordView>)
    requires
        rec is Some,
    ensures
        advance_code(Some(fresh_iter(r)), rec, None) == 1,
        advance_rec(Some(fresh_iter(r)), rec, None) == rec,
        advance_iter(Some(fresh_iter(r)), rec, None) == Some(fresh_iter(r).exhaust()),
{
}

/// Round trip: from a fresh, live iterator and a live record slot, a
/// sequence of well-shaped entries followed by the tokenizer's end yields
/// exactly one success code per entry, in order, then exactly one
/// exhaustion code; the iterator ends exhausted, and the record ends
/// holding the last entry's bytes unchanged (or its starting contents when
/// there was no entry at all).
pub proof fn lemma_round_trip(
    it: RecordsIter,
    rec: Option<RecordView>,
    entries: Seq<Option<RawEntry>>,
)
    requires
        !it.is_exhausted(),
        rec is Some,
        forall|k: int| 0 <= k < entries.len() ==> is_well_shaped(#[trigger] entries[k]),
    ensures
        run_codes(Some(it), rec, entries.push(None)).len() == entries.len() + 1,
        forall|k: int|
            0 <= k < entries.len() ==> #[trigger] run_codes(Some(it), rec, entries.push(None))[k]
                == 0,
        run_codes(Some(it), rec, entries.push(None))[entries.len() as int] == 1,
        run_state(Some(it), rec, entries.push(None)).0 == Some(it.exhaust()),
        entries.len() > 0 ==> run_state(Some(it), rec, entries.push(None)).1 == Some(
            entry_view(entries.last()),
        ),
        entries.len() == 0 ==> run_state(Some(it), rec, entries.push(None)).1 == rec,
    decreases entries.len(),
{
    let all = entries.push(None);
    if entries.len() == 0 {
        assert(all =~= seq![None::<RawEntry>]);
        assert(all[0] is None);
        assert(all.drop_first() =~= Seq::<Option<RawEntry>>::empty());
        let it1 = advance_iter(Some(it), rec, None);
        let recb = advance_rec(Some(it), rec, None);
        assert(advance_code(Some(it), rec, None) == 1);
        assert(it1 == Some(it.exhaust()));
        assert(recb == rec);
        assert(run_state(Some(it), rec, all) == run_state(it1, recb, all.drop_first()));
        assert(run_state(it1, recb, all.drop_first()) == (it1, recb));
        assert(run_codes(it1, recb, all.drop_first()) =~= Seq::<int>::empty());
        assert(run_codes(Some(it), rec, all) =~= seq![1int]);
    } else {
        let e0 = entries[0];
        assert(is_well_shaped(e0));
        assert(advance_code(Some(it), rec, e0) == 0);
        let rec1 = advance_rec(Some(it), rec, e0);
        assert(rec1 == Some(entry_view(e0)));
        assert(advance_iter(Some(it), rec, e0) == Some(it));
        assert(all[0] == e0);
        let tail = entries.drop_first();
        assert(all.drop_first() =~= tail.push(None));
        assert forall|k: int| 0 <= k < tail.len() implies is_well_shaped(#[trigger] tail[k]) by {
            assert(tail[k] == entries[k + 1]);
        }
        lemma_round_trip(it, rec1, tail);
        let rest = run_codes(Some(it), rec1, tail.push(None));
        assert(run_codes(Some(it), rec, all) =~= seq![0int] + rest);
        assert(run_state(Some(it), rec, all) == run_state(Some(it), rec1, tail.push(None)));
        assert forall|k: int|
            0 <= k < entries.len() implies #[trigger] run_codes(Some(it), rec, all)[k] == 0 by {
            if k > 0 {
                assert((seq![0int] + rest)[k] == rest[k - 1]);
            }
        }
        assert(run_codes(Some(it), rec, all)[entries.len() as int] == rest[entries.len() - 1]);
        if entries.len() == 1 {
            assert(tail.len() == 0);
            assert(run_state(Some(it), rec1, tail.push(None)).1 == rec1);
            assert(entries.last() == e0);
        } else {
            assert(tail.last() == entries.last());
        }
    }
}

} // verus!
