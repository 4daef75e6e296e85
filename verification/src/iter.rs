use vstd::prelude::*;
use crate::record::{Record, RecordView};
use crate::reader::Reader;

verus! {

/// Marker for an entry on which the external tokenizer reported malformed
/// input. The caller maps the tokenizer's own error value to this before
/// handing the entry in.
#[derive(Clone, Copy, Debug)]
pub struct TokenizeError;

/// One raw entry pulled from the tokenizer: the byte sequences of one row's
/// fields, in order, or a malformed-input report.
pub type RawEntry = Result<Vec<Vec<u8>>, TokenizeError>;

/// A forward-only cursor over the tokenizer's entries, mirroring the
/// variant of the reader it was derived from. The cursor itself lives with
/// the external tokenizer; the core records here whether the end has been
/// reached, and that state is terminal.
pub enum RecordsIter {
    File { exhausted: bool },
    Stdin { exhausted: bool },
}

impl RecordsIter {
    /// Whether the iterator has reached its terminal, exhausted state.
    pub open spec fn is_exhausted(self) -> bool {
        match self {
            RecordsIter::File { exhausted } => exhausted,
            RecordsIter::Stdin { exhausted } => exhausted,
        }
    }

    /// The same iterator, moved to the terminal state.
    pub open spec fn exhaust(self) -> RecordsIter {
        match self {
            RecordsIter::File { .. } => RecordsIter::File { exhausted: true },
            RecordsIter::Stdin { .. } => RecordsIter::Stdin { exhausted: true },
        }
    }

    /// Executable query for the terminal state. The caller consults it to
    /// decide whether another entry still needs to be pulled from the
    /// tokenizer before the next advance.
    pub fn is_done(&self) -> (b: bool)
        ensures
            b == self.is_exhausted(),
    {
        match self {
            RecordsIter::File { exhausted } => *exhausted,
            RecordsIter::Stdin { exhausted } => *exhausted,
        }
    }
}

/// The iterator a live reader hands out: same variant, end not yet reached.
pub open spec fn fresh_iter(r: Reader) -> RecordsIter {
    match r {
        Reader::File => RecordsIter::File { exhausted: false },
        Reader::Stdin => RecordsIter::Stdin { exhausted: false },
    }
}

/// Derives an iterator from a reader: an absent reader handle yields an
/// absent iterator, a live reader a fresh iterator of the matching variant.
pub fn reader_iter(rdr: Option<&Reader>) -> (it: Option<RecordsIter>)
    ensures
        match rdr {
            None => it is None,
            Some(r) => it == Some(fresh_iter(*r)),
        },
{
    match rdr {
        None => None,
        Some(r) => match r {
            Reader::File => Some(RecordsIter::File { exhausted: false }),
            Reader::Stdin => Some(RecordsIter::Stdin { exhausted: false }),
        },
    }
}

/// Overwrites `dst` in place with a copy of the bytes of `src`: clear, then
/// append, never a partial write.
fn copy_bytes(dst: &mut Vec<u8>, src: &Vec<u8>)
    ensures
        final(dst)@ == src@,
{
    dst.clear();
    let mut i: usize = 0;
    while i < src.len()
        invariant
            i <= src@.len(),
            dst@ == src@.subrange(0, i as int),
        decreases src@.len() - i,
    {
        let b = src[i];
        dst.push(b);
        proof {
            assert(dst@ =~= src@.subrange(0, i + 1));
        }
        i += 1;
    }
    proof {
        assert(src@.subrange(0, src@.len() as int) =~= src@);
    }
}

/// Decodes one raw entry into the caller's record. An entry of exactly
/// three fields overwrites the record's three columns together, in order,
/// and succeeds. Any other field count leaves the record byte-identical and
/// reports the shape error; a malformed entry leaves it byte-identical and
/// reports the tokenizer error.
pub fn fill_rec(inr: RawEntry, outr: &mut Record) -> (r: Result<(), i8>)
    ensures
        match inr {
            Ok(fields) => if fields@.len() == 3 {
                r == Ok::<(), i8>(()) && final(outr)@ == (RecordView {
                    host: fields@[0]@,
                    start_ts: fields@[1]@,
                    end_ts: fields@[2]@,
                })
            } else {
                r == Err::<(), i8>(-1i8) && final(outr)@ == old(outr)@
            },
            Err(_) => r == Err::<(), i8>(-2i8) && final(outr)@ == old(outr)@,
        },
{
    match inr {
        Ok(fields) => {
            if fields.len() != 3 {
                return Err(-1);
            }
            copy_bytes(&mut outr.host.0, &fields[0]);
            copy_bytes(&mut outr.start_ts.0, &fields[1]);
            copy_bytes(&mut outr.end_ts.0, &fields[2]);
            proof {
                assert(outr@ =~= RecordView {
                    host: fields@[0]@,
                    start_ts: fields@[1]@,
                    end_ts: fields@[2]@,
                });
            }
            Ok(())
        },
        Err(_) => Err(-2),
    }
}

/// Spec-level contents of an optional record slot.
pub open spec fn opt_record_view(r: Option<Record>) -> Option<RecordView> {
    match r {
        None => None,
        Some(rec) => Some(rec@),
    }
}

/// The status code one advance reports, as a function of the two handle
/// slots, the iterator's state, and the entry the tokenizer produced. The
/// record handle is checked first (-1), then the iterator handle (-2); an
/// exhausted iterator reports exhaustion (1) whatever entry is offered;
/// otherwise the entry decides: no entry is exhaustion (1), a malformed
/// entry or a field count other than three is a decode error (-3), and an
/// entry of exactly three fields succeeds (0).
pub open spec fn advance_code(
    it: Option<RecordsIter>,
    rec: Option<RecordView>,
    entry: Option<RawEntry>,
) -> int {
    match (rec, it) {
        (None, _) => -1,
        (Some(_), None) => -2,
        (Some(_), Some(i)) => if i.is_exhausted() {
            1
        } else {
            match entry {
                None => 1,
                Some(Ok(fields)) => if fields@.len() == 3 {
                    0
                } else {
                    -3
                },
                Some(Err(_)) => -3,
            }
        },
    }
}

/// The iterator state after one advance: only the call on which a live,
/// validly addressed iterator first sees the tokenizer's end moves it to
/// exhausted; every other outcome leaves it exactly as it was.
pub open spec fn advance_iter(
    it: Option<RecordsIter>,
    rec: Option<RecordView>,
    entry: Option<RawEntry>,
) -> Option<RecordsIter> {
    match (rec, it) {
        (Some(_), Some(i)) => if !i.is_exhausted() && entry is None {
            Some(i.exhaust())
        } else {
            Some(i)
        },
        _ => it,
    }
}

/// The record contents after one advance: a successful call (code 0)
/// overwrites the three columns with the entry's three fields, in order;
/// every other outcome leaves the record byte-identical.
pub open spec fn advance_rec(
    it: Option<RecordsIter>,
    rec: Option<RecordView>,
    entry: Option<RawEntry>,
) -> Option<RecordView> {
    if advance_code(it, rec, entry) == 0 {
        match entry {
            Some(Ok(fields)) => Some(RecordView {
                host: fields@[0]@,
                start_ts: fields@[1]@,
                end_ts: fields@[2]@,
            }),
            _ => rec,
        }
    } else {
        rec
    }
}

/// One advance of the iteration. Every decision is made here, from the two
/// handle slots, the iterator's recorded state, and the entry the caller
/// pulled from the external tokenizer (`None` when the tokenizer has no
/// more entries). The returned status code and the exact mutation of both
/// slots are pinned by the three model functions: 0 overwrites the record's
/// columns with the entry's fields, 1 reports exhaustion (and records it,
/// terminally, when first reached), and -1, -2 and -3 change nothing.
pub fn read_next(
    rec_iter: &mut Option<RecordsIter>,
    rec: &mut Option<Record>,
    entry: Option<RawEntry>,
) -> (code: i32)
    ensures
        code == advance_code(*old(rec_iter), opt_record_view(*old(rec)), entry),
        *final(rec_iter) == advance_iter(*old(rec_iter), opt_record_view(*old(rec)), entry),
        opt_record_view(*final(rec)) == advance_rec(
            *old(rec_iter),
            opt_record_view(*old(rec)),
            entry,
        ),
{
    let outr = match rec {
        None => {
            return -1;
        },
        Some(r) => r,
    };
    let it = match rec_iter {
        None => {
            return -2;
        },
        Some(i) => i,
    };
    if it.is_done() {
        return 1;
    }
    match entry {
        None => {
            let ended = match it {
                RecordsIter::File { .. } => RecordsIter::File { exhausted: true },
                RecordsIter::Stdin { .. } => RecordsIter::Stdin { exhausted: true },
            };
            *it = ended;
            1
        },
        Some(e) => match fill_rec(e, outr) {
            Ok(_) => 0,
            Err(_) => -3,
        },
    }
}

} // verus!
