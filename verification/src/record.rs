use vstd::prelude::*;
use crate::field::Field;

verus! {

/// Mathematical view of a record: the bytes of its three columns.
#[verifier::ext_equal]
pub struct RecordView {
    pub host: Seq<u8>,
    pub start_ts: Seq<u8>,
    pub end_ts: Seq<u8>,
}

/// The fixed three-column row shape: a host identifier and two timestamps.
/// A record is created once by the caller, overwritten in place by each
/// successful advance, and freed by the caller; the core never frees it.
pub struct Record {
    pub host: Field,
    pub start_ts: Field,
    pub end_ts: Field,
}

impl View for Record {
    type V = RecordView;

    open spec fn view(&self) -> RecordView {
        RecordView { host: self.host@, start_ts: self.start_ts@, end_ts: self.end_ts@ }
    }
}

/// A record with three empty columns; never fails.
pub fn record_new() -> (r: Record)
    ensures
        r@ == (RecordView {
            host: Seq::<u8>::empty(),
            start_ts: Seq::<u8>::empty(),
            end_ts: Seq::<u8>::empty(),
        }),
{
    let r = Record {
        host: Field(Vec::new()),
        start_ts: Field(Vec::new()),
        end_ts: Field(Vec::new()),
    };
    proof {
        assert(r@ =~= RecordView {
            host: Seq::<u8>::empty(),
            start_ts: Seq::<u8>::empty(),
            end_ts: Seq::<u8>::empty(),
        });
    }
    r
}

/// The host column of a record, or no field at all for an absent record
/// handle (the null convention of the boundary).
pub fn record_host(rp: Option<&Record>) -> (r: Option<&Field>)
    ensures
        match rp {
            None => r is None,
            Some(rec) => r matches Some(f) && f@ == rec@.host,
        },
{
    match rp {
        None => None,
        Some(rec) => Some(&rec.host),
    }
}

/// The start-timestamp column of a record, or no field for an absent handle.
pub fn record_start_ts(rp: Option<&Record>) -> (r: Option<&Field>)
    ensures
        match rp {
            None => r is None,
            Some(rec) => r matches Some(f) && f@ == rec@.start_ts,
        },
{
    match rp {
        None => None,
        Some(rec) => Some(&rec.start_ts),
    }
}

/// The end-timestamp column of a record, or no field for an absent handle.
pub fn record_end_ts(rp: Option<&Record>) -> (r: Option<&Field>)
    ensures
        match rp {
            None => r is None,
            Some(rec) => r matches Some(f) && f@ == rec@.end_ts,
        },
{
    match rp {
        None => None,
        Some(rec) => Some(&rec.end_ts),
    }
}

} // verus!
