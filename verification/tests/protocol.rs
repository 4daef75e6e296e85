use csv_rows::field::{field_len, field_ptr};
use csv_rows::iter::{read_next, reader_iter, fill_rec, RecordsIter, TokenizeError};
use csv_rows::reader::{reader_free, reader_from_stdin, Reader};
use csv_rows::record::{record_end_ts, record_host, record_new, record_start_ts, Record};

fn entry(fields: &[&[u8]]) -> Option<Result<Vec<Vec<u8>>, TokenizeError>> {
    Some(Ok(fields.iter().map(|f| f.to_vec()).collect()))
}

fn record_bytes(rec: &Record) -> (Vec<u8>, Vec<u8>, Vec<u8>) {
    let host = field_ptr(record_host(Some(rec))).unwrap().clone();
    let start = field_ptr(record_start_ts(Some(rec))).unwrap().clone();
    let end = field_ptr(record_end_ts(Some(rec))).unwrap().clone();
    (host, start, end)
}

#[test]
fn record_new_starts_empty() {
    let rec = record_new();
    assert_eq!(field_len(record_host(Some(&rec))), 0);
    assert_eq!(field_len(record_start_ts(Some(&rec))), 0);
    assert_eq!(field_len(record_end_ts(Some(&rec))), 0);
    assert!(field_ptr(record_host(Some(&rec))).unwrap().is_empty());
}

#[test]
fn accessors_follow_null_convention() {
    assert!(record_host(None).is_none());
    assert!(record_start_ts(None).is_none());
    assert!(record_end_ts(None).is_none());
    assert!(field_ptr(None).is_none());
    assert_eq!(field_len(None), 0);
}

#[test]
fn fill_rec_overwrites_all_three_columns() {
    let mut rec = record_new();
    let e = entry(&[b"alpha", b"1", b"22"]).unwrap();
    assert_eq!(fill_rec(e, &mut rec), Ok(()));
    let (host, start, end) = record_bytes(&rec);
    assert_eq!(host.as_slice(), b"alpha");
    assert_eq!(start.as_slice(), b"1");
    assert_eq!(end.as_slice(), b"22");
}

#[test]
fn fill_rec_rejects_wrong_arity() {
    let mut rec = record_new();
    let ok = entry(&[b"a", b"b", b"c"]).unwrap();
    assert_eq!(fill_rec(ok, &mut rec), Ok(()));
    let before = record_bytes(&rec);
    let two = entry(&[b"x", b"y"]).unwrap();
    assert_eq!(fill_rec(two, &mut rec), Err(-1));
    assert_eq!(record_bytes(&rec), before);
    let four = entry(&[b"1", b"2", b"3", b"4"]).unwrap();
    assert_eq!(fill_rec(four, &mut rec), Err(-1));
    assert_eq!(record_bytes(&rec), before);
}

#[test]
fn fill_rec_rejects_malformed_entry() {
    let mut rec = record_new();
    let ok = entry(&[b"a", b"b", b"c"]).unwrap();
    assert_eq!(fill_rec(ok, &mut rec), Ok(()));
    let before = record_bytes(&rec);
    assert_eq!(fill_rec(Err(TokenizeError), &mut rec), Err(-2));
    assert_eq!(record_bytes(&rec), before);
}

#[test]
fn read_next_reports_missing_record_first() {
    let mut it = Some(RecordsIter::File { exhausted: false });
    let mut rec: Option<Record> = None;
    assert_eq!(read_next(&mut it, &mut rec, entry(&[b"a", b"b", b"c"])), -1);
    // the record handle is checked before the iterator handle
    let mut no_it: Option<RecordsIter> = None;
    assert_eq!(read_next(&mut no_it, &mut rec, None), -1);
}

#[test]
fn read_next_reports_missing_iterator() {
    let mut it = Some(RecordsIter::File { exhausted: false });
    let mut rec = Some(record_new());
    assert_eq!(read_next(&mut it, &mut rec, entry(&[b"a", b"b", b"c"])), 0);
    let before = record_bytes(rec.as_ref().unwrap());
    let mut no_it: Option<RecordsIter> = None;
    assert_eq!(read_next(&mut no_it, &mut rec, entry(&[b"x", b"y", b"z"])), -2);
    assert_eq!(record_bytes(rec.as_ref().unwrap()), before);
}

#[test]
fn read_next_shape_error_leaves_record_byte_identical() {
    let mut it = Some(RecordsIter::File { exhausted: false });
    let mut rec = Some(record_new());
    assert_eq!(read_next(&mut it, &mut rec, entry(&[b"srv", b"10", b"20"])), 0);
    let before = record_bytes(rec.as_ref().unwrap());
    assert_eq!(read_next(&mut it, &mut rec, entry(&[b"only", b"two"])), -3);
    assert_eq!(record_bytes(rec.as_ref().unwrap()), before);
    assert_eq!(read_next(&mut it, &mut rec, entry(&[b"1", b"2", b"3", b"4"])), -3);
    assert_eq!(record_bytes(rec.as_ref().unwrap()), before);
    // a decode error is not terminal: the next well-shaped entry succeeds
    assert_eq!(read_next(&mut it, &mut rec, entry(&[b"a", b"b", b"c"])), 0);
}

#[test]
fn read_next_exhaustion_is_sticky() {
    let mut it = Some(RecordsIter::Stdin { exhausted: false });
    let mut rec = Some(record_new());
    assert_eq!(read_next(&mut it, &mut rec, None), 1);
    assert!(it.as_ref().unwrap().is_done());
    // once exhausted, every later advance reports exhaustion, whatever is offered
    assert_eq!(read_next(&mut it, &mut rec, entry(&[b"a", b"b", b"c"])), 1);
    assert_eq!(read_next(&mut it, &mut rec, Some(Err(TokenizeError))), 1);
    assert_eq!(read_next(&mut it, &mut rec, None), 1);
    let (host, start, end) = record_bytes(rec.as_ref().unwrap());
    assert!(host.is_empty() && start.is_empty() && end.is_empty());
}

#[test]
fn read_next_success_field_lengths_match_source() {
    let mut it = Some(RecordsIter::File { exhausted: false });
    let mut rec = Some(record_new());
    let host = [b'h'; 11];
    let start = [b'0'; 19];
    let end = [b'9'; 19];
    assert_eq!(read_next(&mut it, &mut rec, entry(&[&host, &start, &end])), 0);
    let r = rec.as_ref().unwrap();
    assert_eq!(field_len(record_host(Some(r))), 11);
    assert_eq!(field_len(record_start_ts(Some(r))), 19);
    assert_eq!(field_len(record_end_ts(Some(r))), 19);
    assert!(field_ptr(record_host(Some(r))).is_some());
}

#[test]
fn reader_iter_follows_null_convention() {
    assert!(reader_iter(None).is_none());
    let file_it = reader_iter(Some(&Reader::File)).unwrap();
    assert!(!file_it.is_done());
    assert!(matches!(file_it, RecordsIter::File { .. }));
    let stdin_it = reader_iter(Some(&Reader::Stdin)).unwrap();
    assert!(!stdin_it.is_done());
    assert!(matches!(stdin_it, RecordsIter::Stdin { .. }));
}

#[test]
fn stdin_reader_exists_even_for_empty_stream() {
    let rdr = reader_from_stdin();
    assert!(matches!(rdr, Reader::Stdin));
    let mut it = reader_iter(Some(&rdr));
    assert!(it.is_some());
    let mut rec = Some(record_new());
    // an immediately empty stream: the first advance reports exhaustion
    assert_eq!(read_next(&mut it, &mut rec, None), 1);
    assert_eq!(read_next(&mut it, &mut rec, None), 1);
}

#[test]
fn reader_free_clears_slot_and_tolerates_absent_handle() {
    let mut slot = Some(reader_from_stdin());
    reader_free(&mut slot);
    assert!(slot.is_none());
    reader_free(&mut slot);
    assert!(slot.is_none());
}
