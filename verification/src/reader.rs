use vstd::prelude::*;

verus! {

/// An opened, exclusive binding to one input byte source, in one of two
/// variants. The byte source itself and the tokenizer configured over it
/// are external collaborators and live with the unverified caller; the core
/// keeps the variant tag, which every iterator derived from the reader
/// mirrors, and the ownership discipline: a reader must outlive every
/// iterator derived from it.
pub enum Reader {
    File,
    Stdin,
}

/// A reader bound to the standard-input stream. Construction never fails:
/// failures of the stream surface later, during iteration, never here.
pub fn reader_from_stdin() -> (r: Reader)
    ensures
        r == Reader::Stdin,
{
    Reader::Stdin
}

/// Releases the reader held in the slot. Safe on an absent handle (a
/// no-op); must not be called while an iterator derived from the reader is
/// still in use.
pub fn reader_free(rdr: &mut Option<Reader>)
    ensures
        *final(rdr) is None,
{
    *rdr = None;
}

} // verus!
