use vstd::prelude::*;

verus! {

/// One decoded column: an owned byte buffer. Its contents are replaced
/// wholesale each time the owning record is overwritten by a successful
/// advance; it is never allocated or freed on its own.
pub struct Field(pub Vec<u8>);

impl View for Field {
    type V = Seq<u8>;

    open spec fn view(&self) -> Seq<u8> {
        self.0@
    }
}

/// Read-only view of a field's bytes. An absent field handle yields no
/// bytes, mirroring the boundary's null-pointer convention: callers must
/// check before reading.
pub fn field_ptr(fp: Option<&Field>) -> (r: Option<&Vec<u8>>)
    ensures
        match fp {
            None => r is None,
            Some(f) => r matches Some(b) && b@ == f@,
        },
{
    match fp {
        None => None,
        Some(f) => Some(&f.0),
    }
}

/// Current byte count of a field. An absent field handle counts as zero
/// rather than failing loudly.
pub fn field_len(fp: Option<&Field>) -> (n: usize)
    ensures
        match fp {
            None => n == 0,
            Some(f) => n == f@.len(),
        },
{
    match fp {
        None => 0,
        Some(f) => f.0.len(),
    }
}

} // verus!
