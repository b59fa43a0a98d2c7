//! Trusted bridge to the shared byte-buffer primitive (`bytes::Bytes`) and
//! to the parser framework's native substring search.
//!
//! Everything the rest of the crate knows about a buffer flows through the
//! contracts below: the buffer's visible contents are named by
//! [`bytes_view`], and each trusted operation states what it does to that
//! view.

use vstd::prelude::*;

use nom::FindSubstring;

use crate::match_at;

verus! {

/// `bytes::Bytes` is an opaque, reference-counted, immutable byte buffer;
/// the crate reads it only through the trusted operations of this module.
#[verifier::external_type_specification]
#[verifier::external_body]
pub struct ExBytes(bytes::Bytes);

/// The sequence of bytes visible through a `bytes::Bytes` handle.
pub uninterp spec fn bytes_view(b: bytes::Bytes) -> Seq<u8>;

/// Relies on `bytes::Bytes::len`: the number of visible bytes.
pub assume_specification[ bytes::Bytes::len ](b: &bytes::Bytes) -> (r: usize)
    ensures
        r == bytes_view(*b).len(),
;

/// Relies on `bytes::Bytes::slice`: a zero-copy sub-view holding the bytes
/// at `start..end`. It panics outside the buffer, which `requires` rules
/// out.
#[verifier::external_body]
pub(crate) fn slice_bytes(b: &bytes::Bytes, start: usize, end: usize) -> (r: bytes::Bytes)
    requires
        start <= end <= bytes_view(*b).len(),
    ensures
        bytes_view(r) == bytes_view(*b).subrange(start as int, end as int),
{
    b.slice(start..end)
}

/// Relies on `bytes::Bytes::clone`: a second handle on the same storage,
/// showing the same bytes.
#[verifier::external_body]
pub(crate) fn clone_bytes(b: &bytes::Bytes) -> (r: bytes::Bytes)
    ensures
        bytes_view(r) == bytes_view(*b),
{
    b.clone()
}

/// Relies on the byte-slice view that `bytes::Bytes` dereferences to:
/// indexing reads the byte at that offset. It panics outside the buffer,
/// which `requires` rules out.
#[verifier::external_body]
pub(crate) fn byte_at(b: &bytes::Bytes, i: usize) -> (r: u8)
    requires
        i < bytes_view(*b).len(),
    ensures
        r == bytes_view(*b)[i as int],
{
    b[i]
}

/// Relies on `nom`'s `FindSubstring` for byte slices: the offset of the
/// first occurrence of `needle`, `Some(0)` for an empty needle, `None` when
/// no occurrence exists.
#[verifier::external_body]
pub(crate) fn find_substring_bytes(b: &bytes::Bytes, needle: &[u8]) -> (r: Option<usize>)
    ensures
        match r {
            Some(i) => match_at(bytes_view(*b), needle@, i as int) && (forall|j: int|
                0 <= j < i ==> !match_at(bytes_view(*b), needle@, j)),
            None => forall|j: int| !match_at(bytes_view(*b), needle@, j),
        },
{
    (&b[..]).find_substring(needle)
}

} // verus!
