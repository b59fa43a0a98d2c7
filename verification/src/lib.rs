//! An input-cursor adapter over a shared, reference-counted byte buffer.
//!
//! [`BytesWrapper`] wraps a `bytes::Bytes` handle and offers the operation
//! set a parser-combinator framework expects of its input type: length,
//! prefix-taking, splitting, substring search, element iteration with local
//! indices, predicate search, and element-count-to-offset resolution. Every
//! derived cursor is a zero-copy view of the same backing storage, never a
//! copy of the bytes.

use vstd::prelude::*;
use vstd::string::StringSliceAdditionalSpecFns;

mod bytes_ops;

pub use bytes_ops::bytes_view;

use bytes_ops::{byte_at, clone_bytes, find_substring_bytes, slice_bytes};

verus! {

/// `needle` occurs in `view` at offset `i`.
pub open spec fn match_at(view: Seq<u8>, needle: Seq<u8>, i: int) -> bool {
    &&& 0 <= i
    &&& i + needle.len() <= view.len()
    &&& view.subrange(i, i + needle.len()) == needle
}

/// `i` is the smallest offset at which `needle` occurs in `view`.
pub open spec fn first_match_at(view: Seq<u8>, needle: Seq<u8>, i: int) -> bool {
    &&& match_at(view, needle, i)
    &&& forall|j: int| 0 <= j < i ==> !match_at(view, needle, j)
}

/// The insufficient-data signal of [`BytesWrapper::slice_index`]: the view
/// is shorter than the requested element count, and more input is needed
/// before the request can be met.
#[derive(Clone, Copy, Debug, PartialEq, Eq)]
pub enum Needed {
    /// More data is needed, but how much is not known. The cursor itself
    /// never reports this variant, since its view length is exact; it is
    /// kept as part of the insufficient-data taxonomy for callers that
    /// aggregate such signals.
    Unknown,
    /// At least this many further bytes are needed; always positive.
    Size(usize),
}

/// A cursor over a shared, immutable byte buffer, exposing exactly the
/// input operations a parser framework asks of it. Deriving a new cursor
/// never copies bytes: it is a new view of the same storage.
#[derive(Debug)]
pub struct BytesWrapper(bytes::Bytes);

impl View for BytesWrapper {
    type V = Seq<u8>;

    closed spec fn view(&self) -> Seq<u8> {
        bytes_view(self.0)
    }
}

impl BytesWrapper {
    /// The cursor that wraps `bytes` (the spec-level constructor).
    pub closed spec fn wrap_spec(bytes: bytes::Bytes) -> BytesWrapper {
        BytesWrapper(bytes)
    }

    /// The number of bytes visible through this cursor.
    pub fn input_len(&self) -> (r: usize)
        ensures
            r == self@.len(),
    {
        self.0.len()
    }

    /// A new cursor over the first `count` bytes of this view, aliasing the
    /// same backing storage. Asking for more bytes than are visible is a
    /// caller error, ruled out by `requires`; the view is never silently
    /// clamped.
    pub fn take(&self, count: usize) -> (r: BytesWrapper)
        requires
            count <= self@.len(),
        ensures
            r@ == self@.subrange(0, count as int),
    {
        BytesWrapper(slice_bytes(&self.0, 0, count))
    }

    /// Splits the view at byte offset `count` into the remainder after the
    /// split point and the consumed prefix, in that inverted order, both
    /// aliasing the same backing storage. The two parts reassemble the view
    /// exactly and their lengths add up to its length.
    pub fn take_split(&self, count: usize) -> (r: (BytesWrapper, BytesWrapper))
        requires
            count <= self@.len(),
        ensures
            r.0@ == self@.subrange(count as int, self@.len() as int),
            r.1@ == self@.subrange(0, count as int),
            r.1@ + r.0@ == self@,
            r.1@.len() + r.0@.len() == self@.len(),
    {
        let len = self.0.len();
        let suffix = BytesWrapper(slice_bytes(&self.0, count, len));
        let prefix = BytesWrapper(slice_bytes(&self.0, 0, count));
        proof {
            assert(prefix@ + suffix@ =~= self@);
        }
        (suffix, prefix)
    }

    /// The byte offset of the first occurrence of the raw-byte needle
    /// `substr` within this view; `None` when it does not occur. An empty
    /// needle occurs at offset 0.
    pub fn find_substring(&self, substr: &[u8]) -> (r: Option<usize>)
        ensures
            match r {
                Some(i) => first_match_at(self@, substr@, i as int),
                None => forall|j: int| !match_at(self@, substr@, j),
            },
    {
        find_substring_bytes(&self.0, substr)
    }

    /// The byte offset of the first occurrence of the text needle `substr`,
    /// matched as its raw byte encoding, with no normalization; `None` when
    /// it does not occur.
    pub fn find_substring_str(&self, substr: &str) -> (r: Option<usize>)
        ensures
            match r {
                Some(i) => first_match_at(self@, substr.spec_bytes(), i as int),
                None => forall|j: int| !match_at(self@, substr.spec_bytes(), j),
            },
    {
        self.find_substring(substr.as_bytes())
    }

    /// Every byte of the current view, in order. The cursor is not
    /// consumed or changed: the result is a pure function of the view, so
    /// repeated calls yield the same sequence.
    pub fn iter_elements(&self) -> (r: Vec<u8>)
        ensures
            r@ == self@,
    {
        let len = self.0.len();
        let mut out: Vec<u8> = Vec::new();
        let mut i: usize = 0;
        while i < len
            invariant
                len == self@.len(),
                i <= len,
                out@ =~= self@.subrange(0, i as int),
            decreases len - i,
        {
            out.push(byte_at(&self.0, i));
            i += 1;
        }
        proof {
            assert(self@.subrange(0, len as int) =~= self@);
        }
        out
    }

    /// Every byte of the current view paired with its zero-based position
    /// from the start of this view. Indexing is local: it starts at 0 for
    /// every cursor, however the cursor was derived.
    pub fn iter_indices(&self) -> (r: Vec<(usize, u8)>)
        ensures
            r@.len() == self@.len(),
            forall|i: int| 0 <= i < r@.len() ==> #[trigger] r@[i] == (i as usize, self@[i]),
    {
        let len = self.0.len();
        let mut out: Vec<(usize, u8)> = Vec::new();
        let mut i: usize = 0;
        while i < len
            invariant
                len == self@.len(),
                i <= len,
                out@.len() == i,
                forall|k: int| 0 <= k < i ==> #[trigger] out@[k] == (k as usize, self@[k]),
            decreases len - i,
        {
            out.push((i, byte_at(&self.0, i)));
            i += 1;
        }
        out
    }

    /// The byte offset of the first element of the view that satisfies
    /// `predicate`, scanning from the start; `None` when no element does.
    pub fn position<P: Fn(u8) -> bool>(&self, predicate: P) -> (r: Option<usize>)
        requires
            forall|b: u8| #[trigger] predicate.requires((b,)),
        ensures
            match r {
                Some(i) => {
                    &&& i < self@.len()
                    &&& predicate.ensures((self@[i as int],), true)
                    &&& forall|j: int| 0 <= j < i ==> predicate.ensures((self@[j],), false)
                },
                None => forall|j: int|
                    0 <= j < self@.len() ==> predicate.ensures((self@[j],), false),
            },
    {
        let len = self.0.len();
        let mut i: usize = 0;
        while i < len
            invariant
                forall|b: u8| #[trigger] predicate.requires((b,)),
                len == self@.len(),
                i <= len,
                forall|j: int| 0 <= j < i ==> predicate.ensures((self@[j],), false),
            decreases len - i,
        {
            let b = byte_at(&self.0, i);
            if predicate(b) {
                return Some(i);
            }
            i += 1;
        }
        None
    }

    /// Translates a requested element count into a byte offset. Elements
    /// are raw bytes, so this is the identity whenever the count does not
    /// exceed the view's length; past the end it reports exactly how many
    /// further bytes would be needed, so an incremental caller can fetch
    /// more input and retry.
    pub fn slice_index(&self, count: usize) -> (r: Result<usize, Needed>)
        ensures
            count <= self@.len() ==> r == Ok::<usize, Needed>(count),
            count > self@.len() ==> r == Err::<usize, Needed>(
                Needed::Size((count - self@.len()) as usize),
            ),
    {
        let len = self.0.len();
        if len >= count {
            Ok(count)
        } else {
            Err(Needed::Size(count - len))
        }
    }

    /// The underlying shared buffer handle, consuming the cursor: the very
    /// handle the cursor wraps, so unwrapping undoes wrapping exactly.
    pub fn into_bytes(self) -> (r: bytes::Bytes)
        ensures
            BytesWrapper::wrap_spec(r) == self,
            bytes_view(r) == self@,
    {
        self.0
    }

    /// A borrow of the underlying shared buffer handle.
    pub fn as_bytes(&self) -> (r: &bytes::Bytes)
        ensures
            BytesWrapper::wrap_spec(*r) == *self,
            bytes_view(*r) == self@,
    {
        &self.0
    }
}

impl From<bytes::Bytes> for BytesWrapper {
    /// Wraps a shared buffer, taking ownership of the handle; no copying.
    fn from(bytes: bytes::Bytes) -> (r: Self) {
        BytesWrapper(bytes)
    }
}

impl vstd::std_specs::convert::FromSpecImpl<bytes::Bytes> for BytesWrapper {
    open spec fn obeys_from_spec() -> bool {
        true
    }

    open spec fn from_spec(bytes: bytes::Bytes) -> BytesWrapper {
        BytesWrapper::wrap_spec(bytes)
    }
}

/// Splitting a cursor at any valid point and re-concatenating the consumed
/// prefix with the remaining suffix reproduces the original view byte for
/// byte, and the lengths of the two parts add up to the view's length.
/// [`BytesWrapper::take_split`] returns exactly these two subranges.
pub proof fn lemma_split_reassembles(c: BytesWrapper, n: int)
    requires
        0 <= n <= c@.len(),
    ensures
        c@.subrange(0, n) + c@.subrange(n, c@.len() as int) == c@,
        c@.subrange(0, n).len() + c@.subrange(n, c@.len() as int).len() == c@.len(),
{
    assert(c@.subrange(0, n) + c@.subrange(n, c@.len() as int) =~= c@);
}

/// Element iteration is restartable: it is a pure function of the cursor's
/// view, so any two results that [`BytesWrapper::iter_elements`] may return
/// for one cursor are the same sequence.
pub proof fn lemma_iteration_restartable(c: BytesWrapper, first: Vec<u8>, second: Vec<u8>)
    requires
        first@ == c@,
        second@ == c@,
    ensures
        first@ == second@,
{
}

/// Wrapping a buffer shows exactly the buffer's bytes.
pub proof fn lemma_wrap_view(bytes: bytes::Bytes)
    ensures
        BytesWrapper::wrap_spec(bytes)@ == bytes_view(bytes),
{
}

/// Wrapping is injective: equal cursors wrap equal handles. Together with
/// the contract of [`BytesWrapper::into_bytes`] this makes wrap-then-unwrap
/// the identity on buffer handles.
pub proof fn lemma_wrap_spec_injective(a: bytes::Bytes, b: bytes::Bytes)
    requires
        BytesWrapper::wrap_spec(a) == BytesWrapper::wrap_spec(b),
    ensures
        a == b,
{
}

impl Clone for BytesWrapper {
    /// A second cursor over the same view; the storage is shared, not
    /// copied.
    fn clone(&self) -> (r: Self)
        ensures
            r@ == self@,
    {
        BytesWrapper(clone_bytes(&self.0))
    }
}

} // verus!

