//! Byte strings and the buffers that execution writes its output into.
//!
//! Types that hold bytes take the type of a byte string as their parameter. Executable code uses
//! `Vec<u8>`, which is the default; the view of such a value is the same type over `Seq<u8>`.
use vstd::prelude::*;

verus! {

/// A copy of the bytes.
pub fn copy_bytes(bytes: &Vec<u8>) -> (r: Vec<u8>)
    ensures
        r@ == bytes@,
{
    let copy = bytes.clone();
    assert(copy@ =~= bytes@);
    copy
}

/// A buffer for output.
#[derive(Debug, PartialEq, Eq)]
pub enum BytesRef<B = Vec<u8>> {
    /// A buffer that grows as needed.
    Flexible(B),
    /// A buffer whose length stays as it is.
    Fixed(B),
}

impl View for BytesRef {
    type V = BytesRef<Seq<u8>>;

    open spec fn view(&self) -> BytesRef<Seq<u8>> {
        match self {
            BytesRef::Flexible(data) => BytesRef::Flexible(data@),
            BytesRef::Fixed(data) => BytesRef::Fixed(data@),
        }
    }
}

/// `data` cut or filled up with zeros to the length `len`.
pub open spec fn resized(data: Seq<u8>, len: nat) -> Seq<u8> {
    Seq::new(
        len,
        |i: int|
            if i < data.len() {
                data[i]
            } else {
                0u8
            },
    )
}

/// `data` with as much of `input` laid over it from `offset` on as fits.
pub open spec fn overlaid(data: Seq<u8>, offset: nat, input: Seq<u8>) -> Seq<u8> {
    Seq::new(
        data.len(),
        |i: int|
            if offset <= i < offset + input.len() {
                input[i - offset]
            } else {
                data[i]
            },
    )
}

impl BytesRef<Seq<u8>> {
    /// What the buffer holds.
    pub open spec fn content(self) -> Seq<u8> {
        match self {
            BytesRef::Flexible(data) => data,
            BytesRef::Fixed(data) => data,
        }
    }

    /// The buffer after `input` was written at `offset`.
    pub open spec fn written(self, offset: nat, input: Seq<u8>) -> Self {
        match self {
            BytesRef::Flexible(data) => BytesRef::Flexible(resized(data, offset) + input),
            BytesRef::Fixed(data) => BytesRef::Fixed(overlaid(data, offset, input)),
        }
    }

    /// The number of bytes that writing `input` at `offset` counts.
    pub open spec fn write_count(self, offset: nat, input: Seq<u8>) -> int {
        match self {
            BytesRef::Flexible(data) => if data.len() > offset {
                input.len() as int
            } else {
                input.len() + offset - data.len()
            },
            BytesRef::Fixed(data) => if offset >= data.len() {
                0
            } else if data.len() - offset < input.len() {
                data.len() - offset
            } else {
                input.len() as int
            },
        }
    }

    /// Whether `later` can be this buffer after writes: of the same kind, and of the same length
    /// where the length is fixed.
    pub open spec fn same_shape(self, later: Self) -> bool {
        match (self, later) {
            (BytesRef::Flexible(_), BytesRef::Flexible(_)) => true,
            (BytesRef::Fixed(a), BytesRef::Fixed(b)) => a.len() == b.len(),
            _ => false,
        }
    }
}

impl BytesRef {
    /// `BytesRef::write` of `parity-bytes`. A flexible buffer is cut or filled with zeros to the
    /// length `offset` and `input` is appended; a fixed buffer takes as much of `input` at
    /// `offset` as fits. A flexible buffer longer than memory allows would panic.
    #[verifier::external_body]
    pub(crate) fn write(&mut self, offset: usize, input: &[u8]) -> (count: usize)
        requires
            offset == 0 || offset + input@.len() <= isize::MAX,
        ensures
            final(self)@ == old(self)@.written(offset as nat, input@),
            count == old(self)@.write_count(offset as nat, input@),
    {
        match self {
            BytesRef::Flexible(data) => parity_bytes::BytesRef::Flexible(data).write(offset, input),
            BytesRef::Fixed(data) => parity_bytes::BytesRef::Fixed(data).write(offset, input),
        }
    }

    /// Whether `later` can be this buffer after writes.
    pub fn can_become(&self, later: &BytesRef) -> (r: bool)
        ensures
            r == self@.same_shape(later@),
    {
        match (self, later) {
            (BytesRef::Flexible(_), BytesRef::Flexible(_)) => true,
            (BytesRef::Fixed(a), BytesRef::Fixed(b)) => a.len() == b.len(),
            _ => false,
        }
    }

    /// A copy of the buffer.
    pub fn duplicate(&self) -> (r: BytesRef)
        ensures
            r@ == self@,
    {
        match self {
            BytesRef::Flexible(data) => BytesRef::Flexible(copy_bytes(data)),
            BytesRef::Fixed(data) => BytesRef::Fixed(copy_bytes(data)),
        }
    }

    /// A copy of what the buffer holds.
    pub fn to_vec(&self) -> (r: Vec<u8>)
        ensures
            r@ == self@.content(),
    {
        match self {
            BytesRef::Flexible(data) => copy_bytes(data),
            BytesRef::Fixed(data) => copy_bytes(data),
        }
    }

    /// What the buffer holds.
    pub fn into_vec(self) -> (r: Vec<u8>)
        ensures
            r@ == self@.content(),
    {
        match self {
            BytesRef::Flexible(data) => data,
            BytesRef::Fixed(data) => data,
        }
    }
}

} // verus!
