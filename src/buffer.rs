//! Buffers: an address, a count and a descriptor that together say which
//! memory a transfer reads or writes.
use vstd::prelude::*;
use vstd::view::View as _;
use crate::descriptor::{system_handle, Count, EquivalentDatatype, Handle, RawDatatype};

verus! {

/// Something that has an associated descriptor.
pub trait Datatype {
    type Out: RawDatatype;

    spec fn datatype_handle(&self) -> Handle;

    fn datatype(&self) -> (r: Self::Out)
        ensures
            r.handle() == self.datatype_handle(),
    ;
}

/// A region of memory holding `count()` instances of `datatype()` from its
/// first element on.
pub trait Buffer: Datatype {
    /// The number of descriptor instances, or `None` where it does not fit a
    /// `Count`.
    spec fn element_count(&self) -> Option<Count>;

    fn count(&self) -> (r: Option<Count>)
        ensures
            r == self.element_count(),
    ;
}

/// The count of a sequence of `len` elements: `None` past the largest `Count`.
pub open spec fn sequence_count(len: nat) -> Option<Count> {
    if len <= Count::MAX {
        Some(len as Count)
    } else {
        None
    }
}

impl<T: EquivalentDatatype> Datatype for T {
    type Out = <T as EquivalentDatatype>::Out;

    open spec fn datatype_handle(&self) -> Handle {
        system_handle(T::scalar_kind())
    }

    fn datatype(&self) -> (r: Self::Out) {
        T::equivalent_datatype()
    }
}

impl<T: EquivalentDatatype> Datatype for [T] {
    type Out = <T as EquivalentDatatype>::Out;

    open spec fn datatype_handle(&self) -> Handle {
        system_handle(T::scalar_kind())
    }

    fn datatype(&self) -> (r: Self::Out) {
        T::equivalent_datatype()
    }
}

impl<T: EquivalentDatatype> Buffer for T {
    open spec fn element_count(&self) -> Option<Count> {
        Some(1)
    }

    fn count(&self) -> (r: Option<Count>) {
        Some(1)
    }
}

impl<T: EquivalentDatatype> Buffer for [T] {
    open spec fn element_count(&self) -> Option<Count> {
        sequence_count(self@.len())
    }

    fn count(&self) -> (r: Option<Count>) {
        let len = self.len();
        if len <= Count::MAX as usize {
            Some(len as Count)
        } else {
            None
        }
    }
}

/// A buffer with a count and a descriptor chosen by the caller, over a slice
/// whose element type need not match the descriptor.
///
/// Nothing checks that `count` instances of the descriptor fit in the slice:
/// that is the caller's to ensure.
pub struct View<'a, 'b, T, D: RawDatatype> {
    datatype: &'b D,
    count: Count,
    buffer: &'a mut [T],
}

impl<'a, 'b, T, D: RawDatatype> View<'a, 'b, T, D> {
    pub closed spec fn spec_count(&self) -> Count {
        self.count
    }

    pub closed spec fn spec_datatype(&self) -> &'b D {
        self.datatype
    }

    pub closed spec fn spec_buffer(&self) -> Seq<T> {
        self.buffer@
    }

    /// A view of `buffer` holding `count` instances of `datatype`.
    pub fn with_count_and_datatype(buffer: &'a mut [T], count: Count, datatype: &'b D) -> (r: View<
        'a,
        'b,
        T,
        D,
    >)
        ensures
            r.spec_count() == count,
            r.spec_datatype() == datatype,
            r.spec_buffer() == old(buffer)@,
    {
        View { datatype, count, buffer }
    }

    /// The slice that the view lies over.
    pub fn buffer(&self) -> (r: &[T])
        ensures
            r@ == self.spec_buffer(),
    {
        self.buffer
    }

    /// The slice that the view lies over, for writing.
    pub fn buffer_mut(&mut self) -> (r: &mut [T])
        ensures
            r@ == old(self).spec_buffer(),
    {
        self.buffer
    }
}

impl<'a, 'b, T, D: RawDatatype> Datatype for View<'a, 'b, T, D> {
    type Out = &'b D;

    open spec fn datatype_handle(&self) -> Handle {
        self.spec_datatype().handle()
    }

    fn datatype(&self) -> (r: &'b D) {
        self.datatype
    }
}

impl<'a, 'b, T, D: RawDatatype> Buffer for View<'a, 'b, T, D> {
    open spec fn element_count(&self) -> Option<Count> {
        Some(self.spec_count())
    }

    fn count(&self) -> (r: Option<Count>) {
        Some(self.count)
    }
}

/// A view hands back exactly the count and descriptor it was built with.
pub proof fn view_passes_through<'a, 'b, T, D: RawDatatype>(
    v: View<'a, 'b, T, D>,
    count: Count,
    datatype: &'b D,
)
    requires
        v.spec_count() == count,
        v.spec_datatype() == datatype,
    ensures
        v.element_count() == Some(count),
        v.datatype_handle() == datatype.handle(),
{
}

} // verus!
