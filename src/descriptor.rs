//! Descriptor handles, predefined descriptors and the table that maps scalar
//! types to them.
use vstd::prelude::*;

verus! {

/// The count type of the message-passing runtime (a C `int`).
pub type Count = i32;

/// The scalar kinds for which the runtime has a predefined descriptor.
#[derive(Clone, Copy, Debug, PartialEq, Eq, Structural)]
pub enum ScalarKind {
    Float,
    Double,
    Int8,
    Int16,
    Int32,
    Int64,
    UInt8,
    UInt16,
    UInt32,
    UInt64,
}

/// A descriptor handle: the name under which the runtime knows a layout.
///
/// `System` names the predefined descriptor of a scalar kind, `Created` one
/// that the runtime issued at run time, and `Null` is the runtime's sentinel,
/// which a freed handle takes.
#[derive(Clone, Copy, Debug, PartialEq, Eq, Structural)]
pub enum Handle {
    Null,
    System(ScalarKind),
    Created(u64),
}

/// Can identify as a descriptor handle.
pub trait RawDatatype {
    spec fn handle(&self) -> Handle;

    fn raw(&self) -> (r: Handle)
        ensures
            r == self.handle(),
    ;
}

impl<'a, D: RawDatatype> RawDatatype for &'a D {
    open spec fn handle(&self) -> Handle {
        (**self).handle()
    }

    fn raw(&self) -> (r: Handle) {
        (**self).raw()
    }
}

/// A predefined descriptor. It lives as long as the process and is never freed.
#[derive(Clone, Copy, Debug, PartialEq, Eq, Structural)]
pub struct SystemDatatype {
    kind: ScalarKind,
}

/// The handle of the predefined descriptor of `kind`.
pub open spec fn system_handle(kind: ScalarKind) -> Handle {
    Handle::System(kind)
}

impl SystemDatatype {
    pub closed spec fn spec_kind(&self) -> ScalarKind {
        self.kind
    }

    /// The predefined descriptor of `kind`.
    pub fn of(kind: ScalarKind) -> (r: SystemDatatype)
        ensures
            r.spec_kind() == kind,
            r.handle() == system_handle(kind),
    {
        SystemDatatype { kind }
    }

    pub fn kind(&self) -> (r: ScalarKind)
        ensures
            r == self.spec_kind(),
    {
        self.kind
    }
}

impl RawDatatype for SystemDatatype {
    open spec fn handle(&self) -> Handle {
        system_handle(self.spec_kind())
    }

    fn raw(&self) -> (r: Handle) {
        Handle::System(self.kind)
    }
}

/// A type whose values the runtime can describe with a predefined descriptor.
///
/// The fixed-width integer types have it. Values of the two real kinds are
/// described with `SystemDatatype::of(ScalarKind::Float)` or
/// `SystemDatatype::of(ScalarKind::Double)` through a `View`.
pub trait EquivalentDatatype {
    type Out: RawDatatype;

    /// The scalar kind of the type.
    spec fn scalar_kind() -> ScalarKind;

    fn equivalent_datatype() -> (r: Self::Out)
        ensures
            r.handle() == system_handle(Self::scalar_kind()),
    ;
}

impl EquivalentDatatype for i8 {
    type Out = SystemDatatype;

    open spec fn scalar_kind() -> ScalarKind {
        ScalarKind::Int8
    }

    fn equivalent_datatype() -> (r: SystemDatatype) {
        SystemDatatype::of(ScalarKind::Int8)
    }
}

impl EquivalentDatatype for i16 {
    type Out = SystemDatatype;

    open spec fn scalar_kind() -> ScalarKind {
        ScalarKind::Int16
    }

    fn equivalent_datatype() -> (r: SystemDatatype) {
        SystemDatatype::of(ScalarKind::Int16)
    }
}

impl EquivalentDatatype for i32 {
    type Out = SystemDatatype;

    open spec fn scalar_kind() -> ScalarKind {
        ScalarKind::Int32
    }

    fn equivalent_datatype() -> (r: SystemDatatype) {
        SystemDatatype::of(ScalarKind::Int32)
    }
}

impl EquivalentDatatype for i64 {
    type Out = SystemDatatype;

    open spec fn scalar_kind() -> ScalarKind {
        ScalarKind::Int64
    }

    fn equivalent_datatype() -> (r: SystemDatatype) {
        SystemDatatype::of(ScalarKind::Int64)
    }
}

impl EquivalentDatatype for u8 {
    type Out = SystemDatatype;

    open spec fn scalar_kind() -> ScalarKind {
        ScalarKind::UInt8
    }

    fn equivalent_datatype() -> (r: SystemDatatype) {
        SystemDatatype::of(ScalarKind::UInt8)
    }
}

impl EquivalentDatatype for u16 {
    type Out = SystemDatatype;

    open spec fn scalar_kind() -> ScalarKind {
        ScalarKind::UInt16
    }

    fn equivalent_datatype() -> (r: SystemDatatype) {
        SystemDatatype::of(ScalarKind::UInt16)
    }
}

impl EquivalentDatatype for u32 {
    type Out = SystemDatatype;

    open spec fn scalar_kind() -> ScalarKind {
        ScalarKind::UInt32
    }

    fn equivalent_datatype() -> (r: SystemDatatype) {
        SystemDatatype::of(ScalarKind::UInt32)
    }
}

impl EquivalentDatatype for u64 {
    type Out = SystemDatatype;

    open spec fn scalar_kind() -> ScalarKind {
        ScalarKind::UInt64
    }

    fn equivalent_datatype() -> (r: SystemDatatype) {
        SystemDatatype::of(ScalarKind::UInt64)
    }
}

/// The table from scalar kinds to predefined descriptors is one to one:
/// two kinds share a descriptor exactly when they are the same kind.
pub proof fn system_datatype_one_to_one(a: ScalarKind, b: ScalarKind)
    ensures
        system_handle(a) == system_handle(b) <==> a == b,
{
}

/// An equivalent datatype is stable: any two results that the contract of
/// `equivalent_datatype` admits for one type name the same descriptor.
pub proof fn equivalent_datatype_stable<T: EquivalentDatatype>(r1: T::Out, r2: T::Out)
    requires
        r1.handle() == system_handle(T::scalar_kind()),
        r2.handle() == system_handle(T::scalar_kind()),
    ensures
        r1.handle() == r2.handle(),
{
}

} // verus!
