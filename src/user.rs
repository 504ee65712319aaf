//! Composite descriptors and the protocol that creates and frees them.
//!
//! The runtime creates a composite descriptor in two steps, construct and
//! commit. A `Construction` holds the decisions of that protocol: it says which
//! request to hand the runtime next (`action`) and takes the runtime's answer
//! (`step`). Only a committed descriptor ever becomes a `UserDatatype`, and
//! `free` consumes it, so each committed handle is freed at most once.
use vstd::prelude::*;
use crate::descriptor::{Count, Handle, RawDatatype};

verus! {

/// The layout that a composite descriptor describes.
#[derive(Clone, Copy, Debug, PartialEq, Eq, Structural)]
pub enum Layout {
    /// `count` repetitions of `oldtype` without gaps.
    Contiguous { count: Count, oldtype: Handle },
    /// `count` blocks of `blocklength` repetitions of `oldtype`, with the
    /// starts of consecutive blocks `stride` elements of `oldtype` apart.
    Vector { count: Count, blocklength: Count, stride: Count, oldtype: Handle },
}

/// Why a composite descriptor could not be had, or was not released.
#[derive(Clone, Copy, Debug, PartialEq, Eq, Structural)]
pub enum DatatypeError {
    /// The runtime reported this error code.
    Runtime(i32),
    /// The runtime answered a construction with a handle that it did not issue
    /// for this request (the null sentinel or a predefined descriptor).
    InvalidHandle,
    /// The runtime's answer does not fit the request it was handed.
    OutOfOrder,
    /// The protocol has not reached its end yet.
    Incomplete,
    /// After a free the handle is not the null sentinel.
    NotFreed,
}

/// A request to the runtime.
#[derive(Clone, Copy, Debug, PartialEq, Eq, Structural)]
pub enum Action {
    /// Construct a new descriptor with this layout.
    Construct(Layout),
    /// Commit the descriptor with this handle.
    Commit(u64),
    /// Nothing more is asked: the construction has ended.
    Finished,
}

/// The runtime's answer to the last request.
#[derive(Clone, Copy, Debug, PartialEq, Eq, Structural)]
pub enum Event {
    /// A descriptor was constructed under this handle.
    Constructed(Handle),
    /// The descriptor was committed.
    Committed,
    /// The runtime failed with this error code.
    Failed(i32),
}

/// Where the construction of one composite descriptor stands.
#[derive(Clone, Copy, Debug, PartialEq, Eq, Structural)]
pub enum Phase {
    /// Nothing asked yet: the layout is to be constructed.
    Pending(Layout),
    /// Constructed under the handle, not yet committed.
    Constructed(Layout, u64),
    /// Committed under the handle: ready for use.
    Committed(Layout, u64),
    /// Ended without a descriptor.
    Failed(DatatypeError),
}

/// The construction of one composite descriptor. Only `UserDatatype`'s
/// constructors start one, and only the runtime's answers move it on.
#[derive(Debug)]
pub struct Construction {
    phase: Phase,
}

/// A composite descriptor: it owns a committed handle until it is freed.
#[derive(Debug)]
pub struct UserDatatype {
    id: u64,
    layout: Layout,
}

impl Phase {
    /// The request that is handed to the runtime in this state.
    pub open spec fn spec_action(self) -> Action {
        match self {
            Phase::Pending(layout) => Action::Construct(layout),
            Phase::Constructed(_, id) => Action::Commit(id),
            _ => Action::Finished,
        }
    }

    /// The state after the runtime answered with `event`.
    pub open spec fn next(self, event: Event) -> Phase {
        match (self, event) {
            (Phase::Pending(layout), Event::Constructed(Handle::Created(id))) =>
                Phase::Constructed(layout, id),
            (Phase::Pending(_), Event::Constructed(_)) => Phase::Failed(DatatypeError::InvalidHandle),
            (Phase::Constructed(layout, id), Event::Committed) => Phase::Committed(layout, id),
            (Phase::Pending(_), Event::Failed(code)) => Phase::Failed(DatatypeError::Runtime(code)),
            (Phase::Constructed(_, _), Event::Failed(code)) =>
                Phase::Failed(DatatypeError::Runtime(code)),
            (Phase::Pending(_), Event::Committed) => Phase::Failed(DatatypeError::OutOfOrder),
            (Phase::Constructed(_, _), Event::Constructed(_)) =>
                Phase::Failed(DatatypeError::OutOfOrder),
            _ => self,
        }
    }

    /// What the construction yields: the descriptor once it is committed.
    /// (The descriptor is given by its layout and handle.)
    pub open spec fn outcome(self) -> Result<(Layout, u64), DatatypeError> {
        match self {
            Phase::Committed(layout, id) => Ok((layout, id)),
            Phase::Failed(e) => Err(e),
            _ => Err(DatatypeError::Incomplete),
        }
    }
}

impl Construction {
    pub closed spec fn spec_phase(&self) -> Phase {
        self.phase
    }

    pub fn phase(&self) -> (r: Phase)
        ensures
            r == self.spec_phase(),
    {
        self.phase
    }

    pub fn action(&self) -> (r: Action)
        ensures
            r == self.spec_phase().spec_action(),
    {
        match self.phase {
            Phase::Pending(layout) => Action::Construct(layout),
            Phase::Constructed(_, id) => Action::Commit(id),
            _ => Action::Finished,
        }
    }

    /// Takes the runtime's answer to the request of `action`.
    pub fn step(self, event: Event) -> (r: Construction)
        ensures
            r.spec_phase() == self.spec_phase().next(event),
    {
        let phase = match (self.phase, event) {
            (Phase::Pending(layout), Event::Constructed(Handle::Created(id))) =>
                Phase::Constructed(layout, id),
            (Phase::Pending(_), Event::Constructed(_)) => Phase::Failed(DatatypeError::InvalidHandle),
            (Phase::Constructed(layout, id), Event::Committed) => Phase::Committed(layout, id),
            (Phase::Pending(_), Event::Failed(code)) => Phase::Failed(DatatypeError::Runtime(code)),
            (Phase::Constructed(_, _), Event::Failed(code)) =>
                Phase::Failed(DatatypeError::Runtime(code)),
            (Phase::Pending(_), Event::Committed) => Phase::Failed(DatatypeError::OutOfOrder),
            (Phase::Constructed(_, _), Event::Constructed(_)) =>
                Phase::Failed(DatatypeError::OutOfOrder),
            (phase, _) => phase,
        };
        Construction { phase }
    }

    /// Ends the construction: the committed descriptor, or why there is none.
    pub fn finish(self) -> (r: Result<UserDatatype, DatatypeError>)
        ensures
            match r {
                Ok(d) => self.spec_phase().outcome() == Ok::<(Layout, u64), DatatypeError>(
                    (d.spec_layout(), d.spec_id()),
                ),
                Err(e) => self.spec_phase().outcome() == Err::<(Layout, u64), DatatypeError>(e),
            },
    {
        match self.phase {
            Phase::Committed(layout, id) => Ok(UserDatatype { id, layout }),
            Phase::Failed(e) => Err(e),
            _ => Err(DatatypeError::Incomplete),
        }
    }
}

impl UserDatatype {
    pub closed spec fn spec_id(&self) -> u64 {
        self.id
    }

    pub closed spec fn spec_layout(&self) -> Layout {
        self.layout
    }

    /// Starts constructing a descriptor of `count` consecutive repetitions of
    /// `oldtype`.
    pub fn contiguous<D: RawDatatype>(count: Count, oldtype: D) -> (r: Construction)
        requires
            count >= 0,
        ensures
            r.spec_phase() == Phase::Pending(Layout::Contiguous { count, oldtype: oldtype.handle() }),
    {
        Construction { phase: Phase::Pending(Layout::Contiguous { count, oldtype: oldtype.raw() }) }
    }

    /// Starts constructing a descriptor of `count` blocks of `blocklength`
    /// elements of `oldtype`, the starts of consecutive blocks `stride`
    /// elements apart.
    pub fn vector<D: RawDatatype>(count: Count, blocklength: Count, stride: Count, oldtype: D) -> (r:
        Construction)
        requires
            count >= 0,
            blocklength >= 0,
        ensures
            r.spec_phase() == Phase::Pending(
                Layout::Vector { count, blocklength, stride, oldtype: oldtype.handle() },
            ),
    {
        let layout = Layout::Vector { count, blocklength, stride, oldtype: oldtype.raw() };
        Construction { phase: Phase::Pending(layout) }
    }

    pub fn layout(&self) -> (r: Layout)
        ensures
            r == self.spec_layout(),
    {
        self.layout
    }

    /// Gives up the descriptor: the result is the handle to hand the runtime's
    /// free. The descriptor is consumed, so no handle is freed twice.
    pub fn free(self) -> (r: Handle)
        ensures
            r == Handle::Created(self.spec_id()),
    {
        Handle::Created(self.id)
    }

    /// Tests what the runtime left in the handle after freeing it: it must be
    /// the null sentinel.
    pub fn confirm_freed(after: Handle) -> (r: Result<(), DatatypeError>)
        ensures
            r == freed_result(after),
    {
        match after {
            Handle::Null => Ok(()),
            _ => Err(DatatypeError::NotFreed),
        }
    }
}

impl RawDatatype for UserDatatype {
    open spec fn handle(&self) -> Handle {
        Handle::Created(self.spec_id())
    }

    fn raw(&self) -> (r: Handle) {
        Handle::Created(self.id)
    }
}

/// What a free leaves is accepted exactly when it is the null sentinel.
pub open spec fn freed_result(after: Handle) -> Result<(), DatatypeError> {
    if after == Handle::Null {
        Ok(())
    } else {
        Err(DatatypeError::NotFreed)
    }
}

/// A runtime that answers every request with success, issuing the handle `id`,
/// takes a descriptor of `layout` through the whole protocol: it is asked to
/// construct, then to commit `id`, and the construction then ends with the
/// descriptor under `id`, whose free, leaving the null sentinel, is accepted.
pub open spec fn clean_lifecycle(layout: Layout, id: u64) -> bool {
    let c0 = Phase::Pending(layout);
    let c1 = c0.next(Event::Constructed(Handle::Created(id)));
    let c2 = c1.next(Event::Committed);
    &&& c0.spec_action() == Action::Construct(layout)
    &&& c1.spec_action() == Action::Commit(id)
    &&& c2.spec_action() == Action::Finished
    &&& c2.outcome() == Ok::<(Layout, u64), DatatypeError>((layout, id))
    &&& freed_result(Handle::Null) is Ok
}

/// Constructing then destroying a contiguous descriptor, for every
/// non-negative count, runs the protocol to a committed descriptor whose free
/// names its own handle.
pub proof fn contiguous_lifecycle<D: RawDatatype>(count: Count, oldtype: D, id: u64)
    requires
        count >= 0,
    ensures
        clean_lifecycle(Layout::Contiguous { count, oldtype: oldtype.handle() }, id),
{
}

/// The same for a strided descriptor with positive count and block length and
/// a stride no shorter than a block.
pub proof fn vector_lifecycle<D: RawDatatype>(
    count: Count,
    blocklength: Count,
    stride: Count,
    oldtype: D,
    id: u64,
)
    requires
        count > 0,
        blocklength > 0,
        stride >= blocklength,
    ensures
        clean_lifecycle(Layout::Vector { count, blocklength, stride, oldtype: oldtype.handle() }, id),
{
}

/// Two descriptors built independently, even of the same layout, are freed
/// each under its own handle: the frees name the two handles that the runtime
/// issued, and they differ when those did.
pub proof fn independent_frees(layout_a: Layout, id_a: u64, layout_b: Layout, id_b: u64)
    ensures
        ({
            let a = Phase::Pending(layout_a).next(Event::Constructed(Handle::Created(id_a))).next(
                Event::Committed,
            ).outcome();
            let b = Phase::Pending(layout_b).next(Event::Constructed(Handle::Created(id_b))).next(
                Event::Committed,
            ).outcome();
            &&& a is Ok && b is Ok
            &&& a.unwrap().1 == id_a
            &&& b.unwrap().1 == id_b
            &&& (id_a != id_b ==> Handle::Created(a.unwrap().1) != Handle::Created(b.unwrap().1))
        }),
{
}

} // verus!
