use mpi_datatype::buffer::{Buffer, Datatype, View};
use mpi_datatype::descriptor::{
    Count, EquivalentDatatype, Handle, RawDatatype, ScalarKind, SystemDatatype,
};
use mpi_datatype::user::{Action, Construction, DatatypeError, Event, Layout, Phase, UserDatatype};
use std::collections::HashMap;

/// A stand-in for the runtime that issues handles in order and counts frees.
struct CountingRuntime {
    next_id: u64,
    committed: Vec<u64>,
    frees: HashMap<u64, u32>,
}

impl CountingRuntime {
    fn new() -> CountingRuntime {
        CountingRuntime { next_id: 100, committed: Vec::new(), frees: HashMap::new() }
    }

    fn build(&mut self, mut c: Construction) -> Result<UserDatatype, DatatypeError> {
        loop {
            let event = match c.action() {
                Action::Construct(_) => {
                    self.next_id += 1;
                    Event::Constructed(Handle::Created(self.next_id))
                }
                Action::Commit(id) => {
                    self.committed.push(id);
                    Event::Committed
                }
                Action::Finished => break,
            };
            c = c.step(event);
        }
        c.finish()
    }

    fn destroy(&mut self, d: UserDatatype) -> Result<(), DatatypeError> {
        match d.free() {
            Handle::Created(id) => *self.frees.entry(id).or_insert(0) += 1,
            _ => panic!("a composite descriptor freed under a foreign handle"),
        }
        UserDatatype::confirm_freed(Handle::Null)
    }
}

fn int16_triple() -> Construction {
    UserDatatype::contiguous(3, SystemDatatype::of(ScalarKind::Int16))
}

#[test]
fn equivalent_datatypes_are_stable_and_distinct() {
    let handles = vec![
        i8::equivalent_datatype().raw(),
        i16::equivalent_datatype().raw(),
        i32::equivalent_datatype().raw(),
        i64::equivalent_datatype().raw(),
        u8::equivalent_datatype().raw(),
        u16::equivalent_datatype().raw(),
        u32::equivalent_datatype().raw(),
        u64::equivalent_datatype().raw(),
    ];
    assert_eq!(handles[0], Handle::System(ScalarKind::Int8));
    assert_eq!(handles[7], Handle::System(ScalarKind::UInt64));
    assert_eq!(i32::equivalent_datatype(), i32::equivalent_datatype());
    for i in 0..handles.len() {
        for j in 0..handles.len() {
            assert_eq!(handles[i] == handles[j], i == j);
        }
    }
}

#[test]
fn system_datatype_of_kind() {
    let d = SystemDatatype::of(ScalarKind::Double);
    assert_eq!(d.kind(), ScalarKind::Double);
    assert_eq!(d.raw(), Handle::System(ScalarKind::Double));
    assert_eq!((&d).raw(), Handle::System(ScalarKind::Double));
}

#[test]
fn contiguous_construct_then_destroy() {
    let mut rt = CountingRuntime::new();
    for count in [0, 1, 7, Count::MAX] {
        let c = UserDatatype::contiguous(count, u8::equivalent_datatype());
        assert_eq!(
            c.action(),
            Action::Construct(Layout::Contiguous {
                count,
                oldtype: Handle::System(ScalarKind::UInt8)
            })
        );
        let d = rt.build(c).unwrap();
        assert_eq!(d.layout(), Layout::Contiguous { count, oldtype: Handle::System(ScalarKind::UInt8) });
        assert_eq!(rt.destroy(d), Ok(()));
    }
    assert_eq!(rt.committed, vec![101, 102, 103, 104]);
    assert!(rt.frees.values().all(|n| *n == 1));
    assert_eq!(rt.frees.len(), 4);
}

#[test]
fn vector_construct_then_destroy() {
    let mut rt = CountingRuntime::new();
    let base = UserDatatype::contiguous(2, i64::equivalent_datatype());
    let base = rt.build(base).unwrap();
    let c = UserDatatype::vector(3, 2, 5, &base);
    assert_eq!(
        c.action(),
        Action::Construct(Layout::Vector { count: 3, blocklength: 2, stride: 5, oldtype: Handle::Created(101) })
    );
    let v = rt.build(c).unwrap();
    assert_eq!(v.raw(), Handle::Created(102));
    assert_eq!(rt.destroy(v), Ok(()));
    assert_eq!(rt.destroy(base), Ok(()));
    assert_eq!(rt.frees.get(&101), Some(&1));
    assert_eq!(rt.frees.get(&102), Some(&1));
}

#[test]
fn two_descriptors_freed_independently() {
    let mut rt = CountingRuntime::new();
    let a = rt.build(UserDatatype::vector(4, 2, 3, u32::equivalent_datatype())).unwrap();
    let b = rt.build(UserDatatype::vector(4, 2, 3, u32::equivalent_datatype())).unwrap();
    assert_ne!(a.raw(), b.raw());
    assert_eq!(a.layout(), b.layout());
    assert_eq!(rt.destroy(b), Ok(()));
    assert_eq!(rt.frees.get(&101), None);
    assert_eq!(rt.frees.get(&102), Some(&1));
    assert_eq!(rt.destroy(a), Ok(()));
    assert_eq!(rt.frees.get(&101), Some(&1));
    assert_eq!(rt.frees.get(&102), Some(&1));
}

#[test]
fn construction_steps() {
    let layout = Layout::Contiguous { count: 3, oldtype: Handle::System(ScalarKind::Int16) };
    let c = int16_triple();
    assert_eq!(c.phase(), Phase::Pending(layout));
    let c = c.step(Event::Constructed(Handle::Created(9)));
    assert_eq!(c.phase(), Phase::Constructed(layout, 9));
    assert_eq!(c.action(), Action::Commit(9));
    let c = c.step(Event::Committed);
    assert_eq!(c.phase(), Phase::Committed(layout, 9));
    assert_eq!(c.action(), Action::Finished);
    let c = c.step(Event::Failed(1));
    assert_eq!(c.phase(), Phase::Committed(layout, 9));
    let d = c.finish().unwrap();
    assert_eq!(d.raw(), Handle::Created(9));
    assert_eq!(d.free(), Handle::Created(9));
}

#[test]
fn construction_runtime_failure() {
    let c = int16_triple().step(Event::Failed(17));
    assert_eq!(c.action(), Action::Finished);
    assert_eq!(c.finish().unwrap_err(), DatatypeError::Runtime(17));
    let c = int16_triple().step(Event::Constructed(Handle::Created(4))).step(Event::Failed(5));
    assert_eq!(c.finish().unwrap_err(), DatatypeError::Runtime(5));
}

#[test]
fn construction_invalid_handle() {
    let c = int16_triple().step(Event::Constructed(Handle::Null));
    assert_eq!(c.finish().unwrap_err(), DatatypeError::InvalidHandle);
    let c = int16_triple().step(Event::Constructed(Handle::System(ScalarKind::Int8)));
    assert_eq!(c.finish().unwrap_err(), DatatypeError::InvalidHandle);
}

#[test]
fn construction_out_of_order() {
    let c = int16_triple().step(Event::Committed);
    assert_eq!(c.finish().unwrap_err(), DatatypeError::OutOfOrder);
    let c = int16_triple()
        .step(Event::Constructed(Handle::Created(2)))
        .step(Event::Constructed(Handle::Created(3)));
    assert_eq!(c.finish().unwrap_err(), DatatypeError::OutOfOrder);
}

#[test]
fn construction_incomplete() {
    assert_eq!(int16_triple().finish().unwrap_err(), DatatypeError::Incomplete);
    let c = int16_triple().step(Event::Constructed(Handle::Created(2)));
    assert_eq!(c.finish().unwrap_err(), DatatypeError::Incomplete);
}

#[test]
fn free_must_leave_null() {
    assert_eq!(UserDatatype::confirm_freed(Handle::Null), Ok(()));
    assert_eq!(UserDatatype::confirm_freed(Handle::Created(3)), Err(DatatypeError::NotFreed));
    assert_eq!(
        UserDatatype::confirm_freed(Handle::System(ScalarKind::Float)),
        Err(DatatypeError::NotFreed)
    );
}

#[test]
fn scalar_buffer_counts_one() {
    let x: i32 = 42;
    assert_eq!(x.count(), Some(1));
    assert_eq!(x.datatype().raw(), Handle::System(ScalarKind::Int32));
    let y: u64 = 0;
    assert_eq!(y.count(), Some(1));
}

#[test]
fn sequence_buffer_counts_length() {
    let v: Vec<u16> = vec![1, 2, 3, 4, 5];
    assert_eq!(v[..].count(), Some(5));
    assert_eq!(v[..].datatype().raw(), Handle::System(ScalarKind::UInt16));
    let e: Vec<i8> = Vec::new();
    assert_eq!(e[..].count(), Some(0));
}

#[test]
fn sequence_buffer_count_overflow() {
    let fits: Vec<u8> = vec![0; Count::MAX as usize];
    assert_eq!(fits[..].count(), Some(Count::MAX));
    drop(fits);
    let over: Vec<u8> = vec![0; Count::MAX as usize + 1];
    assert_eq!(over[..].count(), None);
}

#[test]
fn view_passes_count_and_datatype_through() {
    let mut data: Vec<i32> = vec![1, 2, 3, 4, 5, 6];
    let d = SystemDatatype::of(ScalarKind::Int8);
    let mut view = View::with_count_and_datatype(&mut data[..], 24, &d);
    assert_eq!(view.count(), Some(24));
    assert_eq!(view.datatype().raw(), Handle::System(ScalarKind::Int8));
    assert_eq!(view.buffer(), &[1, 2, 3, 4, 5, 6][..]);
    view.buffer_mut()[0] = 10;
    assert_eq!(view.buffer()[0], 10);
}
