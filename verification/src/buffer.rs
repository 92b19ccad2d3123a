//! Buffers: fixed-length element storage at one location, host or device,
//! behind a single allocation/query interface.

use vstd::prelude::*;

use crate::Error;
use crate::Prm;

verus! {

/// Identity of a device command queue. Two `Queue` values denote the same
/// submission channel exactly when their handles are equal; the handle is
/// the backend queue's stable address, so equality is identity of the
/// underlying queue, never equality of any queue configuration.
#[derive(Clone, Copy, Debug)]
pub struct Queue {
    pub handle: usize,
}

/// Where a buffer's data resides: host memory, or the device reached through
/// one specific command queue.
#[derive(Clone, Copy, Debug)]
pub enum Location {
    Host,
    Device(Queue),
}

/// Location equality: `Host` equals only `Host`; two device locations are
/// equal exactly when they name the identical queue.
pub open spec fn loc_eq(a: Location, b: Location) -> bool {
    match (a, b) {
        (Location::Host, Location::Host) => true,
        (Location::Device(qa), Location::Device(qb)) => qa.handle == qb.handle,
        _ => false,
    }
}

impl PartialEq for Location {
    fn eq(&self, other: &Self) -> (r: bool) {
        match self {
            Location::Host => match other {
                Location::Host => true,
                _ => false,
            },
            Location::Device(sq) => match other {
                Location::Device(oq) => sq.handle == oq.handle,
                _ => false,
            },
        }
    }
}

impl vstd::std_specs::cmp::PartialEqSpecImpl for Location {
    open spec fn obeys_eq_spec() -> bool {
        true
    }

    open spec fn eq_spec(&self, other: &Location) -> bool {
        loc_eq(*self, *other)
    }
}

/// `Host` equals only `Host`, and two device locations are equal exactly
/// when they are derived from the same queue identity, never by any other
/// value.
pub proof fn lemma_location_equality(a: Location, b: Location)
    ensures
        loc_eq(Location::Host, Location::Host),
        a is Host && b is Device ==> !loc_eq(a, b),
        a is Device && b is Host ==> !loc_eq(a, b),
        a is Device && b is Device ==> (loc_eq(a, b) <==> a->Device_0.handle
            == b->Device_0.handle),
{
}

/// A vector holding `len` copies of `value`.
fn filled_vec<T: Prm>(len: usize, value: T) -> (v: Vec<T>)
    ensures
        v@ == Seq::new(len as nat, |i: int| value),
{
    let mut v: Vec<T> = Vec::new();
    let mut i: usize = 0;
    while i < len
        invariant
            i <= len,
            v@ == Seq::new(i as nat, |j: int| value),
        decreases len - i,
    {
        v.push(value);
        i = i + 1;
        proof {
            assert(v@ =~= Seq::new(i as nat, |j: int| value));
        }
    }
    v
}

/// An element-for-element copy of `src`.
pub(crate) fn copy_vec<T: Prm>(src: &Vec<T>) -> (v: Vec<T>)
    ensures
        v@ == src@,
{
    let mut v: Vec<T> = Vec::new();
    let mut i: usize = 0;
    while i < src.len()
        invariant
            i <= src@.len(),
            v@ == src@.subrange(0, i as int),
        decreases src@.len() - i,
    {
        v.push(src[i]);
        i = i + 1;
        proof {
            assert(v@ =~= src@.subrange(0, i as int));
        }
    }
    proof {
        assert(src@.subrange(0, src@.len() as int) =~= src@);
    }
    v
}

/// A contiguous array of exactly `len` elements in host memory; it never
/// resizes after construction.
pub struct HostBuffer<T: Prm> {
    pub vec: Vec<T>,
}

impl<T: Prm> View for HostBuffer<T> {
    type V = Seq<T>;

    open spec fn view(&self) -> Seq<T> {
        self.vec@
    }
}

impl<T: Prm> HostBuffer<T> {
    /// Allocate `len` elements with unspecified contents: the caller must
    /// store every element before reading any. Only the length is promised.
    pub fn new_uninit(len: usize) -> (r: Result<HostBuffer<T>, Error>)
        ensures
            r matches Ok(b) && b@.len() == len,
    {
        Ok(HostBuffer { vec: filled_vec(len, T::zero()) })
    }

    /// Allocate `len` elements, each initialized to `value`.
    pub fn new_filled(len: usize, value: T) -> (r: Result<HostBuffer<T>, Error>)
        ensures
            r matches Ok(b) && b@ == Seq::new(len as nat, |i: int| value),
    {
        Ok(HostBuffer { vec: filled_vec(len, value) })
    }

    /// The number of elements, fixed at construction.
    pub fn len(&self) -> (n: usize)
        ensures
            n == self@.len(),
    {
        self.vec.len()
    }
}

/// Storage of exactly `len` elements allocated on a device through one
/// specific queue; the location is recoverable from that queue. The element
/// contents are carried here as plain values, on behalf of the backend that
/// owns the device-side allocation.
pub struct DeviceBuffer<T: Prm> {
    pub queue: Queue,
    pub mem: Vec<T>,
}

impl<T: Prm> View for DeviceBuffer<T> {
    type V = Seq<T>;

    open spec fn view(&self) -> Seq<T> {
        self.mem@
    }
}

impl<T: Prm> DeviceBuffer<T> {
    /// Allocate `len` elements through `queue` with unspecified contents:
    /// the caller must store every element before reading any.
    pub fn new_uninit(queue: &Queue, len: usize) -> (r: Result<DeviceBuffer<T>, Error>)
        ensures
            r matches Ok(b) && b@.len() == len && b.queue == *queue,
    {
        Ok(DeviceBuffer { queue: *queue, mem: filled_vec(len, T::zero()) })
    }

    /// Allocate `len` elements through `queue`, each initialized to `value`;
    /// the fill is the allocation's own, not a copy from another buffer.
    pub fn new_filled(queue: &Queue, len: usize, value: T) -> (r: Result<DeviceBuffer<T>, Error>)
        ensures
            r matches Ok(b) && b@ == Seq::new(len as nat, |i: int| value) && b.queue == *queue,
    {
        Ok(DeviceBuffer { queue: *queue, mem: filled_vec(len, value) })
    }

    /// The number of elements, fixed at construction.
    pub fn len(&self) -> (n: usize)
        ensures
            n == self@.len(),
    {
        self.mem.len()
    }
}

/// A tagged union over the two storage backends, presenting one allocation
/// and query interface regardless of location.
pub enum Buffer<T: Prm> {
    Host(HostBuffer<T>),
    Device(DeviceBuffer<T>),
}

impl<T: Prm> View for Buffer<T> {
    type V = Seq<T>;

    open spec fn view(&self) -> Seq<T> {
        match self {
            Buffer::Host(h) => h@,
            Buffer::Device(d) => d@,
        }
    }
}

impl<T: Prm> Buffer<T> {
    /// The location of the active variant; for a device buffer, derived from
    /// the queue the allocation was made through.
    pub open spec fn spec_location(&self) -> Location {
        match self {
            Buffer::Host(_) => Location::Host,
            Buffer::Device(d) => Location::Device(d.queue),
        }
    }

    /// Allocate `len` elements at `location` with unspecified contents: the
    /// caller must store every element before reading any.
    pub fn new_uninit(location: &Location, len: usize) -> (r: Result<Buffer<T>, Error>)
        ensures
            r matches Ok(b) && b@.len() == len && b.spec_location() == *location,
    {
        match location {
            Location::Host => match HostBuffer::new_uninit(len) {
                Ok(hbuf) => Ok(Buffer::Host(hbuf)),
                Err(e) => Err(e),
            },
            Location::Device(queue) => match DeviceBuffer::new_uninit(queue, len) {
                Ok(dbuf) => Ok(Buffer::Device(dbuf)),
                Err(e) => Err(e),
            },
        }
    }

    /// Allocate `len` elements at `location`, each initialized to `value`.
    pub fn new_filled(location: &Location, len: usize, value: T) -> (r: Result<Buffer<T>, Error>)
        ensures
            r matches Ok(b) && b@ == Seq::new(len as nat, |i: int| value) && b.spec_location()
                == *location,
    {
        match location {
            Location::Host => match HostBuffer::new_filled(len, value) {
                Ok(hbuf) => Ok(Buffer::Host(hbuf)),
                Err(e) => Err(e),
            },
            Location::Device(queue) => match DeviceBuffer::new_filled(queue, len, value) {
                Ok(dbuf) => Ok(Buffer::Device(dbuf)),
                Err(e) => Err(e),
            },
        }
    }

    /// The location of the active variant.
    pub fn location(&self) -> (l: Location)
        ensures
            l == self.spec_location(),
    {
        match self {
            Buffer::Host(_) => Location::Host,
            Buffer::Device(d) => Location::Device(d.queue),
        }
    }

    /// The number of elements, independent of location.
    pub fn len(&self) -> (n: usize)
        ensures
            n == self@.len(),
    {
        match self {
            Buffer::Host(hbuf) => hbuf.len(),
            Buffer::Device(dbuf) => dbuf.len(),
        }
    }

    /// A private copy: same location, same contents.
    pub fn duplicate(&self) -> (r: Buffer<T>)
        ensures
            r@ == self@,
            r.spec_location() == self.spec_location(),
    {
        match self {
            Buffer::Host(h) => Buffer::Host(HostBuffer { vec: copy_vec(&h.vec) }),
            Buffer::Device(d) => Buffer::Device(
                DeviceBuffer { queue: d.queue, mem: copy_vec(&d.mem) },
            ),
        }
    }

    /// The same allocation site with its contents replaced by `src`.
    pub fn overwritten(self, src: &Vec<T>) -> (r: Buffer<T>)
        ensures
            r@ == src@,
            r.spec_location() == self.spec_location(),
    {
        match self {
            Buffer::Host(_) => Buffer::Host(HostBuffer { vec: copy_vec(src) }),
            Buffer::Device(d) => Buffer::Device(
                DeviceBuffer { queue: d.queue, mem: copy_vec(src) },
            ),
        }
    }

    /// The full contents, copied out element for element.
    pub fn to_vec(&self) -> (v: Vec<T>)
        ensures
            v@ == self@,
    {
        match self {
            Buffer::Host(h) => copy_vec(&h.vec),
            Buffer::Device(d) => copy_vec(&d.mem),
        }
    }
}

} // verus!
