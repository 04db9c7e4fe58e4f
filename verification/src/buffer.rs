//! Typed GPU buffers with checked writes.
//!
//! A buffer owns a fixed-size GPU-addressable region holding `len` elements
//! of a plain, fixed-layout element type.  The model tracks the region's
//! contents as a sequence of optional elements (`None` marks a slot that was
//! never written), its stable GPU address, and its creation options.  Writes
//! that would pass the end of the region are rejected and leave the contents
//! unchanged; buffers never grow or shrink.

use vstd::prelude::*;
use crate::device::Device;
use crate::errors::Error;
use crate::types::ResourceOptions;

verus! {

/// The contents of a buffer of length `pre.len()` after a slice `data` was
/// written at offset zero: the first `data.len()` slots hold the slice's
/// elements, the rest keep their previous values.
pub open spec fn overwrite_prefix<T>(pre: Seq<Option<T>>, data: Seq<T>) -> Seq<Option<T>> {
    Seq::new(pre.len(), |i: int| if i < data.len() { Some(data[i]) } else { pre[i] })
}

/// Law: after `write_all` with a slice that fits, reading back any written
/// index yields exactly the written element, and every index past the slice
/// keeps its previous value.
pub proof fn lemma_write_all_readback<T>(pre: Seq<Option<T>>, data: Seq<T>)
    requires
        data.len() <= pre.len(),
    ensures
        forall|i: int| 0 <= i < data.len() ==> overwrite_prefix(pre, data)[i] == Some(data[i]),
        forall|i: int|
            data.len() <= i < pre.len() ==> overwrite_prefix(pre, data)[i] == pre[i],
{
}

/// Anything that owns a GPU-addressable allocation and can be bound into an
/// argument table by address.
pub trait HasGpuAddress {
    /// The GPU address, for use in specifications.
    spec fn spec_gpu_address(&self) -> u64;

    /// The GPU address of the underlying allocation, stable for the
    /// buffer's lifetime.
    fn gpu_address_u64(&self) -> (r: u64)
        ensures
            r == self.spec_gpu_address(),
    ;
}

/// The shared core of every typed buffer: fixed-size contents, a stable GPU
/// address, and the options it was created with.
struct Generic<T: Copy> {
    contents: Vec<Option<T>>,
    gpu_address: u64,
    options: ResourceOptions,
}

impl<T: Copy> Generic<T> {
    spec fn view(self) -> Seq<Option<T>> {
        self.contents@
    }

    fn from_slice(device: &mut Device, data: &[T], options: ResourceOptions) -> (r: Self)
        requires
            old(device).wf(),
            old(device).spec_next_address() < u64::MAX,
        ensures
            r.view().len() == data@.len(),
            forall|i: int| 0 <= i < data@.len() ==> r.view()[i] == Some(data@[i]),
            r.gpu_address == old(device).spec_next_address(),
            r.gpu_address >= 1,
            r.options == options,
            final(device).spec_handle() == old(device).spec_handle(),
            final(device).spec_next_address() == old(device).spec_next_address() + 1,
            final(device).wf(),
    {
        let mut contents: Vec<Option<T>> = Vec::new();
        let mut i: usize = 0;
        while i < data.len()
            invariant
                i <= data@.len(),
                contents@.len() == i,
                forall|j: int| 0 <= j < i ==> contents@[j] == Some(data@[j]),
            decreases data@.len() - i,
        {
            contents.push(Some(data[i]));
            i = i + 1;
        }
        let gpu_address = device.fresh_address();
        Generic { contents, gpu_address, options }
    }

    fn with_len(device: &mut Device, len_elems: usize, options: ResourceOptions) -> (r: Self)
        requires
            old(device).wf(),
            old(device).spec_next_address() < u64::MAX,
        ensures
            r.view().len() == len_elems,
            forall|i: int| 0 <= i < len_elems ==> r.view()[i] is None,
            r.gpu_address == old(device).spec_next_address(),
            r.gpu_address >= 1,
            r.options == options,
            final(device).spec_handle() == old(device).spec_handle(),
            final(device).spec_next_address() == old(device).spec_next_address() + 1,
            final(device).wf(),
    {
        let mut contents: Vec<Option<T>> = Vec::new();
        let mut i: usize = 0;
        while i < len_elems
            invariant
                i <= len_elems,
                contents@.len() == i,
                forall|j: int| 0 <= j < i ==> contents@[j] is None,
            decreases len_elems - i,
        {
            contents.push(None);
            i = i + 1;
        }
        let gpu_address = device.fresh_address();
        Generic { contents, gpu_address, options }
    }

    fn len(&self) -> (r: usize)
        ensures
            r == self.view().len(),
    {
        self.contents.len()
    }

    fn gpu_address(&self) -> (r: u64)
        ensures
            r == self.gpu_address,
    {
        self.gpu_address
    }

    fn write_one(&mut self, index: usize, value: &T) -> (r: Result<(), Error>)
        ensures
            index < old(self).view().len() ==> {
                &&& r is Ok
                &&& final(self).view() == old(self).view().update(index as int, Some(*value))
            },
            index >= old(self).view().len() ==> {
                &&& r == Err::<(), Error>(Error::IndexOutOfRange)
                &&& final(self).view() == old(self).view()
            },
            final(self).gpu_address == old(self).gpu_address,
            final(self).options == old(self).options,
    {
        if index >= self.contents.len() {
            return Err(Error::IndexOutOfRange);
        }
        self.contents[index] = Some(*value);
        Ok(())
    }

    fn write_all(&mut self, data: &[T]) -> (r: Result<(), Error>)
        ensures
            data@.len() <= old(self).view().len() ==> {
                &&& r is Ok
                &&& final(self).view() == overwrite_prefix(old(self).view(), data@)
            },
            data@.len() > old(self).view().len() ==> {
                &&& r == Err::<(), Error>(Error::SliceTooLarge)
                &&& final(self).view() == old(self).view()
            },
            final(self).gpu_address == old(self).gpu_address,
            final(self).options == old(self).options,
    {
        if data.len() > self.contents.len() {
            return Err(Error::SliceTooLarge);
        }
        let mut i: usize = 0;
        while i < data.len()
            invariant
                i <= data@.len(),
                data@.len() <= self.contents@.len(),
                self.contents@.len() == old(self).contents@.len(),
                self.gpu_address == old(self).gpu_address,
                self.options == old(self).options,
                forall|j: int| 0 <= j < i ==> self.contents@[j] == Some(data@[j]),
                forall|j: int|
                    i <= j < self.contents@.len() ==> self.contents@[j] == old(self).contents@[j],
            decreases data@.len() - i,
        {
            self.contents[i] = Some(data[i]);
            i = i + 1;
        }
        proof {
            assert(self.contents@ =~= overwrite_prefix(old(self).contents@, data@));
        }
        Ok(())
    }

    fn read_one(&self, index: usize) -> (r: Option<T>)
        ensures
            index < self.view().len() ==> r == self.view()[index as int],
            index >= self.view().len() ==> r is None,
    {
        if index < self.contents.len() {
            self.contents[index]
        } else {
            None
        }
    }
}

/// A uniform buffer: per-frame shader constants, overwritten in place each
/// frame.
pub struct Uniform<T: Copy>(Generic<T>);

impl<T: Copy> View for Uniform<T> {
    type V = Seq<Option<T>>;

    closed spec fn view(&self) -> Seq<Option<T>> {
        self.0.view()
    }
}

impl<T: Copy> Uniform<T> {
    /// The options the buffer was created with.
    pub closed spec fn spec_options(self) -> ResourceOptions {
        self.0.options
    }

    /// Allocates a region sized to `data` and copies `data` in.
    pub fn from_slice(device: &mut Device, data: &[T], options: ResourceOptions) -> (r: Self)
        requires
            old(device).wf(),
            old(device).spec_next_address() < u64::MAX,
        ensures
            r@.len() == data@.len(),
            forall|i: int| 0 <= i < data@.len() ==> r@[i] == Some(data@[i]),
            r.spec_gpu_address() == old(device).spec_next_address(),
            r.spec_gpu_address() >= 1,
            r.spec_options() == options,
            final(device).spec_handle() == old(device).spec_handle(),
            final(device).spec_next_address() == old(device).spec_next_address() + 1,
            final(device).wf(),
    {
        Uniform(Generic::from_slice(device, data, options))
    }

    /// Allocates an uninitialized region for `len_elems` elements.
    pub fn with_len(device: &mut Device, len_elems: usize, options: ResourceOptions) -> (r: Self)
        requires
            old(device).wf(),
            old(device).spec_next_address() < u64::MAX,
        ensures
            r@.len() == len_elems,
            forall|i: int| 0 <= i < len_elems ==> r@[i] is None,
            r.spec_gpu_address() == old(device).spec_next_address(),
            r.spec_gpu_address() >= 1,
            r.spec_options() == options,
            final(device).spec_handle() == old(device).spec_handle(),
            final(device).spec_next_address() == old(device).spec_next_address() + 1,
            final(device).wf(),
    {
        Uniform(Generic::with_len(device, len_elems, options))
    }

    /// The number of elements the buffer holds.
    pub fn len(&self) -> (r: usize)
        ensures
            r == self@.len(),
    {
        self.0.len()
    }

    /// The buffer's stable GPU address.
    pub fn gpu_address(&self) -> (r: u64)
        ensures
            r == self.spec_gpu_address(),
    {
        self.0.gpu_address()
    }

    /// Writes one element at `index`; fails with `IndexOutOfRange` if
    /// `index` is at or past the buffer length, leaving the contents
    /// unchanged.
    pub fn write_one(&mut self, index: usize, value: &T) -> (r: Result<(), Error>)
        ensures
            index < old(self)@.len() ==> {
                &&& r is Ok
                &&& final(self)@ == old(self)@.update(index as int, Some(*value))
            },
            index >= old(self)@.len() ==> {
                &&& r == Err::<(), Error>(Error::IndexOutOfRange)
                &&& final(self)@ == old(self)@
            },
            final(self).spec_gpu_address() == old(self).spec_gpu_address(),
            final(self).spec_options() == old(self).spec_options(),
    {
        self.0.write_one(index, value)
    }

    /// Writes a whole slice from offset zero; fails with `SliceTooLarge` if
    /// the slice is longer than the buffer, leaving the contents unchanged.
    pub fn write_all(&mut self, data: &[T]) -> (r: Result<(), Error>)
        ensures
            data@.len() <= old(self)@.len() ==> {
                &&& r is Ok
                &&& final(self)@ == overwrite_prefix(old(self)@, data@)
            },
            data@.len() > old(self)@.len() ==> {
                &&& r == Err::<(), Error>(Error::SliceTooLarge)
                &&& final(self)@ == old(self)@
            },
            final(self).spec_gpu_address() == old(self).spec_gpu_address(),
            final(self).spec_options() == old(self).spec_options(),
    {
        self.0.write_all(data)
    }

    /// Reads the element at `index` back; `None` if `index` is out of range
    /// or the slot was never written.
    pub fn read_one(&self, index: usize) -> (r: Option<T>)
        ensures
            index < self@.len() ==> r == self@[index as int],
            index >= self@.len() ==> r is None,
    {
        self.0.read_one(index)
    }
}

impl<T: Copy> HasGpuAddress for Uniform<T> {
    closed spec fn spec_gpu_address(&self) -> u64 {
        self.0.gpu_address
    }

    fn gpu_address_u64(&self) -> (r: u64) {
        self.0.gpu_address()
    }
}

/// A vertex buffer: per-vertex input data for the vertex stage.
pub struct Vertex<T: Copy>(Generic<T>);

impl<T: Copy> View for Vertex<T> {
    type V = Seq<Option<T>>;

    closed spec fn view(&self) -> Seq<Option<T>> {
        self.0.view()
    }
}

impl<T: Copy> Vertex<T> {
    /// The options the buffer was created with.
    pub closed spec fn spec_options(self) -> ResourceOptions {
        self.0.options
    }

    /// Allocates a region sized to `data` and copies `data` in.
    pub fn from_slice(device: &mut Device, data: &[T], options: ResourceOptions) -> (r: Self)
        requires
            old(device).wf(),
            old(device).spec_next_address() < u64::MAX,
        ensures
            r@.len() == data@.len(),
            forall|i: int| 0 <= i < data@.len() ==> r@[i] == Some(data@[i]),
            r.spec_gpu_address() == old(device).spec_next_address(),
            r.spec_gpu_address() >= 1,
            r.spec_options() == options,
            final(device).spec_handle() == old(device).spec_handle(),
            final(device).spec_next_address() == old(device).spec_next_address() + 1,
            final(device).wf(),
    {
        Vertex(Generic::from_slice(device, data, options))
    }

    /// Allocates an uninitialized region for `len_elems` elements.
    pub fn with_len(device: &mut Device, len_elems: usize, options: ResourceOptions) -> (r: Self)
        requires
            old(device).wf(),
            old(device).spec_next_address() < u64::MAX,
        ensures
            r@.len() == len_elems,
            forall|i: int| 0 <= i < len_elems ==> r@[i] is None,
            r.spec_gpu_address() == old(device).spec_next_address(),
            r.spec_gpu_address() >= 1,
            r.spec_options() == options,
            final(device).spec_handle() == old(device).spec_handle(),
            final(device).spec_next_address() == old(device).spec_next_address() + 1,
            final(device).wf(),
    {
        Vertex(Generic::with_len(device, len_elems, options))
    }

    /// The number of elements the buffer holds.
    pub fn len(&self) -> (r: usize)
        ensures
            r == self@.len(),
    {
        self.0.len()
    }

    /// The buffer's stable GPU address.
    pub fn gpu_address(&self) -> (r: u64)
        ensures
            r == self.spec_gpu_address(),
    {
        self.0.gpu_address()
    }

    /// Writes a whole slice from offset zero; fails with `SliceTooLarge` if
    /// the slice is longer than the buffer, leaving the contents unchanged.
    pub fn write_all(&mut self, data: &[T]) -> (r: Result<(), Error>)
        ensures
            data@.len() <= old(self)@.len() ==> {
                &&& r is Ok
                &&& final(self)@ == overwrite_prefix(old(self)@, data@)
            },
            data@.len() > old(self)@.len() ==> {
                &&& r == Err::<(), Error>(Error::SliceTooLarge)
                &&& final(self)@ == old(self)@
            },
            final(self).spec_gpu_address() == old(self).spec_gpu_address(),
            final(self).spec_options() == old(self).spec_options(),
    {
        self.0.write_all(data)
    }

    /// Reads the element at `index` back; `None` if `index` is out of range
    /// or the slot was never written.
    pub fn read_one(&self, index: usize) -> (r: Option<T>)
        ensures
            index < self@.len() ==> r == self@[index as int],
            index >= self@.len() ==> r is None,
    {
        self.0.read_one(index)
    }
}

impl<T: Copy> HasGpuAddress for Vertex<T> {
    closed spec fn spec_gpu_address(&self) -> u64 {
        self.0.gpu_address
    }

    fn gpu_address_u64(&self) -> (r: u64) {
        self.0.gpu_address()
    }
}

/// The element width of an index buffer.
#[derive(Copy, Clone, Debug, PartialEq, Eq, Structural)]
pub enum IndexKind {
    /// 16-bit indices.
    U16,
    /// 32-bit indices.
    U32,
}

/// An index buffer holding 16-bit or 32-bit vertex indices.
///
/// The model widens every index to 32 bits; the element width the buffer was
/// created with is kept alongside.
pub struct IndexBuffer {
    kind: IndexKind,
    buf: Generic<u32>,
}

impl View for IndexBuffer {
    type V = Seq<Option<u32>>;

    closed spec fn view(&self) -> Seq<Option<u32>> {
        self.buf.view()
    }
}

impl IndexBuffer {
    /// The element width the buffer was created with.
    pub closed spec fn spec_kind(self) -> IndexKind {
        self.kind
    }

    /// Allocates an index buffer from 16-bit indices.
    pub fn from_u16(device: &mut Device, data: &[u16], options: ResourceOptions) -> (r: Self)
        requires
            old(device).wf(),
            old(device).spec_next_address() < u64::MAX,
        ensures
            r@.len() == data@.len(),
            forall|i: int| 0 <= i < data@.len() ==> r@[i] == Some(data@[i] as u32),
            r.spec_kind() == IndexKind::U16,
            r.spec_gpu_address() == old(device).spec_next_address(),
            r.spec_gpu_address() >= 1,
            final(device).spec_handle() == old(device).spec_handle(),
            final(device).spec_next_address() == old(device).spec_next_address() + 1,
            final(device).wf(),
    {
        let mut widened: Vec<u32> = Vec::new();
        let mut i: usize = 0;
        while i < data.len()
            invariant
                i <= data@.len(),
                widened@.len() == i,
                forall|j: int| 0 <= j < i ==> widened@[j] == data@[j] as u32,
            decreases data@.len() - i,
        {
            widened.push(data[i] as u32);
            i = i + 1;
        }
        IndexBuffer { kind: IndexKind::U16, buf: Generic::from_slice(device, widened.as_slice(), options) }
    }

    /// Allocates an index buffer from 32-bit indices.
    pub fn from_u32(device: &mut Device, data: &[u32], options: ResourceOptions) -> (r: Self)
        requires
            old(device).wf(),
            old(device).spec_next_address() < u64::MAX,
        ensures
            r@.len() == data@.len(),
            forall|i: int| 0 <= i < data@.len() ==> r@[i] == Some(data@[i]),
            r.spec_kind() == IndexKind::U32,
            r.spec_gpu_address() == old(device).spec_next_address(),
            r.spec_gpu_address() >= 1,
            final(device).spec_handle() == old(device).spec_handle(),
            final(device).spec_next_address() == old(device).spec_next_address() + 1,
            final(device).wf(),
    {
        IndexBuffer { kind: IndexKind::U32, buf: Generic::from_slice(device, data, options) }
    }

    /// The element width the buffer was created with.
    pub fn kind(&self) -> (r: IndexKind)
        ensures
            r == self.spec_kind(),
    {
        self.kind
    }

    /// The number of indices the buffer holds.
    pub fn len(&self) -> (r: usize)
        ensures
            r == self@.len(),
    {
        self.buf.len()
    }

    /// The buffer's stable GPU address.
    pub fn gpu_address(&self) -> (r: u64)
        ensures
            r == self.spec_gpu_address(),
    {
        self.buf.gpu_address()
    }

    /// Reads the index at `index` back; `None` if out of range.
    pub fn read_one(&self, index: usize) -> (r: Option<u32>)
        ensures
            index < self@.len() ==> r == self@[index as int],
            index >= self@.len() ==> r is None,
    {
        self.buf.read_one(index)
    }
}

impl HasGpuAddress for IndexBuffer {
    closed spec fn spec_gpu_address(&self) -> u64 {
        self.buf.gpu_address
    }

    fn gpu_address_u64(&self) -> (r: u64) {
        self.buf.gpu_address()
    }
}

} // verus!
