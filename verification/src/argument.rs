//! The argument (binding) table: an ordered table of slot-to-address
//! bindings consumed by the shader stages during a draw.
//!
//! Binding never copies buffer contents; it only propagates the buffer's
//! stable GPU address into the addressed slot.  The table is created with a
//! fixed number of buffer slots and texture slots, and a binding must target
//! an existing slot.

use vstd::prelude::*;
use crate::buffer::HasGpuAddress;

verus! {

/// Anything that can be bound into an argument table.
///
/// Every owner of a GPU address is bindable.
pub trait Bindable: HasGpuAddress {

}

impl<T: HasGpuAddress> Bindable for T {

}

/// An ordered table of slot-to-GPU-address bindings, consumed by the shader
/// stages.  Slot addresses start out zero (unbound); a device address is
/// never zero.
pub struct ArgumentTable {
    slots: Vec<u64>,
    max_textures: u32,
}

impl View for ArgumentTable {
    type V = Seq<u64>;

    closed spec fn view(&self) -> Seq<u64> {
        self.slots@
    }
}

impl ArgumentTable {
    /// The number of texture slots the table was created with.
    pub closed spec fn spec_max_textures(self) -> u32 {
        self.max_textures
    }

    /// Creates a table with `max_buffers` buffer slots, all unbound, and
    /// `max_textures` texture slots.
    pub(crate) fn with_capacity(max_buffers: u32, max_textures: u32) -> (r: ArgumentTable)
        ensures
            r@.len() == max_buffers,
            forall|i: int| 0 <= i < r@.len() ==> r@[i] == 0u64,
            r.spec_max_textures() == max_textures,
    {
        let mut slots: Vec<u64> = Vec::new();
        let mut i: u32 = 0;
        while i < max_buffers
            invariant
                i <= max_buffers,
                slots@.len() == i,
                forall|j: int| 0 <= j < i ==> slots@[j] == 0u64,
            decreases max_buffers - i,
        {
            slots.push(0);
            i = i + 1;
        }
        ArgumentTable { slots, max_textures }
    }

    /// The number of buffer slots the table was created with.
    pub fn max_buffer_slots(&self) -> (r: usize)
        ensures
            r == self@.len(),
    {
        self.slots.len()
    }

    /// The number of texture slots the table was created with.
    pub fn max_texture_slots(&self) -> (r: u32)
        ensures
            r == self.spec_max_textures(),
    {
        self.max_textures
    }

    /// The address currently bound at `index`; zero means unbound.
    pub fn slot(&self, index: u32) -> (r: u64)
        requires
            index < self@.len(),
        ensures
            r == self@[index as int],
    {
        self.slots[index as usize]
    }

    /// Binds one buffer's GPU address at slot `index`.
    pub fn bind<A: Bindable>(&mut self, index: u32, buf: &A)
        requires
            index < old(self)@.len(),
        ensures
            final(self)@ == old(self)@.update(index as int, buf.spec_gpu_address()),
            final(self).spec_max_textures() == old(self).spec_max_textures(),
    {
        let a = buf.gpu_address_u64();
        self.slots[index as usize] = a;
    }

    /// Binds two buffers' GPU addresses at slots `a_index` and `b_index`.
    ///
    /// If the two indices coincide, the second binding wins.
    pub fn bind2<A: Bindable, B: Bindable>(&mut self, a_index: u32, a: &A, b_index: u32, b: &B)
        requires
            a_index < old(self)@.len(),
            b_index < old(self)@.len(),
        ensures
            final(self)@ == old(self)@.update(a_index as int, a.spec_gpu_address()).update(
                b_index as int,
                b.spec_gpu_address(),
            ),
            final(self).spec_max_textures() == old(self).spec_max_textures(),
    {
        self.bind(a_index, a);
        self.bind(b_index, b);
    }
}

} // verus!
