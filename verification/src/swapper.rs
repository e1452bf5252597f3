//! The double-buffer store: two state buffers and an active index,
//! alternated so that the transition kernel always reads an immutable
//! snapshot and writes to a disjoint buffer.

use vstd::prelude::*;

verus! {

/// A handle to one of the two GPU-resident state buffers. The `slot`
/// number names the texture, its view, its sampler and its two binding
/// sets, all of which the unverified shell allocates and keeps; the core
/// only decides which slot is read and which is written.
pub struct TextureResource {
    pub slot: usize,
}

/// Exactly two state buffers and one active index. The buffer at the
/// active index is the current (read) side; the other one is the write
/// side. Nothing but `swap` ever changes the index.
pub struct TextureSwapper {
    pub index: usize,
    pub texture_resources: [TextureResource; 2],
}

/// The active index after one swap: 0 and 1 exchanged.
pub open spec fn flip_index(i: int) -> int {
    if i == 0 {
        1
    } else {
        0
    }
}

impl TextureSwapper {
    /// Structural validity: the index selects one of the two buffers, and
    /// the two buffers are distinct instances, each naming its own slot.
    pub open spec fn wf(&self) -> bool {
        &&& self.index < 2
        &&& self.texture_resources[0].slot == 0
        &&& self.texture_resources[1].slot == 1
    }

    /// The buffer holding the current generation, read by this frame's
    /// kernels.
    pub open spec fn spec_read(&self) -> TextureResource {
        self.texture_resources[self.index as int]
    }

    /// The buffer the next transition populates; no kernel invoked this
    /// frame may read it.
    pub open spec fn spec_write(&self) -> TextureResource {
        self.texture_resources[1 - self.index as int]
    }

    /// This store after one swap: same buffers, flipped index.
    pub open spec fn spec_swapped(&self) -> TextureSwapper {
        TextureSwapper { index: flip_index(self.index as int) as usize, ..*self }
    }

    pub fn get_read_resource(&self) -> (r: &TextureResource)
        requires
            self.wf(),
        ensures
            *r == self.spec_read(),
    {
        &self.texture_resources[self.index]
    }

    pub fn get_write_resource(&self) -> (r: &TextureResource)
        requires
            self.wf(),
        ensures
            *r == self.spec_write(),
    {
        &self.texture_resources[(self.index + 1) % 2]
    }

    /// Toggles the active index; constant-time, no GPU work. Called
    /// exactly once per completed transition and once per seed upload.
    pub fn swap(&mut self)
        requires
            old(self).wf(),
        ensures
            final(self).wf(),
            *final(self) == old(self).spec_swapped(),
            final(self).index == flip_index(old(self).index as int),
    {
        self.index = (self.index + 1) % 2;
    }
}

/// Law: for every well-formed store — hence for every reachable value of
/// the active index — the read side and the write side are two distinct
/// buffer instances.
pub proof fn lemma_read_write_distinct(s: TextureSwapper)
    requires
        s.wf(),
    ensures
        s.spec_read().slot != s.spec_write().slot,
{
}

/// Law: swapping is an involution — two consecutive swaps return the
/// store to its original state, and in particular to its original
/// read/write assignment.
pub proof fn lemma_swap_involution(s: TextureSwapper)
    requires
        s.wf(),
    ensures
        s.spec_swapped().spec_swapped() == s,
        s.spec_swapped().spec_read() == s.spec_write(),
        s.spec_swapped().spec_write() == s.spec_read(),
{
}

} // verus!
