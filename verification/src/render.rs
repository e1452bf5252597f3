//! The core render state: simulation and surface geometry, the two-phase
//! lifecycle, and the per-frame decisions. Each frame operation returns a
//! plain description of the GPU work to record and submit; the unverified
//! shell owns the device and executes those descriptions in order.

use vstd::prelude::*;

use crate::dispatch::compute_work_group_count;
use crate::dispatch::div_ceil;
use crate::seed::four_fold_symmetric;
use crate::seed::generate_symmetric_seed;
use crate::seed::seed_values_ok;
use crate::swapper::flip_index;
use crate::swapper::TextureResource;
use crate::swapper::TextureSwapper;

verus! {

/// Lattice extent of the simulation, fixed for the process lifetime.
pub const SIMULATION_WIDTH: u32 = 2048;

pub const SIMULATION_HEIGHT: u32 = 2048;

/// Useful cells covered by one workgroup along each axis. The kernel is
/// launched with 16x16 threads, but the outer ring of threads only
/// populates the shared-memory halo, so each workgroup produces output
/// for a 14x14 tile.
pub const WORKGROUP_EXTENT: u32 = 14;

/// The active index set when the buffers are created. The first seed
/// upload consumes one swap, so the first displayed generation lives in
/// the buffer of slot 0.
pub const INITIAL_ACTIVE_INDEX: usize = 1;

/// The lattice dimensions, set once at construction and independent of
/// the display surface's pixel dimensions.
#[derive(Clone, Copy, PartialEq, Eq, Structural, Debug)]
pub struct SimulationGeometry {
    pub width: u32,
    pub height: u32,
}

impl SimulationGeometry {
    /// Machine bound: one value per cell must be addressable in host
    /// memory.
    pub open spec fn wf(&self) -> bool {
        self.width as int * self.height as int <= usize::MAX as int
    }

    /// Number of lattice cells.
    pub open spec fn cell_count(&self) -> int {
        self.width as int * self.height as int
    }
}

/// The display surface's current pixel dimensions; changed only by
/// resize events and fed to the display kernel, never to the lattice.
#[derive(Clone, Copy, PartialEq, Eq, Structural, Debug)]
pub struct SurfaceGeometry {
    pub width: u32,
    pub height: u32,
}

/// Errors of the core's own operations. Device loss and kernel
/// compilation failures are fatal in the shell and never reach here.
#[derive(Clone, Copy, PartialEq, Eq, Structural, Debug)]
pub enum CoreError {
    /// A frame operation was invoked before `create_pipelines` completed.
    NotReady,
}

/// One pass for the shell to record and submit, in the order given.
#[derive(Clone, Copy, PartialEq, Eq, Structural, Debug)]
pub enum FrameCommand {
    /// Bind the transition kernel, with the state of `input_slot` as its
    /// read-only input and the state of `output_slot` as its write-only
    /// output, and dispatch `groups_x` by `groups_y` workgroups.
    ComputePass { input_slot: usize, output_slot: usize, groups_x: u32, groups_y: u32 },
    /// Bind the display kernel, sample the state of `sampled_slot`, and
    /// draw the fullscreen quad into the acquired surface image.
    RenderPass { sampled_slot: usize },
}

/// A freshly generated lattice snapshot and the buffer it must be
/// uploaded into, as a single bulk write that bypasses the kernels.
pub struct SeedUpload {
    /// One signed value per cell, row-major: 1 or -1 where seeded, 0
    /// elsewhere.
    pub data: Vec<i8>,
    /// The slot to upload into: the write side at the time of the call,
    /// which one swap then promotes to the read side.
    pub target_slot: usize,
}

/// The core state: geometry plus the double-buffer store. The store is
/// absent until `create_pipelines` runs; every frame operation fails
/// with `NotReady` before that.
pub struct RenderState {
    pub simulation: SimulationGeometry,
    pub surface: SurfaceGeometry,
    pub texture_swapper: Option<TextureSwapper>,
}

impl RenderState {
    pub open spec fn wf(&self) -> bool {
        &&& self.simulation.wf()
        &&& match self.texture_swapper {
            Some(s) => s.wf(),
            None => true,
        }
    }

    /// The two-phase lifecycle: frame operations are valid only once the
    /// buffers and pipelines exist.
    pub open spec fn is_ready(&self) -> bool {
        self.texture_swapper is Some
    }

    pub open spec fn spec_active_index(&self) -> int
        recommends
            self.is_ready(),
    {
        self.texture_swapper->Some_0.index as int
    }

    /// Slot of the buffer holding the current generation.
    pub open spec fn spec_read_slot(&self) -> int
        recommends
            self.is_ready(),
    {
        self.texture_swapper->Some_0.spec_read().slot as int
    }

    /// Slot of the buffer the next transition writes.
    pub open spec fn spec_write_slot(&self) -> int
        recommends
            self.is_ready(),
    {
        self.texture_swapper->Some_0.spec_write().slot as int
    }

    /// Geometry is unchanged and the store was swapped exactly once.
    pub open spec fn swapped_once(pre: Self, post: Self) -> bool {
        &&& post.simulation == pre.simulation
        &&& post.surface == pre.surface
        &&& pre.is_ready() && post.is_ready()
        &&& post.texture_swapper->Some_0 == pre.texture_swapper->Some_0.spec_swapped()
    }

    /// Builds the core in its uninitialized phase. The shell performs the
    /// fatal-on-failure device negotiation before calling this.
    pub fn new(simulation: SimulationGeometry, surface: SurfaceGeometry) -> (s: RenderState)
        requires
            simulation.wf(),
        ensures
            s.wf(),
            !s.is_ready(),
            s.simulation == simulation,
            s.surface == surface,
    {
        RenderState { simulation, surface, texture_swapper: None }
    }

    /// Enters the ready phase: creates the two state buffers of the
    /// double-buffer store. The shell compiles both kernels and builds
    /// the binding sets for each slot around this call; a compilation
    /// failure is fatal there and never reaches the core.
    pub fn create_pipelines(&mut self)
        requires
            old(self).wf(),
        ensures
            final(self).wf(),
            final(self).is_ready(),
            final(self).simulation == old(self).simulation,
            final(self).surface == old(self).surface,
            final(self).spec_active_index() == INITIAL_ACTIVE_INDEX,
            final(self).spec_read_slot() == INITIAL_ACTIVE_INDEX,
    {
        self.texture_swapper = Some(
            TextureSwapper {
                index: INITIAL_ACTIVE_INDEX,
                texture_resources: [TextureResource { slot: 0 }, TextureResource { slot: 1 }],
            },
        );
    }

    /// Decides one simulation step: a compute pass that reads the current
    /// generation, writes the next one into the disjoint write buffer,
    /// and covers every lattice cell; then one swap promotes the freshly
    /// written buffer to the read side.
    pub fn transition(&mut self) -> (r: Result<FrameCommand, CoreError>)
        requires
            old(self).wf(),
        ensures
            final(self).wf(),
            old(self).is_ready() ==> {
                &&& Self::swapped_once(*old(self), *final(self))
                &&& r matches Ok(cmd)
                &&& cmd matches FrameCommand::ComputePass {
                    input_slot,
                    output_slot,
                    groups_x,
                    groups_y,
                } && {
                    &&& input_slot == old(self).spec_read_slot()
                    &&& output_slot == old(self).spec_write_slot()
                    &&& groups_x == div_ceil(
                        old(self).simulation.width as int,
                        WORKGROUP_EXTENT as int,
                    )
                    &&& groups_y == div_ceil(
                        old(self).simulation.height as int,
                        WORKGROUP_EXTENT as int,
                    )
                }
            },
            !old(self).is_ready() ==> {
                &&& r == Err::<FrameCommand, CoreError>(CoreError::NotReady)
                &&& *final(self) == *old(self)
            },
    {
        let (groups_x, groups_y) = compute_work_group_count(
            (self.simulation.width, self.simulation.height),
            (WORKGROUP_EXTENT, WORKGROUP_EXTENT),
        );
        match &mut self.texture_swapper {
            None => Err(CoreError::NotReady),
            Some(s) => {
                let input_slot = s.get_read_resource().slot;
                let output_slot = s.get_write_resource().slot;
                s.swap();
                Ok(FrameCommand::ComputePass { input_slot, output_slot, groups_x, groups_y })
            },
        }
    }

    /// Decides one displayed frame: exactly one compute pass followed by
    /// exactly one render pass, in that submission order, then one swap.
    /// The render pass samples the buffer the compute pass wrote — the
    /// read side after the swap — so the freshly computed generation is
    /// the one displayed.
    pub fn draw(&mut self) -> (r: Result<Vec<FrameCommand>, CoreError>)
        requires
            old(self).wf(),
        ensures
            final(self).wf(),
            old(self).is_ready() ==> {
                &&& Self::swapped_once(*old(self), *final(self))
                &&& r matches Ok(cmds)
                &&& cmds@.len() == 2
                &&& cmds@[0] matches FrameCommand::ComputePass {
                    input_slot,
                    output_slot,
                    groups_x,
                    groups_y,
                } && {
                    &&& input_slot == old(self).spec_read_slot()
                    &&& output_slot == old(self).spec_write_slot()
                    &&& groups_x == div_ceil(
                        old(self).simulation.width as int,
                        WORKGROUP_EXTENT as int,
                    )
                    &&& groups_y == div_ceil(
                        old(self).simulation.height as int,
                        WORKGROUP_EXTENT as int,
                    )
                }
                &&& cmds@[1] matches FrameCommand::RenderPass { sampled_slot } && {
                    &&& sampled_slot == old(self).spec_write_slot()
                    &&& sampled_slot == final(self).spec_read_slot()
                }
            },
            !old(self).is_ready() ==> {
                &&& r == Err::<Vec<FrameCommand>, CoreError>(CoreError::NotReady)
                &&& *final(self) == *old(self)
            },
    {
        let sampled_slot = match &self.texture_swapper {
            None => {
                return Err(CoreError::NotReady);
            },
            Some(s) => s.get_write_resource().slot,
        };
        let compute = match self.transition() {
            Ok(cmd) => cmd,
            Err(e) => {
                return Err(e);
            },
        };
        let mut cmds: Vec<FrameCommand> = Vec::new();
        cmds.push(compute);
        cmds.push(FrameCommand::RenderPass { sampled_slot });
        Ok(cmds)
    }

    /// Applies a surface-size change. Degenerate sizes are rejected
    /// silently: the previous geometry is retained and the shell must
    /// issue no reconfiguration call. Otherwise the new geometry is
    /// stored and the shell reconfigures the surface (and rewrites the
    /// surface-size uniform, if one exists).
    pub fn resize(&mut self, width: u32, height: u32) -> (reconfigure: bool)
        requires
            old(self).wf(),
        ensures
            final(self).wf(),
            final(self).simulation == old(self).simulation,
            final(self).texture_swapper == old(self).texture_swapper,
            reconfigure == (width > 0 && height > 0),
            reconfigure ==> final(self).surface == (SurfaceGeometry { width, height }),
            !reconfigure ==> final(self).surface == old(self).surface,
    {
        if width > 0 && height > 0 {
            self.surface = SurfaceGeometry { width, height };
            true
        } else {
            false
        }
    }

    /// Accepts a full lattice snapshot for direct upload into the write
    /// buffer, bypassing the kernels, and performs the one swap that
    /// makes the uploaded data current. Returns the slot the shell must
    /// write the snapshot into before submitting further frames.
    pub fn set_texture(&mut self, data: &Vec<i8>) -> (r: Result<usize, CoreError>)
        requires
            old(self).wf(),
            old(self).is_ready() ==> data@.len() == old(self).simulation.cell_count(),
        ensures
            final(self).wf(),
            old(self).is_ready() ==> {
                &&& Self::swapped_once(*old(self), *final(self))
                &&& r matches Ok(slot)
                &&& slot == old(self).spec_write_slot()
                &&& slot == final(self).spec_read_slot()
            },
            !old(self).is_ready() ==> {
                &&& r == Err::<usize, CoreError>(CoreError::NotReady)
                &&& *final(self) == *old(self)
            },
    {
        match &mut self.texture_swapper {
            None => Err(CoreError::NotReady),
            Some(s) => {
                let slot = s.get_write_resource().slot;
                s.swap();
                Ok(slot)
            },
        }
    }

    /// Regenerates the lattice with the symmetric-patch seed and ends
    /// with the new data on the read side: the returned snapshot must be
    /// uploaded into `target_slot`, which the consumed swap has already
    /// promoted to current.
    pub fn randomize(&mut self) -> (r: Result<SeedUpload, CoreError>)
        requires
            old(self).wf(),
        ensures
            final(self).wf(),
            old(self).is_ready() ==> {
                &&& Self::swapped_once(*old(self), *final(self))
                &&& r matches Ok(upload)
                &&& upload.data@.len() == old(self).simulation.cell_count()
                &&& four_fold_symmetric(
                    upload.data@,
                    old(self).simulation.width as int,
                    old(self).simulation.height as int,
                )
                &&& seed_values_ok(
                    upload.data@,
                    old(self).simulation.width as int,
                    old(self).simulation.height as int,
                )
                &&& upload.target_slot == old(self).spec_write_slot()
                &&& upload.target_slot == final(self).spec_read_slot()
            },
            !old(self).is_ready() ==> {
                &&& r == Err::<SeedUpload, CoreError>(CoreError::NotReady)
                &&& *final(self) == *old(self)
            },
    {
        if self.texture_swapper.is_none() {
            return Err(CoreError::NotReady);
        }
        let data = generate_symmetric_seed(self.simulation.width, self.simulation.height);
        match self.set_texture(&data) {
            Ok(target_slot) => Ok(SeedUpload { data, target_slot }),
            Err(e) => Err(e),
        }
    }

    /// The active index, for callers outside the core; `None` while the
    /// store does not exist yet.
    pub fn active_index(&self) -> (r: Option<usize>)
        ensures
            self.is_ready() ==> (r matches Some(i) && i == self.spec_active_index()),
            !self.is_ready() ==> r is None,
    {
        match &self.texture_swapper {
            Some(s) => Some(s.index),
            None => None,
        }
    }
}

/// The active index reached after `n` frame advances from index `start`:
/// each advance consumes exactly one swap.
pub open spec fn index_after_advances(start: int, n: nat) -> int
    decreases n,
{
    if n == 0 {
        start
    } else {
        flip_index(index_after_advances(start, (n - 1) as nat))
    }
}

/// Law: starting from the freshly created store, one reseed (which
/// consumes one swap) followed by `n` frame advances leaves the active
/// index equal to `n % 2`.
pub proof fn lemma_active_index_parity(n: nat)
    ensures
        index_after_advances(flip_index(INITIAL_ACTIVE_INDEX as int), n) == n % 2,
    decreases n,
{
    if n > 0 {
        lemma_active_index_parity((n - 1) as nat);
    }
}

} // verus!
