use gpu_automata::dispatch::compute_work_group_count;
use gpu_automata::render::CoreError;
use gpu_automata::render::FrameCommand;
use gpu_automata::render::RenderState;
use gpu_automata::render::SimulationGeometry;
use gpu_automata::render::SurfaceGeometry;
use gpu_automata::seed::generate_random_fill;
use gpu_automata::seed::generate_symmetric_seed;
use gpu_automata::swapper::TextureResource;
use gpu_automata::swapper::TextureSwapper;

fn ready_state(width: u32, height: u32) -> RenderState {
    let mut s = RenderState::new(
        SimulationGeometry { width, height },
        SurfaceGeometry { width: 1024, height: 1024 },
    );
    s.create_pipelines();
    s
}

#[test]
fn dispatch_count_examples() {
    assert_eq!(compute_work_group_count((4, 4), (16, 16)), (1, 1));
    assert_eq!(compute_work_group_count((2048, 2048), (14, 14)), (147, 147));
    assert_eq!(compute_work_group_count((16, 16), (16, 16)), (1, 1));
    assert_eq!(compute_work_group_count((17, 17), (16, 16)), (2, 2));
}

#[test]
fn dispatch_count_boundaries() {
    // extent divisible by the workgroup size
    assert_eq!(compute_work_group_count((32, 64), (16, 16)), (2, 4));
    // extent one below the workgroup size
    assert_eq!(compute_work_group_count((15, 13), (16, 14)), (1, 1));
    // a single cell
    assert_eq!(compute_work_group_count((1, 1), (16, 14)), (1, 1));
    // an empty extent needs no workgroups
    assert_eq!(compute_work_group_count((0, 0), (16, 16)), (0, 0));
}

#[test]
fn read_and_write_are_distinct_for_every_index() {
    let mut swapper = TextureSwapper {
        index: 0,
        texture_resources: [TextureResource { slot: 0 }, TextureResource { slot: 1 }],
    };
    for _ in 0..4 {
        let read = swapper.get_read_resource().slot;
        let write = swapper.get_write_resource().slot;
        assert_ne!(read, write);
        assert_eq!(read, swapper.index);
        swapper.swap();
    }
}

#[test]
fn swap_twice_restores_assignment() {
    let mut swapper = TextureSwapper {
        index: 1,
        texture_resources: [TextureResource { slot: 0 }, TextureResource { slot: 1 }],
    };
    let read_before = swapper.get_read_resource().slot;
    let write_before = swapper.get_write_resource().slot;
    swapper.swap();
    assert_ne!(swapper.get_read_resource().slot, read_before);
    swapper.swap();
    assert_eq!(swapper.get_read_resource().slot, read_before);
    assert_eq!(swapper.get_write_resource().slot, write_before);
    assert_eq!(swapper.index, 1);
}

/// The quadrant image of axis coordinate `a` on an axis of extent `d`.
fn quadrant_of(a: usize, d: usize) -> usize {
    if 2 * a < d { a } else { d - 1 - a }
}

/// Whether lattice cell (x, y) lies in the seeded patch region.
fn is_seeded(x: usize, y: usize, w: usize, h: usize) -> bool {
    let qx = quadrant_of(x, w);
    let qy = quadrant_of(y, h);
    qx >= w / 4 && qx < w / 2 && qy >= h / 4 && qy < h / 2
        && !(w / 2 - qx < w / 8 && h / 2 - qy < h / 8)
}

fn check_seed(width: u32, height: u32) {
    let w = width as usize;
    let h = height as usize;
    let data = generate_symmetric_seed(width, height);
    assert_eq!(data.len(), w * h);
    for y in 0..h {
        for x in 0..w {
            let v = data[y * w + x];
            // four-fold symmetry: horizontal, vertical and diagonal mirrors
            assert_eq!(v, data[y * w + (w - 1 - x)]);
            assert_eq!(v, data[(h - 1 - y) * w + x]);
            assert_eq!(v, data[(h - 1 - y) * w + (w - 1 - x)]);
            if is_seeded(x, y, w, h) {
                assert!(v == 1 || v == -1);
            } else {
                assert_eq!(v, 0);
            }
        }
    }
}

#[test]
fn symmetric_seed_even_extents() {
    check_seed(32, 32);
    check_seed(64, 16);
}

#[test]
fn symmetric_seed_odd_extents() {
    check_seed(33, 17);
    check_seed(9, 31);
}

#[test]
fn symmetric_seed_degenerate_extents() {
    assert_eq!(generate_symmetric_seed(0, 8).len(), 0);
    assert_eq!(generate_symmetric_seed(8, 0).len(), 0);
    assert!(generate_symmetric_seed(1, 1).iter().all(|&v| v == 0));
}

#[test]
fn random_fill_sets_every_cell_to_one_of_two_values() {
    let data = generate_random_fill(24, 10);
    assert_eq!(data.len(), 240);
    assert!(data.iter().all(|&v| v == 1 || v == -1));
}

#[test]
fn resize_rejects_degenerate_sizes_silently() {
    let mut s = ready_state(8, 8);
    let before = s.surface;
    assert!(!s.resize(0, 512));
    assert_eq!(s.surface, before);
    assert!(!s.resize(512, 0));
    assert_eq!(s.surface, before);
    assert!(!s.resize(0, 0));
    assert_eq!(s.surface, before);
}

#[test]
fn resize_applies_valid_sizes() {
    let mut s = ready_state(8, 8);
    assert!(s.resize(640, 480));
    assert_eq!(s.surface, SurfaceGeometry { width: 640, height: 480 });
    // simulation geometry is never touched by a resize
    assert_eq!(s.simulation, SimulationGeometry { width: 8, height: 8 });
}

#[test]
fn reseed_then_advances_leaves_parity_of_count() {
    let mut s = ready_state(128, 128);
    s.randomize().expect("state is ready");
    assert_eq!(s.active_index(), Some(0));
    for n in 1u32..=6 {
        s.draw().expect("state is ready");
        assert_eq!(s.active_index(), Some((n % 2) as usize));
    }
}

#[test]
fn draw_is_one_compute_then_one_render_before_the_swap() {
    let mut s = ready_state(4, 4);
    let read_before = 1;
    let write_before = 0;
    assert_eq!(s.active_index(), Some(read_before));
    let cmds = s.draw().expect("state is ready");
    assert_eq!(cmds.len(), 2);
    assert_eq!(
        cmds[0],
        FrameCommand::ComputePass {
            input_slot: read_before,
            output_slot: write_before,
            groups_x: 1,
            groups_y: 1,
        }
    );
    assert_eq!(cmds[1], FrameCommand::RenderPass { sampled_slot: write_before });
    // the one swap has happened: the freshly written buffer is now current
    assert_eq!(s.active_index(), Some(write_before));
}

#[test]
fn transition_covers_the_lattice_and_swaps() {
    let mut s = ready_state(2048, 2048);
    let cmd = s.transition().expect("state is ready");
    assert_eq!(
        cmd,
        FrameCommand::ComputePass {
            input_slot: 1,
            output_slot: 0,
            groups_x: 147,
            groups_y: 147,
        }
    );
    assert_eq!(s.active_index(), Some(0));
}

#[test]
fn frame_operations_fail_loudly_before_pipelines_exist() {
    let mut s = RenderState::new(
        SimulationGeometry { width: 8, height: 8 },
        SurfaceGeometry { width: 64, height: 64 },
    );
    assert_eq!(s.active_index(), None);
    assert_eq!(s.transition(), Err(CoreError::NotReady));
    assert_eq!(s.draw(), Err(CoreError::NotReady));
    assert!(matches!(s.randomize(), Err(CoreError::NotReady)));
    let data = vec![0i8; 64];
    assert_eq!(s.set_texture(&data), Err(CoreError::NotReady));
    assert_eq!(s.active_index(), None);
}

#[test]
fn set_texture_targets_write_side_and_swaps() {
    let mut s = ready_state(4, 4);
    let data = vec![1i8; 16];
    let slot = s.set_texture(&data).expect("state is ready");
    // uploaded into the old write side, which the swap made current
    assert_eq!(slot, 0);
    assert_eq!(s.active_index(), Some(0));
    let slot2 = s.set_texture(&data).expect("state is ready");
    assert_eq!(slot2, 1);
    assert_eq!(s.active_index(), Some(1));
}

#[test]
fn randomize_uploads_into_the_promoted_buffer() {
    let mut s = ready_state(16, 16);
    let upload = s.randomize().expect("state is ready");
    assert_eq!(upload.data.len(), 256);
    assert_eq!(upload.target_slot, 0);
    assert_eq!(s.active_index(), Some(0));
    let upload2 = s.randomize().expect("state is ready");
    assert_eq!(upload2.target_slot, 1);
    assert_eq!(s.active_index(), Some(1));
}
