use game_of_life::input::keyboard_input;
use game_of_life::node::{ComputeKernel, Dispatch, GameOfLifeNode, GameOfLifeState, workgroup_counts};
use game_of_life::pipeline::{
    init_pipeline_descriptor, queue_bind_group, texture_bind_group_layout,
    update_pipeline_descriptor, CachedComputePipelineId, GameOfLifePipeline, ShaderStage,
    TextureAccess, TextureDimension, TextureFormat, TextureViewId,
};
use game_of_life::plugin::{setup_image, GameOfLife, GameOfLifeComputePlugin, GameOfLifeImage};

#[test]
fn stays_loading_and_silent_until_init_pipeline_ready() {
    let game = GameOfLife::new(1280, 720);
    let mut node = GameOfLifeNode::default();
    assert_eq!(node.state, GameOfLifeState::Loading);
    for _ in 0..5 {
        let dispatch = node.frame(&game, false, false);
        assert_eq!(dispatch, None);
        assert_eq!(node.state, GameOfLifeState::Loading);
    }
}

#[test]
fn init_dispatched_once_on_the_frame_leaving_init() {
    let game = GameOfLife::new(1280, 720);
    let mut node = GameOfLifeNode::default();

    // Init pipeline compiles: the node leaves Loading, still nothing runs.
    let dispatch = node.frame(&game, true, false);
    assert_eq!(dispatch, None);
    assert_eq!(node.state, GameOfLifeState::Init);

    // Update pipeline still compiling: still nothing runs.
    let dispatch = node.frame(&game, true, false);
    assert_eq!(dispatch, None);
    assert_eq!(node.state, GameOfLifeState::Init);

    // Update pipeline ready: the init kernel fires exactly on this frame.
    let dispatch = node.frame(&game, true, true);
    assert_eq!(
        dispatch,
        Some(Dispatch {
            kernel: ComputeKernel::Init,
            workgroups_x: 160,
            workgroups_y: 90,
            workgroups_z: 1,
        })
    );
    assert_eq!(node.state, GameOfLifeState::Update);

    // And never again.
    for _ in 0..5 {
        let dispatch = node.frame(&game, true, true);
        assert!(dispatch.is_some());
        assert_eq!(dispatch.unwrap().kernel, ComputeKernel::Update);
    }
}

#[test]
fn running_dispatches_one_update_kernel_per_frame_unless_paused() {
    let mut game = GameOfLife::new(64, 32);
    let mut node = GameOfLifeNode::default();
    node.frame(&game, true, true);
    node.frame(&game, true, true);
    assert_eq!(node.state, GameOfLifeState::Update);

    let dispatch = node.frame(&game, true, true);
    assert_eq!(
        dispatch,
        Some(Dispatch {
            kernel: ComputeKernel::Update,
            workgroups_x: 8,
            workgroups_y: 4,
            workgroups_z: 1,
        })
    );

    game.is_paused = true;
    let dispatch = node.frame(&game, true, true);
    assert_eq!(dispatch, None);
    assert_eq!(node.state, GameOfLifeState::Update);

    game.is_paused = false;
    let dispatch = node.frame(&game, true, true);
    assert_eq!(dispatch.unwrap().kernel, ComputeKernel::Update);
}

#[test]
fn pause_does_not_suppress_the_one_time_init_dispatch() {
    let mut game = GameOfLife::new(16, 16);
    game.is_paused = true;
    let mut node = GameOfLifeNode::default();
    node.frame(&game, true, false);
    assert_eq!(node.state, GameOfLifeState::Init);
    let dispatch = node.frame(&game, true, true);
    assert_eq!(dispatch.unwrap().kernel, ComputeKernel::Init);
}

#[test]
fn a_whole_run_counts_one_init_and_one_update_per_unpaused_frame() {
    let game = GameOfLife::new(1280, 720);
    let mut node = GameOfLifeNode::default();
    let frames: Vec<(bool, bool, bool)> = vec![
        (false, false, false),
        (false, false, false),
        (true, false, false),
        (true, false, false),
        (true, true, false),
        (true, true, false),
        (true, true, true),
        (true, true, false),
        (true, true, false),
    ];
    let mut init_dispatches: usize = 0;
    let mut update_dispatches: usize = 0;
    for (init_ready, update_ready, paused) in frames {
        let mut current = game;
        current.is_paused = paused;
        match node.frame(&current, init_ready, update_ready) {
            Some(d) if d.kernel == ComputeKernel::Init => init_dispatches += 1,
            Some(d) if d.kernel == ComputeKernel::Update => update_dispatches += 1,
            _ => {}
        }
    }
    assert_eq!(init_dispatches, 1);
    // Frames 6, 8 and 9 start in the running state; frame 7 is paused.
    assert_eq!(update_dispatches, 3);
    assert_eq!(node.state, GameOfLifeState::Update);
}

#[test]
fn workgroup_counts_divide_the_grid_by_eight() {
    let game = GameOfLife::new(1280, 720);
    assert_eq!(workgroup_counts(&game), (160, 90, 1));
    let small = GameOfLife::new(8, 8);
    assert_eq!(workgroup_counts(&small), (1, 1, 1));
    // Integer division truncates a grid that is no exact multiple of 8.
    let ragged = GameOfLife::new(1283, 723);
    assert_eq!(workgroup_counts(&ragged), (160, 90, 1));
}

#[test]
fn toggling_pause_an_even_number_of_times_restores_it() {
    let mut game = GameOfLife::new(1280, 720);
    assert!(!game.is_paused);
    keyboard_input(true, &mut game);
    assert!(game.is_paused);
    keyboard_input(true, &mut game);
    assert!(!game.is_paused);
    for _ in 0..7 {
        keyboard_input(true, &mut game);
    }
    assert!(game.is_paused);
    assert_eq!(game.width, 1280);
    assert_eq!(game.height, 720);
}

#[test]
fn key_not_pressed_leaves_the_pause_flag_alone() {
    let mut game = GameOfLife::new(1280, 720);
    keyboard_input(false, &mut game);
    assert!(!game.is_paused);
    keyboard_input(true, &mut game);
    keyboard_input(false, &mut game);
    assert!(game.is_paused);
}

#[test]
fn layout_declares_one_compute_visible_read_write_storage_texture() {
    let layout = texture_bind_group_layout();
    assert_eq!(layout.entry.binding, 0);
    assert_eq!(layout.entry.visibility, ShaderStage::Compute);
    assert_eq!(layout.entry.access, TextureAccess::ReadWrite);
    assert_eq!(layout.entry.format, TextureFormat::Rgba8Unorm);
    assert_eq!(layout.entry.view_dimension, TextureDimension::D2);
}

#[test]
fn the_two_pipelines_differ_only_in_entry_point() {
    let layout = texture_bind_group_layout();
    let init = init_pipeline_descriptor(layout);
    let update = update_pipeline_descriptor(layout);
    assert_eq!(init.entry_point, "init");
    assert_eq!(update.entry_point, "update");
    assert_eq!(init.layout, update.layout);
    assert_eq!(init.layout, layout);
}

#[test]
fn the_registry_keeps_the_ids_the_cache_assigned() {
    let pipeline = GameOfLifePipeline::new(
        CachedComputePipelineId(7),
        CachedComputePipelineId(8),
    );
    assert_eq!(pipeline.init_pipeline, CachedComputePipelineId(7));
    assert_eq!(pipeline.update_pipeline, CachedComputePipelineId(8));
    assert_eq!(pipeline.texture_bind_group_layout, texture_bind_group_layout());
}

#[test]
fn bind_group_is_rebuilt_but_keeps_the_same_texture_view() {
    let pipeline = GameOfLifePipeline::new(
        CachedComputePipelineId(0),
        CachedComputePipelineId(1),
    );
    let first = queue_bind_group(&pipeline, TextureViewId(42));
    let second = queue_bind_group(&pipeline, TextureViewId(42));
    assert_eq!(first, second);
    assert_eq!(first.0.binding, 0);
    assert_eq!(first.0.texture_view, TextureViewId(42));
    assert_eq!(first.0.layout, pipeline.texture_bind_group_layout);
}

#[test]
fn the_shared_texture_matches_the_grid_and_starts_black() {
    let game = GameOfLife::new(1280, 720);
    let image = setup_image(&game);
    assert_eq!(image.width, 1280);
    assert_eq!(image.height, 720);
    assert_eq!(image.depth_or_array_layers, 1);
    assert_eq!(
        (image.fill.red, image.fill.green, image.fill.blue, image.fill.alpha),
        (0, 0, 0, 255)
    );
    assert_eq!(image.dimension, TextureDimension::D2);
    assert_eq!(image.format, TextureFormat::Rgba8Unorm);
    assert!(image.copy_dst);
    assert!(image.storage_binding);
    assert!(image.texture_binding);
}

#[test]
fn the_plugin_starts_a_1280_by_720_grid_unpaused() {
    let game = GameOfLifeComputePlugin::initial_config();
    assert_eq!(game.width, 1280);
    assert_eq!(game.height, 720);
    assert!(!game.is_paused);
}

#[test]
fn image_handles_compare_by_their_asset_id() {
    assert_eq!(GameOfLifeImage(3), GameOfLifeImage(3));
    assert_ne!(GameOfLifeImage(3), GameOfLifeImage(4));
}
