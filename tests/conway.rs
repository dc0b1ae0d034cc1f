use demo_plugins::conway::{
    count_living_cells, living_cells_label, readback_layout, ComputeStage, ConwayRenderNode,
    ConwayState, Dispatch, FramePlan, GRID_HEIGHT, GRID_WIDTH,
};

#[test]
fn no_bytes_no_living_cells() {
    assert_eq!(count_living_cells(&[]), 0);
}

#[test]
fn counts_texels_whose_red_channel_is_full() {
    let bytes = [255, 0, 0, 255, 0, 0, 0, 255, 255, 1, 2, 3, 254, 255, 255, 255];
    assert_eq!(count_living_cells(&bytes), 2);
}

#[test]
fn only_the_first_byte_of_a_texel_counts() {
    let bytes = [0, 255, 255, 255, 0, 255, 255, 255];
    assert_eq!(count_living_cells(&bytes), 0);
}

#[test]
fn a_trailing_partial_texel_counts() {
    assert_eq!(count_living_cells(&[255]), 1);
    assert_eq!(count_living_cells(&[0, 0, 0, 255, 255, 7]), 1);
}

#[test]
fn a_full_texture_of_living_cells() {
    let layout = readback_layout();
    let bytes = vec![255u8; layout.buffer_size as usize];
    assert_eq!(count_living_cells(&bytes), (GRID_WIDTH * GRID_HEIGHT) as u64);
}

#[test]
fn label_reports_the_count_in_decimal() {
    assert_eq!(living_cells_label(0), "Living cells: 0");
    assert_eq!(living_cells_label(7), "Living cells: 7");
    assert_eq!(living_cells_label(10), "Living cells: 10");
    assert_eq!(living_cells_label(921600), "Living cells: 921600");
    assert_eq!(living_cells_label(u64::MAX), "Living cells: 18446744073709551615");
}

#[test]
fn readback_covers_the_whole_texture() {
    let layout = readback_layout();
    assert_eq!(GRID_WIDTH, 1280);
    assert_eq!(GRID_HEIGHT, 720);
    assert_eq!(layout.buffer_size, 3_686_400);
    assert_eq!(layout.bytes_per_row, 5120);
    assert_eq!(layout.rows_per_image, 720);
}

#[test]
fn entry_points_name_the_shader_functions() {
    assert_eq!(ComputeStage::Init.entry_point(), "init");
    assert_eq!(ComputeStage::Update.entry_point(), "update");
}

#[test]
fn node_starts_loading_and_waits_for_the_init_pipeline() {
    let node = ConwayRenderNode::default();
    assert_eq!(node.0, ConwayState::Loading);
    assert_eq!(node.awaited_pipeline(), Some(ComputeStage::Init));
    assert_eq!(
        node.run(0),
        FramePlan { set_cells_vertices: None, dispatch: None }
    );
}

#[test]
fn node_stays_while_its_pipeline_compiles() {
    let mut node = ConwayRenderNode::default();
    node.update(false);
    assert_eq!(node.0, ConwayState::Loading);
    node.update(true);
    node.update(false);
    assert_eq!(node.0, ConwayState::Init);
}

#[test]
fn node_goes_through_init_to_update() {
    let mut node = ConwayRenderNode::default();
    node.update(true);
    assert_eq!(node.0, ConwayState::Init);
    assert_eq!(node.awaited_pipeline(), Some(ComputeStage::Update));
    assert_eq!(
        node.run(0).dispatch,
        Some(Dispatch { stage: ComputeStage::Init, workgroups_x: 160, workgroups_y: 90, workgroups_z: 1 })
    );
    node.update(true);
    assert_eq!(node.0, ConwayState::Update);
    assert_eq!(node.awaited_pipeline(), None);
    assert_eq!(
        node.run(0).dispatch,
        Some(Dispatch { stage: ComputeStage::Update, workgroups_x: 160, workgroups_y: 90, workgroups_z: 1 })
    );
    node.update(true);
    node.update(false);
    assert_eq!(node.0, ConwayState::Update);
}

#[test]
fn clicked_cells_are_drawn_in_every_state() {
    let mut node = ConwayRenderNode::default();
    assert_eq!(node.run(3).set_cells_vertices, Some(3));
    node.update(true);
    assert_eq!(node.run(1).set_cells_vertices, Some(1));
    node.update(true);
    assert_eq!(node.run(12).set_cells_vertices, Some(12));
    assert_eq!(node.run(0).set_cells_vertices, None);
}
