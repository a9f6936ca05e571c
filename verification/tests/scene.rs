use texture_ops::scalar::{Vec3, Vec4};
use texture_ops::scene::{
    setup, CameraOutputMode, TextureDimension, TextureFormat, TextureUsages, NODE_COUNT,
    TARGET_EDGE,
};

fn four(v: Vec4) -> [f32; 4] {
    [
        f32::from_bits(v.x.to_bits()),
        f32::from_bits(v.y.to_bits()),
        f32::from_bits(v.z.to_bits()),
        f32::from_bits(v.w.to_bits()),
    ]
}

fn three(v: Vec3) -> [f32; 3] {
    [f32::from_bits(v.x.to_bits()), f32::from_bits(v.y.to_bits()), f32::from_bits(v.z.to_bits())]
}

#[test]
fn scene_has_three_nodes_and_three_sprites() {
    let scene = setup();
    assert_eq!(NODE_COUNT, 3);
    assert_eq!(scene.nodes.len(), 3);
    assert_eq!(scene.sprites.len(), 3);
}

#[test]
fn every_node_is_an_unconnected_ramp_on_a_square_target() {
    let scene = setup();
    assert_eq!(TARGET_EDGE, 512);
    for node in &scene.nodes {
        assert_eq!(node.target.width, 512);
        assert_eq!(node.target.height, 512);
        assert_eq!(node.target.depth_or_array_layers, 1);
        assert_eq!(node.target.dimension, TextureDimension::D2);
        assert_eq!(node.target.format, TextureFormat::Rgba8UnormSrgb);
        assert_eq!(node.target.mip_level_count, 1);
        assert_eq!(node.target.sample_count, 1);
        assert_eq!(
            node.target.usage,
            TextureUsages {
                copy_src: false,
                copy_dst: true,
                texture_binding: true,
                storage_binding: false,
                render_attachment: true,
            }
        );
        assert_eq!(node.output_mode, CameraOutputMode::Skip);
        assert_eq!(node.node_type, "texture_ramp");
        assert_eq!(node.inputs.count, 0);
        assert!(node.inputs.connections.is_empty());
        assert_eq!(node.outputs.count, 0);
        assert!(node.outputs.connections.is_empty());
        assert_eq!(four(node.settings.color_a), [1.0, 0.0, 0.0, 1.0]);
    }
}

#[test]
fn nodes_render_in_the_order_they_are_listed() {
    let scene = setup();
    let orders: Vec<isize> = scene.nodes.iter().map(|n| n.order).collect();
    assert_eq!(orders, vec![1, 2, 3]);
    let modes: Vec<u32> = scene.nodes.iter().map(|n| n.settings.mode).collect();
    assert_eq!(modes, vec![0, 1, 2]);
}

#[test]
fn ramps_end_in_their_own_colours() {
    let scene = setup();
    assert_eq!(four(scene.nodes[0].settings.color_b), [0.0, 0.0, 1.0, 1.0]);
    assert_eq!(four(scene.nodes[1].settings.color_b), [0.0, 0.5, 1.0, 1.0]);
    assert_eq!(four(scene.nodes[2].settings.color_b), [1.0, 0.5, 1.0, 1.0]);
}

#[test]
fn sprites_stand_left_right_and_centre() {
    let scene = setup();
    let nodes: Vec<usize> = scene.sprites.iter().map(|s| s.node).collect();
    assert_eq!(nodes, vec![0, 1, 2]);
    assert_eq!(three(scene.sprites[0].translation), [-512.0, 0.0, 0.0]);
    assert_eq!(three(scene.sprites[1].translation), [512.0, 0.0, 0.0]);
    assert_eq!(three(scene.sprites[2].translation), [0.0, 0.0, 0.0]);
}
