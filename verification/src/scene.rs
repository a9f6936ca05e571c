//! The scene that the editor opens with: three ramp textures, each rendered
//! by a camera of its own into a square target, and one sprite per texture
//! to show them side by side.

use crate::scalar::{Scalar, Vec3, Vec4, HALF_BITS, NEG_512_BITS, ONE_BITS, POS_512_BITS, ZERO_BITS};
use vstd::prelude::*;

verus! {

/// Number of ramp textures in the opening scene.
pub const NODE_COUNT: usize = 3;

/// Edge of every render target, in texels.
pub const TARGET_EDGE: u32 = 512;

/// How many dimensions an image has.
#[derive(Clone, Copy, Debug, PartialEq, Eq, Structural)]
pub enum TextureDimension {
    D1,
    D2,
    D3,
}

/// How the texels of a render target are laid out: four channels of eight
/// bits, read either as they are or as sRGB.
#[derive(Clone, Copy, Debug, PartialEq, Eq, Structural)]
pub enum TextureFormat {
    Rgba8Unorm,
    Rgba8UnormSrgb,
}

/// What an image may be used for.
#[derive(Clone, Copy, Debug, PartialEq, Eq, Structural)]
pub struct TextureUsages {
    pub copy_src: bool,
    pub copy_dst: bool,
    pub texture_binding: bool,
    pub storage_binding: bool,
    pub render_attachment: bool,
}

/// What a camera does with its result once it has rendered.
#[derive(Clone, Copy, Debug, PartialEq, Eq, Structural)]
pub enum CameraOutputMode {
    /// Writes it to the camera's target.
    Write,
    /// Leaves the target as the render graph filled it.
    Skip,
}

/// The image a texture node renders into.
#[derive(Clone, Copy, Debug, PartialEq, Eq, Structural)]
pub struct RenderTarget {
    pub width: u32,
    pub height: u32,
    pub depth_or_array_layers: u32,
    pub dimension: TextureDimension,
    pub format: TextureFormat,
    pub mip_level_count: u32,
    pub sample_count: u32,
    pub usage: TextureUsages,
}

/// The target of every node of the opening scene: one square layer in
/// sRGB, single-sampled and without further mip levels, that a camera can
/// render into, a shader can sample and the processor can fill.
pub open spec fn opening_target() -> RenderTarget {
    RenderTarget {
        width: TARGET_EDGE,
        height: TARGET_EDGE,
        depth_or_array_layers: 1,
        dimension: TextureDimension::D2,
        format: TextureFormat::Rgba8UnormSrgb,
        mip_level_count: 1,
        sample_count: 1,
        usage: TextureUsages {
            copy_src: false,
            copy_dst: true,
            texture_binding: true,
            storage_binding: false,
            render_attachment: true,
        },
    }
}

/// The uniform block that the ramp shader reads: two colours and the way
/// to blend from one to the other.
#[derive(Clone, Copy, Debug, PartialEq, Eq, Structural)]
pub struct TextureRampSettings {
    pub color_a: Vec4,
    pub color_b: Vec4,
    pub mode: u32,
}

/// The inputs of a texture node. A connection names a node of the scene by
/// its position.
#[derive(Clone, Debug)]
pub struct TextureNodeInputs {
    pub count: usize,
    pub connections: Vec<usize>,
}

/// The outputs of a texture node. A connection names a node of the scene by
/// its position.
#[derive(Clone, Debug)]
pub struct TextureNodeOutputs {
    pub count: usize,
    pub connections: Vec<usize>,
}

/// One texture node of the opening scene with the camera that renders it.
#[derive(Clone, Debug)]
pub struct TextureNodeSetup {
    pub target: RenderTarget,
    /// Place of the node's camera in the order of rendering.
    pub order: isize,
    pub output_mode: CameraOutputMode,
    pub node_type: String,
    pub inputs: TextureNodeInputs,
    pub outputs: TextureNodeOutputs,
    pub settings: TextureRampSettings,
}

/// A sprite that shows the texture of one node.
#[derive(Clone, Copy, Debug, PartialEq, Eq, Structural)]
pub struct SpriteSetup {
    /// Position of the node in [`SceneSetup::nodes`].
    pub node: usize,
    pub translation: Vec3,
}

/// Everything the opening scene holds, besides the camera that looks at the
/// sprites.
#[derive(Clone, Debug)]
pub struct SceneSetup {
    pub nodes: Vec<TextureNodeSetup>,
    pub sprites: Vec<SpriteSetup>,
}

/// The four numbers with the given bit patterns.
pub open spec fn vec4_of(x: u32, y: u32, z: u32, w: u32) -> Vec4 {
    Vec4 {
        x: Scalar { bits: x },
        y: Scalar { bits: y },
        z: Scalar { bits: z },
        w: Scalar { bits: w },
    }
}

/// The ramp of the node at `index`. Every ramp starts at opaque red. The
/// first ends at blue `(0, 0, 1)`, the second at `(0, 0.5, 1)`, the third at
/// `(1, 0.5, 1)`, and the blend mode is the node's position.
pub open spec fn ramp_settings_at(index: int) -> TextureRampSettings {
    TextureRampSettings {
        color_a: vec4_of(ONE_BITS, ZERO_BITS, ZERO_BITS, ONE_BITS),
        color_b: vec4_of(
            if index == 2 { ONE_BITS } else { ZERO_BITS },
            if index == 0 { ZERO_BITS } else { HALF_BITS },
            ONE_BITS,
            ONE_BITS,
        ),
        mode: index as u32,
    }
}

/// Where the sprite of the node at `index` stands: the first a target's
/// width to the left of the origin, the second as far to the right, the
/// third on the origin.
pub open spec fn sprite_translation_at(index: int) -> Vec3 {
    Vec3 {
        x: Scalar {
            bits: if index == 0 {
                NEG_512_BITS
            } else if index == 1 {
                POS_512_BITS
            } else {
                ZERO_BITS
            },
        },
        y: Scalar { bits: ZERO_BITS },
        z: Scalar { bits: ZERO_BITS },
    }
}

/// Whether `node` is the node that the opening scene has at `index`: a ramp
/// without connections whose camera renders at place `index + 1` and leaves
/// the target as the ramp's render graph filled it.
pub open spec fn is_node_at(node: TextureNodeSetup, index: int) -> bool {
    &&& node.target == opening_target()
    &&& node.order == index + 1
    &&& node.output_mode == CameraOutputMode::Skip
    &&& node.node_type@ == "texture_ramp"@
    &&& node.inputs.count == 0
    &&& node.inputs.connections@.len() == 0
    &&& node.outputs.count == 0
    &&& node.outputs.connections@.len() == 0
    &&& node.settings == ramp_settings_at(index)
}

/// Whether `scene` is the opening scene.
pub open spec fn is_opening_scene(scene: SceneSetup) -> bool {
    &&& scene.nodes@.len() == NODE_COUNT
    &&& scene.sprites@.len() == NODE_COUNT
    &&& forall|i: int| 0 <= i < NODE_COUNT ==> is_node_at(#[trigger] scene.nodes@[i], i)
    &&& forall|i: int|
        0 <= i < NODE_COUNT ==> #[trigger] scene.sprites@[i] == (SpriteSetup {
            node: i as usize,
            translation: sprite_translation_at(i),
        })
}

/// A ramp node without connections that renders at place `order` and blends
/// from opaque red to `color_b`.
fn ramp_node(order: isize, color_b: Vec4, mode: u32) -> (node: TextureNodeSetup)
    ensures
        node.target == opening_target(),
        node.order == order,
        node.output_mode == CameraOutputMode::Skip,
        node.node_type@ == "texture_ramp"@,
        node.inputs.count == 0,
        node.inputs.connections@.len() == 0,
        node.outputs.count == 0,
        node.outputs.connections@.len() == 0,
        node.settings == (TextureRampSettings {
            color_a: vec4_of(ONE_BITS, ZERO_BITS, ZERO_BITS, ONE_BITS),
            color_b,
            mode,
        }),
{
    let zero = Scalar { bits: ZERO_BITS };
    let one = Scalar { bits: ONE_BITS };
    TextureNodeSetup {
        target: RenderTarget {
            width: TARGET_EDGE,
            height: TARGET_EDGE,
            depth_or_array_layers: 1,
            dimension: TextureDimension::D2,
            format: TextureFormat::Rgba8UnormSrgb,
            mip_level_count: 1,
            sample_count: 1,
            usage: TextureUsages {
                copy_src: false,
                copy_dst: true,
                texture_binding: true,
                storage_binding: false,
                render_attachment: true,
            },
        },
        order,
        output_mode: CameraOutputMode::Skip,
        node_type: "texture_ramp".to_owned(),
        inputs: TextureNodeInputs { count: 0, connections: Vec::new() },
        outputs: TextureNodeOutputs { count: 0, connections: Vec::new() },
        settings: TextureRampSettings { color_a: Vec4::new(one, zero, zero, one), color_b, mode },
    }
}

/// The sprite of the node at `node`, moved along the x axis to the number
/// with the bit pattern `x`.
fn sprite_at(node: usize, x: u32) -> (sprite: SpriteSetup)
    ensures
        sprite.node == node,
        sprite.translation == (Vec3 {
            x: Scalar { bits: x },
            y: Scalar { bits: ZERO_BITS },
            z: Scalar { bits: ZERO_BITS },
        }),
{
    let zero = Scalar { bits: ZERO_BITS };
    SpriteSetup { node, translation: Vec3::new(Scalar { bits: x }, zero, zero) }
}

/// Describes the opening scene.
pub fn setup() -> (scene: SceneSetup)
    ensures
        is_opening_scene(scene),
{
    let zero = Scalar { bits: ZERO_BITS };
    let half = Scalar { bits: HALF_BITS };
    let one = Scalar { bits: ONE_BITS };

    let mut nodes: Vec<TextureNodeSetup> = Vec::new();
    nodes.push(ramp_node(1, Vec4::new(zero, zero, one, one), 0));
    nodes.push(ramp_node(2, Vec4::new(zero, half, one, one), 1));
    nodes.push(ramp_node(3, Vec4::new(one, half, one, one), 2));

    let mut sprites: Vec<SpriteSetup> = Vec::new();
    sprites.push(sprite_at(0, NEG_512_BITS));
    sprites.push(sprite_at(1, POS_512_BITS));
    sprites.push(sprite_at(2, ZERO_BITS));

    SceneSetup { nodes, sprites }
}

} // verus!
