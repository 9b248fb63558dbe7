//! Plugin-level state: the simulation configuration, the handle to the
//! shared texture, and the startup decisions the plugin makes on its own —
//! the fixed grid size and how the shared texture is created. Registering
//! systems, mirroring resources into the render context once per frame, and
//! inserting the dispatch node into the frame graph are engine work and stay
//! with the engine glue.

use vstd::prelude::*;

use crate::pipeline::{TextureDimension, TextureFormat};

verus! {

/// Simulation configuration: grid dimensions in pixels and the pause flag.
/// Created once at startup with fixed dimensions; the pause flag is the only
/// field input handling mutates afterwards.
#[derive(Clone, Copy, Debug, PartialEq, Eq, Structural)]
pub struct GameOfLife {
    pub width: u32,
    pub height: u32,
    pub is_paused: bool,
}

impl GameOfLife {
    /// A configuration starts unpaused, with the given dimensions.
    pub fn new(width: u32, height: u32) -> (game: GameOfLife)
        ensures
            game.width == width,
            game.height == height,
            !game.is_paused,
    {
        GameOfLife { width, height, is_paused: false }
    }
}

/// Handle to the shared storage texture, by the id the asset system assigned
/// to it. The texture is never reallocated after creation, so the id is
/// fixed for the lifetime of the run.
#[derive(Clone, Copy, Debug, PartialEq, Eq, Structural)]
pub struct GameOfLifeImage(pub u64);

/// One RGBA pixel, as written into the texture's initial fill.
#[derive(Clone, Copy, Debug, PartialEq, Eq, Structural)]
pub struct Rgba {
    pub red: u8,
    pub green: u8,
    pub blue: u8,
    pub alpha: u8,
}

/// How the shared texture is created at startup: its extent, the uniform
/// fill it starts with, its format and dimensionality, and the access the
/// compute kernels and the renderer need.
#[derive(Clone, Copy, Debug, PartialEq, Eq, Structural)]
pub struct ImageSetup {
    pub width: u32,
    pub height: u32,
    pub depth_or_array_layers: u32,
    pub fill: Rgba,
    pub dimension: TextureDimension,
    pub format: TextureFormat,
    pub copy_dst: bool,
    pub storage_binding: bool,
    pub texture_binding: bool,
}

/// Startup: the shared texture matches the configured grid exactly, starts
/// as opaque black, and is marked for copy, read-write storage access by the
/// compute kernels, and sampling by the on-screen quad. The quad itself is
/// sized to the same width and height.
pub fn setup_image(game: &GameOfLife) -> (image: ImageSetup)
    ensures
        image.width == game.width,
        image.height == game.height,
        image.depth_or_array_layers == 1,
        image.fill == (Rgba { red: 0, green: 0, blue: 0, alpha: 255 }),
        image.dimension == TextureDimension::D2,
        image.format == TextureFormat::Rgba8Unorm,
        image.copy_dst,
        image.storage_binding,
        image.texture_binding,
{
    ImageSetup {
        width: game.width,
        height: game.height,
        depth_or_array_layers: 1,
        fill: Rgba { red: 0, green: 0, blue: 0, alpha: 255 },
        dimension: TextureDimension::D2,
        format: TextureFormat::Rgba8Unorm,
        copy_dst: true,
        storage_binding: true,
        texture_binding: true,
    }
}

/// The plugin that wires the simulation into the engine. The one decision it
/// takes on its own — the grid size a run starts with — is stated here.
pub struct GameOfLifeComputePlugin;

impl GameOfLifeComputePlugin {
    /// The configuration the plugin inserts at startup: a 1280 by 720 grid,
    /// unpaused. Both dimensions are multiples of the workgroup size, so
    /// dispatch counts cover the grid exactly.
    pub fn initial_config() -> (game: GameOfLife)
        ensures
            game.width == 1280,
            game.height == 720,
            !game.is_paused,
    {
        GameOfLife::new(1280, 720)
    }
}

} // verus!
