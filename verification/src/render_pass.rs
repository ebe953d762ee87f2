//! Render-pass composition: capability contracts that let independent
//! rendering features share one multi-output scene pass and one full-screen
//! composition pass without a common base type.  Each feature contributes
//! shader declarations by transforming the in-progress shader definition,
//! and names the textures it writes; a pipeline driver outside the library
//! sequences the passes and combines the contributions in declaration
//! order.

use vstd::prelude::*;

verus! {

/// Pixel format of a pipeline-owned texture, as the executor must allocate
/// it: four 32-bit float channels for color-like data, one for depth-like
/// data.
#[derive(Copy, Clone, PartialEq, Eq, Structural, Debug)]
pub enum TextureFormat {
    Rgba32F,
    R32F,
}

/// A resolution-dependent texture owned by a rendering feature.  The
/// library tracks what the executor must hold; the executor owns the
/// device memory that realises it.
#[derive(Copy, Clone, PartialEq, Eq, Structural, Debug)]
pub struct TextureInfo {
    pub width: u32,
    pub height: u32,
    pub format: TextureFormat,
}

/// A named texture a feature writes during the scene pass.
#[derive(Copy, Clone, Debug)]
pub struct OutputTexture {
    pub name: &'static str,
    pub texture: TextureInfo,
}

/// The in-progress definition of a shared shader program: the named
/// declarations (outputs or sampled inputs) contributed so far, in
/// declaration order.
#[derive(Clone, Debug)]
pub struct ShaderCore {
    pub declarations: Vec<&'static str>,
}

impl ShaderCore {
    /// A shader definition with no contributions yet.
    pub fn new() -> (core: ShaderCore)
        ensures
            core.declarations@ == Seq::<&'static str>::empty(),
    {
        ShaderCore { declarations: Vec::new() }
    }
}

/// A feature that owns output textures which must be cleared to the zero
/// background once per frame, before any pass writes to them.
pub trait RenderPassComponent {
    /// The names of the textures this feature clears.
    fn clear_buffers(&self) -> Vec<&'static str>;
}

/// A feature that contributes to the shared multi-output scene pass.
pub trait ScenePassComponent {
    /// Augments the scene shader definition with this feature's
    /// declarations; contributions compose functionally in a fixed order.
    fn core_transform(&self, core: ShaderCore) -> ShaderCore;

    /// The named textures this feature writes during the scene pass.
    fn output_textures(&self) -> Vec<OutputTexture>;
}

/// A feature that contributes to the final full-screen composition pass.
pub trait CompositionPassComponent {
    /// Augments the composition shader definition with the declarations
    /// this feature wants sampled.
    fn composition_core_transform(&self, core: ShaderCore) -> ShaderCore;
}

} // verus!
