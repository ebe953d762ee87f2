//! The deferred-shading pipeline: ownership of the G-buffer, shadow and
//! light-accumulation textures, the two light shader programs, the light
//! instancing buffer, and the per-frame light-accumulation algorithm.
//!
//! The pipeline decides; an executor outside the library performs.  Each
//! frame, `light_pass` derives every point light's influence radius,
//! replaces the light instancing contents, and returns the ordered command
//! plan the executor must submit: one clear of the accumulation texture,
//! one full-screen pass per main light, and one bulk-instanced pass drawing
//! every point-light volume.

use vstd::prelude::*;

use crate::basic_obj::{BasicObj, InstancingMode};
use crate::light::{Light, LIGHT_UNIT_MAX};
use crate::render_pass::{
    CompositionPassComponent, OutputTexture, RenderPassComponent, ScenePassComponent, ShaderCore,
    TextureFormat, TextureInfo,
};
use crate::{CreationError, DrawError};

verus! {

/// Pipeline configuration: the minimum visible intensity, in fixed-point
/// steps, at which a point light's influence is cut off.
#[derive(Copy, Clone, PartialEq, Eq, Structural, Debug)]
pub struct Config {
    pub light_min_threshold: i64,
}

impl Config {
    /// The threshold must be positive and within the representable range.
    pub open spec fn wf(self) -> bool {
        0 < self.light_min_threshold <= LIGHT_UNIT_MAX
    }
}

impl Default for Config {
    /// The documented default threshold: 0.02 units, in fixed-point steps.
    fn default() -> (c: Config)
        ensures
            c.light_min_threshold == 20_000,
            c.wf(),
    {
        Config { light_min_threshold: 20_000 }
    }
}

/// A column-major 4x4 matrix, each entry the bit pattern of its 32-bit
/// float value.  The pipeline never computes with the entries; it only
/// carries them to the executor.
#[derive(Copy, Clone, PartialEq, Eq, Debug)]
pub struct Mat4 {
    pub entries: [u32; 16],
}

/// The camera of a frame.  Only the viewport size ever influences the
/// main-light full-screen pass; view and projection reach the point-light
/// volume pass alone.
#[derive(Copy, Clone, PartialEq, Eq, Debug)]
pub struct Camera {
    pub view: Mat4,
    pub projection: Mat4,
    pub viewport_size: (u32, u32),
}

/// How a pass combines a fragment with the target pixel.
#[derive(Copy, Clone, PartialEq, Eq, Structural, Debug)]
pub enum BlendMode {
    /// The fragment replaces the pixel.
    Replace,
    /// Color and alpha are summed, so any number of overlapping lights
    /// accumulate without a light-count cap.
    Additive,
}

/// Which triangle faces a pass discards.
#[derive(Copy, Clone, PartialEq, Eq, Structural, Debug)]
pub enum CullMode {
    /// The usual convention: faces turned away from the camera.
    Back,
    /// Inverted: faces turned towards the camera.  The point-light volume
    /// pass needs this so a sphere is not discarded entirely while the
    /// camera is inside it; the approximation is accepted with its known
    /// secondary trade-off.
    Front,
}

/// A shader program the executor must build, identified by its instancing
/// mode and whether it samples the shadow texture.
#[derive(Copy, Clone, PartialEq, Eq, Structural, Debug)]
pub struct ProgramInfo {
    pub instancing_mode: InstancingMode,
    pub shadowed: bool,
}

/// One step of a frame's light pass, in submission order.
#[derive(Copy, Clone, PartialEq, Debug)]
pub enum LightPassCmd {
    /// Clear the light-accumulation texture to zero color.
    ClearAccumulation,
    /// One full-screen main-light draw in per-instance-uniform mode,
    /// sampling the G-buffer (and the shadow texture when present) and
    /// blending into the accumulation texture.  View and projection are
    /// the identity: only the viewport size reaches the shader.
    MainLight { light: Light, viewport_size: (u32, u32), blend: BlendMode, cull: CullMode },
    /// The single bulk-instanced draw of every point-light volume, the
    /// sphere proxy mesh scaled and positioned per instance record.
    PointLights { camera: Camera, instance_count: usize, blend: BlendMode, cull: CullMode },
}

/// GPU-side storage mirroring one sequence of instance records, resized
/// lazily on upload; contents are fully replaced each update.
pub struct InstanceBuffer<I> {
    records: Vec<I>,
}

impl<I> InstanceBuffer<I> {
    /// The records last uploaded.
    pub closed spec fn contents(self) -> Seq<I> {
        self.records@
    }

    /// An empty buffer.
    pub fn create() -> (r: Result<Self, CreationError>)
        ensures
            match r {
                Ok(b) => b.contents() == Seq::<I>::empty(),
                Err(_) => false,
            },
    {
        Ok(InstanceBuffer { records: Vec::new() })
    }
}

impl<I: Copy> InstanceBuffer<I> {
    /// Replaces the contents with the given records; a zero-length upload
    /// is valid and leaves a buffer that draws nothing.
    pub fn update(&mut self, records: &Vec<I>) -> (r: Result<(), CreationError>)
        ensures
            r is Ok,
            final(self).contents() == records@,
    {
        let mut copy: Vec<I> = Vec::new();
        let mut j: usize = 0;
        while j < records.len()
            invariant
                j <= records@.len(),
                copy@.len() == j,
                forall|t: int| 0 <= t < j ==> copy@[t] == records@[t],
            decreases records@.len() - j,
        {
            copy.push(records[j]);
            j = j + 1;
        }
        proof {
            assert(copy@ =~= records@);
        }
        self.records = copy;
        Ok(())
    }
}

/// The deferred-shading pipeline state: the value-level description of
/// every resource the executor must hold for it.
pub struct DeferredShading {
    pub config: Config,
    /// G-buffer: world position per pixel.
    pub position_texture: TextureInfo,
    /// G-buffer: world normal per pixel.
    pub normal_texture: TextureInfo,
    /// Shadow depth, present exactly when shadows are enabled.
    pub shadow_texture: Option<TextureInfo>,
    /// The light-accumulation target of the light pass.
    pub light_texture: TextureInfo,
    pub main_light_screen_quad_program: ProgramInfo,
    pub light_object_program: ProgramInfo,
    /// The point-light volume proxy mesh kind.
    pub sphere: BasicObj,
    /// The instance records built by the last light pass.
    pub light_instances: Vec<Light>,
    /// The GPU mirror of `light_instances`.
    pub light_instancing: InstanceBuffer<Light>,
}

/// Allocates one resolution-dependent color texture descriptor.
fn create_texture(size: (u32, u32)) -> (t: TextureInfo)
    ensures
        t == (TextureInfo { width: size.0, height: size.1, format: TextureFormat::Rgba32F }),
{
    TextureInfo { width: size.0, height: size.1, format: TextureFormat::Rgba32F }
}

/// Allocates the shadow texture descriptor: a single float channel.
fn create_shadow_texture(size: (u32, u32)) -> (t: TextureInfo)
    ensures
        t == (TextureInfo { width: size.0, height: size.1, format: TextureFormat::R32F }),
{
    TextureInfo { width: size.0, height: size.1, format: TextureFormat::R32F }
}

impl DeferredShading {
    /// The shared size of every resolution-dependent texture.
    pub open spec fn target_size_spec(self) -> (u32, u32) {
        (self.position_texture.width, self.position_texture.height)
    }

    /// How many named textures the scene pass writes: the two G-buffer
    /// textures, plus the shadow texture when present.
    pub open spec fn scene_output_count(self) -> int {
        if self.shadow_texture is Some {
            3
        } else {
            2
        }
    }

    /// Internal consistency: every resolution-dependent texture shares one
    /// size, formats and programs are fixed, and the configuration is
    /// usable.
    pub open spec fn wf(self) -> bool {
        &&& self.config.wf()
        &&& self.position_texture == (TextureInfo {
            width: self.target_size_spec().0,
            height: self.target_size_spec().1,
            format: TextureFormat::Rgba32F,
        })
        &&& self.normal_texture == (TextureInfo {
            width: self.target_size_spec().0,
            height: self.target_size_spec().1,
            format: TextureFormat::Rgba32F,
        })
        &&& self.light_texture == (TextureInfo {
            width: self.target_size_spec().0,
            height: self.target_size_spec().1,
            format: TextureFormat::Rgba32F,
        })
        &&& (self.shadow_texture matches Some(st) ==> st == (TextureInfo {
            width: self.target_size_spec().0,
            height: self.target_size_spec().1,
            format: TextureFormat::R32F,
        }))
        &&& self.main_light_screen_quad_program.instancing_mode == InstancingMode::Uniforms
        &&& self.light_object_program == (ProgramInfo {
            instancing_mode: InstancingMode::Vertex,
            shadowed: false,
        })
        &&& self.sphere == BasicObj::Sphere
    }

    /// Builds the pipeline: the G-buffer and accumulation textures at the
    /// target size, the shadow texture exactly when `have_shadows`, the two
    /// light programs, the sphere proxy mesh, and an empty light
    /// instancing buffer.  No partially-constructed pipeline is ever
    /// observable.
    pub fn create(config: &Config, have_shadows: bool, target_size: (u32, u32)) -> (r: Result<
        DeferredShading,
        CreationError,
    >)
        requires
            config.wf(),
        ensures
            match r {
                Ok(ds) => {
                    &&& ds.wf()
                    &&& ds.config == *config
                    &&& ds.target_size_spec() == target_size
                    &&& (ds.shadow_texture is Some) == have_shadows
                    &&& ds.scene_output_count() == if have_shadows { 3int } else { 2int }
                    &&& ds.main_light_screen_quad_program == (ProgramInfo {
                        instancing_mode: InstancingMode::Uniforms,
                        shadowed: have_shadows,
                    })
                    &&& ds.light_instances@ == Seq::<Light>::empty()
                    &&& ds.light_instancing.contents() == Seq::<Light>::empty()
                },
                Err(_) => false,
            },
    {
        let shadow_texture = if have_shadows {
            Some(create_shadow_texture(target_size))
        } else {
            None
        };
        let light_instancing = match InstanceBuffer::create() {
            Ok(b) => b,
            Err(e) => {
                return Err(e);
            },
        };
        Ok(DeferredShading {
            config: *config,
            position_texture: create_texture(target_size),
            normal_texture: create_texture(target_size),
            shadow_texture,
            light_texture: create_texture(target_size),
            main_light_screen_quad_program: ProgramInfo {
                instancing_mode: InstancingMode::Uniforms,
                shadowed: have_shadows,
            },
            light_object_program: ProgramInfo {
                instancing_mode: InstancingMode::Vertex,
                shadowed: false,
            },
            sphere: BasicObj::Sphere,
            light_instances: Vec::new(),
            light_instancing,
        })
    }

    /// Reallocates every resolution-dependent texture at the new size;
    /// configuration, programs, meshes and instancing contents are left
    /// untouched, and the presence of the shadow texture is preserved.
    pub fn on_target_resize(&mut self, target_size: (u32, u32)) -> (r: Result<(), CreationError>)
        requires
            old(self).wf(),
        ensures
            r is Ok,
            final(self).wf(),
            final(self).target_size_spec() == target_size,
            final(self).config == old(self).config,
            (final(self).shadow_texture is Some) == (old(self).shadow_texture is Some),
            final(self).main_light_screen_quad_program == old(self).main_light_screen_quad_program,
            final(self).light_object_program == old(self).light_object_program,
            final(self).sphere == old(self).sphere,
            final(self).light_instances@ == old(self).light_instances@,
            final(self).light_instancing == old(self).light_instancing,
    {
        self.position_texture = create_texture(target_size);
        self.normal_texture = create_texture(target_size);
        if self.shadow_texture.is_some() {
            self.shadow_texture = Some(create_shadow_texture(target_size));
        }
        self.light_texture = create_texture(target_size);
        Ok(())
    }

    /// Partitions a frame's lights and prepares the point-light instances:
    /// every non-main light, in input order, carrying the influence radius
    /// derived from its attenuation under the configured threshold.  The
    /// instances replace the instancing buffer's contents wholesale, and
    /// the frame's ordered command plan is returned for submission.  A
    /// frame whose lights exceed the fixed-point bounds is rejected before
    /// any state changes.
    pub fn light_pass(&mut self, camera: &Camera, lights: &Vec<Light>) -> (r: Result<
        Vec<LightPassCmd>,
        DrawError,
    >)
        requires
            old(self).wf(),
        ensures
            final(self).wf(),
            final(self).config == old(self).config,
            final(self).position_texture == old(self).position_texture,
            final(self).normal_texture == old(self).normal_texture,
            final(self).shadow_texture == old(self).shadow_texture,
            final(self).light_texture == old(self).light_texture,
            final(self).main_light_screen_quad_program == old(self).main_light_screen_quad_program,
            final(self).light_object_program == old(self).light_object_program,
            final(self).sphere == old(self).sphere,
            match r {
                Ok(cmds) => {
                    &&& forall|j: int| 0 <= j < lights@.len() ==> (#[trigger] lights@[j]).wf()
                    &&& final(self).light_instances@ == point_instances(
                        lights@,
                        old(self).config.light_min_threshold as int,
                    )
                    &&& final(self).light_instancing.contents() == final(self).light_instances@
                    &&& cmds@ == light_pass_plan(
                        lights@,
                        old(self).config.light_min_threshold as int,
                        *camera,
                    )
                },
                Err(e) => {
                    &&& e == DrawError::LightOutOfRange
                    &&& exists|j: int| 0 <= j < lights@.len() && !(#[trigger] lights@[j]).wf()
                    &&& *final(self) == *old(self)
                },
            },
    {
        if !all_lights_wf(lights) {
            return Err(DrawError::LightOutOfRange);
        }
        let threshold = self.config.light_min_threshold;
        let ghost thr = threshold as int;

        // Derive each point light's influence radius, in input order.
        let mut instances: Vec<Light> = Vec::new();
        let mut i: usize = 0;
        while i < lights.len()
            invariant
                i <= lights@.len(),
                forall|j: int| 0 <= j < lights@.len() ==> (#[trigger] lights@[j]).wf(),
                0 < threshold <= LIGHT_UNIT_MAX,
                thr == threshold as int,
                instances@ == point_instances(lights@.take(i as int), thr),
            decreases lights@.len() - i,
        {
            let light = lights[i];
            if !light.is_main {
                instances.push(light.with_computed_radius(threshold));
            }
            proof {
                assert(lights@.take(i as int + 1).drop_last() =~= lights@.take(i as int));
                assert(lights@.take(i as int + 1).last() == lights@[i as int]);
            }
            i = i + 1;
        }
        proof {
            assert(lights@.take(lights@.len() as int) =~= lights@);
        }

        // Upload: the instancing contents are replaced wholesale; its
        // contract rules the error case out.
        let _ = self.light_instancing.update(&instances);
        let count = instances.len();
        self.light_instances = instances;

        // Emit the command plan: clear, one full-screen pass per main
        // light, then the single bulk-instanced point-light pass.
        let mut cmds: Vec<LightPassCmd> = Vec::new();
        cmds.push(LightPassCmd::ClearAccumulation);
        let mut i: usize = 0;
        while i < lights.len()
            invariant
                i <= lights@.len(),
                cmds@ == seq![LightPassCmd::ClearAccumulation] + main_light_cmds(
                    lights@.take(i as int),
                    camera.viewport_size,
                ),
            decreases lights@.len() - i,
        {
            let light = lights[i];
            if light.is_main {
                cmds.push(
                    LightPassCmd::MainLight {
                        light,
                        viewport_size: camera.viewport_size,
                        blend: BlendMode::Additive,
                        cull: CullMode::Back,
                    },
                );
            }
            proof {
                assert(lights@.take(i as int + 1).drop_last() =~= lights@.take(i as int));
                assert(lights@.take(i as int + 1).last() == lights@[i as int]);
                assert(cmds@ =~= seq![LightPassCmd::ClearAccumulation] + main_light_cmds(
                    lights@.take(i as int + 1),
                    camera.viewport_size,
                ));
            }
            i = i + 1;
        }
        cmds.push(
            LightPassCmd::PointLights {
                camera: *camera,
                instance_count: count,
                blend: BlendMode::Additive,
                cull: CullMode::Front,
            },
        );
        proof {
            assert(lights@.take(lights@.len() as int) =~= lights@);
            assert(cmds@ =~= light_pass_plan(lights@, thr, *camera));
        }
        Ok(cmds)
    }

    /// The texture bindings of the composition pass: the accumulated light
    /// and the surface normal.
    pub fn params(&self) -> (p: CompositionPassParams)
        ensures
            p.light_texture == self.light_texture,
            p.normal_texture == self.normal_texture,
    {
        CompositionPassParams {
            light_texture: self.light_texture,
            normal_texture: self.normal_texture,
        }
    }
}

/// Checks that every light of a frame is within the fixed-point bounds.
fn all_lights_wf(lights: &Vec<Light>) -> (ok: bool)
    ensures
        ok == forall|j: int| 0 <= j < lights@.len() ==> (#[trigger] lights@[j]).wf(),
{
    let mut i: usize = 0;
    while i < lights.len()
        invariant
            i <= lights@.len(),
            forall|j: int| 0 <= j < i ==> (#[trigger] lights@[j]).wf(),
        decreases lights@.len() - i,
    {
        if !lights[i].check_wf() {
            assert(!lights@[i as int].wf());
            return false;
        }
        i = i + 1;
    }
    true
}

/// The instance records a light pass uploads: every non-main light of the
/// input, in input order, carrying its derived influence radius.
pub open spec fn point_instances(lights: Seq<Light>, threshold: int) -> Seq<Light>
    decreases lights.len(),
{
    if lights.len() == 0 {
        Seq::empty()
    } else {
        let init = point_instances(lights.drop_last(), threshold);
        if lights.last().is_main {
            init
        } else {
            init.push(lights.last().instance_for(threshold))
        }
    }
}

/// Law: an uploaded instance is never a main light, its radius is the one
/// derived for it, and there are at most as many instances as lights.
pub proof fn lemma_point_instances_shape(lights: Seq<Light>, threshold: int)
    ensures
        point_instances(lights, threshold).len() <= lights.len(),
        forall|j: int|
            0 <= j < point_instances(lights, threshold).len() ==> !(#[trigger] point_instances(
                lights,
                threshold,
            )[j]).is_main,
        forall|j: int|
            0 <= j < point_instances(lights, threshold).len() ==> (#[trigger] point_instances(
                lights,
                threshold,
            )[j]).radius == point_instances(lights, threshold)[j].radius_for(threshold) as i64,
    decreases lights.len(),
{
    if lights.len() > 0 {
        lemma_point_instances_shape(lights.drop_last(), threshold);
    }
}

/// The full-screen main-light commands of a light pass: one per main
/// light, in input order.  Of the camera, only the viewport size reaches
/// them; view and projection are the identity.
pub open spec fn main_light_cmds(lights: Seq<Light>, viewport_size: (u32, u32)) -> Seq<
    LightPassCmd,
>
    decreases lights.len(),
{
    if lights.len() == 0 {
        Seq::empty()
    } else {
        let init = main_light_cmds(lights.drop_last(), viewport_size);
        if lights.last().is_main {
            init.push(
                LightPassCmd::MainLight {
                    light: lights.last(),
                    viewport_size,
                    blend: BlendMode::Additive,
                    cull: CullMode::Back,
                },
            )
        } else {
            init
        }
    }
}

/// The ordered command plan of one light pass: clear the accumulation
/// texture, draw each main light full screen, then draw every point-light
/// volume in one bulk-instanced, front-culled pass; both kinds of draw
/// blend additively.
pub open spec fn light_pass_plan(lights: Seq<Light>, threshold: int, camera: Camera) -> Seq<
    LightPassCmd,
> {
    seq![LightPassCmd::ClearAccumulation] + main_light_cmds(lights, camera.viewport_size)
        + seq![
        LightPassCmd::PointLights {
            camera,
            instance_count: point_instances(lights, threshold).len() as usize,
            blend: BlendMode::Additive,
            cull: CullMode::Front,
        },
    ]
}

/// Law: every main-light command is a full-screen pass that blends
/// additively under the usual culling, carries the plan's viewport size,
/// and draws a main light of the input; there is one per main light.
pub proof fn lemma_main_cmds_shape(lights: Seq<Light>, viewport_size: (u32, u32))
    ensures
        main_light_cmds(lights, viewport_size).len() <= lights.len(),
        forall|j: int|
            0 <= j < main_light_cmds(lights, viewport_size).len() ==> {
                &&& #[trigger] main_light_cmds(lights, viewport_size)[j] matches
                    LightPassCmd::MainLight {
                        light,
                        viewport_size: vp,
                        blend: BlendMode::Additive,
                        cull: CullMode::Back,
                    }
                &&& vp == viewport_size
                &&& light.is_main
            },
    decreases lights.len(),
{
    if lights.len() > 0 {
        lemma_main_cmds_shape(lights.drop_last(), viewport_size);
    }
}

/// Law: the main-light full-screen passes do not depend on the camera's
/// view or projection.  For two cameras sharing a viewport size, the two
/// light-pass plans have the same length and agree on every command
/// except the last one, the point-light volume draw, which carries the
/// camera onward to the executor.
pub proof fn lemma_main_pass_camera_independent(
    lights: Seq<Light>,
    threshold: int,
    c1: Camera,
    c2: Camera,
)
    requires
        c1.viewport_size == c2.viewport_size,
    ensures
        main_light_cmds(lights, c1.viewport_size) == main_light_cmds(lights, c2.viewport_size),
        light_pass_plan(lights, threshold, c1).len() == light_pass_plan(
            lights,
            threshold,
            c2,
        ).len(),
        forall|i: int|
            0 <= i < light_pass_plan(lights, threshold, c1).len() - 1
                ==> light_pass_plan(lights, threshold, c1)[i] == light_pass_plan(
                lights,
                threshold,
                c2,
            )[i],
{
}

/// Law: every draw command of a light pass blends additively, so any
/// number of overlapping lights sum in the accumulation texture; and the
/// point-light volume pass culls front faces, so a volume survives the
/// camera standing inside it.
pub proof fn lemma_light_pass_additive(
    lights: Seq<Light>,
    threshold: int,
    camera: Camera,
    i: int,
)
    requires
        0 <= i < light_pass_plan(lights, threshold, camera).len(),
    ensures
        match light_pass_plan(lights, threshold, camera)[i] {
            LightPassCmd::ClearAccumulation => true,
            LightPassCmd::MainLight { blend, .. } => blend == BlendMode::Additive,
            LightPassCmd::PointLights { blend, cull, .. } => blend == BlendMode::Additive
                && cull == CullMode::Front,
        },
{
    lemma_main_cmds_shape(lights, camera.viewport_size);
}

/// Parameter values the pipeline hands to the externally-defined
/// composition shader: only texture handles, never the blending formula.
#[derive(Copy, Clone, PartialEq, Eq, Structural, Debug)]
pub struct CompositionPassParams {
    pub light_texture: TextureInfo,
    pub normal_texture: TextureInfo,
}

impl RenderPassComponent for DeferredShading {
    /// The scene-pass output textures are cleared to the zero background
    /// once per frame.
    fn clear_buffers(&self) -> (names: Vec<&'static str>)
        ensures
            names@.len() == self.scene_output_count(),
            names@[0]@ == "f_world_pos"@,
            names@[1]@ == "f_world_normal"@,
            self.shadow_texture is Some ==> names@[2]@ == "f_shadow"@,
    {
        let mut names: Vec<&'static str> = Vec::new();
        names.push("f_world_pos");
        names.push("f_world_normal");
        if self.shadow_texture.is_some() {
            names.push("f_shadow");
        }
        names
    }
}

impl ScenePassComponent for DeferredShading {
    /// Appends this feature's scene outputs to the shared shader
    /// definition, leaving earlier contributions in place.
    fn core_transform(&self, core: ShaderCore) -> (r: ShaderCore)
        ensures
            r.declarations@.len() == core.declarations@.len() + self.scene_output_count(),
            forall|i: int|
                0 <= i < core.declarations@.len() ==> r.declarations@[i] == core.declarations@[i],
            r.declarations@[core.declarations@.len() as int]@ == "f_world_pos"@,
            r.declarations@[core.declarations@.len() as int + 1]@ == "f_world_normal"@,
            self.shadow_texture is Some
                ==> r.declarations@[core.declarations@.len() as int + 2]@ == "f_shadow"@,
    {
        let mut r = core;
        r.declarations.push("f_world_pos");
        r.declarations.push("f_world_normal");
        if self.shadow_texture.is_some() {
            r.declarations.push("f_shadow");
        }
        r
    }

    /// The named textures written during the scene pass: exactly the two
    /// G-buffer textures, plus the shadow texture when shadows are enabled.
    fn output_textures(&self) -> (outs: Vec<OutputTexture>)
        ensures
            outs@.len() == self.scene_output_count(),
            outs@[0].name@ == "f_world_pos"@ && outs@[0].texture == self.position_texture,
            outs@[1].name@ == "f_world_normal"@ && outs@[1].texture == self.normal_texture,
            self.shadow_texture matches Some(st)
                ==> outs@[2].name@ == "f_shadow"@ && outs@[2].texture == st,
    {
        let mut outs: Vec<OutputTexture> = Vec::new();
        outs.push(OutputTexture { name: "f_world_pos", texture: self.position_texture });
        outs.push(OutputTexture { name: "f_world_normal", texture: self.normal_texture });
        match &self.shadow_texture {
            Some(st) => {
                outs.push(OutputTexture { name: "f_shadow", texture: *st });
            },
            None => {},
        }
        outs
    }
}

impl CompositionPassComponent for DeferredShading {
    /// Appends the declarations the composition shader must sample: the
    /// accumulated light and the surface normal.
    fn composition_core_transform(&self, core: ShaderCore) -> (r: ShaderCore)
        ensures
            r.declarations@.len() == core.declarations@.len() + 2,
            forall|i: int|
                0 <= i < core.declarations@.len() ==> r.declarations@[i] == core.declarations@[i],
            r.declarations@[core.declarations@.len() as int]@ == "light_texture"@,
            r.declarations@[core.declarations@.len() as int + 1]@ == "normal_texture"@,
    {
        let mut r = core;
        r.declarations.push("light_texture");
        r.declarations.push("normal_texture");
        r
    }
}

} // verus!
