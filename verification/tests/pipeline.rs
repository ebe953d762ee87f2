use rendology::basic_obj::{BasicObj, InstancingMode};
use rendology::deferred::{
    BlendMode, Camera, Config, CullMode, DeferredShading, LightPassCmd, Mat4,
};
use rendology::light::{isqrt_u128, point_light_radius, Light, Vec3, LIGHT_UNIT_MAX, MICRO};
use rendology::render_pass::{
    CompositionPassComponent, RenderPassComponent, ScenePassComponent, ShaderCore, TextureFormat,
};
use rendology::DrawError;

fn camera(seed: u32, viewport_size: (u32, u32)) -> Camera {
    let mut entries = [0u32; 16];
    for (i, e) in entries.iter_mut().enumerate() {
        *e = seed.wrapping_mul(31).wrapping_add(i as u32);
    }
    Camera { view: Mat4 { entries }, projection: Mat4 { entries }, viewport_size }
}

fn point_light(color: (i64, i64, i64), attenuation: (i64, i64, i64)) -> Light {
    Light {
        position: Vec3 { x: 0, y: 0, z: 0 },
        color: Vec3 { x: color.0, y: color.1, z: color.2 },
        attenuation: Vec3 { x: attenuation.0, y: attenuation.1, z: attenuation.2 },
        is_main: false,
        radius: 0,
    }
}

fn main_light() -> Light {
    Light {
        position: Vec3 { x: 0, y: MICRO, z: 0 },
        color: Vec3 { x: MICRO, y: MICRO, z: MICRO },
        attenuation: Vec3 { x: MICRO, y: 0, z: 0 },
        is_main: true,
        radius: 0,
    }
}

#[test]
fn default_config_threshold() {
    let config: Config = Default::default();
    assert_eq!(config.light_min_threshold, 20_000);
}

#[test]
fn create_without_shadows_has_two_scene_outputs() {
    let ds = DeferredShading::create(&Default::default(), false, (640, 480))
        .expect("creation of the value-level pipeline cannot fail");
    let outs = ds.output_textures();
    assert_eq!(outs.len(), 2);
    assert_eq!(outs[0].name, "f_world_pos");
    assert_eq!(outs[1].name, "f_world_normal");
    assert_eq!(outs[0].texture.format, TextureFormat::Rgba32F);
}

#[test]
fn create_with_shadows_has_three_scene_outputs() {
    let ds = DeferredShading::create(&Default::default(), true, (640, 480))
        .expect("creation of the value-level pipeline cannot fail");
    let outs = ds.output_textures();
    assert_eq!(outs.len(), 3);
    assert_eq!(outs[2].name, "f_shadow");
    assert_eq!(outs[2].texture.format, TextureFormat::R32F);
    let names = ds.clear_buffers();
    assert_eq!(names, vec!["f_world_pos", "f_world_normal", "f_shadow"]);
}

#[test]
fn resize_then_light_pass_succeeds_with_new_dimensions() {
    let mut ds = DeferredShading::create(&Default::default(), true, (640, 480))
        .expect("creation of the value-level pipeline cannot fail");
    assert!(ds.on_target_resize((1024, 768)).is_ok());
    let lights = vec![main_light(), point_light((MICRO, 0, 0), (MICRO, 100_000, 10_000))];
    let r = ds.light_pass(&camera(1, (1024, 768)), &lights);
    assert!(r.is_ok());
    assert_eq!((ds.position_texture.width, ds.position_texture.height), (1024, 768));
    assert_eq!((ds.normal_texture.width, ds.normal_texture.height), (1024, 768));
    assert_eq!((ds.light_texture.width, ds.light_texture.height), (1024, 768));
    let shadow = ds.shadow_texture.expect("shadows stay enabled across resize");
    assert_eq!((shadow.width, shadow.height), (1024, 768));
    for out in ds.output_textures() {
        assert_eq!((out.texture.width, out.texture.height), (1024, 768));
    }
}

#[test]
fn light_pass_plan_orders_clear_mains_points() {
    let mut ds = DeferredShading::create(&Default::default(), false, (800, 600))
        .expect("creation of the value-level pipeline cannot fail");
    let red_light = point_light((MICRO, 0, 0), (MICRO, 100_000, 10_000));
    let green_light = point_light((0, 2 * MICRO, 0), (MICRO, 0, 10_000));
    let lights = vec![red_light, main_light(), green_light];
    let cmds = ds.light_pass(&camera(3, (800, 600)), &lights).expect("lights are in range");

    assert_eq!(cmds.len(), 3);
    assert!(matches!(cmds[0], LightPassCmd::ClearAccumulation));
    match &cmds[1] {
        LightPassCmd::MainLight { light, viewport_size, blend, cull } => {
            assert!(light.is_main);
            assert_eq!(*viewport_size, (800, 600));
            assert_eq!(*blend, BlendMode::Additive);
            assert_eq!(*cull, CullMode::Back);
        }
        other => panic!("expected the main-light pass, got {:?}", other),
    }
    match &cmds[2] {
        LightPassCmd::PointLights { instance_count, blend, cull, .. } => {
            assert_eq!(*instance_count, 2);
            assert_eq!(*blend, BlendMode::Additive);
            assert_eq!(*cull, CullMode::Front);
        }
        other => panic!("expected the point-light pass, got {:?}", other),
    }

    // the uploaded instances are the two point lights, in order, with radii
    assert_eq!(ds.light_instances.len(), 2);
    assert!(!ds.light_instances[0].is_main);
    assert_eq!(ds.light_instances[0].color, red_light.color);
    assert_eq!(
        ds.light_instances[0].radius,
        point_light_radius(red_light.attenuation, MICRO, 20_000)
    );
    assert_eq!(
        ds.light_instances[1].radius,
        point_light_radius(green_light.attenuation, 2 * MICRO, 20_000)
    );
    assert!(ds.light_instances[0].radius > 0);
}

#[test]
fn main_pass_ignores_view_and_projection() {
    let lights = vec![
        main_light(),
        point_light((MICRO, MICRO, 0), (MICRO, 100_000, 10_000)),
        main_light(),
    ];
    let mut ds1 = DeferredShading::create(&Default::default(), false, (320, 200))
        .expect("creation of the value-level pipeline cannot fail");
    let mut ds2 = DeferredShading::create(&Default::default(), false, (320, 200))
        .expect("creation of the value-level pipeline cannot fail");
    let c1 = camera(17, (320, 200));
    let c2 = camera(99, (320, 200));
    assert_ne!(c1.view.entries, c2.view.entries);
    let cmds1 = ds1.light_pass(&c1, &lights).expect("lights are in range");
    let cmds2 = ds2.light_pass(&c2, &lights).expect("lights are in range");
    assert_eq!(cmds1.len(), cmds2.len());
    for i in 0..cmds1.len() - 1 {
        assert_eq!(cmds1[i], cmds2[i]);
    }
    match (&cmds1[cmds1.len() - 1], &cmds2[cmds2.len() - 1]) {
        (
            LightPassCmd::PointLights { instance_count: n1, .. },
            LightPassCmd::PointLights { instance_count: n2, .. },
        ) => assert_eq!(n1, n2),
        _ => panic!("both plans must end with the point-light pass"),
    }
}

#[test]
fn light_pass_rejects_out_of_range_lights() {
    let mut ds = DeferredShading::create(&Default::default(), false, (640, 480))
        .expect("creation of the value-level pipeline cannot fail");
    let mut bad = point_light((MICRO, 0, 0), (MICRO, 0, 10_000));
    bad.color.x = LIGHT_UNIT_MAX + 1;
    let r = ds.light_pass(&camera(0, (640, 480)), &vec![bad]);
    assert_eq!(r, Err(DrawError::LightOutOfRange));
    assert_eq!(ds.light_instances.len(), 0);
}

#[test]
fn computed_radius_reaches_the_threshold_intensity() {
    // attenuation 1 + 0.1 d + 0.01 d^2, peak 1.0, threshold 0.02
    let att = Vec3 { x: MICRO, y: 100_000, z: 10_000 };
    let r = point_light_radius(att, MICRO, 20_000);
    let rf = r as f64 / 1e6;
    let intensity = 1.0 / (1.0 + 0.1 * rf + 0.01 * rf * rf);
    assert!(
        (intensity - 0.02).abs() <= 1e-4,
        "intensity at the computed radius was {}",
        intensity
    );
}

#[test]
fn degenerate_attenuation_collapses_the_radius() {
    // zero quadratic coefficient
    assert_eq!(point_light_radius(Vec3 { x: MICRO, y: MICRO, z: 0 }, MICRO, 20_000), 0);
    // negative discriminant: the peak never reaches the threshold
    assert_eq!(
        point_light_radius(Vec3 { x: 2 * MICRO, y: 0, z: 10_000 }, MICRO, LIGHT_UNIT_MAX),
        0
    );
}

#[test]
fn integer_square_root_is_exact() {
    assert_eq!(isqrt_u128(0), 0);
    assert_eq!(isqrt_u128(1), 1);
    assert_eq!(isqrt_u128(3), 1);
    assert_eq!(isqrt_u128(4), 2);
    assert_eq!(isqrt_u128(15), 3);
    assert_eq!(isqrt_u128(16), 4);
    assert_eq!(isqrt_u128(1_000_000_000_000), 1_000_000);
    assert_eq!(isqrt_u128(999_999_999_999), 999_999);
}

#[test]
fn shader_transforms_compose_in_order() {
    let ds = DeferredShading::create(&Default::default(), true, (64, 64))
        .expect("creation of the value-level pipeline cannot fail");
    let core = ScenePassComponent::core_transform(&ds, ShaderCore::new());
    assert_eq!(core.declarations, vec!["f_world_pos", "f_world_normal", "f_shadow"]);
    let comp = ds.composition_core_transform(ShaderCore::new());
    assert_eq!(comp.declarations, vec!["light_texture", "normal_texture"]);
    let params = ds.params();
    assert_eq!(params.light_texture, ds.light_texture);
    assert_eq!(params.normal_texture, ds.normal_texture);
}

#[test]
fn programs_match_their_instancing_modes() {
    let ds = DeferredShading::create(&Default::default(), true, (64, 64))
        .expect("creation of the value-level pipeline cannot fail");
    assert_eq!(ds.main_light_screen_quad_program.instancing_mode, InstancingMode::Uniforms);
    assert!(ds.main_light_screen_quad_program.shadowed);
    assert_eq!(ds.light_object_program.instancing_mode, InstancingMode::Vertex);
    assert_eq!(ds.sphere, BasicObj::Sphere);
}
