use rendology::basic_obj::{BasicObj, Instancing, InstancingMode, RenderList, Resources, NUM_TYPES};
use rendology::CreationError;

const ALL_KINDS: [BasicObj; 9] = [
    BasicObj::Triangle,
    BasicObj::Quad,
    BasicObj::Cube,
    BasicObj::Sphere,
    BasicObj::LineX,
    BasicObj::LineY,
    BasicObj::LineZ,
    BasicObj::TessellatedCube,
    BasicObj::TessellatedCylinder,
];

#[test]
fn index_round_trips_for_every_dense_index() {
    for i in 0..NUM_TYPES {
        assert_eq!(BasicObj::from_index(i).index(), i);
    }
}

#[test]
fn kind_round_trips_for_every_kind() {
    for (i, kind) in ALL_KINDS.iter().enumerate() {
        assert_eq!(kind.index(), i);
        assert_eq!(BasicObj::from_index(kind.index()), *kind);
    }
}

#[test]
fn clear_empties_every_sublist() {
    let mut list: RenderList<u32> = RenderList::new();
    list.push(BasicObj::Cube, 7);
    list.push(BasicObj::Cube, 8);
    list.push(BasicObj::Sphere, 9);
    list.push(BasicObj::TessellatedCylinder, 10);
    list.clear();
    for kind in ALL_KINDS.iter() {
        assert_eq!(list.list(*kind).len(), 0);
    }
    // idempotent
    list.clear();
    for kind in ALL_KINDS.iter() {
        assert_eq!(list.list(*kind).len(), 0);
    }
}

#[test]
fn push_appends_in_order_and_leaves_others_alone() {
    let mut list: RenderList<u32> = RenderList::new();
    list.push(BasicObj::Quad, 1);
    list.push(BasicObj::Quad, 2);
    list.push(BasicObj::LineY, 3);
    assert_eq!(list.list(BasicObj::Quad).as_slice(), &[1, 2]);
    assert_eq!(list.list(BasicObj::LineY).as_slice(), &[3]);
    assert_eq!(list.list(BasicObj::Cube).len(), 0);
}

#[test]
fn default_render_list_is_empty() {
    let list: RenderList<u32> = Default::default();
    for kind in ALL_KINDS.iter() {
        assert_eq!(list.list(*kind).len(), 0);
    }
}

#[test]
fn registry_covers_every_kind() {
    let meshes: Vec<u32> = (100..109).collect();
    let resources = Resources::create(meshes).expect("nine meshes cover the kind set");
    for (i, kind) in ALL_KINDS.iter().enumerate() {
        assert_eq!(*resources.mesh(*kind), 100 + i as u32);
    }
}

#[test]
fn registry_rejects_incomplete_mesh_set() {
    let meshes: Vec<u32> = (0..8).collect();
    let r = Resources::create(meshes);
    assert!(matches!(r, Err(CreationError::IncompleteMeshSet)));
    let r = Resources::create((0..10).collect::<Vec<u32>>());
    assert!(matches!(r, Err(CreationError::IncompleteMeshSet)));
}

#[test]
fn render_list_drawable_is_uniform_mode_per_kind() {
    let mut list: RenderList<u32> = RenderList::new();
    list.push(BasicObj::Triangle, 5);
    list.push(BasicObj::Triangle, 6);
    let calls = list.as_drawable();
    assert_eq!(calls.len(), NUM_TYPES);
    for (i, call) in calls.iter().enumerate() {
        assert_eq!(call.mode, InstancingMode::Uniforms);
        assert_eq!(call.kind, BasicObj::from_index(i));
    }
    assert_eq!(calls[0].instances, vec![5, 6]);
    assert_eq!(calls[1].instances.len(), 0);
}

#[test]
fn instancing_update_mirrors_render_list() {
    let mut list: RenderList<u32> = RenderList::new();
    list.push(BasicObj::Cube, 11);
    list.push(BasicObj::Cube, 12);
    list.push(BasicObj::Cube, 13);
    let mut instancing: Instancing<u32> = Instancing::create().expect("creation cannot fail");
    let r = instancing.update(&list);
    assert!(r.is_ok());
    let calls = instancing.as_drawable();
    assert_eq!(calls.len(), NUM_TYPES);
    let cube = BasicObj::Cube.index();
    assert_eq!(calls[cube].instances, vec![11, 12, 13]);
    assert_eq!(calls[cube].mode, InstancingMode::Vertex);
}

#[test]
fn empty_sublist_uploads_to_zero_draw_output() {
    let mut list: RenderList<u32> = RenderList::new();
    list.push(BasicObj::Sphere, 1);
    let mut instancing: Instancing<u32> = Instancing::create().expect("creation cannot fail");
    // first upload something everywhere relevant, then an empty frame
    let r = instancing.update(&list);
    assert!(r.is_ok());
    list.clear();
    let r = instancing.update(&list);
    assert!(r.is_ok());
    let calls = instancing.as_drawable();
    for call in calls.iter() {
        assert_eq!(call.instances.len(), 0);
    }
}
