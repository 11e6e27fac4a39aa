use papercut::mesh::{Mesh, MAX_VERTICES};
use papercut::scene::{BufferCapacity, CapacityExceeded};
use papercut::Scene;

/// A local vertex: a position and a shade.
type Local = (i32, i32, u8);

/// A vertex of the frame: a position and a shade.
type World = ([i64; 2], u8);

fn shift(dx: i64, dy: i64) -> impl Fn(&Local) -> World {
    move |v: &Local| ([v.0 as i64 + dx, v.1 as i64 + dy], v.2)
}

fn quad(size: i32, shade: u8) -> Mesh<Local> {
    let vertices = vec![(0, 0, shade), (size, 0, shade), (size, size, shade), (0, size, shade)];
    Mesh::new(vertices, vec![0, 1, 2, 0, 2, 3]).unwrap()
}

fn points(count: usize) -> Mesh<Local> {
    Mesh::new(vec![(0, 0, 0); count], Vec::new()).unwrap()
}

#[test]
fn new_scene_is_empty() {
    let scene: Scene<World> = Scene::new();
    assert!(scene.vertices().is_empty());
    assert!(scene.indices().is_empty());
    let scene: Scene<World> = Scene::default();
    assert!(scene.vertices().is_empty());
    assert!(scene.indices().is_empty());
}

#[test]
fn indices_of_the_second_shape_are_moved_up_by_the_vertices_of_the_first() {
    let first = Mesh::new(vec![(0, 0, 1), (1, 0, 1), (1, 1, 1)], vec![0, 1, 2, 1]).unwrap();
    let second = quad(2, 2);
    let mut scene: Scene<World> = Scene::new();
    assert_eq!(scene.draw(&first, shift(0, 0)), Ok(()));
    assert_eq!(scene.draw(&second, shift(0, 0)), Ok(()));
    assert_eq!(scene.indices(), &[0, 1, 2, 1, 3, 4, 5, 3, 5, 6]);
    assert_eq!(scene.vertices().len(), 7);
}

#[test]
fn vertices_go_through_the_transform_in_draw_order() {
    let mut scene: Scene<World> = Scene::new();
    scene.draw(&quad(10, 7), shift(100, 200)).unwrap();
    scene.draw(&quad(1, 9), shift(-5, 5)).unwrap();
    assert_eq!(
        scene.vertices(),
        &[
            ([100, 200], 7),
            ([110, 200], 7),
            ([110, 210], 7),
            ([100, 210], 7),
            ([-5, 5], 9),
            ([-4, 5], 9),
            ([-4, 6], 9),
            ([-5, 6], 9),
        ]
    );
    assert_eq!(scene.indices(), &[0, 1, 2, 0, 2, 3, 4, 5, 6, 4, 6, 7]);
}

#[test]
fn every_corner_still_names_the_same_vertex() {
    let shape = Mesh::new(vec![(3, 4, 0), (5, 6, 1), (7, 8, 2)], vec![2, 0, 1, 1, 1, 2]).unwrap();
    let mut scene: Scene<World> = Scene::new();
    scene.draw(&quad(1, 0), shift(0, 0)).unwrap();
    let before = scene.indices().len();
    scene.draw(&shape, shift(10, 20)).unwrap();
    for (k, local) in shape.indices().iter().enumerate() {
        let corner = scene.vertices()[scene.indices()[before + k] as usize];
        assert_eq!(corner, shift(10, 20)(&shape.vertices()[*local as usize]));
    }
}

#[test]
fn drawing_an_empty_mesh_changes_nothing() {
    let mut scene: Scene<World> = Scene::new();
    scene.draw(&quad(1, 0), shift(0, 0)).unwrap();
    assert_eq!(scene.draw(&Mesh::empty(), shift(1, 1)), Ok(()));
    assert_eq!(scene.vertices().len(), 4);
    assert_eq!(scene.indices(), &[0, 1, 2, 0, 2, 3]);
}

#[test]
fn frame_takes_as_many_vertices_as_an_index_can_count() {
    assert_eq!(MAX_VERTICES, 65535);
    let mut scene: Scene<World> = Scene::new();
    assert_eq!(scene.draw(&points(65531), shift(0, 0)), Ok(()));
    assert_eq!(scene.draw(&quad(1, 0), shift(0, 0)), Ok(()));
    assert_eq!(scene.vertices().len(), 65535);
    assert_eq!(scene.indices(), &[65531, 65532, 65533, 65531, 65533, 65534]);
}

#[test]
fn one_vertex_too_many_is_refused_and_leaves_the_frame_alone() {
    let mut scene: Scene<World> = Scene::new();
    scene.draw(&points(65532), shift(0, 0)).unwrap();
    assert_eq!(scene.draw(&quad(1, 0), shift(0, 0)), Err(CapacityExceeded));
    assert_eq!(scene.vertices().len(), 65532);
    assert!(scene.indices().is_empty());
    // There is still room for a smaller shape.
    let triangle = Mesh::new(vec![(0, 0, 0); 3], vec![0, 1, 2]).unwrap();
    assert_eq!(scene.draw(&triangle, shift(0, 0)), Ok(()));
    assert_eq!(scene.indices(), &[65532, 65533, 65534]);
    assert_eq!(scene.draw(&points(1), shift(0, 0)), Err(CapacityExceeded));
}

#[test]
fn mesh_too_large_for_any_frame_is_refused() {
    let mut scene: Scene<World> = Scene::new();
    assert_eq!(scene.draw(&points(65536), shift(0, 0)), Err(CapacityExceeded));
    assert!(scene.vertices().is_empty());
}

#[test]
fn mesh_keeps_its_buffers() {
    let mesh = quad(3, 1);
    assert_eq!(mesh.vertices(), &[(0, 0, 1), (3, 0, 1), (3, 3, 1), (0, 3, 1)]);
    assert_eq!(mesh.indices(), &[0, 1, 2, 0, 2, 3]);
    assert!(!mesh.is_empty());
}

#[test]
fn mesh_with_an_index_that_names_no_vertex_is_turned_down() {
    assert!(Mesh::new(vec![(0, 0, 0); 3], vec![0, 1, 3]).is_none());
    assert!(Mesh::new(Vec::<Local>::new(), vec![0]).is_none());
    assert!(Mesh::new(vec![(0, 0, 0); 3], vec![2, 2, 2]).is_some());
    assert!(Mesh::new(vec![(0, 0, 0); 65536], vec![65535]).is_some());
}

#[test]
fn empty_mesh_has_no_geometry() {
    let mesh: Mesh<Local> = Mesh::empty();
    assert!(mesh.is_empty());
    assert!(mesh.vertices().is_empty());
    let mesh: Mesh<Local> = Mesh::default();
    assert!(mesh.indices().is_empty());
    let unindexed = points(3);
    assert!(unindexed.is_empty());
    assert_eq!(unindexed.vertices().len(), 3);
}

#[test]
fn cleared_mesh_is_empty() {
    let mut mesh = quad(3, 1);
    mesh.clear();
    assert!(mesh.is_empty());
    assert!(mesh.vertices().is_empty());
    assert!(mesh.indices().is_empty());
}

fn scene_with_indices(count: usize) -> Scene<World> {
    let mesh = Mesh::new(vec![(0, 0, 0), (1, 1, 1)], vec![1; count]).unwrap();
    let mut scene = Scene::new();
    scene.draw(&mesh, shift(0, 0)).unwrap();
    scene
}

#[test]
fn padding_adds_the_remainder_of_the_index_count() {
    for (count, padded) in [(0, 0), (1, 2), (2, 4), (3, 6), (4, 4), (5, 6), (6, 8), (7, 10), (8, 8)] {
        let mut scene = scene_with_indices(count);
        assert_eq!(scene.pad_indices(), count);
        assert_eq!(scene.indices().len(), padded);
        assert!(scene.indices()[..count].iter().all(|index| *index == 1));
        assert!(scene.indices()[count..].iter().all(|index| *index == 0));
        assert_eq!(scene.index_bytes().len() % 4, 0);
    }
}

#[test]
fn padding_twice_pads_the_padded_count() {
    let mut scene = scene_with_indices(5);
    assert_eq!(scene.pad_indices(), 5);
    assert_eq!(scene.indices().len(), 6);
    assert_eq!(scene.pad_indices(), 6);
    assert_eq!(scene.indices().len(), 8);
    assert_eq!(scene.pad_indices(), 8);
    assert_eq!(scene.indices().len(), 8);
}

#[test]
fn padding_an_empty_scene_adds_nothing() {
    let mut scene: Scene<World> = Scene::new();
    assert_eq!(scene.pad_indices(), 0);
    assert!(scene.indices().is_empty());
}

#[test]
fn index_bytes_are_the_indices_in_machine_order() {
    let mesh = Mesh::new(vec![(0, 0, 0); 0x0302], vec![0x0001, 0x0100, 0x0301, 0x00ff]).unwrap();
    let mut scene: Scene<World> = Scene::new();
    scene.draw(&mesh, shift(0, 0)).unwrap();
    let mut expected = Vec::new();
    for index in [0x0001u16, 0x0100, 0x0301, 0x00ff] {
        expected.extend_from_slice(&index.to_ne_bytes());
    }
    assert_eq!(scene.index_bytes(), &expected[..]);
    let low_first = [0x01, 0x00, 0x00, 0x01, 0x01, 0x03, 0xff, 0x00];
    let high_first = [0x00, 0x01, 0x01, 0x00, 0x03, 0x01, 0x00, 0xff];
    assert!(scene.index_bytes() == low_first || scene.index_bytes() == high_first);
}

#[test]
fn index_bytes_of_an_empty_scene_are_empty() {
    let scene: Scene<World> = Scene::new();
    assert!(scene.index_bytes().is_empty());
}

#[test]
fn initial_capacity_holds_one_quad() {
    let capacity = BufferCapacity::initial();
    assert_eq!(capacity, BufferCapacity { max_vertices: 4, max_indices: 6 });
    let mut scene: Scene<World> = Scene::new();
    assert_eq!(scene.resize_request(capacity), None);
    scene.draw(&quad(1, 0), shift(0, 0)).unwrap();
    assert_eq!(scene.resize_request(capacity), None);
}

#[test]
fn frame_beyond_the_capacity_asks_for_its_own_size() {
    let mut scene: Scene<World> = Scene::new();
    scene.draw(&quad(1, 0), shift(0, 0)).unwrap();
    scene.draw(&quad(1, 0), shift(0, 0)).unwrap();
    let wanted = Some(BufferCapacity { max_vertices: 8, max_indices: 12 });
    assert_eq!(scene.resize_request(BufferCapacity::initial()), wanted);
    // Too many vertices alone, or too many indices alone, is enough.
    assert_eq!(scene.resize_request(BufferCapacity { max_vertices: 7, max_indices: 12 }), wanted);
    assert_eq!(scene.resize_request(BufferCapacity { max_vertices: 8, max_indices: 11 }), wanted);
    assert_eq!(scene.resize_request(BufferCapacity { max_vertices: 8, max_indices: 12 }), None);
    assert_eq!(scene.resize_request(BufferCapacity { max_vertices: 100, max_indices: 100 }), None);
}

#[test]
fn buffer_sizes_in_bytes() {
    let capacity = BufferCapacity { max_vertices: 8, max_indices: 12 };
    assert_eq!(capacity.vertex_buffer_size(32), Some(256));
    assert_eq!(capacity.index_buffer_size(), Some(24));
    assert_eq!(BufferCapacity::initial().vertex_buffer_size(0), Some(0));
    let vast = BufferCapacity { max_vertices: usize::MAX, max_indices: usize::MAX };
    assert_eq!(vast.vertex_buffer_size(1), Some(usize::MAX as u64));
    if usize::MAX as u128 == u64::MAX as u128 {
        assert_eq!(vast.vertex_buffer_size(2), None);
        assert_eq!(vast.index_buffer_size(), None);
    }
}

#[test]
fn cloned_mesh_has_the_same_geometry() {
    let mesh = quad(3, 1);
    let copy = mesh.clone();
    assert_eq!(copy.vertices(), mesh.vertices());
    assert_eq!(copy.indices(), mesh.indices());
}

#[test]
fn stored_tessellation_replaces_the_geometry() {
    let mut mesh = quad(3, 1);
    mesh.store(Some((vec![(1, 2, 3), (4, 5, 6)], vec![1, 0, 1])));
    assert_eq!(mesh.vertices(), &[(1, 2, 3), (4, 5, 6)]);
    assert_eq!(mesh.indices(), &[1, 0, 1]);
}

#[test]
fn failed_tessellation_leaves_no_geometry() {
    let mut mesh = quad(3, 1);
    mesh.store(None);
    assert!(mesh.vertices().is_empty());
    assert!(mesh.indices().is_empty());
}

#[test]
fn malformed_tessellation_leaves_no_geometry() {
    let mut mesh = quad(3, 1);
    mesh.store(Some((vec![(1, 2, 3), (4, 5, 6)], vec![0, 1, 2])));
    assert!(mesh.vertices().is_empty());
    assert!(mesh.indices().is_empty());
}
