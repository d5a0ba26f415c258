use frame_engine::{Input, KeyState, MeshData, MeshLoader, MeshModelLocation, KEY_COUNT};

#[test]
fn keys_start_up() {
    let input = Input::new();
    for k in [0, 17, KEY_COUNT - 1] {
        assert!(!input.is_down(k));
        assert!(!input.is_pressed(k));
        assert!(!input.is_released(k));
    }
}

#[test]
fn press_then_reset_then_release() {
    let mut input = Input::new();
    input.update(12, KeyState::Pressed);
    assert!(input.is_down(12));
    assert!(input.is_pressed(12));
    assert!(!input.is_released(12));
    assert!(!input.is_down(13));
    input.reset();
    assert!(input.is_down(12));
    assert!(!input.is_pressed(12));
    input.set_released(12);
    assert!(!input.is_down(12));
    assert!(input.is_released(12));
    input.reset();
    assert!(!input.is_released(12));
}

#[test]
fn press_and_release_in_one_tick() {
    let mut input = Input::new();
    input.set_pressed(5);
    input.set_released(5);
    assert!(!input.is_down(5));
    assert!(input.is_released(5));
    assert!(!input.is_pressed(5));
}

#[test]
fn cube_loads_after_existing_data() {
    let mut mesh = MeshData::new();
    let _first = MeshLoader::new(&mut mesh);
    assert_eq!(
        mesh.models,
        vec![MeshModelLocation {
            vertices_start_index: 0,
            vertices_count: 24,
            indices_start_index: 0,
            indices_count: 36,
        }]
    );
    assert_eq!(&mesh.indices[0..6], &[0, 1, 2, 2, 0, 3]);
    assert_eq!(&mesh.indices[30..36], &[20, 21, 22, 22, 20, 23]);
    let _second = MeshLoader::new(&mut mesh);
    assert_eq!(
        mesh.models[1],
        MeshModelLocation {
            vertices_start_index: 24,
            vertices_count: 24,
            indices_start_index: 36,
            indices_count: 36,
        }
    );
    assert_eq!(mesh.vertex_count, 48);
    assert_eq!(mesh.indices.len(), 72);
    assert_eq!(&mesh.indices[36..42], &[0, 1, 2, 2, 0, 3]);
}
