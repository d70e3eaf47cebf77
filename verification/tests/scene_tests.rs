use threedtest::scene::{object_name, Scene, SceneObject};
use threedtest::state::ShapeKind;

fn scene_of(n: usize) -> Scene<u32> {
    let mut s = Scene::with_first_object(0u32);
    for i in 1..n {
        s.add_object(format!("Object {}", i), i as u32);
    }
    s
}

#[test]
fn first_object() {
    let s = Scene::with_first_object(7u32);
    assert_eq!(s.objects.len(), 1);
    assert_eq!(s.objects[0].name, "Cube 0");
    assert_eq!(s.objects[0].shape, ShapeKind::Cube);
    assert!(s.objects[0].selected);
    assert_eq!(s.objects[0].placement, 7);
    assert_eq!(s.selected_obj, 0);
}

#[test]
fn add_object_appends_unselected_cube() {
    let s = scene_of(3);
    assert_eq!(s.objects.len(), 3);
    assert_eq!(s.objects[2].name, "Object 2");
    assert!(!s.objects[2].selected);
    assert_eq!(s.objects[2].shape, ShapeKind::Cube);
    assert_eq!(s.selected_obj, 0);
}

#[test]
fn select_marks_only_one() {
    let mut s = scene_of(4);
    s.select_object(2);
    assert_eq!(s.selected_obj, 2);
    let marks: Vec<bool> = s.objects.iter().map(|o| o.selected).collect();
    assert_eq!(marks, vec![false, false, true, false]);
    assert_eq!(s.selected_object().map(|o| o.placement), Some(2));
}

#[test]
fn remove_clamps_selection() {
    let mut s = scene_of(3);
    s.select_object(2);
    s.remove_object(2);
    assert_eq!(s.objects.len(), 2);
    assert_eq!(s.selected_obj, 1);
    s.remove_object(0);
    assert_eq!(s.selected_obj, 0);
    assert_eq!(s.objects[0].name, "Object 1");
}

#[test]
fn remove_before_selection_keeps_index() {
    let mut s = scene_of(4);
    s.select_object(1);
    s.remove_object(3);
    assert_eq!(s.selected_obj, 1);
}

#[test]
fn selected_object_mut_edits_in_place() {
    let mut s = scene_of(2);
    s.select_object(1);
    if let Some(o) = s.selected_object_mut() {
        o.placement = 99;
        o.shape = ShapeKind::Torus;
    }
    assert_eq!(s.objects[1].placement, 99);
    assert_eq!(s.objects[1].shape, ShapeKind::Torus);
    assert_eq!(s.objects[0].placement, 0);
}

#[test]
fn out_of_range_selection() {
    let mut s = scene_of(1);
    s.select_object(5);
    assert!(s.selected_object().is_none());
    assert!(s.selected_object_mut().is_none());
    assert_eq!(s.selected_index(), None);
    assert!(!s.objects[0].selected);
    let _unused: Option<&SceneObject<u32>> = s.selected_object();
}

#[test]
fn set_selected_placement_touches_only_selected() {
    let mut s = scene_of(3);
    s.select_object(1);
    s.objects[1].shape = ShapeKind::Sphere;
    s.set_selected_placement(50);
    assert_eq!(s.objects[1].placement, 50);
    assert_eq!(s.objects[1].shape, ShapeKind::Sphere);
    assert_eq!(s.objects[1].name, "Object 1");
    assert!(s.objects[1].selected);
    assert_eq!(s.objects[0].placement, 0);
    assert_eq!(s.objects[2].placement, 2);
    assert_eq!(s.selected_obj, 1);
}

#[test]
fn set_selected_placement_out_of_range() {
    let mut s = scene_of(2);
    s.select_object(4);
    s.set_selected_placement(9);
    assert_eq!(s.objects[0].placement, 0);
    assert_eq!(s.objects[1].placement, 1);
}

#[test]
fn object_names() {
    assert_eq!(object_name(0), "Object 0");
    assert_eq!(object_name(7), "Object 7");
    assert_eq!(object_name(10), "Object 10");
    assert_eq!(object_name(305), "Object 305");
    assert_eq!(object_name(usize::MAX), format!("Object {}", usize::MAX));
}

#[test]
fn add_numbered_object_names_by_count() {
    let mut s = Scene::with_first_object(0u32);
    s.add_numbered_object(5);
    s.add_numbered_object(6);
    assert_eq!(s.objects.len(), 3);
    assert_eq!(s.objects[1].name, "Object 1");
    assert_eq!(s.objects[2].name, "Object 2");
    assert_eq!(s.objects[2].placement, 6);
    assert!(!s.objects[2].selected);
    assert_eq!(s.objects[2].shape, ShapeKind::Cube);
    assert_eq!(s.objects[0].name, "Cube 0");
    assert_eq!(s.selected_obj, 0);
}
