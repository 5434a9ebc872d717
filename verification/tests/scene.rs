use a_tracing_lib::scene::{any_hit, directional_light_reaches, first_hit, Scene};

const LIMIT: u32 = 1000;

#[test]
fn empty_scene_is_missed() {
    let hits: Vec<Option<u32>> = Vec::new();
    assert_eq!(first_hit(&hits, LIMIT), None);
    assert_eq!(any_hit(&hits, LIMIT), None);
    assert!(directional_light_reaches(&hits, LIMIT));
}

#[test]
fn first_hit_is_the_nearest_object() {
    let hits = vec![Some(50), None, Some(20), Some(30)];
    assert_eq!(first_hit(&hits, LIMIT), Some(2));
}

#[test]
fn any_hit_is_the_first_object_hit() {
    let hits = vec![None, Some(50), None, Some(20)];
    assert_eq!(any_hit(&hits, LIMIT), Some(1));
    assert_eq!(first_hit(&hits, LIMIT), Some(3));
}

#[test]
fn equal_distances_keep_the_earlier_object() {
    let hits = vec![Some(40), Some(20), Some(20), Some(40)];
    assert_eq!(first_hit(&hits, LIMIT), Some(1));
}

#[test]
fn hits_at_the_limit_do_not_count() {
    let hits = vec![Some(LIMIT), Some(LIMIT + 1), None];
    assert_eq!(first_hit(&hits, LIMIT), None);
    assert_eq!(any_hit(&hits, LIMIT), None);
    assert!(directional_light_reaches(&hits, LIMIT));
    let hits = vec![Some(LIMIT), Some(LIMIT - 1)];
    assert_eq!(first_hit(&hits, LIMIT), Some(1));
    assert_eq!(any_hit(&hits, LIMIT), Some(1));
}

#[test]
fn all_misses_give_none() {
    let hits = vec![None, None, None];
    assert_eq!(first_hit(&hits, LIMIT), None);
    assert_eq!(any_hit(&hits, LIMIT), None);
}

#[test]
fn occluder_blocks_directional_light() {
    let open_sky = vec![None, None];
    assert!(directional_light_reaches(&open_sky, LIMIT));
    let with_occluder = vec![None, Some(7), None];
    assert!(!directional_light_reaches(&with_occluder, LIMIT));
    let occluder_removed = vec![None, None];
    assert!(directional_light_reaches(&occluder_removed, LIMIT));
}

#[test]
fn zero_limit_hides_everything() {
    let hits = vec![Some(0), Some(1)];
    assert_eq!(first_hit(&hits, 0), None);
    assert_eq!(any_hit(&hits, 0), None);
}

fn small_scene() -> Scene<&'static str, char, u8> {
    let mut scene = Scene::new("camera");
    scene.add_object('a');
    scene.add_light(1);
    scene.add_object('b');
    scene.add_object('c');
    scene.add_light(2);
    scene
}

#[test]
fn new_scene_is_empty() {
    let scene: Scene<u8, char, u8> = Scene::new(3);
    assert_eq!(*scene.camera(), 3);
    assert!(scene.objects().is_empty());
    assert!(scene.lights().is_empty());
}

#[test]
fn scene_keeps_the_order_of_additions() {
    let scene = small_scene();
    assert_eq!(*scene.objects(), vec!['a', 'b', 'c']);
    assert_eq!(*scene.lights(), vec![1, 2]);
    assert_eq!(scene.camera, "camera");
}

#[test]
fn camera_can_be_changed_in_place() {
    let mut scene = small_scene();
    *scene.camera_mut() = "moved";
    assert_eq!(*scene.camera(), "moved");
    assert_eq!(*scene.objects(), vec!['a', 'b', 'c']);
    assert_eq!(*scene.lights(), vec![1, 2]);
}

#[test]
fn scene_names_the_object_of_the_first_hit() {
    let scene = small_scene();
    assert_eq!(scene.first_hit(&vec![Some(9), Some(4), Some(4)], LIMIT), Some((1, &'b')));
    assert_eq!(scene.any_hit(&vec![None, None, Some(4)], LIMIT), Some(2));
    assert_eq!(scene.first_hit(&vec![None, None, None], LIMIT), None);
    assert_eq!(scene.any_hit(&vec![None, Some(LIMIT), None], LIMIT), None);
}
