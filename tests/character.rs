use character_colliders::character::{has_distinct_proxies, Character, CollisionBox, UpdateError};
use character_colliders::ids::{ColliderHandle, GameNodeId};

fn node(i: u32) -> GameNodeId {
    GameNodeId { index: i, generation: 1 }
}

fn handle(i: u32) -> ColliderHandle {
    ColliderHandle { index: i, generation: 7 }
}

fn fresh_boxes(n: u32) -> Vec<CollisionBox> {
    (0..n)
        .map(|i| CollisionBox { node: node(100 + i), collider: handle(200 + i) })
        .collect()
}

fn empty_character() -> Character {
    let (c, r) = Character::new(node(1), 0, 3, None, Vec::new());
    assert_eq!(r, Ok(Vec::new()));
    c
}

fn filled_character(n: u32) -> Character {
    let (c, r) = Character::new(node(1), 0, 3, Some(n as usize), fresh_boxes(n));
    assert_eq!(r, Ok(fresh_boxes(n)));
    c
}

#[test]
fn new_character_has_no_proxies() {
    let (c, r) = Character::new(node(1), 2, 9, None, Vec::new());
    assert_eq!(r, Ok(Vec::new()));
    assert!(c.collision_box_nodes().is_empty());
    assert!(c.collision_box_colliders().is_empty());
    assert!(c.should_fill_collision_boxes());
    assert!(!c.is_displaying_collision_boxes());
    assert_eq!(c.root_node_id(), node(1));
    assert_eq!(c.skin_index(), 2);
    assert_eq!(c.collision_debug_mesh_index(), 9);
}

#[test]
fn first_update_creates_one_proxy_per_bone() {
    let c = filled_character(5);
    assert_eq!(c.collision_box_nodes().len(), 5);
    assert_eq!(c.collision_box_colliders().len(), 5);
    assert_eq!(c.collision_box_nodes()[3], node(103));
    assert_eq!(c.collision_box_colliders()[3], handle(203));
    assert!(!c.should_fill_collision_boxes());
}

#[test]
fn update_without_skin_is_a_no_op() {
    let mut c = empty_character();
    assert_eq!(c.update(None, Vec::new()), Ok(Vec::new()));
    assert!(c.should_fill_collision_boxes());
    let mut d = filled_character(2);
    assert_eq!(d.update(None, Vec::new()), Ok(Vec::new()));
    assert_eq!(d.collision_boxes(), fresh_boxes(2));
}

#[test]
fn second_update_is_steady() {
    let mut c = filled_character(4);
    let first = c.collision_boxes();
    let second = c.update(Some(4), Vec::new());
    assert_eq!(second, Ok(first.clone()));
    let third = c.update(Some(4), Vec::new());
    assert_eq!(third, Ok(first.clone()));
    assert_eq!(c.collision_boxes(), first);
}

#[test]
fn proxies_are_never_reallocated() {
    let mut c = filled_character(3);
    assert_eq!(c.update(Some(3), fresh_boxes(3)), Err(UpdateError::AlreadyFilled));
    assert_eq!(
        c.update(Some(5), Vec::new()),
        Err(UpdateError::BoneCountChanged { bone_count: 5, boxes: 3 })
    );
    assert_eq!(c.collision_boxes(), fresh_boxes(3));
}

#[test]
fn first_update_rejects_wrong_proxy_count() {
    let mut c = empty_character();
    assert_eq!(
        c.update(Some(4), fresh_boxes(2)),
        Err(UpdateError::BoxCountMismatch { bone_count: 4, boxes: 2 })
    );
    assert!(c.collision_box_nodes().is_empty());
    assert!(c.collision_box_colliders().is_empty());
}

#[test]
fn skin_without_bones_stays_empty() {
    let mut c = empty_character();
    assert_eq!(c.update(Some(0), Vec::new()), Ok(Vec::new()));
    assert!(c.should_fill_collision_boxes());
}

#[test]
fn hit_maps_handle_to_bone() {
    let c = filled_character(4);
    assert_eq!(c.find_hit_bone(handle(202)), Some(2));
    assert_eq!(c.find_hit_bone(handle(200)), Some(0));
    assert_eq!(c.find_hit_bone(handle(999)), None);
    assert_eq!(c.find_hit_bone(ColliderHandle { index: 202, generation: 8 }), None);
    assert_eq!(c.handle_hit(handle(202)), Some(node(102)));
    assert_eq!(c.handle_hit(handle(999)), None);
}

#[test]
fn toggle_round_trip() {
    let mut c = filled_character(3);
    let on = c.toggle_collision_box_display();
    assert!(on.visible);
    assert_eq!(on.nodes, vec![node(100), node(101), node(102)]);
    assert!(c.is_displaying_collision_boxes());
    let off = c.toggle_collision_box_display();
    assert!(!off.visible);
    assert_eq!(off.nodes, vec![node(100), node(101), node(102)]);
    assert!(!c.is_displaying_collision_boxes());
    assert_eq!(c.collision_boxes(), fresh_boxes(3));
}

#[test]
fn enable_twice_keeps_display_on() {
    let mut c = filled_character(2);
    let a = c.enable_collision_box_display();
    let b = c.enable_collision_box_display();
    assert!(a.visible && b.visible);
    assert_eq!(a.nodes, b.nodes);
    assert!(c.is_displaying_collision_boxes());
    let d = c.disable_collision_box_display();
    let e = c.disable_collision_box_display();
    assert!(!d.visible && !e.visible);
    assert!(!c.is_displaying_collision_boxes());
}

#[test]
fn new_runs_the_first_update() {
    let (c, r) = Character::new(node(1), 4, 3, Some(3), fresh_boxes(3));
    assert_eq!(r, Ok(fresh_boxes(3)));
    assert_eq!(c.collision_box_nodes(), &vec![node(100), node(101), node(102)]);
    assert_eq!(c.collision_box_colliders(), &vec![handle(200), handle(201), handle(202)]);
    assert_eq!(c.skin_index(), 4);
    let (d, e) = Character::new(node(1), 4, 3, Some(3), fresh_boxes(1));
    assert_eq!(e, Err(UpdateError::BoxCountMismatch { bone_count: 3, boxes: 1 }));
    assert!(d.should_fill_collision_boxes());
}

#[test]
fn repeated_proxies_are_refused() {
    let mut boxes = fresh_boxes(3);
    boxes[2].collider = handle(200);
    let mut c = empty_character();
    assert_eq!(c.update(Some(3), boxes), Err(UpdateError::DuplicateProxy));
    assert!(c.should_fill_collision_boxes());
    let mut boxes = fresh_boxes(3);
    boxes[0].node = node(101);
    assert_eq!(c.update(Some(3), boxes), Err(UpdateError::DuplicateProxy));
    assert!(!has_distinct_proxies(&vec![
        CollisionBox { node: node(1), collider: handle(1) },
        CollisionBox { node: node(1), collider: handle(2) },
    ]));
    assert!(has_distinct_proxies(&fresh_boxes(4)));
}

#[test]
fn only_resolved_bones_are_posed() {
    let boxes = fresh_boxes(3);
    let posed = Character::proxies_to_pose(&boxes, &vec![true, false]);
    assert_eq!(posed, vec![Some(boxes[0]), None, None]);
    let all = Character::proxies_to_pose(&boxes, &vec![true, true, true]);
    assert_eq!(all, vec![Some(boxes[0]), Some(boxes[1]), Some(boxes[2])]);
}
