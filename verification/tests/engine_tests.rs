use grab_hand::engine::{find_object, hit_test, GrabEngine};
use grab_hand::geometry::Vec2I;
use grab_hand::hand::{Grabbing, Hand};
use grab_hand::object::TrackedObject;

const HAND_ID: u64 = 99;

fn card(id: u64, x: i64, y: i64) -> TrackedObject {
    let mut o = TrackedObject::new(id, Vec2I { x, y }, Vec2I { x: 1, y: 1 }, true, true);
    o.add_image_size(Some(Vec2I { x: 50, y: 50 }));
    o
}

#[test]
fn grab_and_drop_scenario() {
    // Hand at the origin; the grab point sits 500 above it, inside the
    // object's 50 x 50 box centered on (0, 500).
    let mut hand = Hand::new(Vec2I { x: 0, y: 0 });
    let mut objects = vec![card(7, 0, 500)];
    let mut engine = GrabEngine::new();
    assert_eq!(engine.live_joint_count(), 0);

    let r = engine.tick(&mut hand, HAND_ID, &mut objects, true);
    assert_eq!(r, Some(0));
    assert_eq!(
        hand.grabbing,
        Some(Grabbing { held_object: 7, joint: 0 })
    );
    assert_eq!(engine.live_joint_count(), 1);
    assert_eq!(engine.joints[0].handle, 0);
    assert_eq!(engine.joints[0].object, 7);
    assert_eq!(engine.joints[0].hand, HAND_ID);
    assert_eq!(engine.joints[0].object_anchor, Vec2I { x: 0, y: 0 });
    assert_eq!(engine.joints[0].hand_anchor, Vec2I { x: 0, y: 500 });
    assert_eq!(objects[0].z_order, 1);

    let r2 = engine.tick(&mut hand, HAND_ID, &mut objects, true);
    assert_eq!(r2, Some(0));
    assert_eq!(hand.grabbing, None);
    assert_eq!(engine.live_joint_count(), 0);
    assert_eq!(objects[0].z_order, -1);
}

#[test]
fn grab_on_empty_space_is_noop() {
    let mut hand = Hand::new(Vec2I { x: 0, y: 0 });
    // The box around (300, 300) is nowhere near the grab point (0, 500).
    let mut objects = vec![card(7, 300, 300)];
    let mut engine = GrabEngine::new();

    let r = engine.tick(&mut hand, HAND_ID, &mut objects, true);
    assert_eq!(r, None);
    assert_eq!(hand.grabbing, None);
    assert_eq!(engine.live_joint_count(), 0);
    assert_eq!(objects[0].z_order, -1);
}

#[test]
fn drop_while_empty_is_noop() {
    let mut hand = Hand::new(Vec2I { x: 0, y: 0 });
    let mut objects = vec![card(7, 300, 300)];
    let mut engine = GrabEngine::new();

    let r = engine.drop_grab(&mut hand, &mut objects, true);
    assert_eq!(r, None);
    assert_eq!(hand.grabbing, None);
    assert_eq!(engine.live_joint_count(), 0);
    assert_eq!(objects[0].z_order, -1);
}

#[test]
fn toggle_alternates_over_edges() {
    let mut hand = Hand::new(Vec2I { x: 0, y: 0 });
    let mut objects = vec![card(7, 0, 500)];
    let mut engine = GrabEngine::new();

    // Rising edge: grab.
    engine.tick(&mut hand, HAND_ID, &mut objects, true);
    assert!(hand.grabbing.is_some());
    assert_eq!(engine.live_joint_count(), 1);
    // Input held down, no new edge: no transition.
    engine.tick(&mut hand, HAND_ID, &mut objects, false);
    assert!(hand.grabbing.is_some());
    assert_eq!(engine.live_joint_count(), 1);
    // Rising edge: drop.
    engine.tick(&mut hand, HAND_ID, &mut objects, true);
    assert!(hand.grabbing.is_none());
    assert_eq!(engine.live_joint_count(), 0);
    // Rising edge: grab again, with a fresh joint handle.
    engine.tick(&mut hand, HAND_ID, &mut objects, true);
    assert_eq!(
        hand.grabbing,
        Some(Grabbing { held_object: 7, joint: 1 })
    );
    assert_eq!(engine.live_joint_count(), 1);
}

#[test]
fn first_overlapping_object_wins() {
    let mut hand = Hand::new(Vec2I { x: 0, y: 0 });
    // Both boxes contain the grab point (0, 500); ids give the stable order.
    let mut objects = vec![card(1, 0, 490), card(2, 0, 510)];
    let p = hand.grab_point();
    assert_eq!(hit_test(&objects, p), Some(0));

    let mut engine = GrabEngine::new();
    let r = engine.tick(&mut hand, HAND_ID, &mut objects, true);
    assert_eq!(r, Some(0));
    assert_eq!(
        hand.grabbing,
        Some(Grabbing { held_object: 1, joint: 0 })
    );
    assert_eq!(objects[0].z_order, 1);
    assert_eq!(objects[1].z_order, -1);
}

#[test]
fn unresolved_asset_is_skipped() {
    let mut hand = Hand::new(Vec2I { x: 0, y: 0 });
    // Grabbable and right under the grab point, but its image has not
    // resolved, so it has no bounding box and cannot be hit.
    let unresolved = TrackedObject::new(3, Vec2I { x: 0, y: 500 }, Vec2I { x: 1, y: 1 }, true, true);
    assert_eq!(unresolved.bounding_box, None);
    let mut objects = vec![unresolved];
    let mut engine = GrabEngine::new();

    let r = engine.tick(&mut hand, HAND_ID, &mut objects, true);
    assert_eq!(r, None);
    assert_eq!(hand.grabbing, None);
    assert_eq!(engine.live_joint_count(), 0);
}

#[test]
fn non_grabbable_object_is_skipped() {
    let hand = Hand::new(Vec2I { x: 0, y: 0 });
    let mut scenery = TrackedObject::new(4, Vec2I { x: 0, y: 500 }, Vec2I { x: 1, y: 1 }, false, true);
    scenery.add_image_size(Some(Vec2I { x: 50, y: 50 }));
    let objects = vec![scenery];
    assert_eq!(hit_test(&objects, hand.grab_point()), None);
}

#[test]
fn drop_with_missing_object_recovers() {
    let mut hand = Hand::new(Vec2I { x: 0, y: 0 });
    let mut objects = vec![card(7, 0, 500)];
    let mut engine = GrabEngine::new();

    engine.tick(&mut hand, HAND_ID, &mut objects, true);
    assert!(hand.grabbing.is_some());

    // The held object vanishes from the world before the drop.
    objects.remove(0);
    let r = engine.tick(&mut hand, HAND_ID, &mut objects, true);
    assert_eq!(r, None);
    assert_eq!(hand.grabbing, None);
    assert_eq!(engine.live_joint_count(), 0);
}

#[test]
fn find_object_reports_first_index() {
    let objects = vec![card(5, 0, 0), card(6, 10, 10), card(6, 20, 20)];
    assert_eq!(find_object(&objects, 6), Some(1));
    assert_eq!(find_object(&objects, 8), None);
}
