use grab_hand::geometry::{rect_contains, rect_from_center_size, Rect, Vec2I};
use grab_hand::hand::Hand;
use grab_hand::object::{BoundingBox, ImageSize, TrackedObject};

#[test]
fn rect_from_center_size_exact() {
    let r = rect_from_center_size(Vec2I { x: 0, y: 500 }, Vec2I { x: 50, y: 50 });
    assert_eq!(r.min, Vec2I { x: -25, y: 475 });
    assert_eq!(r.max, Vec2I { x: 25, y: 525 });
}

#[test]
fn rect_contains_is_inclusive_at_the_edges() {
    let r = Rect { min: Vec2I { x: -25, y: 475 }, max: Vec2I { x: 25, y: 525 } };
    assert!(rect_contains(&r, Vec2I { x: 0, y: 500 }));
    assert!(rect_contains(&r, Vec2I { x: -25, y: 475 }));
    assert!(rect_contains(&r, Vec2I { x: 25, y: 525 }));
    assert!(!rect_contains(&r, Vec2I { x: 26, y: 500 }));
    assert!(!rect_contains(&r, Vec2I { x: 0, y: 474 }));
}

#[test]
fn bounding_box_tracks_transform() {
    let mut o = TrackedObject::new(1, Vec2I { x: 0, y: 0 }, Vec2I { x: 1, y: 1 }, true, false);
    o.add_image_size(Some(Vec2I { x: 40, y: 60 }));
    assert_eq!(
        o.bounding_box,
        Some(BoundingBox(Rect {
            min: Vec2I { x: -20, y: -30 },
            max: Vec2I { x: 20, y: 30 },
        }))
    );

    // Move and rescale: the box follows in the same step, with no lag.
    o.set_transform(Vec2I { x: 100, y: 200 }, Vec2I { x: 2, y: 3 });
    assert_eq!(
        o.bounding_box,
        Some(BoundingBox(Rect {
            min: Vec2I { x: 60, y: 110 },
            max: Vec2I { x: 140, y: 290 },
        }))
    );

    // A transform written directly is reconciled by the per-tick refresh.
    o.position = Vec2I { x: 0, y: 0 };
    o.update_bounding_box();
    assert_eq!(
        o.bounding_box,
        Some(BoundingBox(Rect {
            min: Vec2I { x: -40, y: -90 },
            max: Vec2I { x: 40, y: 90 },
        }))
    );
}

#[test]
fn image_size_is_captured_once() {
    let mut o = TrackedObject::new(1, Vec2I { x: 0, y: 0 }, Vec2I { x: 1, y: 1 }, true, false);
    // Unresolved asset: skipped, retried next tick.
    o.add_image_size(None);
    assert_eq!(o.image_size, None);
    assert_eq!(o.bounding_box, None);

    o.add_image_size(Some(Vec2I { x: 10, y: 10 }));
    assert_eq!(o.image_size, Some(ImageSize(Vec2I { x: 10, y: 10 })));

    // A later resolution never overwrites the captured extent.
    o.add_image_size(Some(Vec2I { x: 999, y: 999 }));
    assert_eq!(o.image_size, Some(ImageSize(Vec2I { x: 10, y: 10 })));
}

#[test]
fn collider_sized_only_with_a_body() {
    let mut with_body = TrackedObject::new(1, Vec2I { x: 0, y: 0 }, Vec2I { x: 1, y: 1 }, true, true);
    with_body.add_image_size(Some(Vec2I { x: 30, y: 40 }));
    assert_eq!(with_body.collider, Some(Vec2I { x: 30, y: 40 }));

    let mut no_body = TrackedObject::new(2, Vec2I { x: 0, y: 0 }, Vec2I { x: 1, y: 1 }, true, false);
    no_body.add_image_size(Some(Vec2I { x: 30, y: 40 }));
    assert_eq!(no_body.collider, None);
}

#[test]
fn steering_follows_the_cursor() {
    let mut hand = Hand::new(Vec2I { x: 10, y: 20 });
    assert_eq!(hand.velocity, Vec2I { x: 0, y: 0 });
    // Goal is the cursor shifted by the hand offset: (110, 520 - 500).
    hand.move_hand(Some(Vec2I { x: 110, y: 520 }));
    assert_eq!(hand.velocity, Vec2I { x: 500, y: 0 });
    assert_eq!(hand.position, Vec2I { x: 10, y: 20 });
}

#[test]
fn cursor_exit_keeps_velocity() {
    let mut hand = Hand::new(Vec2I { x: 0, y: 0 });
    hand.move_hand(Some(Vec2I { x: 100, y: 700 }));
    let before = hand.velocity;
    assert_eq!(before, Vec2I { x: 500, y: 1000 });

    // The cursor leaves the viewport for several ticks: the velocity stays
    // at its pre-exit value for every one of them.
    for _ in 0..5 {
        hand.move_hand(None);
        assert_eq!(hand.velocity, before);
    }

    // Steering resumes once the cursor re-enters.
    hand.move_hand(Some(Vec2I { x: 0, y: 500 }));
    assert_eq!(hand.velocity, Vec2I { x: 0, y: 0 });
}

#[test]
fn grab_point_sits_above_the_hand() {
    let hand = Hand::new(Vec2I { x: 12, y: -7 });
    assert_eq!(hand.grab_point(), Vec2I { x: 12, y: 493 });
}
