use leafwing_2d::orientation::{Direction, Rotation};
use leafwing_2d::sync::{
    sync_direction_and_rotation, sync_transform_with_2d, PlanarTransform, Position,
};

#[test]
fn phase_a_rotation_wins_and_overwrites_stale_direction() {
    // The rotation was set to midnight while the direction still holds a
    // stale northeast heading (what an un-normalized (1, 1) vector implies).
    let mut rotation = Rotation::new(0);
    let mut direction = Direction::from(Rotation::new(450));

    let writes = sync_direction_and_rotation(&mut rotation, &mut direction, true, false);

    assert_eq!(rotation, Rotation::new(0));
    assert_eq!(direction, Direction::from(Rotation::new(0)));
    assert!(writes.direction);
    assert!(!writes.rotation);
}

#[test]
fn phase_a_rotation_priority_when_both_changed() {
    let mut rotation = Rotation::new(900);
    let mut direction = Direction::from(Rotation::new(1800));

    let writes = sync_direction_and_rotation(&mut rotation, &mut direction, true, true);

    assert_eq!(rotation, Rotation::new(900));
    assert_eq!(direction, Direction::from(Rotation::new(900)));
    assert!(writes.direction);
    assert!(!writes.rotation);
}

#[test]
fn phase_a_neutral_direction_leaves_rotation_untouched() {
    let mut rotation = Rotation::new(900);
    let mut direction = Direction::neutral();

    let writes = sync_direction_and_rotation(&mut rotation, &mut direction, false, true);

    assert_eq!(rotation, Rotation::new(900));
    assert_eq!(direction, Direction::neutral());
    assert!(!writes.rotation);
    assert!(!writes.direction);
    assert!(!writes.transform);
    assert!(!writes.position);
}

#[test]
fn phase_a_direction_updates_rotation() {
    let mut rotation = Rotation::new(0);
    let mut direction = Direction::from(Rotation::new(2700));

    let writes = sync_direction_and_rotation(&mut rotation, &mut direction, false, true);

    assert_eq!(rotation, Rotation::new(2700));
    assert_eq!(direction, Direction::from(Rotation::new(2700)));
    assert!(writes.rotation);
    assert!(!writes.direction);
}

#[test]
fn phase_a_no_changes_no_writes() {
    let mut rotation = Rotation::new(100);
    let mut direction = Direction::from(Rotation::new(3500));

    let writes = sync_direction_and_rotation(&mut rotation, &mut direction, false, false);

    assert_eq!(rotation, Rotation::new(100));
    assert_eq!(direction, Direction::from(Rotation::new(3500)));
    assert!(!writes.rotation && !writes.direction);
}

#[test]
fn phase_a_is_idempotent() {
    // Whatever the starting point, feeding the first pass's writes back in as
    // the only changes makes the second pass write nothing.
    let starts = [
        (Rotation::new(0), Direction::from(Rotation::new(450)), true, false),
        (Rotation::new(0), Direction::from(Rotation::new(450)), false, true),
        (Rotation::new(900), Direction::neutral(), false, true),
        (Rotation::new(900), Direction::neutral(), true, false),
        (Rotation::new(1800), Direction::from(Rotation::new(1800)), true, true),
    ];
    for (r0, d0, rc, dc) in starts {
        let mut rotation = r0;
        let mut direction = d0;
        let first = sync_direction_and_rotation(&mut rotation, &mut direction, rc, dc);
        let second = sync_direction_and_rotation(
            &mut rotation,
            &mut direction,
            first.rotation,
            first.direction,
        );
        assert!(!second.rotation);
        assert!(!second.direction);
    }
}

#[test]
fn phase_b_rotation_propagates_to_transform() {
    let mut transform = PlanarTransform {
        heading: Direction::neutral(),
        x: 0,
        y: 0,
    };
    let mut rotation = Some(Rotation::new(900));
    let mut direction = None;
    let mut position = None;

    let writes = sync_transform_with_2d(
        &mut transform,
        &mut rotation,
        &mut direction,
        &mut position,
        false,
        true,
        false,
        false,
    );

    assert_eq!(transform.heading, Direction::from(Rotation::new(900)));
    assert_eq!(rotation, Some(Rotation::new(900)));
    assert_eq!(direction, None);
    assert_eq!(position, None);
    assert!(writes.transform);
    assert!(!writes.rotation);
}

#[test]
fn phase_b_transform_propagates_to_rotation() {
    let mut transform = PlanarTransform {
        heading: Direction::from(Rotation::new(1800)),
        x: 0,
        y: 0,
    };
    let mut rotation = Some(Rotation::new(0));
    let mut direction = None;
    let mut position = None;

    let writes = sync_transform_with_2d(
        &mut transform,
        &mut rotation,
        &mut direction,
        &mut position,
        true,
        false,
        false,
        false,
    );

    assert_eq!(rotation, Some(Rotation::new(1800)));
    assert!(writes.rotation);
    assert!(!writes.transform);
}

#[test]
fn phase_b_neutral_transform_heading_leaves_rotation_untouched() {
    let mut transform = PlanarTransform {
        heading: Direction::neutral(),
        x: 0,
        y: 0,
    };
    let mut rotation = Some(Rotation::new(450));
    let mut direction = None;
    let mut position = None;

    let writes = sync_transform_with_2d(
        &mut transform,
        &mut rotation,
        &mut direction,
        &mut position,
        true,
        false,
        false,
        false,
    );

    assert_eq!(rotation, Some(Rotation::new(450)));
    assert!(!writes.rotation && !writes.transform);
}

#[test]
fn phase_b_changed_transform_overwrites_direction_even_with_neutral_heading() {
    // The documented asymmetry: reading the transform back into the direction
    // has no degeneracy guard, so an intentional heading is overwritten by
    // neutral.
    let mut transform = PlanarTransform {
        heading: Direction::neutral(),
        x: 0,
        y: 0,
    };
    let mut rotation = None;
    let mut direction = Some(Direction::from(Rotation::new(900)));
    let mut position = None;

    let writes = sync_transform_with_2d(
        &mut transform,
        &mut rotation,
        &mut direction,
        &mut position,
        true,
        false,
        false,
        false,
    );

    assert_eq!(direction, Some(Direction::neutral()));
    assert!(writes.direction);
}

#[test]
fn phase_b_neutral_direction_leaves_transform_untouched() {
    let mut transform = PlanarTransform {
        heading: Direction::from(Rotation::new(2700)),
        x: 0,
        y: 0,
    };
    let mut rotation = None;
    let mut direction = Some(Direction::neutral());
    let mut position = None;

    let writes = sync_transform_with_2d(
        &mut transform,
        &mut rotation,
        &mut direction,
        &mut position,
        false,
        false,
        true,
        false,
    );

    assert_eq!(transform.heading, Direction::from(Rotation::new(2700)));
    assert_eq!(direction, Some(Direction::neutral()));
    assert!(!writes.transform && !writes.direction);
}

#[test]
fn phase_b_position_wins_on_conflict() {
    let mut transform = PlanarTransform {
        heading: Direction::neutral(),
        x: 10,
        y: 20,
    };
    let mut rotation = None;
    let mut direction = None;
    let mut position = Some(Position { x: 3, y: 4 });

    // Both sides changed: the two-dimensional position wins.
    let writes = sync_transform_with_2d(
        &mut transform,
        &mut rotation,
        &mut direction,
        &mut position,
        true,
        false,
        false,
        true,
    );

    assert_eq!((transform.x, transform.y), (3, 4));
    assert_eq!(position, Some(Position { x: 3, y: 4 }));
    assert!(writes.transform);
    assert!(!writes.position);
}

#[test]
fn phase_b_translation_copies_back_to_position() {
    let mut transform = PlanarTransform {
        heading: Direction::neutral(),
        x: 7,
        y: -9,
    };
    let mut rotation = None;
    let mut direction = None;
    let mut position = Some(Position { x: 0, y: 0 });

    let writes = sync_transform_with_2d(
        &mut transform,
        &mut rotation,
        &mut direction,
        &mut position,
        true,
        false,
        false,
        false,
    );

    assert_eq!(position, Some(Position { x: 7, y: -9 }));
    assert!(writes.position);
    assert!(!writes.transform);
}

#[test]
fn phase_b_guarded_writes_suppress_equal_values() {
    let mut transform = PlanarTransform {
        heading: Direction::from(Rotation::new(900)),
        x: 1,
        y: 2,
    };
    let mut rotation = Some(Rotation::new(900));
    let mut direction = Some(Direction::from(Rotation::new(900)));
    let mut position = Some(Position { x: 1, y: 2 });

    // Everything claims to have changed, but every derived value equals the
    // stored one, so nothing at all is written.
    let writes = sync_transform_with_2d(
        &mut transform,
        &mut rotation,
        &mut direction,
        &mut position,
        true,
        true,
        true,
        true,
    );

    assert!(!writes.rotation && !writes.direction && !writes.transform && !writes.position);
}

#[test]
fn phase_b_transform_edit_settles_in_one_pass() {
    let mut transform = PlanarTransform {
        heading: Direction::from(Rotation::new(1200)),
        x: 5,
        y: 6,
    };
    let mut rotation = Some(Rotation::new(0));
    let mut direction = Some(Direction::neutral());
    let mut position = Some(Position { x: 0, y: 0 });

    let first = sync_transform_with_2d(
        &mut transform,
        &mut rotation,
        &mut direction,
        &mut position,
        true,
        false,
        false,
        false,
    );
    assert!(first.rotation && first.direction && first.position);

    let second = sync_transform_with_2d(
        &mut transform,
        &mut rotation,
        &mut direction,
        &mut position,
        first.transform,
        first.rotation,
        first.direction,
        first.position,
    );
    assert!(
        !second.rotation && !second.direction && !second.transform && !second.position
    );
}

#[test]
fn phase_b_settles_by_the_third_pass() {
    // Conflicting edits of both local representations: the direction ends up
    // in the transform on the first pass, comes back out into the rotation on
    // the second, and the third pass has nothing left to do.
    let mut transform = PlanarTransform {
        heading: Direction::neutral(),
        x: 0,
        y: 0,
    };
    let mut rotation = Some(Rotation::new(900));
    let mut direction = Some(Direction::from(Rotation::new(1800)));
    let mut position = None;

    let first = sync_transform_with_2d(
        &mut transform,
        &mut rotation,
        &mut direction,
        &mut position,
        false,
        true,
        true,
        false,
    );
    let second = sync_transform_with_2d(
        &mut transform,
        &mut rotation,
        &mut direction,
        &mut position,
        first.transform,
        first.rotation,
        first.direction,
        first.position,
    );
    let third = sync_transform_with_2d(
        &mut transform,
        &mut rotation,
        &mut direction,
        &mut position,
        second.transform,
        second.rotation,
        second.direction,
        second.position,
    );
    assert!(!third.rotation && !third.direction && !third.transform && !third.position);

    // Everything has converged on the direction's heading.
    assert_eq!(transform.heading, Direction::from(Rotation::new(1800)));
    assert_eq!(rotation, Some(Rotation::new(1800)));
    assert_eq!(direction, Some(Direction::from(Rotation::new(1800))));
}
