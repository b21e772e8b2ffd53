//! Change-driven synchronization of the dual heading representations.
//!
//! Each update cycle runs two ordered phases per entity. Phase A
//! ([`sync_direction_and_rotation`]) keeps the two local representations of a
//! heading consistent with each other. Phase B ([`sync_transform_with_2d`])
//! keeps them, and the planar position, consistent with the embedding
//! environment's transform. Both phases take explicit "did this value change
//! since it was last observed" flags, read before any write, and report which
//! fields they wrote, so that a host with its own change tracking can mark
//! exactly those fields dirty. A derived value is written back only when it
//! differs from the stored one; this guarded write is what keeps the
//! propagation from re-triggering itself cycle after cycle.

use crate::orientation::{Direction, Rotation};
use vstd::prelude::*;

verus! {

/// A planar position, in discrete coordinates.
#[derive(Debug, Clone, Copy, PartialEq, Eq, Structural, Default)]
pub struct Position {
    /// The coordinate along the horizontal axis
    pub x: i64,
    /// The coordinate along the vertical axis
    pub y: i64,
}

/// What the synchronization protocol reads and writes of the embedding
/// environment's 3-dimensional transform.
///
/// The transform itself is owned by the environment; the protocol only sees
/// the planar heading implied by its rotation — neutral when the rotation
/// implies no planar direction — and the planar part of its translation. Any
/// off-axis rotation and the third translation coordinate are never touched.
#[derive(Debug, Clone, Copy, PartialEq, Eq, Structural)]
pub struct PlanarTransform {
    /// The planar heading implied by the transform's rotation
    pub heading: Direction,
    /// The horizontal coordinate of the transform's translation
    pub x: i64,
    /// The vertical coordinate of the transform's translation
    pub y: i64,
}

/// Which fields a synchronization pass wrote.
///
/// A field is written only when its derived value differs from the stored
/// one, so a host can feed these flags straight into its change tracking.
#[derive(Debug, Clone, Copy, PartialEq, Eq, Structural)]
pub struct SyncWrites {
    /// The discretized rotation was overwritten
    pub rotation: bool,
    /// The direction was overwritten
    pub direction: bool,
    /// The transform's heading or translation was overwritten
    pub transform: bool,
    /// The position was overwritten
    pub position: bool,
}

impl SyncWrites {
    /// A record of no writes at all.
    pub fn none() -> (w: SyncWrites)
        ensures
            w == (SyncWrites { rotation: false, direction: false, transform: false, position: false }),
    {
        SyncWrites { rotation: false, direction: false, transform: false, position: false }
    }
}

/// The outcome of one phase-A pass over one entity: the new rotation, the new
/// direction, whether the rotation was written, and whether the direction was
/// written.
///
/// If the rotation changed this cycle, the direction is derived from it,
/// written only when different; the rotation wins when both changed. Otherwise,
/// if the direction changed, the rotation is derived from it where the
/// direction has one, written only when different; a neutral direction leaves
/// the rotation untouched. If neither changed, nothing is written.
pub open spec fn spec_sync_direction_and_rotation(
    rotation: Rotation,
    direction: Direction,
    rotation_changed: bool,
    direction_changed: bool,
) -> (Rotation, Direction, bool, bool) {
    if rotation_changed {
        if direction != Direction::Toward(rotation) {
            (rotation, Direction::Toward(rotation), false, true)
        } else {
            (rotation, direction, false, false)
        }
    } else if direction_changed {
        match direction {
            Direction::Toward(a) => if a != rotation {
                (a, direction, true, false)
            } else {
                (rotation, direction, false, false)
            },
            Direction::Neutral => (rotation, direction, false, false),
        }
    } else {
        (rotation, direction, false, false)
    }
}

/// Phase A: keeps an entity's [`Direction`] and [`Rotation`] consistent.
///
/// If the two are desynced, whichever one was changed is used and the other is
/// made consistent. If both were changed, the rotation is prioritized. Writes
/// are guarded: a derived value equal to the stored one is not written, which
/// keeps the host's change detection from re-triggering this pass forever.
pub fn sync_direction_and_rotation(
    rotation: &mut Rotation,
    direction: &mut Direction,
    rotation_changed: bool,
    direction_changed: bool,
) -> (writes: SyncWrites)
    requires
        old(rotation).is_normalized(),
        old(direction).is_well_formed(),
    ensures
        (*final(rotation), *final(direction), writes.rotation, writes.direction)
            == spec_sync_direction_and_rotation(
            *old(rotation),
            *old(direction),
            rotation_changed,
            direction_changed,
        ),
        !writes.transform && !writes.position,
        final(rotation).is_normalized(),
        final(direction).is_well_formed(),
        !writes.rotation ==> *final(rotation) == *old(rotation),
        !writes.direction ==> *final(direction) == *old(direction),
{
    let mut writes = SyncWrites::none();
    if rotation_changed {
        let new_direction = Direction::from(*rotation);
        if *direction != new_direction {
            *direction = new_direction;
            writes.direction = true;
        }
    } else if direction_changed {
        // The direction can be neutral, so this conversion is fallible; on
        // failure the rotation is left untouched.
        if let Ok(new_rotation) = Rotation::try_from(*direction) {
            if *rotation != new_rotation {
                *rotation = new_rotation;
                writes.rotation = true;
            }
        }
    }
    writes
}

/// Idempotence of phase A: a second pass, whose change flags are exactly the
/// writes of the first pass and nothing else, writes nothing and leaves both
/// values as they were.
pub proof fn lemma_sync_direction_and_rotation_idempotent(
    rotation: Rotation,
    direction: Direction,
    rotation_changed: bool,
    direction_changed: bool,
)
    requires
        rotation.is_normalized(),
        direction.is_well_formed(),
    ensures
        ({
            let (r1, d1, wrote_r1, wrote_d1) = spec_sync_direction_and_rotation(
                rotation,
                direction,
                rotation_changed,
                direction_changed,
            );
            let (r2, d2, wrote_r2, wrote_d2) = spec_sync_direction_and_rotation(
                r1,
                d1,
                wrote_r1,
                wrote_d1,
            );
            !wrote_r2 && !wrote_d2 && r2 == r1 && d2 == d1
        }),
{
}

/// The rotation branch of phase B: the transform's heading against an
/// entity's rotation. Returns the new transform heading, the new rotation,
/// whether the transform was written, and whether the rotation was written.
///
/// A changed rotation always implies a heading, so it propagates to the
/// transform unconditionally, guarded by inequality; the rotation wins when
/// both changed. A changed transform propagates back only where its heading
/// implies a rotation: a neutral heading leaves the rotation untouched.
pub open spec fn spec_sync_rotation_with_transform(
    transform_heading: Direction,
    rotation: Rotation,
    rotation_changed: bool,
    transform_changed: bool,
) -> (Direction, Rotation, bool, bool) {
    if rotation_changed {
        if transform_heading != Direction::Toward(rotation) {
            (Direction::Toward(rotation), rotation, true, false)
        } else {
            (transform_heading, rotation, false, false)
        }
    } else if transform_changed {
        match transform_heading {
            Direction::Toward(a) => if a != rotation {
                (transform_heading, a, false, true)
            } else {
                (transform_heading, rotation, false, false)
            },
            Direction::Neutral => (transform_heading, rotation, false, false),
        }
    } else {
        (transform_heading, rotation, false, false)
    }
}

/// The direction branch of phase B: the transform's heading against an
/// entity's direction. Returns the new transform heading, the new direction,
/// whether the transform was written, and whether the direction was written.
///
/// A changed neutral direction implies no heading and leaves the transform
/// untouched. A changed transform is copied into the direction whenever the
/// two differ, even where the transform's heading is neutral: there is
/// deliberately no guard against overwriting an intentional neutral heading in
/// this direction.
pub open spec fn spec_sync_direction_with_transform(
    transform_heading: Direction,
    direction: Direction,
    direction_changed: bool,
    transform_changed: bool,
) -> (Direction, Direction, bool, bool) {
    if direction_changed {
        match direction {
            Direction::Toward(a) => if transform_heading != Direction::Toward(a) {
                (Direction::Toward(a), direction, true, false)
            } else {
                (transform_heading, direction, false, false)
            },
            Direction::Neutral => (transform_heading, direction, false, false),
        }
    } else if transform_changed {
        if direction != transform_heading {
            (transform_heading, transform_heading, false, true)
        } else {
            (transform_heading, direction, false, false)
        }
    } else {
        (transform_heading, direction, false, false)
    }
}

/// The position branch of phase B: the transform's planar translation against
/// an entity's position. Returns the new translation coordinates, the new
/// position coordinates, whether the transform was written, and whether the
/// position was written.
///
/// The position wins on conflict; otherwise the translation is copied back.
/// Both directions are plain value assignment, guarded by inequality, one
/// coordinate at a time.
pub open spec fn spec_sync_position_with_translation(
    tx: i64,
    ty: i64,
    px: i64,
    py: i64,
    position_changed: bool,
    transform_changed: bool,
) -> (i64, i64, i64, i64, bool, bool) {
    if position_changed {
        (px, py, px, py, tx != px || ty != py, false)
    } else if transform_changed {
        (tx, ty, tx, ty, false, px != tx || py != ty)
    } else {
        (tx, ty, px, py, false, false)
    }
}

/// The outcome of one phase-B pass over one entity: the new transform, the
/// new optional rotation, direction and position, and the set of fields
/// written.
///
/// The three branches run in order — rotation, then direction, then position —
/// each seeing the transform as the previous branch left it. Fields the entity
/// does not have are left alone and never created.
pub open spec fn spec_sync_transform_with_2d(
    transform: PlanarTransform,
    rotation: Option<Rotation>,
    direction: Option<Direction>,
    position: Option<Position>,
    transform_changed: bool,
    rotation_changed: bool,
    direction_changed: bool,
    position_changed: bool,
) -> (PlanarTransform, Option<Rotation>, Option<Direction>, Option<Position>, SyncWrites) {
    let (heading1, rotation1, wrote_heading_r, wrote_rotation) = match rotation {
        Some(r0) => {
            let (h, nr, wt, wr) = spec_sync_rotation_with_transform(
                transform.heading,
                r0,
                rotation_changed,
                transform_changed,
            );
            (h, Some(nr), wt, wr)
        },
        None => (transform.heading, None::<Rotation>, false, false),
    };
    let (heading2, direction1, wrote_heading_d, wrote_direction) = match direction {
        Some(d0) => {
            let (h, nd, wt, wd) = spec_sync_direction_with_transform(
                heading1,
                d0,
                direction_changed,
                transform_changed,
            );
            (h, Some(nd), wt, wd)
        },
        None => (heading1, None::<Direction>, false, false),
    };
    let (tx1, ty1, position1, wrote_translation, wrote_position) = match position {
        Some(p0) => {
            let (ntx, nty, npx, npy, wt, wp) = spec_sync_position_with_translation(
                transform.x,
                transform.y,
                p0.x,
                p0.y,
                position_changed,
                transform_changed,
            );
            (ntx, nty, Some(Position { x: npx, y: npy }), wt, wp)
        },
        None => (transform.x, transform.y, None::<Position>, false, false),
    };
    (
        PlanarTransform { heading: heading2, x: tx1, y: ty1 },
        rotation1,
        direction1,
        position1,
        SyncWrites {
            rotation: wrote_rotation,
            direction: wrote_direction,
            transform: wrote_heading_r || wrote_heading_d || wrote_translation,
            position: wrote_position,
        },
    )
}

/// Phase B: keeps an entity's [`Rotation`], [`Direction`] and [`Position`],
/// whichever of them it has, consistent with its transform.
///
/// Whichever side of each pair has been changed takes priority; the local
/// two-dimensional value wins when both sides changed. Writes are guarded by
/// inequality, as in phase A. Fields the entity does not have are never
/// created. This phase must run only after
/// [`sync_direction_and_rotation`] has completed for all entities, since it
/// reads values that pass may have just written.
pub fn sync_transform_with_2d(
    transform: &mut PlanarTransform,
    rotation: &mut Option<Rotation>,
    direction: &mut Option<Direction>,
    position: &mut Option<Position>,
    transform_changed: bool,
    rotation_changed: bool,
    direction_changed: bool,
    position_changed: bool,
) -> (writes: SyncWrites)
    requires
        old(transform).heading.is_well_formed(),
        *old(rotation) matches Some(r) ==> r.is_normalized(),
        *old(direction) matches Some(d) ==> d.is_well_formed(),
    ensures
        (*final(transform), *final(rotation), *final(direction), *final(position), writes)
            == spec_sync_transform_with_2d(
            *old(transform),
            *old(rotation),
            *old(direction),
            *old(position),
            transform_changed,
            rotation_changed,
            direction_changed,
            position_changed,
        ),
        final(transform).heading.is_well_formed(),
        *final(rotation) matches Some(r) ==> r.is_normalized(),
        *final(direction) matches Some(d) ==> d.is_well_formed(),
        *final(rotation) is Some <==> *old(rotation) is Some,
        *final(direction) is Some <==> *old(direction) is Some,
        *final(position) is Some <==> *old(position) is Some,
{
    let mut writes = SyncWrites::none();

    // Synchronize Rotation with Transform
    if let Some(r0) = *rotation {
        if rotation_changed {
            let new_heading = Direction::from(r0);
            if transform.heading != new_heading {
                transform.heading = new_heading;
                writes.transform = true;
            }
        } else if transform_changed {
            // The transform's heading can be neutral, so this conversion is
            // fallible; on failure the rotation is left untouched.
            if let Ok(new_rotation) = Rotation::try_from(transform.heading) {
                if r0 != new_rotation {
                    *rotation = Some(new_rotation);
                    writes.rotation = true;
                }
            }
        }
    }

    // Synchronize Direction with Transform
    if let Some(d0) = *direction {
        if direction_changed {
            if let Ok(direction_rotation) = Rotation::try_from(d0) {
                let new_heading = Direction::from(direction_rotation);
                if transform.heading != new_heading {
                    transform.heading = new_heading;
                    writes.transform = true;
                }
            }
        } else if transform_changed {
            let new_direction = transform.heading;
            if d0 != new_direction {
                *direction = Some(new_direction);
                writes.direction = true;
            }
        }
    }

    // Synchronize Position with Transform
    if let Some(p0) = *position {
        if position_changed {
            if transform.x != p0.x {
                transform.x = p0.x;
                writes.transform = true;
            }
            if transform.y != p0.y {
                transform.y = p0.y;
                writes.transform = true;
            }
        } else if transform_changed {
            if p0.x != transform.x || p0.y != transform.y {
                *position = Some(Position { x: transform.x, y: transform.y });
                writes.position = true;
            }
        }
    }

    writes
}

/// An edit of the transform alone settles in one pass: a second phase-B pass,
/// whose change flags are exactly the first pass's writes, writes nothing and
/// changes nothing.
///
/// This holds only for the transform-changed direction of the protocol; an
/// edit of a local value can take a further cycle to settle, because phase B
/// writes it into the transform first and reads it back out into the other
/// local value only on the next pass.
pub proof fn lemma_transform_edit_settles(
    transform: PlanarTransform,
    rotation: Option<Rotation>,
    direction: Option<Direction>,
    position: Option<Position>,
)
    ensures
        ({
            let (t1, r1, d1, p1, w1) = spec_sync_transform_with_2d(
                transform,
                rotation,
                direction,
                position,
                true,
                false,
                false,
                false,
            );
            let (t2, r2, d2, p2, w2) = spec_sync_transform_with_2d(
                t1,
                r1,
                d1,
                p1,
                w1.transform,
                w1.rotation,
                w1.direction,
                w1.position,
            );
            w2 == (SyncWrites { rotation: false, direction: false, transform: false, position: false })
                && t2 == t1 && r2 == r1 && d2 == d1 && p2 == p1
        }),
{
}

/// The whole protocol settles: however an entity was edited, feeding each
/// phase-B pass's writes back in as the next pass's only change flags reaches
/// a fixpoint by the third pass, which writes nothing and changes nothing.
///
/// The middle pass is what makes this two steps rather than one: an edited
/// local value is written into the transform first, and only the next pass
/// copies it onward into the other local values.
pub proof fn lemma_sync_transform_stabilizes(
    transform: PlanarTransform,
    rotation: Option<Rotation>,
    direction: Option<Direction>,
    position: Option<Position>,
    transform_changed: bool,
    rotation_changed: bool,
    direction_changed: bool,
    position_changed: bool,
)
    ensures
        ({
            let (t1, r1, d1, p1, w1) = spec_sync_transform_with_2d(
                transform,
                rotation,
                direction,
                position,
                transform_changed,
                rotation_changed,
                direction_changed,
                position_changed,
            );
            let (t2, r2, d2, p2, w2) = spec_sync_transform_with_2d(
                t1,
                r1,
                d1,
                p1,
                w1.transform,
                w1.rotation,
                w1.direction,
                w1.position,
            );
            let (t3, r3, d3, p3, w3) = spec_sync_transform_with_2d(
                t2,
                r2,
                d2,
                p2,
                w2.transform,
                w2.rotation,
                w2.direction,
                w2.position,
            );
            w3 == (SyncWrites { rotation: false, direction: false, transform: false, position: false })
                && t3 == t2 && r3 == r2 && d3 == d2 && p3 == p2
        }),
{
}

} // verus!
