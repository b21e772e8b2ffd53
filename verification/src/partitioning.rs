//! Tools to partition directions into discrete regions.

use crate::orientation::{spec_distance, Direction, Rotation};
use vstd::prelude::*;

verus! {

broadcast use Rotation::lemma_view_inverse;

/// Index `i` points at the first entry of the angle table `angles` that is
/// nearest to the queried angle `q`, by the straight-difference distance.
///
/// Nearness is not strict: later entries may be equally near, but none may be
/// nearer, and every strictly earlier entry must be strictly farther. At most
/// one index of a table satisfies this, which is what makes snapping
/// deterministic.
pub open spec fn nearest_in(angles: Seq<int>, q: int, i: int) -> bool {
    &&& 0 <= i < angles.len()
    &&& forall|j: int|
        0 <= j < angles.len() ==> spec_distance(q, angles[i]) <= spec_distance(
            q,
            #[trigger] angles[j],
        )
    &&& forall|j: int|
        0 <= j < i ==> spec_distance(q, #[trigger] angles[j]) > spec_distance(q, angles[i])
}

/// At most one index of an angle table is the first nearest one.
pub proof fn lemma_nearest_unique(angles: Seq<int>, q: int, i1: int, i2: int)
    requires
        nearest_in(angles, q, i1),
        nearest_in(angles, q, i2),
    ensures
        i1 == i2,
{
    if i1 < i2 {
        assert(spec_distance(q, angles[i1]) > spec_distance(q, angles[i2]));
        assert(spec_distance(q, angles[i1]) <= spec_distance(q, angles[i2]));
    }
    if i2 < i1 {
        assert(spec_distance(q, angles[i2]) > spec_distance(q, angles[i1]));
        assert(spec_distance(q, angles[i2]) <= spec_distance(q, angles[i1]));
    }
}

/// Of two table entries at equal distance from the query, the first nearest
/// index is never the one appearing later in the table.
pub proof fn lemma_snap_prefers_earlier(angles: Seq<int>, q: int, i: int, j: int, k: int)
    requires
        0 <= i < j < angles.len(),
        spec_distance(q, angles[i]) == spec_distance(q, angles[j]),
        nearest_in(angles, q, k),
    ensures
        k != j,
{
    if k == j {
        assert(spec_distance(q, angles[i]) > spec_distance(q, angles[j]));
    }
}

/// An exhaustive partitioning of the unit circle, snapping continuous
/// directional input into one of a few possible options.
///
/// Only `spec_partitions`, `spec_deci`, `partitions` and `into_rotation`
/// should be manually defined when implementing this trait for new types; the
/// remaining operations are provided.
pub trait DirectionParitioning: Sized + Copy {
    /// The fixed, ordered table of partitions, as it is seen by contracts.
    spec fn spec_partitions() -> Seq<Self>;

    /// The angle assigned to this partition by the static table, in tenths of
    /// a degree.
    spec fn spec_deci(self) -> int;

    /// Returns the vector of possible partitions that can be snapped to.
    ///
    /// The table is fixed at definition time and holds at least one element.
    fn partitions() -> (v: Vec<Self>)
        ensures
            v@ == Self::spec_partitions(),
            v@.len() > 0,
    ;

    /// Returns the rotation assigned to this partition.
    fn into_rotation(self) -> (r: Rotation)
        ensures
            r@ == self.spec_deci(),
            r.is_normalized(),
    ;

    /// Returns the direction assigned to this partition.
    fn into_direction(self) -> (d: Direction)
        ensures
            d == Direction::Toward(Rotation::from_deci(self.spec_deci())),
            d.is_well_formed(),
    {
        Direction::Toward(self.into_rotation())
    }

    /// Returns a vector of the snappable rotations, in table order.
    fn rotations() -> (v: Vec<Rotation>)
        ensures
            v@.len() == Self::spec_partitions().len(),
            forall|i: int|
                0 <= i < v@.len() ==> v@[i] == Rotation::from_deci(
                    #[trigger] Self::spec_partitions()[i].spec_deci(),
                ),
    {
        let ps = Self::partitions();
        let mut v: Vec<Rotation> = Vec::new();
        let mut k: usize = 0;
        while k < ps.len()
            invariant
                ps@ == Self::spec_partitions(),
                0 <= k <= ps@.len(),
                v@.len() == k as int,
                forall|i: int|
                    0 <= i < k as int ==> v@[i] == Rotation::from_deci(
                        #[trigger] Self::spec_partitions()[i].spec_deci(),
                    ),
            decreases ps@.len() - k,
        {
            v.push(ps[k].into_rotation());
            k += 1;
        }
        v
    }

    /// Returns a vector of the snappable directions, in table order.
    fn directions() -> (v: Vec<Direction>)
        ensures
            v@.len() == Self::spec_partitions().len(),
            forall|i: int|
                0 <= i < v@.len() ==> v@[i] == Direction::Toward(
                    Rotation::from_deci(#[trigger] Self::spec_partitions()[i].spec_deci()),
                ),
    {
        let ps = Self::partitions();
        let mut v: Vec<Direction> = Vec::new();
        let mut k: usize = 0;
        while k < ps.len()
            invariant
                ps@ == Self::spec_partitions(),
                0 <= k <= ps@.len(),
                v@.len() == k as int,
                forall|i: int|
                    0 <= i < k as int ==> v@[i] == Direction::Toward(
                        Rotation::from_deci(#[trigger] Self::spec_partitions()[i].spec_deci()),
                    ),
            decreases ps@.len() - k,
        {
            v.push(ps[k].into_direction());
            k += 1;
        }
        v
    }

    /// Snaps to the nearest partition.
    ///
    /// The table is scanned in order and an entry replaces the current best
    /// only when strictly nearer, so of several equally near entries the first
    /// one in table order wins.
    fn snap(rotation: Rotation) -> (p: Self)
        requires
            rotation.is_normalized(),
        ensures
            exists|i: int|
                nearest_in(
                    Self::spec_partitions().map_values(|q: Self| q.spec_deci()),
                    rotation@,
                    i,
                ) && p == #[trigger] Self::spec_partitions()[i],
    {
        let ps = Self::partitions();
        let mut best: usize = 0;
        let mut best_distance: Rotation = rotation.distance(ps[0].into_rotation());
        let mut k: usize = 1;
        while k < ps.len()
            invariant
                ps@ == Self::spec_partitions(),
                rotation.is_normalized(),
                0 < k <= ps@.len(),
                0 <= best < k,
                best_distance@ == spec_distance(rotation@, ps@[best as int].spec_deci()),
                forall|j: int|
                    0 <= j < k as int ==> best_distance@ <= spec_distance(
                        rotation@,
                        #[trigger] ps@[j].spec_deci(),
                    ),
                forall|j: int|
                    0 <= j < best as int ==> spec_distance(rotation@, #[trigger] ps@[j].spec_deci())
                        > best_distance@,
            decreases ps@.len() - k,
        {
            let candidate_distance = rotation.distance(ps[k].into_rotation());
            if candidate_distance.deci_degrees() < best_distance.deci_degrees() {
                best = k;
                best_distance = candidate_distance;
            }
            k += 1;
        }
        proof {
            let angles = Self::spec_partitions().map_values(|q: Self| q.spec_deci());
            assert forall|j: int| 0 <= j < angles.len() implies #[trigger] angles[j]
                == Self::spec_partitions()[j].spec_deci() by {}
            assert(nearest_in(angles, rotation@, best as int));
        }
        ps[best]
    }

    /// Snaps a [`Rotation`] to the nearest matching discrete [`Rotation`].
    fn snap_rotation(rotation: Rotation) -> (r: Rotation)
        requires
            rotation.is_normalized(),
        ensures
            exists|i: int|
                nearest_in(
                    Self::spec_partitions().map_values(|q: Self| q.spec_deci()),
                    rotation@,
                    i,
                ) && r == Rotation::from_deci(#[trigger] Self::spec_partitions()[i].spec_deci()),
            r.is_normalized(),
    {
        let p = Self::snap(rotation);
        let r = p.into_rotation();
        proof {
            let i = choose|i: int|
                nearest_in(
                    Self::spec_partitions().map_values(|q: Self| q.spec_deci()),
                    rotation@,
                    i,
                ) && p == #[trigger] Self::spec_partitions()[i];
            assert(r == Rotation::from_deci(Self::spec_partitions()[i].spec_deci()));
        }
        r
    }

    /// Snaps a [`Direction`] to the nearest matching discrete [`Direction`].
    ///
    /// The neutral direction has no heading to snap, so it is passed through
    /// unchanged rather than failing.
    fn snap_direction(direction: Direction) -> (d: Direction)
        requires
            direction.is_well_formed(),
        ensures
            direction is Neutral ==> d == Direction::Neutral,
            direction matches Direction::Toward(r) ==> exists|i: int|
                nearest_in(
                    Self::spec_partitions().map_values(|q: Self| q.spec_deci()),
                    r@,
                    i,
                ) && d == Direction::Toward(
                    Rotation::from_deci(#[trigger] Self::spec_partitions()[i].spec_deci()),
                ),
            d.is_well_formed(),
    {
        match direction {
            Direction::Neutral => Direction::Neutral,
            Direction::Toward(r) => Direction::Toward(Self::snap_rotation(r)),
        }
    }
}

/// A 4-way [`DirectionParitioning`], corresponding to the four cardinal
/// directions.
#[derive(Debug, Clone, Copy, PartialEq, Eq, Structural)]
pub enum CardinalQuadrant {
    /// Up
    North,
    /// Right
    East,
    /// Down
    South,
    /// Left
    West,
}

impl DirectionParitioning for CardinalQuadrant {
    open spec fn spec_partitions() -> Seq<CardinalQuadrant> {
        seq![
            CardinalQuadrant::North,
            CardinalQuadrant::East,
            CardinalQuadrant::South,
            CardinalQuadrant::West,
        ]
    }

    open spec fn spec_deci(self) -> int {
        match self {
            CardinalQuadrant::North => 0,
            CardinalQuadrant::East => 900,
            CardinalQuadrant::South => 1800,
            CardinalQuadrant::West => 2700,
        }
    }

    fn partitions() -> (v: Vec<CardinalQuadrant>) {
        let mut v: Vec<CardinalQuadrant> = Vec::new();
        v.push(CardinalQuadrant::North);
        v.push(CardinalQuadrant::East);
        v.push(CardinalQuadrant::South);
        v.push(CardinalQuadrant::West);
        proof {
            assert(v@ =~= Self::spec_partitions());
        }
        v
    }

    fn into_rotation(self) -> (r: Rotation) {
        match self {
            CardinalQuadrant::North => Rotation::new(0),
            CardinalQuadrant::East => Rotation::new(900),
            CardinalQuadrant::South => Rotation::new(1800),
            CardinalQuadrant::West => Rotation::new(2700),
        }
    }
}

/// A 4-way [`DirectionParitioning`], corresponding to the four cardinal
/// directions offset by 45 degrees.
#[derive(Debug, Clone, Copy, PartialEq, Eq, Structural)]
pub enum OffsetQuadrant {
    /// Up and right
    NorthEast,
    /// Down and right
    SouthEast,
    /// Down and left
    SouthWest,
    /// Up and left
    NorthWest,
}

impl DirectionParitioning for OffsetQuadrant {
    open spec fn spec_partitions() -> Seq<OffsetQuadrant> {
        seq![
            OffsetQuadrant::NorthEast,
            OffsetQuadrant::SouthEast,
            OffsetQuadrant::SouthWest,
            OffsetQuadrant::NorthWest,
        ]
    }

    open spec fn spec_deci(self) -> int {
        match self {
            OffsetQuadrant::NorthEast => 450,
            OffsetQuadrant::SouthEast => 1350,
            OffsetQuadrant::SouthWest => 2250,
            OffsetQuadrant::NorthWest => 3150,
        }
    }

    fn partitions() -> (v: Vec<OffsetQuadrant>) {
        let mut v: Vec<OffsetQuadrant> = Vec::new();
        v.push(OffsetQuadrant::NorthEast);
        v.push(OffsetQuadrant::SouthEast);
        v.push(OffsetQuadrant::SouthWest);
        v.push(OffsetQuadrant::NorthWest);
        proof {
            assert(v@ =~= Self::spec_partitions());
        }
        v
    }

    fn into_rotation(self) -> (r: Rotation) {
        match self {
            OffsetQuadrant::NorthEast => Rotation::new(450),
            OffsetQuadrant::SouthEast => Rotation::new(1350),
            OffsetQuadrant::SouthWest => Rotation::new(2250),
            OffsetQuadrant::NorthWest => Rotation::new(3150),
        }
    }
}

/// An 8-way [`DirectionParitioning`], corresponding to the four cardinal
/// directions and the intermediate values.
#[derive(Debug, Clone, Copy, PartialEq, Eq, Structural)]
pub enum CardinalOctant {
    /// Up
    North,
    /// Up and right
    NorthEast,
    /// Right
    East,
    /// Down and right
    SouthEast,
    /// Down
    South,
    /// Down and left
    SouthWest,
    /// Left
    West,
    /// Up and left
    NorthWest,
}

impl DirectionParitioning for CardinalOctant {
    open spec fn spec_partitions() -> Seq<CardinalOctant> {
        seq![
            CardinalOctant::North,
            CardinalOctant::NorthEast,
            CardinalOctant::East,
            CardinalOctant::SouthEast,
            CardinalOctant::South,
            CardinalOctant::SouthWest,
            CardinalOctant::West,
            CardinalOctant::NorthWest,
        ]
    }

    open spec fn spec_deci(self) -> int {
        match self {
            CardinalOctant::North => 0,
            CardinalOctant::NorthEast => 450,
            CardinalOctant::East => 900,
            CardinalOctant::SouthEast => 1350,
            CardinalOctant::South => 1800,
            CardinalOctant::SouthWest => 2250,
            CardinalOctant::West => 2700,
            CardinalOctant::NorthWest => 3150,
        }
    }

    fn partitions() -> (v: Vec<CardinalOctant>) {
        let mut v: Vec<CardinalOctant> = Vec::new();
        v.push(CardinalOctant::North);
        v.push(CardinalOctant::NorthEast);
        v.push(CardinalOctant::East);
        v.push(CardinalOctant::SouthEast);
        v.push(CardinalOctant::South);
        v.push(CardinalOctant::SouthWest);
        v.push(CardinalOctant::West);
        v.push(CardinalOctant::NorthWest);
        proof {
            assert(v@ =~= Self::spec_partitions());
        }
        v
    }

    fn into_rotation(self) -> (r: Rotation) {
        match self {
            CardinalOctant::North => Rotation::new(0),
            CardinalOctant::NorthEast => Rotation::new(450),
            CardinalOctant::East => Rotation::new(900),
            CardinalOctant::SouthEast => Rotation::new(1350),
            CardinalOctant::South => Rotation::new(1800),
            CardinalOctant::SouthWest => Rotation::new(2250),
            CardinalOctant::West => Rotation::new(2700),
            CardinalOctant::NorthWest => Rotation::new(3150),
        }
    }
}

/// A 6-way [`DirectionParitioning`], corresponding to the 6 directions of a
/// tip-up hexagon.
///
/// For visualization purposes, these hexagons can be tiled in a row.
#[derive(Debug, Clone, Copy, PartialEq, Eq, Structural)]
pub enum CardinalSextant {
    /// Up
    North,
    /// Up and right
    NorthEast,
    /// Down and right
    SouthEast,
    /// Down
    South,
    /// Down and left
    SouthWest,
    /// Up and left
    NorthWest,
}

impl DirectionParitioning for CardinalSextant {
    open spec fn spec_partitions() -> Seq<CardinalSextant> {
        seq![
            CardinalSextant::North,
            CardinalSextant::NorthEast,
            CardinalSextant::SouthEast,
            CardinalSextant::South,
            CardinalSextant::SouthWest,
            CardinalSextant::NorthWest,
        ]
    }

    open spec fn spec_deci(self) -> int {
        match self {
            CardinalSextant::North => 0,
            CardinalSextant::NorthEast => 600,
            CardinalSextant::SouthEast => 1200,
            CardinalSextant::South => 1800,
            CardinalSextant::SouthWest => 2400,
            CardinalSextant::NorthWest => 3000,
        }
    }

    fn partitions() -> (v: Vec<CardinalSextant>) {
        let mut v: Vec<CardinalSextant> = Vec::new();
        v.push(CardinalSextant::North);
        v.push(CardinalSextant::NorthEast);
        v.push(CardinalSextant::SouthEast);
        v.push(CardinalSextant::South);
        v.push(CardinalSextant::SouthWest);
        v.push(CardinalSextant::NorthWest);
        proof {
            assert(v@ =~= Self::spec_partitions());
        }
        v
    }

    fn into_rotation(self) -> (r: Rotation) {
        match self {
            CardinalSextant::North => Rotation::new(0),
            CardinalSextant::NorthEast => Rotation::new(600),
            CardinalSextant::SouthEast => Rotation::new(1200),
            CardinalSextant::South => Rotation::new(1800),
            CardinalSextant::SouthWest => Rotation::new(2400),
            CardinalSextant::NorthWest => Rotation::new(3000),
        }
    }
}

/// A 6-way [`DirectionParitioning`], corresponding to the 6 directions of a
/// flat-up hexagon.
///
/// For visualization purposes, these hexagons can be tiled in a column.
#[derive(Debug, Clone, Copy, PartialEq, Eq, Structural)]
pub enum OffsetSextant {
    /// Up and right
    NorthEast,
    /// Right
    East,
    /// Down and right
    SouthEast,
    /// Down and left
    SouthWest,
    /// Left
    West,
    /// Up and left
    NorthWest,
}

impl DirectionParitioning for OffsetSextant {
    open spec fn spec_partitions() -> Seq<OffsetSextant> {
        seq![
            OffsetSextant::NorthEast,
            OffsetSextant::East,
            OffsetSextant::SouthEast,
            OffsetSextant::SouthWest,
            OffsetSextant::West,
            OffsetSextant::NorthWest,
        ]
    }

    open spec fn spec_deci(self) -> int {
        match self {
            OffsetSextant::NorthEast => 300,
            OffsetSextant::East => 900,
            OffsetSextant::SouthEast => 1500,
            OffsetSextant::SouthWest => 2100,
            OffsetSextant::West => 2700,
            OffsetSextant::NorthWest => 3300,
        }
    }

    fn partitions() -> (v: Vec<OffsetSextant>) {
        let mut v: Vec<OffsetSextant> = Vec::new();
        v.push(OffsetSextant::NorthEast);
        v.push(OffsetSextant::East);
        v.push(OffsetSextant::SouthEast);
        v.push(OffsetSextant::SouthWest);
        v.push(OffsetSextant::West);
        v.push(OffsetSextant::NorthWest);
        proof {
            assert(v@ =~= Self::spec_partitions());
        }
        v
    }

    fn into_rotation(self) -> (r: Rotation) {
        match self {
            OffsetSextant::NorthEast => Rotation::new(300),
            OffsetSextant::East => Rotation::new(900),
            OffsetSextant::SouthEast => Rotation::new(1500),
            OffsetSextant::SouthWest => Rotation::new(2100),
            OffsetSextant::West => Rotation::new(2700),
            OffsetSextant::NorthWest => Rotation::new(3300),
        }
    }
}

} // verus!
