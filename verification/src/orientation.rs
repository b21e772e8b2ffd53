//! Direction and rotation for spinning around in 2 dimensions.

use vstd::prelude::*;

verus! {

/// The supplied vector-like value was too close to zero to be converted into a
/// rotation-like type.
///
/// In almost all cases, the correct way to handle this error is to simply not
/// change the rotation.
#[derive(Debug, Clone, Copy, PartialEq, Eq, Structural)]
pub struct NearlySingularConversion;

/// A direction of rotation.
#[derive(Debug, Clone, Copy, PartialEq, Eq, Structural)]
pub enum RotationDirection {
    /// Corresponds to a positive rotation
    Clockwise,
    /// Corresponds to a negative rotation
    CounterClockwise,
}

/// A discretized 2-dimensional rotation.
///
/// Internally, these are stored in normalized tenths of a degree, measured
/// clockwise from midnight (x = 0, y = 1), and so can be cleanly added and
/// reversed without accumulating error.
#[derive(Debug, Clone, Copy, PartialEq, Eq, Structural, Hash, PartialOrd)]
pub struct Rotation {
    /// Tenths of a degree, measured clockwise from midnight.
    ///
    /// 3600 make up a full circle.
    deci_degrees: u16,
}

impl View for Rotation {
    type V = int;

    /// The stored angle, in tenths of a degree.
    closed spec fn view(&self) -> int {
        self.deci_degrees as int
    }
}

/// Reduces an angle in tenths of a degree into the principal range [0, 3600).
pub open spec fn wrap_deci(d: int) -> int {
    d % (Rotation::FULL_CIRCLE as int)
}

/// The straight absolute difference of two stored angle magnitudes.
///
/// This is deliberately not the shortest arc around the circle: two nearly
/// aligned rotations on opposite sides of midnight are far apart by this
/// measure.
pub open spec fn spec_distance(a: int, b: int) -> int {
    if a >= b {
        a - b
    } else {
        b - a
    }
}

impl Rotation {
    /// The number of deci-degrees that make up a full circle.
    pub const FULL_CIRCLE: u16 = 3600;

    /// The rotation whose stored angle is `d`, truncated to the machine width.
    pub closed spec fn from_deci(d: int) -> Rotation {
        Rotation { deci_degrees: d as u16 }
    }

    /// The rotation obtained by normalizing `d` into [0, 3600).
    pub open spec fn spec_new(d: int) -> Rotation {
        Rotation::from_deci(wrap_deci(d))
    }

    /// The stored angle lies in the principal range [0, 3600).
    ///
    /// Every rotation built by this module's constructors satisfies this.
    pub open spec fn is_normalized(self) -> bool {
        0 <= self@ < Rotation::FULL_CIRCLE as int
    }

    /// `from_deci` reproduces exactly the angles that fit the machine width.
    pub broadcast proof fn lemma_from_deci(d: int)
        requires
            0 <= d < 0x10000,
        ensures
            (#[trigger] Rotation::from_deci(d))@ == d,
    {
    }

    /// A rotation is determined by its stored angle.
    pub broadcast proof fn lemma_view_inverse(r: Rotation)
        ensures
            #[trigger] Rotation::from_deci(r@) == r,
    {
    }

    /// Creates a new [`Rotation`] from a whole number of tenths of a degree.
    ///
    /// Measured clockwise from midnight. Any input is accepted; it is wrapped
    /// into the principal range.
    pub fn new(deci_degrees: u16) -> (r: Rotation)
        ensures
            r == Rotation::spec_new(deci_degrees as int),
            r@ == wrap_deci(deci_degrees as int),
            r.is_normalized(),
    {
        Rotation { deci_degrees: deci_degrees % Rotation::FULL_CIRCLE }
    }

    /// Returns the exact internal measurement, stored in tenths of a degree.
    ///
    /// Measured clockwise from midnight (x = 0, y = 1). 3600 make up a full
    /// circle.
    pub fn deci_degrees(&self) -> (r: u16)
        ensures
            r as int == self@,
    {
        self.deci_degrees
    }

    /// Returns the absolute distance between `self` and `other` as a
    /// [`Rotation`].
    ///
    /// This is the plain difference of the two stored magnitudes, not the
    /// shortest arc around the circle, and so can exceed a half circle.
    pub fn distance(&self, other: Rotation) -> (r: Rotation)
        requires
            self.is_normalized(),
            other.is_normalized(),
        ensures
            r@ == spec_distance(self@, other@),
            r.is_normalized(),
    {
        if self.deci_degrees >= other.deci_degrees {
            Rotation { deci_degrees: self.deci_degrees - other.deci_degrees }
        } else {
            Rotation { deci_degrees: other.deci_degrees - self.deci_degrees }
        }
    }

    /// Which direction is the shortest to rotate towards to reach `target`?
    ///
    /// A distance of exactly a half circle resolves to
    /// [`RotationDirection::CounterClockwise`].
    pub fn rotation_direction(&self, target: Rotation) -> (r: RotationDirection)
        requires
            self.is_normalized(),
            target.is_normalized(),
        ensures
            r == spec_rotation_direction(self@, target@),
    {
        if self.distance(target).deci_degrees() > Rotation::FULL_CIRCLE / 2 {
            RotationDirection::Clockwise
        } else {
            RotationDirection::CounterClockwise
        }
    }

    /// Rotates `self` towards `target` by up to `max_rotation`.
    ///
    /// When `target` is already within `max_rotation`, `self` jumps directly to
    /// `target`, which avoids overshooting and oscillating at the boundary.
    pub fn rotate_towards(&mut self, target: Rotation, max_rotation: Rotation)
        requires
            old(self).is_normalized(),
            target.is_normalized(),
            max_rotation.is_normalized(),
        ensures
            final(self).is_normalized(),
            *final(self) == spec_rotate_towards(*old(self), target, max_rotation),
            spec_distance(old(self)@, target@) <= max_rotation@ ==> *final(self) == target,
    {
        if self.distance(target).deci_degrees() <= max_rotation.deci_degrees() {
            *self = target;
        } else {
            let new_rotation = match self.rotation_direction(target) {
                RotationDirection::Clockwise => *self + max_rotation,
                RotationDirection::CounterClockwise => *self - max_rotation,
            };
            *self = new_rotation;
        }
    }
}

/// The direction in which a rotation with the given stored angle most quickly
/// reaches one with angle `b`, under the straight-difference distance.
pub open spec fn spec_rotation_direction(a: int, b: int) -> RotationDirection {
    if spec_distance(a, b) > Rotation::FULL_CIRCLE as int / 2 {
        RotationDirection::Clockwise
    } else {
        RotationDirection::CounterClockwise
    }
}

/// The wrapping sum of two normalized rotations.
pub open spec fn rot_plus(a: Rotation, b: Rotation) -> Rotation {
    Rotation::spec_new(a@ + b@)
}

/// The wrapping difference of two normalized rotations.
///
/// A full circle is added before subtracting whenever `b` exceeds `a`, so the
/// value never goes below zero on the way to being normalized.
pub open spec fn rot_minus(a: Rotation, b: Rotation) -> Rotation {
    if a@ >= b@ {
        Rotation::spec_new(a@ - b@)
    } else {
        Rotation::spec_new(a@ + Rotation::FULL_CIRCLE as int - b@)
    }
}

/// The rotation reached from `cur` by one bounded step towards `target`.
pub open spec fn spec_rotate_towards(cur: Rotation, target: Rotation, max_rotation: Rotation) -> Rotation {
    if spec_distance(cur@, target@) <= max_rotation@ {
        target
    } else if spec_rotation_direction(cur@, target@) is Clockwise {
        rot_plus(cur, max_rotation)
    } else {
        rot_minus(cur, max_rotation)
    }
}

impl core::ops::Add for Rotation {
    type Output = Rotation;

    /// Wrapping addition of two normalized rotations.
    fn add(self, rhs: Rotation) -> (r: Rotation) {
        Rotation::new(self.deci_degrees + rhs.deci_degrees)
    }
}

impl vstd::std_specs::ops::AddSpecImpl for Rotation {
    open spec fn obeys_add_spec() -> bool {
        true
    }

    open spec fn add_req(self, rhs: Rotation) -> bool {
        self.is_normalized() && rhs.is_normalized()
    }

    open spec fn add_spec(self, rhs: Rotation) -> Rotation {
        rot_plus(self, rhs)
    }
}

impl core::ops::Sub for Rotation {
    type Output = Rotation;

    /// Wrapping subtraction of two normalized rotations.
    fn sub(self, rhs: Rotation) -> (r: Rotation) {
        if self.deci_degrees >= rhs.deci_degrees {
            Rotation::new(self.deci_degrees - rhs.deci_degrees)
        } else {
            Rotation::new(self.deci_degrees + Rotation::FULL_CIRCLE - rhs.deci_degrees)
        }
    }
}

impl vstd::std_specs::ops::SubSpecImpl for Rotation {
    open spec fn obeys_sub_spec() -> bool {
        true
    }

    open spec fn sub_req(self, rhs: Rotation) -> bool {
        self.is_normalized() && rhs.is_normalized()
    }

    open spec fn sub_spec(self, rhs: Rotation) -> Rotation {
        rot_minus(self, rhs)
    }
}

impl core::ops::Neg for Rotation {
    type Output = Rotation;

    /// The rotation that undoes `self`: a full circle minus the stored angle,
    /// normalized, so that negating midnight leaves midnight unchanged.
    fn neg(self) -> (r: Rotation) {
        Rotation::new(Rotation::FULL_CIRCLE - self.deci_degrees)
    }
}

impl vstd::std_specs::ops::NegSpecImpl for Rotation {
    open spec fn obeys_neg_spec() -> bool {
        true
    }

    open spec fn neg_req(self) -> bool {
        self.is_normalized()
    }

    open spec fn neg_spec(self) -> Rotation {
        Rotation::spec_new(Rotation::FULL_CIRCLE as int - self@)
    }
}

impl Default for Rotation {
    /// The rotation pointing due north (midnight).
    fn default() -> (r: Rotation)
        ensures
            r == Rotation::spec_new(0),
            r@ == 0,
    {
        Rotation::new(0)
    }
}

// Compass points.
impl Rotation {
    /// The rotation that points straight up
    pub fn north() -> (r: Rotation)
        ensures
            r@ == 0,
            r.is_normalized(),
    {
        Rotation::new(0)
    }

    /// The rotation that points straight right
    pub fn east() -> (r: Rotation)
        ensures
            r@ == 900,
            r.is_normalized(),
    {
        Rotation::new(900)
    }

    /// The rotation that points straight down
    pub fn south() -> (r: Rotation)
        ensures
            r@ == 1800,
            r.is_normalized(),
    {
        Rotation::new(1800)
    }

    /// The rotation that points straight left
    pub fn west() -> (r: Rotation)
        ensures
            r@ == 2700,
            r.is_normalized(),
    {
        Rotation::new(2700)
    }

    /// The rotation that points halfway between up and right
    pub fn northeast() -> (r: Rotation)
        ensures
            r@ == 450,
            r.is_normalized(),
    {
        Rotation::new(450)
    }

    /// The rotation that points halfway between down and right
    pub fn southeast() -> (r: Rotation)
        ensures
            r@ == 1350,
            r.is_normalized(),
    {
        Rotation::new(1350)
    }

    /// The rotation that points halfway between down and left
    pub fn southwest() -> (r: Rotation)
        ensures
            r@ == 2250,
            r.is_normalized(),
    {
        Rotation::new(2250)
    }

    /// The rotation that points halfway between left and up
    pub fn northwest() -> (r: Rotation)
        ensures
            r@ == 3150,
            r.is_normalized(),
    {
        Rotation::new(3150)
    }
}

/// A discretized unit direction.
///
/// A direction either points along some normalized [`Rotation`] or is the
/// neutral sentinel, which does not point anywhere. The neutral value stands
/// for a vector whose magnitude is too close to zero to imply any angle; it is
/// the one value with no heading, and converting it to a rotation fails.
#[derive(Debug, Clone, Copy, PartialEq, Eq, Structural, Default)]
pub enum Direction {
    /// The neutral direction, which does not point anywhere
    #[default]
    Neutral,
    /// A direction pointing along the contained rotation
    Toward(Rotation),
}

impl Direction {
    /// A direction's rotation, where it has one, is normalized.
    pub open spec fn is_well_formed(self) -> bool {
        match self {
            Direction::Neutral => true,
            Direction::Toward(r) => r.is_normalized(),
        }
    }

    /// The neutral direction, which does not point anywhere
    pub fn neutral() -> (d: Direction)
        ensures
            d == Direction::Neutral,
    {
        Direction::Neutral
    }

    /// The direction that points straight up
    pub fn north() -> (d: Direction)
        ensures
            d == Direction::Toward(Rotation::spec_new(0)),
            d.is_well_formed(),
    {
        Direction::Toward(Rotation::new(0))
    }

    /// The direction that points straight right
    pub fn east() -> (d: Direction)
        ensures
            d == Direction::Toward(Rotation::spec_new(900)),
            d.is_well_formed(),
    {
        Direction::Toward(Rotation::new(900))
    }

    /// The direction that points straight down
    pub fn south() -> (d: Direction)
        ensures
            d == Direction::Toward(Rotation::spec_new(1800)),
            d.is_well_formed(),
    {
        Direction::Toward(Rotation::new(1800))
    }

    /// The direction that points straight left
    pub fn west() -> (d: Direction)
        ensures
            d == Direction::Toward(Rotation::spec_new(2700)),
            d.is_well_formed(),
    {
        Direction::Toward(Rotation::new(2700))
    }

    /// The direction that points halfway between up and right
    pub fn northeast() -> (d: Direction)
        ensures
            d == Direction::Toward(Rotation::spec_new(450)),
            d.is_well_formed(),
    {
        Direction::Toward(Rotation::new(450))
    }

    /// The direction that points halfway between down and right
    pub fn southeast() -> (d: Direction)
        ensures
            d == Direction::Toward(Rotation::spec_new(1350)),
            d.is_well_formed(),
    {
        Direction::Toward(Rotation::new(1350))
    }

    /// The direction that points halfway between down and left
    pub fn southwest() -> (d: Direction)
        ensures
            d == Direction::Toward(Rotation::spec_new(2250)),
            d.is_well_formed(),
    {
        Direction::Toward(Rotation::new(2250))
    }

    /// The direction that points halfway between left and up
    pub fn northwest() -> (d: Direction)
        ensures
            d == Direction::Toward(Rotation::spec_new(3150)),
            d.is_well_formed(),
    {
        Direction::Toward(Rotation::new(3150))
    }

    /// Returns the absolute distance between `self` and `other` as a
    /// [`Rotation`] if possible.
    ///
    /// Fails with [`NearlySingularConversion`] exactly when `self` or `other`
    /// is neutral, since no angle is defined there.
    pub fn distance(&self, other: Direction) -> (r: Result<Rotation, NearlySingularConversion>)
        requires
            self.is_well_formed(),
            other.is_well_formed(),
        ensures
            r == spec_heading_distance(*self, other),
            r is Err <==> (*self is Neutral || other is Neutral),
            r matches Ok(d) ==> d.is_normalized(),
    {
        match (*self, other) {
            (Direction::Toward(a), Direction::Toward(b)) => Ok(a.distance(b)),
            _ => Err(NearlySingularConversion),
        }
    }
}

/// The distance between two directions: defined only where both have one.
pub open spec fn spec_heading_distance(a: Direction, b: Direction) -> Result<
    Rotation,
    NearlySingularConversion,
> {
    match (a, b) {
        (Direction::Toward(ra), Direction::Toward(rb)) => Ok(
            Rotation::from_deci(spec_distance(ra@, rb@)),
        ),
        _ => Err(NearlySingularConversion),
    }
}

impl core::convert::From<Rotation> for Direction {
    /// The direction pointing along `rotation`. Total: every rotation implies
    /// a heading.
    fn from(rotation: Rotation) -> (d: Direction) {
        Direction::Toward(rotation)
    }
}

impl vstd::std_specs::convert::FromSpecImpl<Rotation> for Direction {
    open spec fn obeys_from_spec() -> bool {
        true
    }

    open spec fn from_spec(rotation: Rotation) -> Direction {
        Direction::Toward(rotation)
    }
}

impl core::convert::TryFrom<Direction> for Rotation {
    type Error = NearlySingularConversion;

    /// The rotation a direction points along. Fails with
    /// [`NearlySingularConversion`] exactly on the neutral direction, which has
    /// no heading.
    fn try_from(direction: Direction) -> (r: Result<Rotation, NearlySingularConversion>) {
        match direction {
            Direction::Toward(rotation) => Ok(rotation),
            Direction::Neutral => Err(NearlySingularConversion),
        }
    }
}

impl vstd::std_specs::convert::TryFromSpecImpl<Direction> for Rotation {
    open spec fn obeys_try_from_spec() -> bool {
        true
    }

    open spec fn try_from_spec(direction: Direction) -> Result<Rotation, NearlySingularConversion> {
        match direction {
            Direction::Toward(rotation) => Ok(rotation),
            Direction::Neutral => Err(NearlySingularConversion),
        }
    }
}

/// Wraparound: a raw angle and that angle plus any whole number of full
/// circles construct the same rotation.
pub proof fn lemma_new_wraps(k: int, r: int)
    ensures
        Rotation::spec_new(k * 3600 + r) == Rotation::spec_new(r),
{
    vstd::arithmetic::div_mod::lemma_mod_multiples_vanish(k, r, 3600);
    assert(3600 * k + r == k * 3600 + r) by (nonlinear_arith);
}

/// Adding or subtracting a whole circle leaves every normalized rotation
/// unchanged.
pub proof fn lemma_full_circle_identity(a: Rotation)
    requires
        a.is_normalized(),
    ensures
        rot_plus(a, Rotation::spec_new(3600)) == a,
        rot_minus(a, Rotation::spec_new(3600)) == a,
{
    Rotation::lemma_from_deci(0);
    Rotation::lemma_from_deci(a@);
    Rotation::lemma_view_inverse(a);
    assert(wrap_deci(a@) == a@);
}

/// The straight-difference distance is symmetric in its two arguments.
///
/// It is not bounded by a half circle: stored angles on opposite sides of
/// midnight can be nearly a full circle apart by this measure.
pub proof fn lemma_distance_symmetric(a: Rotation, b: Rotation)
    ensures
        spec_distance(a@, b@) == spec_distance(b@, a@),
{
}

/// A distance of exactly a half circle resolves to counter-clockwise.
pub proof fn lemma_half_circle_is_counter_clockwise(a: Rotation, b: Rotation)
    requires
        spec_distance(a@, b@) == 1800,
    ensures
        spec_rotation_direction(a@, b@) == RotationDirection::CounterClockwise,
{
}

/// A target within reach of one bounded step is hit exactly.
pub proof fn lemma_rotate_towards_within_step(cur: Rotation, target: Rotation, max_rotation: Rotation)
    requires
        spec_distance(cur@, target@) <= max_rotation@,
    ensures
        spec_rotate_towards(cur, target, max_rotation) == target,
{
}

} // verus!
