//! Boxes whose faces are parallel to the axes.
use vstd::prelude::*;
use crate::raytracer::basics::Interval;
use crate::raytracer::basics::Position;
use crate::raytracer::basics::Vector;
use crate::raytracer::basics::epsilon;
use crate::raytracer::scalar::lemma_zero_and_one;
use crate::raytracer::scalar::Scalar;
use crate::raytracer::world::objects::material::Material;

verus! {

/// Why a box could not be built.
#[derive(Clone, Copy, Debug, PartialEq, Eq, Structural)]
pub enum BuildError {
    /// The low corner is above the high corner on `axis`, the first axis on
    /// which it is.
    LowAboveHigh { axis: usize },
}

impl BuildError {
    pub fn message(&self) -> (text: &'static str)
        ensures
            text@ == "Low position is greater than high position"@,
    {
        "Low position is greater than high position"
    }
}

/// The distances along a ray at which it crosses the two planes that bound a
/// box on one axis: `low` for the plane through the low corner, `high` for
/// the one through the high corner. Either may be infinite, or a NaN where
/// the ray runs inside the plane.
#[derive(Clone, Copy, Debug)]
pub struct Crossing {
    pub low: Scalar,
    pub high: Scalar,
}

impl Crossing {
    /// The crossing that comes first along the ray.
    pub open spec fn entry(self) -> Scalar {
        if self.low.gt(self.high) {
            self.high
        } else {
            self.low
        }
    }

    /// The crossing that comes last along the ray.
    pub open spec fn exit(self) -> Scalar {
        if self.low.gt(self.high) {
            self.low
        } else {
            self.high
        }
    }
}

/// The stretch of a ray that lies between the planes seen so far.
#[derive(Clone, Copy, Debug)]
pub struct Span {
    pub entry: Scalar,
    pub exit: Scalar,
}

impl Span {
    /// The whole ray, as far as finite distances go.
    pub open spec fn whole() -> Span {
        Span { entry: Scalar::min_value(), exit: Scalar::max_value() }
    }

    /// The span cut down to what lies between the two planes of one more
    /// axis: its entry moves up to a later entry, its exit down to an earlier
    /// exit.
    pub open spec fn narrowed(self, crossing: Crossing) -> Span {
        Span {
            entry: if crossing.entry().gt(self.entry) {
                crossing.entry()
            } else {
                self.entry
            },
            exit: if crossing.exit().lt(self.exit) {
                crossing.exit()
            } else {
                self.exit
            },
        }
    }

    /// Whether a distance lies in the span, its two ends included.
    pub open spec fn holds(self, t: Scalar) -> bool {
        self.entry.le(t) && t.le(self.exit)
    }
}

/// One of the six faces of a box.
#[derive(Clone, Copy, Debug, PartialEq, Eq, Structural)]
pub enum Face {
    XLow,
    XHigh,
    YLow,
    YHigh,
    ZLow,
    ZHigh,
}

impl Face {
    /// The outward normal of the face: minus one or one on its axis, zero on
    /// the two others.
    pub open spec fn normal_spec(self) -> Vector {
        let zero = Scalar::zero();
        let one = Scalar::one();
        let minus = Scalar::neg_one();
        match self {
            Face::XLow => Vector { x: minus, y: zero, z: zero },
            Face::XHigh => Vector { x: one, y: zero, z: zero },
            Face::YLow => Vector { x: zero, y: minus, z: zero },
            Face::YHigh => Vector { x: zero, y: one, z: zero },
            Face::ZLow => Vector { x: zero, y: zero, z: minus },
            Face::ZHigh => Vector { x: zero, y: zero, z: one },
        }
    }

    #[verifier::when_used_as_spec(normal_spec)]
    pub fn normal(self) -> (n: Vector)
        ensures
            n == self.normal_spec(),
    {
        let zero = Scalar::zero();
        match self {
            Face::XLow => Vector { x: Scalar::neg_one(), y: zero, z: zero },
            Face::XHigh => Vector { x: Scalar::one(), y: zero, z: zero },
            Face::YLow => Vector { x: zero, y: Scalar::neg_one(), z: zero },
            Face::YHigh => Vector { x: zero, y: Scalar::one(), z: zero },
            Face::ZLow => Vector { x: zero, y: zero, z: Scalar::neg_one() },
            Face::ZHigh => Vector { x: zero, y: zero, z: Scalar::one() },
        }
    }
}

/// A box whose faces are parallel to the axes, of one material. On no axis
/// is its low corner above its high corner.
#[derive(Clone, Copy, Debug)]
pub struct AABBox {
    low: Position,
    high: Position,
    material: Material,
}

impl AABBox {
    #[verifier::type_invariant]
    spec fn ordered_corners(self) -> bool {
        Self::ordered(self.low, self.high)
    }

    pub closed spec fn low_spec(&self) -> Position {
        self.low
    }

    pub closed spec fn high_spec(&self) -> Position {
        self.high
    }

    pub closed spec fn material_spec(&self) -> Material {
        self.material
    }

    /// Whether `low` is above `high` on an axis.
    pub open spec fn above_on(low: Position, high: Position, axis: int) -> bool {
        low.component(axis).gt(high.component(axis))
    }

    /// Whether two corners can bound a box: on no axis is `low` above `high`.
    pub open spec fn ordered(low: Position, high: Position) -> bool {
        forall|axis: int| 0 <= axis < 3 ==> !Self::above_on(low, high, axis)
    }

    /// Whether an offset from a plane is small enough for the point to count
    /// as lying on it.
    pub open spec fn on_plane(offset: Scalar) -> bool {
        offset.abs().lt(epsilon())
    }

    /// The face on which a point lies, given its offsets from the low and
    /// from the high corner: the first, in the order x, y, z and low before
    /// high, whose plane the point is on.
    pub open spec fn face_spec(from_low: Vector, from_high: Vector) -> Option<Face> {
        if Self::on_plane(from_low.x) {
            Some(Face::XLow)
        } else if Self::on_plane(from_high.x) {
            Some(Face::XHigh)
        } else if Self::on_plane(from_low.y) {
            Some(Face::YLow)
        } else if Self::on_plane(from_high.y) {
            Some(Face::YHigh)
        } else if Self::on_plane(from_low.z) {
            Some(Face::ZLow)
        } else if Self::on_plane(from_high.z) {
            Some(Face::ZHigh)
        } else {
            None
        }
    }

    /// The normal at a point: that of its face, or the zero vector where the
    /// point lies on none.
    pub open spec fn norm_spec(from_low: Vector, from_high: Vector) -> Vector {
        match Self::face_spec(from_low, from_high) {
            Some(face) => face.normal(),
            None => Vector {
                x: Scalar::zero(),
                y: Scalar::zero(),
                z: Scalar::zero(),
            },
        }
    }

    /// The stretch of the ray inside all three pairs of planes.
    pub open spec fn span(crossings: [Crossing; 3]) -> Span {
        Span::whole().narrowed(crossings[0]).narrowed(crossings[1]).narrowed(crossings[2])
    }

    /// Where a ray enters the box. It does not where the stretch inside the
    /// planes is empty, where it starts behind the ray's origin, or where its
    /// start lies outside the interval.
    pub open spec fn hit_spec(crossings: [Crossing; 3], interval: Interval) -> Option<Scalar> {
        let span = Self::span(crossings);
        if span.entry.gt(span.exit) || span.entry.lt(Scalar::zero())
            || !interval.contains(span.entry) {
            None
        } else {
            Some(span.entry)
        }
    }

    /// Builds the box with the two corners, unless `low` is above `high` on
    /// some axis.
    pub fn try_build(low: Position, high: Position, material: Material) -> (built: Result<
        AABBox,
        BuildError,
    >)
        ensures
            Self::ordered(low, high) <==> built is Ok,
            built matches Ok(bbox) ==> bbox.low_spec() == low && bbox.high_spec() == high
                && bbox.material_spec() == material,
            built matches Err(BuildError::LowAboveHigh { axis }) ==> axis < 3 && Self::above_on(
                low,
                high,
                axis as int,
            ) && forall|before: int| 0 <= before < axis ==> !Self::above_on(low, high, before),
    {
        let mut axis: usize = 0;
        while axis < 3
            invariant
                axis <= 3,
                forall|before: int| 0 <= before < axis ==> !Self::above_on(low, high, before),
            decreases 3 - axis,
        {
            if low.coordinate(axis).gt(high.coordinate(axis)) {
                assert(Self::above_on(low, high, axis as int));
                return Err(BuildError::LowAboveHigh { axis });
            }
            axis += 1;
        }
        Ok(AABBox { low, high, material })
    }

    pub fn low(&self) -> (low: Position)
        ensures
            low == self.low_spec(),
            Self::ordered(self.low_spec(), self.high_spec()),
    {
        proof {
            use_type_invariant(self);
        }
        self.low
    }

    pub fn high(&self) -> (high: Position)
        ensures
            high == self.high_spec(),
            Self::ordered(self.low_spec(), self.high_spec()),
    {
        proof {
            use_type_invariant(self);
        }
        self.high
    }

    pub fn material(&self) -> (material: Material)
        ensures
            material == self.material_spec(),
    {
        self.material
    }

    /// The distance at which a ray enters the box, given where it crosses the
    /// three pairs of planes.
    pub fn hit_by_ray(crossings: &[Crossing; 3], interval: &Interval) -> (hit: Option<Scalar>)
        ensures
            hit == Self::hit_spec(*crossings, *interval),
    {
        let mut entry = Scalar::min_value();
        let mut exit = Scalar::max_value();
        let mut axis: usize = 0;
        while axis < 3
            invariant
                axis <= 3,
                axis == 0 ==> (Span { entry, exit }) == Span::whole(),
                axis == 1 ==> (Span { entry, exit }) == Span::whole().narrowed(crossings[0]),
                axis == 2 ==> (Span { entry, exit }) == Span::whole().narrowed(
                    crossings[0],
                ).narrowed(crossings[1]),
                axis == 3 ==> (Span { entry, exit }) == Self::span(*crossings),
            decreases 3 - axis,
        {
            let mut first = crossings[axis].low;
            let mut last = crossings[axis].high;
            if first.gt(last) {
                let swap = first;
                first = last;
                last = swap;
            }
            if first.gt(entry) {
                entry = first;
            }
            if last.lt(exit) {
                exit = last;
            }
            axis += 1;
        }
        if entry.gt(exit) || entry.lt(Scalar::zero()) {
            return None;
        }
        if !interval.contains(entry) {
            return None;
        }
        Some(entry)
    }

    /// The face on which a point lies, given its offsets from the two
    /// corners, if it lies on one.
    pub fn face_of(from_low: &Vector, from_high: &Vector) -> (face: Option<Face>)
        ensures
            face == Self::face_spec(*from_low, *from_high),
    {
        let epsilon = epsilon();
        if from_low.x.abs().lt(epsilon) {
            Some(Face::XLow)
        } else if from_high.x.abs().lt(epsilon) {
            Some(Face::XHigh)
        } else if from_low.y.abs().lt(epsilon) {
            Some(Face::YLow)
        } else if from_high.y.abs().lt(epsilon) {
            Some(Face::YHigh)
        } else if from_low.z.abs().lt(epsilon) {
            Some(Face::ZLow)
        } else if from_high.z.abs().lt(epsilon) {
            Some(Face::ZHigh)
        } else {
            None
        }
    }

    /// The outward normal at a point, given its offsets from the two corners.
    pub fn norm_of(from_low: &Vector, from_high: &Vector) -> (normal: Vector)
        ensures
            normal == Self::norm_spec(*from_low, *from_high),
    {
        match Self::face_of(from_low, from_high) {
            Some(face) => face.normal(),
            None => Vector { x: Scalar::zero(), y: Scalar::zero(), z: Scalar::zero() },
        }
    }
}

/// Where no crossing is a NaN, the stretch of a ray inside the box holds
/// exactly the distances that lie in the whole ray and, on each axis, between
/// the two crossings of that axis.
pub proof fn lemma_span_is_intersection(crossings: [Crossing; 3], t: Scalar)
    requires
        forall|axis: int|
            0 <= axis < 3 ==> !(#[trigger] crossings[axis]).low.is_nan()
                && !crossings[axis].high.is_nan(),
    ensures
        AABBox::span(crossings).holds(t) <==> Span::whole().holds(t) && forall|axis: int|
            0 <= axis < 3 ==> (#[trigger] crossings[axis]).entry().le(t) && t.le(
                crossings[axis].exit(),
            ),
{
    assert(!crossings[0].low.is_nan() && !crossings[1].low.is_nan() && !crossings[2].low.is_nan());
}

/// A hit of a box lies in the interval it was asked for, so it is no NaN; it
/// is not behind the origin of the ray; and it is where the stretch of the
/// ray inside the box begins, which is not empty.
pub proof fn lemma_box_hit_in_interval(crossings: [Crossing; 3], interval: Interval)
    ensures
        AABBox::hit_spec(crossings, interval) matches Some(t) ==> {
            &&& interval.contains(t)
            &&& !t.is_nan()
            &&& t.ge(Scalar::zero())
            &&& t == AABBox::span(crossings).entry
            &&& AABBox::span(crossings).holds(t)
        },
{
}

/// The normal of a face has length one, exactly. So the normal of a box at
/// a point has length one, or is the zero vector where the point lies on no
/// face.
pub proof fn lemma_normal_is_unit(from_low: Vector, from_high: Vector)
    ensures
        forall|face: Face| (#[trigger] face.normal()).is_unit(),
        AABBox::face_spec(from_low, from_high) is Some ==> AABBox::norm_spec(
            from_low,
            from_high,
        ).is_unit(),
        AABBox::face_spec(from_low, from_high) is None ==> AABBox::norm_spec(
            from_low,
            from_high,
        ).is_zero(),
{
    lemma_zero_and_one();
    let one = Scalar::one().scaled();
    assert((-one) * (-one) == one * one) by (nonlinear_arith);
}

/// A ray that runs along one axis towards a face of the box, from outside
/// and between the planes of the two other axes, enters the box at the near
/// face. On the axis of the ray it crosses the two planes at `near` and at
/// `far`; the planes of the other axes it never crosses, so that their
/// crossings lie at the two infinities.
pub proof fn lemma_axis_ray_enters_at_near_face(
    crossings: [Crossing; 3],
    axis: int,
    near: Scalar,
    far: Scalar,
    interval: Interval,
)
    requires
        0 <= axis < 3,
        crossings[axis].entry() == near,
        crossings[axis].exit() == far,
        forall|other: int|
            0 <= other < 3 && other != axis ==> (#[trigger] crossings[other]) == (Crossing {
                low: Scalar::neg_infinity(),
                high: Scalar::infinity(),
            }),
        Scalar::zero().le(near),
        near.le(far),
        interval.contains(near),
    ensures
        AABBox::hit_spec(crossings, interval) == Some(near),
{
    let free = Crossing { low: Scalar::neg_infinity(), high: Scalar::infinity() };
    if axis == 0 {
        assert(crossings[1] == free && crossings[2] == free);
    } else if axis == 1 {
        assert(crossings[0] == free && crossings[2] == free);
    } else {
        assert(crossings[0] == free && crossings[1] == free);
    }
}

/// A ray that runs parallel to the planes of an axis, and outside of them,
/// misses the box. It crosses neither plane, so that both crossings of that
/// axis lie at the same infinity.
pub proof fn lemma_ray_beside_the_planes_misses(
    crossings: [Crossing; 3],
    axis: int,
    interval: Interval,
)
    requires
        0 <= axis < 3,
        crossings[axis] == (Crossing { low: Scalar::infinity(), high: Scalar::infinity() })
            || crossings[axis] == (Crossing {
            low: Scalar::neg_infinity(),
            high: Scalar::neg_infinity(),
        }),
    ensures
        AABBox::hit_spec(crossings, interval) is None,
{
    let first = Span::whole().narrowed(crossings[0]);
    let second = first.narrowed(crossings[1]);
    let third = second.narrowed(crossings[2]);
    // Once the span is empty it stays empty.
    assert(first.entry.ge(Scalar::min_value()) && first.exit.le(Scalar::max_value()));
    assert(second.entry.ge(first.entry) && second.exit.le(first.exit));
    assert(third.entry.ge(second.entry) && third.exit.le(second.exit));
}

} // verus!
