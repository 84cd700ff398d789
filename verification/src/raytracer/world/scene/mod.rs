//! The scene: what there is to see, and which of it a ray meets first.
use vstd::prelude::*;
use crate::raytracer::basics::Interval;
use crate::raytracer::basics::ray_bias;
use crate::raytracer::scalar::Scalar;
use crate::raytracer::world::background::Backdrop;
use crate::raytracer::world::background::Background;
use crate::raytracer::world::background::DummyBackground;
use crate::raytracer::world::objects::light::Light;
use crate::raytracer::world::objects::material::Material;
use crate::raytracer::world::objects::Visible;
use crate::raytracer::world::scene::ray_cast::Cast;
use crate::raytracer::world::scene::ray_cast::Lambertian;
use crate::raytracer::world::scene::ray_cast::MonteCarlo;
use crate::raytracer::world::scene::ray_cast::RayCastStrategy;

pub mod ray_cast;

verus! {

/// How far a ray travels before it is taken to have met nothing, unless
/// the scene is told otherwise: one thousand.
pub const VIEW_RANGE_BITS: u64 = 0x408f_4000_0000_0000;

/// The nearest thing that a ray meets: which of the objects it is, by its
/// place among them, and how far along the ray.
#[derive(Clone, Copy, Debug)]
pub struct Nearest {
    pub index: usize,
    pub distance: Scalar,
}

/// The distance that a hit has to stay under to become the nearest: that of
/// the nearest so far, or the largest finite value where there is none yet.
pub open spec fn threshold(best: Option<Nearest>) -> Scalar {
    match best {
        Some(nearest) => nearest.distance,
        None => Scalar::max_value(),
    }
}

/// The nearest among the first `n` hits, taken in order: a hit replaces the
/// nearest so far unless it is at least as far.
pub open spec fn scan(hits: Seq<Option<Scalar>>, n: nat) -> Option<Nearest>
    decreases n,
{
    if n == 0 {
        None
    } else {
        let best = scan(hits, (n - 1) as nat);
        match hits[n - 1] {
            Some(t) => if t.ge(threshold(best)) {
                best
            } else {
                Some(Nearest { index: (n - 1) as usize, distance: t })
            },
            None => best,
        }
    }
}

/// The nearest of all the hits, unless it lies beyond the view range.
pub open spec fn nearest_hit(hits: Seq<Option<Scalar>>, view_range: Scalar) -> Option<Nearest> {
    let best = scan(hits, hits.len());
    if threshold(best).gt(view_range) {
        None
    } else {
        best
    }
}

/// Whether hit `i` is the first of the nearest among the first `n`: it is
/// under the largest finite value, strictly nearer than every hit before it
/// and no farther than any hit after it.
pub open spec fn is_first_nearest(hits: Seq<Option<Scalar>>, n: nat, i: int) -> bool {
    &&& 0 <= i < n
    &&& hits[i] matches Some(t)
    &&& t.lt(Scalar::max_value())
    &&& forall|j: int| 0 <= j < i ==> (#[trigger] hits[j] matches Some(u) ==> t.lt(u))
    &&& forall|j: int| i < j < n ==> (#[trigger] hits[j] matches Some(u) ==> t.le(u))
}

/// Whether none of the hits is a NaN.
pub open spec fn all_ordered(hits: Seq<Option<Scalar>>) -> bool {
    forall|j: int| 0 <= j < hits.len() ==> (#[trigger] hits[j] matches Some(u) ==> !u.is_nan())
}

/// Where no hit is a NaN, the scan of the first `n` hits yields the first of
/// the nearest among them, and yields nothing only where none of them is
/// under the largest finite value.
pub proof fn lemma_scan_is_first_nearest(hits: Seq<Option<Scalar>>, n: nat)
    requires
        all_ordered(hits),
        n <= hits.len() <= usize::MAX,
    ensures
        scan(hits, n) matches Some(best) ==> is_first_nearest(hits, n, best.index as int)
            && hits[best.index as int] == Some(best.distance),
        scan(hits, n) is None ==> forall|j: int|
            0 <= j < n ==> (#[trigger] hits[j] matches Some(u) ==> u.ge(Scalar::max_value())),
    decreases n,
{
    if n > 0 {
        lemma_scan_is_first_nearest(hits, (n - 1) as nat);
        let best = scan(hits, (n - 1) as nat);
        match hits[n - 1] {
            Some(t) => {
                if !t.ge(threshold(best)) {
                    assert(is_first_nearest(hits, n, n - 1));
                }
            },
            None => {},
        }
    }
}

/// Where no hit is a NaN, the nearest hit is the first of the hits than
/// which none is nearer, and there is none exactly where every hit is as far
/// as the largest finite value or the nearest lies beyond the view range.
pub proof fn lemma_nearest_is_first_minimum(hits: Seq<Option<Scalar>>, view_range: Scalar)
    requires
        all_ordered(hits),
        hits.len() <= usize::MAX,
    ensures
        nearest_hit(hits, view_range) matches Some(best) ==> is_first_nearest(
            hits,
            hits.len(),
            best.index as int,
        ) && hits[best.index as int] == Some(best.distance) && !best.distance.gt(view_range),
        nearest_hit(hits, view_range) is None ==> forall|i: int|
            is_first_nearest(hits, hits.len(), i) ==> hits[i].unwrap().gt(view_range),
{
    lemma_scan_is_first_nearest(hits, hits.len());
    if nearest_hit(hits, view_range) is None {
        assert forall|i: int| is_first_nearest(hits, hits.len(), i) implies hits[i].unwrap().gt(
            view_range,
        ) by {
            let best = scan(hits, hits.len());
            match best {
                Some(found) => {
                    let k = found.index as int;
                    if i < k {
                        assert(hits[i] is Some);
                    } else if k < i {
                        assert(hits[k] is Some);
                    }
                },
                None => {
                    assert(hits[i] is Some);
                },
            }
        }
    }
}

/// Whether every hit lies in the interval.
pub open spec fn all_within(hits: Seq<Option<Scalar>>, interval: Interval) -> bool {
    forall|j: int|
        0 <= j < hits.len() ==> (#[trigger] hits[j] matches Some(u) ==> interval.contains(u))
}

/// Where the view range is finite and every hit lies between the ray bias
/// and the view range, as the hits of spheres and boxes do, a ray meets
/// something as soon as it hits anything, and what it meets is the first of
/// the nearest and lies in that interval too.
pub proof fn lemma_hits_within_view(hits: Seq<Option<Scalar>>, view_range: Scalar)
    requires
        hits.len() <= usize::MAX,
        view_range.is_finite(),
        all_within(hits, Interval { start: ray_bias(), end: view_range }),
    ensures
        all_ordered(hits),
        nearest_hit(hits, view_range) is None <==> forall|j: int|
            0 <= j < hits.len() ==> (#[trigger] hits[j]) is None,
        nearest_hit(hits, view_range) matches Some(best) ==> {
            &&& is_first_nearest(hits, hits.len(), best.index as int)
            &&& hits[best.index as int] == Some(best.distance)
            &&& (Interval { start: ray_bias(), end: view_range }).contains(best.distance)
        },
{
    let interval = Interval { start: ray_bias(), end: view_range };
    assert(all_ordered(hits)) by {
        assert forall|j: int| 0 <= j < hits.len() implies (#[trigger] hits[j] matches Some(u)
            ==> !u.is_nan()) by {
            if hits[j] is Some {
                assert(interval.contains(hits[j].unwrap()));
            }
        }
    }
    lemma_nearest_is_first_minimum(hits, view_range);
    lemma_scan_is_first_nearest(hits, hits.len());
    match scan(hits, hits.len()) {
        Some(best) => {
            assert(interval.contains(hits[best.index as int].unwrap()));
        },
        None => {
            assert forall|j: int| 0 <= j < hits.len() implies (#[trigger] hits[j]) is None by {
                if hits[j] is Some {
                    assert(interval.contains(hits[j].unwrap()));
                }
            }
        },
    }
    if nearest_hit(hits, view_range) is Some {
        let k = nearest_hit(hits, view_range).unwrap().index as int;
        assert(hits[k] is Some);
    }
}

/// Whether a ray met a surface from outside the solid: it did where it runs
/// against the outward normal, so where `cosine`, the dot product of its
/// direction and that normal, is below zero.
pub open spec fn is_outside_spec(cosine: Scalar) -> bool {
    cosine.lt(Scalar::zero())
}

#[verifier::when_used_as_spec(is_outside_spec)]
pub fn is_outside(cosine: Scalar) -> (outside: bool)
    ensures
        outside == is_outside_spec(cosine),
{
    cosine.lt(Scalar::zero())
}

/// All that a scene holds: its lights, its objects in the order in which
/// they were added, its background if it has one, and its view range.
pub struct SceneData<B = DummyBackground> {
    pub lights: Vec<Light>,
    pub objects: Vec<Visible>,
    pub background: Option<B>,
    pub view_range: Scalar,
}

impl<B> SceneData<B> {
    /// The distances at which a hit counts: from the ray bias up to the view
    /// range.
    pub open spec fn interval_spec(&self) -> Interval {
        Interval { start: ray_bias(), end: self.view_range }
    }

    #[verifier::when_used_as_spec(interval_spec)]
    pub fn interval(&self) -> (interval: Interval)
        ensures
            interval == self.interval_spec(),
    {
        Interval { start: ray_bias(), end: self.view_range }
    }

    /// Which object a ray meets first. `hits` holds, for each object in
    /// order, the distance at which the ray hits it, if it does. Of two
    /// objects at the same distance the one added first is met.
    pub fn intersect(&self, hits: &Vec<Option<Scalar>>) -> (nearest: Option<Nearest>)
        ensures
            nearest == nearest_hit(hits@, self.view_range),
            nearest matches Some(best) ==> best.index < hits.len() && hits[best.index as int]
                == Some(best.distance),
            all_ordered(hits@) ==> (nearest matches Some(best) ==> is_first_nearest(
                hits@,
                hits.len() as nat,
                best.index as int,
            )),
    {
        let mut best: Option<Nearest> = None;
        let mut min = Scalar::max_value();
        let mut i: usize = 0;
        while i < hits.len()
            invariant
                i <= hits.len(),
                best == scan(hits@, i as nat),
                min == threshold(best),
                best matches Some(found) ==> found.index < i && hits[found.index as int] == Some(
                    found.distance,
                ),
            decreases hits.len() - i,
        {
            if let Some(t) = hits[i] {
                if !t.ge(min) {
                    min = t;
                    best = Some(Nearest { index: i, distance: t });
                }
            }
            i += 1;
        }
        proof {
            if all_ordered(hits@) {
                lemma_nearest_is_first_minimum(hits@, self.view_range);
            }
        }
        if min.gt(self.view_range) {
            return None;
        }
        best
    }
}

impl<B: Background> SceneData<B> {
    /// What stands behind a ray that meets nothing: the two colours of the
    /// background, or black where the scene has none.
    pub open spec fn backdrop(&self) -> Backdrop {
        match self.background {
            Some(background) => Backdrop::Blend {
                zenith: background.zenith_spec(),
                nadir: background.nadir_spec(),
            },
            None => Backdrop::Black,
        }
    }

    pub fn intersect_background(&self) -> (backdrop: Backdrop)
        ensures
            backdrop == self.backdrop(),
    {
        match &self.background {
            Some(background) => Backdrop::Blend {
                zenith: background.zenith(),
                nadir: background.nadir(),
            },
            None => Backdrop::Black,
        }
    }
}

/// A scene and the strategy by which its rays are resolved.
pub struct Scene<B = DummyBackground, S = Lambertian> {
    pub scene_data: SceneData<B>,
    pub ray_caster: S,
}

impl<B, S> Scene<B, S> {
    /// A scene that holds nothing yet.
    pub open spec fn is_empty_with(&self, ray_caster: S) -> bool {
        &&& self.scene_data.lights@.len() == 0
        &&& self.scene_data.objects@.len() == 0
        &&& self.scene_data.background is None
        &&& self.scene_data.view_range.bits == VIEW_RANGE_BITS
        &&& self.ray_caster == ray_caster
    }

    pub fn add_light(self, light: Light) -> (scene: Self)
        ensures
            scene.scene_data.lights@ == self.scene_data.lights@.push(light),
            scene.scene_data.objects@ == self.scene_data.objects@,
            scene.scene_data.background == self.scene_data.background,
            scene.scene_data.view_range == self.scene_data.view_range,
            scene.ray_caster == self.ray_caster,
    {
        let mut scene = self;
        scene.scene_data.lights.push(light);
        scene
    }

    pub fn add_object(self, object: Visible) -> (scene: Self)
        ensures
            scene.scene_data.objects@ == self.scene_data.objects@.push(object),
            scene.scene_data.lights@ == self.scene_data.lights@,
            scene.scene_data.background == self.scene_data.background,
            scene.scene_data.view_range == self.scene_data.view_range,
            scene.ray_caster == self.ray_caster,
    {
        let mut scene = self;
        scene.scene_data.objects.push(object);
        scene
    }

    pub fn add_background(self, background: B) -> (scene: Self)
        ensures
            scene.scene_data.background == Some(background),
            scene.scene_data.lights@ == self.scene_data.lights@,
            scene.scene_data.objects@ == self.scene_data.objects@,
            scene.scene_data.view_range == self.scene_data.view_range,
            scene.ray_caster == self.ray_caster,
    {
        let mut scene = self;
        scene.scene_data.background = Some(background);
        scene
    }

    pub fn update_view_range(self, view_range: Scalar) -> (scene: Self)
        ensures
            scene.scene_data.view_range == view_range,
            scene.scene_data.lights@ == self.scene_data.lights@,
            scene.scene_data.objects@ == self.scene_data.objects@,
            scene.scene_data.background == self.scene_data.background,
            scene.ray_caster == self.ray_caster,
    {
        let mut scene = self;
        scene.scene_data.view_range = view_range;
        scene
    }

    /// Which object a ray meets first: see `SceneData::intersect`.
    pub fn intersect(&self, hits: &Vec<Option<Scalar>>) -> (nearest: Option<Nearest>)
        ensures
            nearest == nearest_hit(hits@, self.scene_data.view_range),
    {
        self.scene_data.intersect(hits)
    }
}

impl<B: Background, S> Scene<B, S> {
    /// What stands behind a ray that meets nothing: see
    /// `SceneData::intersect_background`.
    pub fn intersect_background(&self) -> (backdrop: Backdrop)
        ensures
            backdrop == self.scene_data.backdrop(),
    {
        self.scene_data.intersect_background()
    }
}

impl<B, S: RayCastStrategy> Scene<B, S> {
    /// What the cast of a primary ray comes to, by the strategy of the scene:
    /// a primary ray is cast at depth zero.
    pub fn cast_ray(&self, hit: Option<Material>) -> (cast: Cast)
        ensures
            cast == self.ray_caster.cast_spec(0, hit),
    {
        self.ray_caster.cast_ray(0, hit)
    }
}

impl<B> Default for Scene<B, Lambertian> {
    fn default() -> (scene: Self)
        ensures
            scene.is_empty_with(Lambertian),
    {
        Scene {
            scene_data: SceneData {
                lights: Vec::new(),
                objects: Vec::new(),
                background: None,
                view_range: Scalar::from_bits(VIEW_RANGE_BITS),
            },
            ray_caster: Lambertian,
        }
    }
}

impl<B> Default for Scene<B, MonteCarlo> {
    fn default() -> (scene: Self)
        ensures
            scene.is_empty_with(MonteCarlo { recursion_depth: 10 }),
    {
        Scene {
            scene_data: SceneData {
                lights: Vec::new(),
                objects: Vec::new(),
                background: None,
                view_range: Scalar::from_bits(VIEW_RANGE_BITS),
            },
            ray_caster: MonteCarlo::default(),
        }
    }
}

} // verus!
