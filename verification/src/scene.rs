//! A scene and which of its objects a ray meets.
//!
//! A ray is tested against every object of a scene in the order in which
//! the objects were added. Each test gives nothing or a hit at a distance
//! along the ray; here the distance is held as a key, an integer that orders
//! hits as their distances order them. A hit counts only below a limit.

use vstd::prelude::*;

verus! {

/// The test found a surface, nearer than `limit`.
pub open spec fn counts(hit: Option<u32>, limit: u32) -> bool {
    hit is Some && hit->0 < limit
}

/// No object of the scene is hit.
pub open spec fn all_miss(hits: Seq<Option<u32>>, limit: u32) -> bool {
    forall|k: int| 0 <= k < hits.len() ==> !counts(#[trigger] hits[k], limit)
}

/// Object `i` is hit, no object is hit nearer, and no object before it is
/// hit as near.
pub open spec fn is_first_hit(hits: Seq<Option<u32>>, limit: u32, i: int) -> bool {
    &&& 0 <= i < hits.len()
    &&& counts(hits[i], limit)
    &&& forall|k: int|
        0 <= k < hits.len() && counts(#[trigger] hits[k], limit) ==> hits[i]->0 <= hits[k]->0
    &&& forall|k: int| 0 <= k < i && counts(#[trigger] hits[k], limit) ==> hits[i]->0 < hits[k]->0
}

/// Object `i` is hit and no object before it is.
pub open spec fn is_any_hit(hits: Seq<Option<u32>>, limit: u32, i: int) -> bool {
    &&& 0 <= i < hits.len()
    &&& counts(hits[i], limit)
    &&& forall|k: int| 0 <= k < i ==> !counts(#[trigger] hits[k], limit)
}

/// The object with the strictly nearest hit: of several objects hit at the
/// same distance, the one added first. `None` where no object is hit.
pub fn first_hit(hits: &Vec<Option<u32>>, limit: u32) -> (nearest: Option<usize>)
    ensures
        nearest is Some ==> is_first_hit(hits@, limit, nearest->0 as int),
        nearest is None ==> all_miss(hits@, limit),
{
    let mut nearest: Option<usize> = None;
    let mut bound: u32 = limit;
    let mut k: usize = 0;
    while k < hits.len()
        invariant
            k <= hits.len(),
            bound <= limit,
            match nearest {
                Some(i) => i < k && is_first_hit(hits@.take(k as int), limit, i as int)
                    && bound == hits@[i as int]->0,
                None => all_miss(hits@.take(k as int), limit) && bound == limit,
            },
        decreases hits.len() - k,
    {
        let ghost before = hits@.take(k as int);
        let ghost after = hits@.take(k + 1);
        assert(forall|m: int| 0 <= m < k ==> before[m] == after[m]);
        assert(after[k as int] == hits@[k as int]);
        if let Some(distance) = hits[k] {
            if distance < bound {
                bound = distance;
                nearest = Some(k);
            }
        }
        k = k + 1;
    }
    assert(hits@.take(k as int) =~= hits@);
    nearest
}

/// The first object that is hit at all, which need not be the nearest.
/// `None` where no object is hit.
pub fn any_hit(hits: &Vec<Option<u32>>, limit: u32) -> (found: Option<usize>)
    ensures
        found is Some ==> is_any_hit(hits@, limit, found->0 as int),
        found is None ==> all_miss(hits@, limit),
{
    let mut k: usize = 0;
    while k < hits.len()
        invariant
            k <= hits.len(),
            forall|m: int| 0 <= m < k ==> !counts(#[trigger] hits@[m], limit),
        decreases hits.len() - k,
    {
        if let Some(distance) = hits[k] {
            if distance < limit {
                return Some(k);
            }
        }
        k = k + 1;
    }
    None
}

/// Whether a directional light reaches a point: it does where the ray from
/// the point toward the light hits no object.
pub fn directional_light_reaches(shadow_hits: &Vec<Option<u32>>, limit: u32) -> (lit: bool)
    ensures
        lit == all_miss(shadow_hits@, limit),
{
    match any_hit(shadow_hits, limit) {
        Some(_) => false,
        None => true,
    }
}

/// A camera, and the objects and lights that were added to the scene, in
/// the order in which they were added.
pub struct Scene<Camera, Object, Light> {
    pub camera: Camera,
    objects: Vec<Object>,
    lights: Vec<Light>,
}

impl<Camera, Object, Light> Scene<Camera, Object, Light> {
    /// The camera of the scene.
    pub closed spec fn camera_of(&self) -> Camera {
        self.camera
    }

    /// The objects of the scene, first added first.
    pub closed spec fn objects_of(&self) -> Seq<Object> {
        self.objects@
    }

    /// The lights of the scene, first added first.
    pub closed spec fn lights_of(&self) -> Seq<Light> {
        self.lights@
    }

    /// A scene without objects and lights.
    pub fn new(camera: Camera) -> (scene: Self)
        ensures
            scene.camera_of() == camera,
            scene.objects_of() == Seq::<Object>::empty(),
            scene.lights_of() == Seq::<Light>::empty(),
    {
        Self { camera, objects: Vec::new(), lights: Vec::new() }
    }

    /// Adds an object behind those that the scene has.
    pub fn add_object(&mut self, object: Object)
        ensures
            final(self).objects_of() == old(self).objects_of().push(object),
            final(self).lights_of() == old(self).lights_of(),
            final(self).camera_of() == old(self).camera_of(),
    {
        self.objects.push(object);
    }

    /// Adds a light behind those that the scene has.
    pub fn add_light(&mut self, light: Light)
        ensures
            final(self).lights_of() == old(self).lights_of().push(light),
            final(self).objects_of() == old(self).objects_of(),
            final(self).camera_of() == old(self).camera_of(),
    {
        self.lights.push(light);
    }

    /// The camera of the scene.
    pub fn camera(&self) -> (camera: &Camera)
        ensures
            *camera == self.camera_of(),
    {
        &self.camera
    }

    /// Hands out the camera for a change; objects and lights stay.
    pub fn camera_mut(&mut self) -> (camera: &mut Camera)
        ensures
            *camera == old(self).camera_of(),
            final(self).camera_of() == *final(camera),
            final(self).objects_of() == old(self).objects_of(),
            final(self).lights_of() == old(self).lights_of(),
    {
        &mut self.camera
    }

    /// The objects of the scene, first added first.
    pub fn objects(&self) -> (objects: &Vec<Object>)
        ensures
            objects@ == self.objects_of(),
    {
        &self.objects
    }

    /// The lights of the scene, first added first.
    pub fn lights(&self) -> (lights: &Vec<Light>)
        ensures
            lights@ == self.lights_of(),
    {
        &self.lights
    }

    /// The object that a ray meets first, given what the ray met on each
    /// object of the scene: the strictly nearest hit, and of several at the
    /// same distance the object added first.
    pub fn first_hit(&self, hits: &Vec<Option<u32>>, limit: u32) -> (nearest: Option<
        (usize, &Object),
    >)
        requires
            hits@.len() == self.objects_of().len(),
        ensures
            nearest matches Some((i, object)) ==> is_first_hit(hits@, limit, i as int)
                && *object == self.objects_of()[i as int],
            nearest is None ==> all_miss(hits@, limit),
    {
        match first_hit(hits, limit) {
            Some(i) => Some((i, &self.objects[i])),
            None => None,
        }
    }

    /// An object that a ray meets, given what the ray met on each object of
    /// the scene: the first object hit in the order of the scene, which need
    /// not be the nearest.
    pub fn any_hit(&self, hits: &Vec<Option<u32>>, limit: u32) -> (found: Option<usize>)
        requires
            hits@.len() == self.objects_of().len(),
        ensures
            found is Some ==> is_any_hit(hits@, limit, found->0 as int),
            found is Some ==> found->0 < self.objects_of().len(),
            found is None ==> all_miss(hits@, limit),
    {
        any_hit(hits, limit)
    }
}

/// At most one object is the first hit.
pub proof fn lemma_first_hit_unique(hits: Seq<Option<u32>>, limit: u32, i: int, j: int)
    requires
        is_first_hit(hits, limit, i),
        is_first_hit(hits, limit, j),
    ensures
        i == j,
{
}

/// The first hit is at most as far as the hit that an occlusion test
/// finds, and belongs to the same object or to one added later.
pub proof fn lemma_any_hit_bounds_first_hit(hits: Seq<Option<u32>>, limit: u32, i: int, j: int)
    requires
        is_first_hit(hits, limit, i),
        is_any_hit(hits, limit, j),
    ensures
        hits[i]->0 <= hits[j]->0,
        j <= i,
{
}

/// An object put between a point and a directional light blocks the light,
/// wherever in the scene it is added; with the object taken away again the
/// light comes through as before.
pub proof fn lemma_occluder_blocks_light(
    clear: Seq<Option<u32>>,
    limit: u32,
    place: int,
    distance: u32,
)
    requires
        all_miss(clear, limit),
        0 <= place <= clear.len(),
        distance < limit,
    ensures
        !all_miss(clear.insert(place, Some(distance)), limit),
        all_miss(clear.insert(place, Some(distance)).remove(place), limit),
{
    let blocked = clear.insert(place, Some(distance));
    assert(counts(blocked[place], limit));
    assert(blocked.remove(place) =~= clear);
}

/// The light is blocked exactly where some object of the scene is hit.
pub proof fn lemma_blocked_by_some_object(hits: Seq<Option<u32>>, limit: u32)
    ensures
        !all_miss(hits, limit) <==> exists|k: int|
            0 <= k < hits.len() && counts(#[trigger] hits[k], limit),
{
}

} // verus!
