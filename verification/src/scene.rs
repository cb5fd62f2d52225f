//! The scene: what an entity is, the store that holds the entities, and the
//! four startup routines that fill it.
//!
//! Lengths and colour channels are whole thousandths (a cube of size one has
//! `size == 1000`); light intensity is in whole lumens. The engine's own
//! values are made from these where the scene is handed over to it.

use vstd::prelude::*;

verus! {

/// A point in world space, in thousandths of a unit.
#[derive(Clone, Copy, Debug, PartialEq, Eq, Structural)]
pub struct Vec3 {
    pub x: i32,
    pub y: i32,
    pub z: i32,
}

/// A colour, each channel in thousandths of full intensity.
#[derive(Clone, Copy, Debug, PartialEq, Eq, Structural)]
pub struct Color {
    pub red: u16,
    pub green: u16,
    pub blue: u16,
}

/// The mesh of a drawable entity, with its size in thousandths of a unit.
#[derive(Clone, Copy, Debug, PartialEq, Eq, Structural)]
pub enum Shape {
    /// A flat square in the horizontal plane.
    Plane { size: u32 },
    /// A cube.
    Cube { size: u32 },
}

/// How an entity is turned.
#[derive(Clone, Copy, Debug, PartialEq, Eq, Structural)]
pub enum Orientation {
    /// Not turned at all.
    Identity,
    /// Turned to face `target`, with `up` pointing upward.
    LookingAt { target: Vec3, up: Vec3 },
}

/// Where an entity stands and how it is turned.
#[derive(Clone, Copy, Debug, PartialEq, Eq, Structural)]
pub struct Transform {
    pub translation: Vec3,
    pub orientation: Orientation,
}

/// What an entity is made of.
#[derive(Clone, Copy, Debug, PartialEq, Eq, Structural)]
pub enum Body {
    /// A drawn mesh with a plain material.
    Mesh { shape: Shape, color: Color },
    /// A camera, free-flying under the player's control where `fly` is set.
    Camera { fly: bool },
    /// A point light.
    PointLight { intensity: u32, shadows_enabled: bool },
}

/// The four kinds of entity that the scene is made of.
#[derive(Clone, Copy, Debug, PartialEq, Eq, Structural)]
pub enum EntityKind {
    Plane,
    Cube,
    Camera,
    Light,
}

/// One entity of the scene.
#[derive(Clone, Copy, Debug, PartialEq, Eq, Structural)]
pub struct SceneEntity {
    pub body: Body,
    pub transform: Transform,
    /// Whether the entity carries the marker that makes it a subject of the
    /// position report.
    pub thing: bool,
}

/// The origin of world space.
pub open spec fn origin() -> Vec3 {
    Vec3 { x: 0, y: 0, z: 0 }
}

/// The upward direction.
pub open spec fn unit_y() -> Vec3 {
    Vec3 { x: 0, y: 1000, z: 0 }
}

/// The place from which both the camera and the light look at the origin.
pub open spec fn vantage() -> Transform {
    Transform {
        translation: Vec3 { x: (-2000) as i32, y: 2500, z: 5000 },
        orientation: Orientation::LookingAt { target: origin(), up: unit_y() },
    }
}

/// The ground: a green plane of size five at the origin.
pub open spec fn ground_plane() -> SceneEntity {
    SceneEntity {
        body: Body::Mesh {
            shape: Shape::Plane { size: 5000 },
            color: Color { red: 300, green: 500, blue: 300 },
        },
        transform: Transform { translation: origin(), orientation: Orientation::Identity },
        thing: false,
    }
}

/// The camera: free-flying, at the vantage point.
pub open spec fn camera() -> SceneEntity {
    SceneEntity { body: Body::Camera { fly: true }, transform: vantage(), thing: false }
}

/// The cube: of size one, resting on the ground, and a subject of the
/// position report.
pub open spec fn cube() -> SceneEntity {
    SceneEntity {
        body: Body::Mesh {
            shape: Shape::Cube { size: 1000 },
            color: Color { red: 800, green: 700, blue: 300 },
        },
        transform: Transform {
            translation: Vec3 { x: 0, y: 500, z: 0 },
            orientation: Orientation::Identity,
        },
        thing: true,
    }
}

/// The light: a shadow-casting point light at the vantage point.
pub open spec fn light() -> SceneEntity {
    SceneEntity {
        body: Body::PointLight { intensity: 1500, shadows_enabled: true },
        transform: vantage(),
        thing: false,
    }
}

impl SceneEntity {
    /// Which of the four kinds the entity is: a mesh is a plane or a cube
    /// by its shape.
    pub open spec fn kind_of(self) -> EntityKind {
        match self.body {
            Body::Mesh { shape: Shape::Plane { .. }, .. } => EntityKind::Plane,
            Body::Mesh { shape: Shape::Cube { .. }, .. } => EntityKind::Cube,
            Body::Camera { .. } => EntityKind::Camera,
            Body::PointLight { .. } => EntityKind::Light,
        }
    }

    /// Which of the four kinds the entity is.
    pub fn kind(&self) -> (kind: EntityKind)
        ensures
            kind == self.kind_of(),
    {
        match self.body {
            Body::Mesh { shape: Shape::Plane { .. }, .. } => EntityKind::Plane,
            Body::Mesh { shape: Shape::Cube { .. }, .. } => EntityKind::Cube,
            Body::Camera { .. } => EntityKind::Camera,
            Body::PointLight { .. } => EntityKind::Light,
        }
    }
}

/// The test for being of the given kind.
pub open spec fn of_kind(kind: EntityKind) -> spec_fn(SceneEntity) -> bool {
    |e: SceneEntity| e.kind_of() == kind
}

/// The test for carrying the report marker.
pub open spec fn marked() -> spec_fn(SceneEntity) -> bool {
    |e: SceneEntity| e.thing
}

/// The position at which an entity stands.
pub open spec fn position() -> spec_fn(SceneEntity) -> Vec3 {
    |e: SceneEntity| e.transform.translation
}

/// How many of `entities` are of the given kind.
pub open spec fn count_kind(entities: Seq<SceneEntity>, kind: EntityKind) -> nat {
    entities.filter(of_kind(kind)).len()
}

/// The positions of the entities that carry the report marker, in the order
/// in which the entities were created.
pub open spec fn thing_positions(entities: Seq<SceneEntity>) -> Seq<Vec3> {
    entities.filter(marked()).map_values(position())
}

/// The entity store. Entities are only ever added, and each keeps the place
/// at which it was added.
#[derive(Clone, Debug, PartialEq, Eq)]
pub struct World {
    entities: Vec<SceneEntity>,
}

impl View for World {
    type V = Seq<SceneEntity>;

    closed spec fn view(&self) -> Seq<SceneEntity> {
        self.entities@
    }
}

impl World {
    /// An empty world.
    pub fn new() -> (world: World)
        ensures
            world@ == Seq::<SceneEntity>::empty(),
    {
        World { entities: Vec::new() }
    }

    /// The number of entities.
    pub fn len(&self) -> (n: usize)
        ensures
            n == self@.len(),
    {
        self.entities.len()
    }

    /// The entity that was created as the `index`-th, counting from zero,
    /// if there is one.
    pub fn entity(&self, index: usize) -> (found: Option<SceneEntity>)
        ensures
            found == if index < self@.len() {
                Some(self@[index as int])
            } else {
                None
            },
    {
        if index < self.entities.len() {
            Some(self.entities[index])
        } else {
            None
        }
    }

    /// Adds one entity and says at which place it stands.
    pub fn spawn(&mut self, entity: SceneEntity) -> (index: usize)
        ensures
            final(self)@ == old(self)@.push(entity),
            index == old(self)@.len(),
    {
        let index = self.entities.len();
        self.entities.push(entity);
        index
    }

    /// How many entities of the given kind the world holds.
    pub fn count(&self, kind: EntityKind) -> (n: usize)
        ensures
            n == count_kind(self@, kind),
    {
        let mut n: usize = 0;
        let mut i: usize = 0;
        while i < self.entities.len()
            invariant
                i <= self.entities.len(),
                n <= i,
                n == count_kind(self@.take(i as int), kind),
            decreases self.entities.len() - i,
        {
            let entity = self.entities[i];
            proof {
                assert(self@.take(i + 1) == self@.take(i as int).push(self@[i as int]));
                lemma_count_after_spawn(self@.take(i as int), self@[i as int], kind);
            }
            if entity.kind() == kind {
                n = n + 1;
            }
            i = i + 1;
        }
        assert(self@.take(i as int) == self@);
        n
    }

    /// The positions of the entities that carry the report marker, in the
    /// order in which the entities were created.
    pub fn things(&self) -> (positions: Vec<Vec3>)
        ensures
            positions@ == thing_positions(self@),
    {
        let mut positions: Vec<Vec3> = Vec::new();
        let mut i: usize = 0;
        while i < self.entities.len()
            invariant
                i <= self.entities.len(),
                positions@ == thing_positions(self@.take(i as int)),
            decreases self.entities.len() - i,
        {
            let entity = self.entities[i];
            proof {
                assert(self@.take(i + 1) == self@.take(i as int).push(self@[i as int]));
                lemma_things_after_spawn(self@.take(i as int), self@[i as int]);
            }
            if entity.thing {
                positions.push(entity.transform.translation);
            }
            i = i + 1;
        }
        assert(self@.take(i as int) == self@);
        positions
    }
}

/// Creates the ground plane.
pub fn add_plane(world: &mut World)
    ensures
        final(world)@ == old(world)@.push(ground_plane()),
{
    world.spawn(
        SceneEntity {
            body: Body::Mesh {
                shape: Shape::Plane { size: 5000 },
                color: Color { red: 300, green: 500, blue: 300 },
            },
            transform: Transform {
                translation: Vec3 { x: 0, y: 0, z: 0 },
                orientation: Orientation::Identity,
            },
            thing: false,
        },
    );
}

/// Creates the camera.
pub fn add_camera(world: &mut World)
    ensures
        final(world)@ == old(world)@.push(camera()),
{
    world.spawn(
        SceneEntity { body: Body::Camera { fly: true }, transform: at_vantage(), thing: false },
    );
}

/// Creates the cube and marks it as a subject of the position report.
pub fn add_cube(world: &mut World)
    ensures
        final(world)@ == old(world)@.push(cube()),
{
    world.spawn(
        SceneEntity {
            body: Body::Mesh {
                shape: Shape::Cube { size: 1000 },
                color: Color { red: 800, green: 700, blue: 300 },
            },
            transform: Transform {
                translation: Vec3 { x: 0, y: 500, z: 0 },
                orientation: Orientation::Identity,
            },
            thing: true,
        },
    );
}

/// Creates the light.
pub fn add_light(world: &mut World)
    ensures
        final(world)@ == old(world)@.push(light()),
{
    world.spawn(
        SceneEntity {
            body: Body::PointLight { intensity: 1500, shadows_enabled: true },
            transform: at_vantage(),
            thing: false,
        },
    );
}

/// The transform of the vantage point.
fn at_vantage() -> (transform: Transform)
    ensures
        transform == vantage(),
{
    Transform {
        translation: Vec3 { x: -2000, y: 2500, z: 5000 },
        orientation: Orientation::LookingAt {
            target: Vec3 { x: 0, y: 0, z: 0 },
            up: Vec3 { x: 0, y: 1000, z: 0 },
        },
    }
}

/// One more entity raises the count of its own kind by one and leaves the
/// counts of the other kinds as they were.
pub proof fn lemma_count_after_spawn(
    entities: Seq<SceneEntity>,
    entity: SceneEntity,
    kind: EntityKind,
)
    ensures
        count_kind(entities.push(entity), kind) == if entity.kind_of() == kind {
            count_kind(entities, kind) + 1
        } else {
            count_kind(entities, kind)
        },
{
    entities.lemma_filter_push(entity, of_kind(kind));
}

/// One more entity adds its position to the end of the report if it carries
/// the marker, and leaves the report as it was if it does not.
pub proof fn lemma_things_after_spawn(entities: Seq<SceneEntity>, entity: SceneEntity)
    ensures
        thing_positions(entities.push(entity)) == if entity.thing {
            thing_positions(entities).push(entity.transform.translation)
        } else {
            thing_positions(entities)
        },
{
    entities.lemma_filter_push(entity, marked());
    entities.filter(marked()).lemma_push_map_commute(position(), entity);
}

/// Where no entity carries the marker, the report is empty.
pub proof fn lemma_no_things_no_positions(entities: Seq<SceneEntity>)
    requires
        forall|i: int| 0 <= i < entities.len() ==> !entities[i].thing,
    ensures
        thing_positions(entities) == Seq::<Vec3>::empty(),
{
    assert(entities.all(|e: SceneEntity| !marked()(e)));
    entities.lemma_all_neg_filter_empty(marked());
}

/// The report has one position for each entity that carries the marker.
pub proof fn lemma_one_position_per_thing(entities: Seq<SceneEntity>)
    ensures
        thing_positions(entities).len() == entities.filter(marked()).len(),
        thing_positions(entities).len() <= entities.len(),
{
    entities.lemma_filter_len(marked());
}

} // verus!
