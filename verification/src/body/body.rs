use crate::base::collision_filter::CollisionFilter;
use crate::base::common::{next_id, ShapeType, BASE_DELTA_BITS, ID_KIND_MASK, ID_KIND_RANDOM};
use crate::base::constraint_impulse::ConstraintImpulse;
use crate::base::force::Force;
use crate::base::position::Position;
use crate::base::render::Render;
use crate::base::sprite::Sprite;
use crate::base::velocity::Velocity;
use crate::base::xy::XY;
use crate::body::body_option::BodyOption;
use crate::body::body_original::{snapshot, BodyOriginal};
use crate::geometry::axes::Axes;
use crate::geometry::bounds::Bounds;
use crate::geometry::vector::Vector;
use crate::geometry::vertex::Vertex;
use crate::geometry::vertices::{indexed_vertices, Vertices};
use crate::scalar::Scalar;
use vstd::prelude::*;

verus! {

/// Bit pattern of the density that a body starts with, 0.001.
pub const DEFAULT_DENSITY_BITS: u64 = 0x3f50_624d_d2f1_a9fc;

/// Bit pattern of the air friction that a body starts with, 0.01.
pub const DEFAULT_FRICTION_AIR_BITS: u64 = 0x3f84_7ae1_47ae_147b;

/// Bit pattern of the static friction that a body starts with, 0.5.
pub const DEFAULT_FRICTION_STATIC_BITS: u64 = 0x3fe0_0000_0000_0000;

/// Bit pattern of the friction that a body starts with, 0.1.
pub const DEFAULT_FRICTION_BITS: u64 = 0x3fb9_9999_9999_999a;

/// Bit pattern of the slop that a body starts with, 0.05.
pub const DEFAULT_SLOP_BITS: u64 = 0x3fa9_9999_9999_999a;

/// Bit pattern of the side of the square that a body starts as, 40.
pub const DEFAULT_SIDE_BITS: u64 = 0x4044_0000_0000_0000;

/// How many quiet steps send a new body to sleep.
pub const DEFAULT_SLEEP_THRESHOLD: u32 = 60;

/// A rigid body: how it moves, what it weighs, what it is made of, its
/// shape and the bodies it is composed of.
#[derive(Debug)]
pub struct Body {
    angle_prev: Scalar,
    angle: Scalar,
    angular_speed: Scalar,
    angular_velocity: Scalar,
    area: Scalar,
    axes: Option<Axes>,
    bounds: Option<Bounds>,
    chamfer: Option<Vec<Vector>>,
    circle_radius: Option<Scalar>,
    collision_filter: CollisionFilter,
    constraint_impulse: ConstraintImpulse,
    delta_time: Option<Scalar>,
    density: Scalar,
    force: Force,
    friction_air: Scalar,
    friction_static: Scalar,
    friction: Scalar,
    id: u128,
    inertia: Scalar,
    inverse_inertia: Scalar,
    inverse_mass: Scalar,
    is_sensor: bool,
    is_sleeping: bool,
    mass: Scalar,
    motion: Scalar,
    parent: Option<u128>,
    parts: Option<Vec<Body>>,
    position_impulse: Position,
    position_prev: Option<Position>,
    position: Position,
    render: Render,
    resitution: Scalar,
    shape_type: ShapeType,
    sleep_threshold: u32,
    slop: Scalar,
    speed: Scalar,
    time_scale: u16,
    torque: Scalar,
    total_contacts: u32,
    velocity: Velocity,
    vertices: Vertices,
    frozen: Option<BodyOriginal>,
}

/// A body as a value: what it holds, its parts in turn as such values.
#[verifier::ext_equal]
pub struct BodyView {
    /// The angle one step ago.
    pub angle_prev: Scalar,
    /// How far the body is turned.
    pub angle: Scalar,
    /// The size of the angular velocity, as last stored.
    pub angular_speed: Scalar,
    /// The turn per step, as last stored.
    pub angular_velocity: Scalar,
    /// The area of the shape.
    pub area: Scalar,
    /// The axes of the shape, where they were derived.
    pub axes: Option<Seq<Vertex>>,
    /// The box around the shape, where it is kept.
    pub bounds: Option<Bounds>,
    /// The rounding that the shape was made with.
    pub chamfer: Option<Seq<Vector>>,
    /// The radius, for a body that is a circle.
    pub circle_radius: Option<Scalar>,
    /// Which bodies this one may meet.
    pub collision_filter: CollisionFilter,
    /// What the constraints pushed it by.
    pub constraint_impulse: ConstraintImpulse,
    /// The length of the last step.
    pub delta_time: Option<Scalar>,
    /// Mass per area.
    pub density: Scalar,
    /// The force gathered for the next step.
    pub force: Force,
    /// How much the air slows it.
    pub friction_air: Scalar,
    /// The friction at rest.
    pub friction_static: Scalar,
    /// The friction in motion.
    pub friction: Scalar,
    /// The id by which the body is known.
    pub id: u128,
    /// The moment of inertia.
    pub inertia: Scalar,
    /// One over the moment of inertia.
    pub inverse_inertia: Scalar,
    /// One over the mass.
    pub inverse_mass: Scalar,
    /// It senses contact without answering it.
    pub is_sensor: bool,
    /// It is at rest and left out of the step.
    pub is_sleeping: bool,
    /// It is frozen in place.
    pub is_static: bool,
    /// The mass.
    pub mass: Scalar,
    /// How much it has lately moved.
    pub motion: Scalar,
    /// What it was like before it was frozen; there exactly while it is frozen.
    pub original: Option<BodyOriginal>,
    /// The id of the body that it is a part of.
    pub parent: Option<u128>,
    /// The bodies that it is made of, once it was given any.
    pub parts: Option<Seq<BodyView>>,
    /// What the contacts pushed it by.
    pub position_impulse: Position,
    /// Where it was one step ago.
    pub position_prev: Option<Position>,
    /// Where it is.
    pub position: Position,
    /// How it is drawn.
    pub render: Render,
    /// How much it bounces.
    pub resitution: Scalar,
    /// What kind of shape it is.
    pub shape_type: ShapeType,
    /// How many quiet steps send it to sleep.
    pub sleep_threshold: u32,
    /// How far it may sink into another.
    pub slop: Scalar,
    /// The size of the velocity, as last stored.
    pub speed: Scalar,
    /// How fast time runs for it.
    pub time_scale: u16,
    /// The torque gathered for the next step.
    pub torque: Scalar,
    /// How many contacts it is in.
    pub total_contacts: u32,
    /// The move per step, as last stored.
    pub velocity: Velocity,
    /// The corners of the shape.
    pub vertices: Seq<Vertex>,
}

impl View for Body {
    type V = BodyView;

    closed spec fn view(&self) -> BodyView
        decreases self, 0nat,
    {
        BodyView {
            angle_prev: self.angle_prev,
            angle: self.angle,
            angular_speed: self.angular_speed,
            angular_velocity: self.angular_velocity,
            area: self.area,
            axes: match self.axes {
                Some(axes) => Some(axes@),
                None => None,
            },
            bounds: self.bounds,
            chamfer: match self.chamfer {
                Some(chamfer) => Some(chamfer@),
                None => None,
            },
            circle_radius: self.circle_radius,
            collision_filter: self.collision_filter,
            constraint_impulse: self.constraint_impulse,
            delta_time: self.delta_time,
            density: self.density,
            force: self.force,
            friction_air: self.friction_air,
            friction_static: self.friction_static,
            friction: self.friction,
            id: self.id,
            inertia: self.inertia,
            inverse_inertia: self.inverse_inertia,
            inverse_mass: self.inverse_mass,
            is_sensor: self.is_sensor,
            is_sleeping: self.is_sleeping,
            is_static: self.frozen is Some,
            mass: self.mass,
            motion: self.motion,
            original: self.frozen,
            parent: self.parent,
            parts: match self.parts {
                Some(parts) => Some(part_views(parts@, parts@.len())),
                None => None,
            },
            position_impulse: self.position_impulse,
            position_prev: self.position_prev,
            position: self.position,
            render: self.render,
            resitution: self.resitution,
            shape_type: self.shape_type,
            sleep_threshold: self.sleep_threshold,
            slop: self.slop,
            speed: self.speed,
            time_scale: self.time_scale,
            torque: self.torque,
            total_contacts: self.total_contacts,
            velocity: self.velocity,
            vertices: self.vertices@,
        }
    }
}

/// The values of the first `count` of `parts`.
pub closed spec fn part_views(parts: Seq<Body>, count: nat) -> Seq<BodyView>
    decreases parts, count,
{
    if count == 0 || count > parts.len() {
        Seq::empty()
    } else {
        part_views(parts, (count - 1) as nat).push(parts[count - 1].view())
    }
}

/// The values of bodies, one for one.
pub open spec fn body_views(bodies: Seq<Body>) -> Seq<BodyView> {
    Seq::new(bodies.len(), |i: int| bodies[i]@)
}

/// References to bodies as the values of the bodies.
pub open spec fn ref_views(bodies: Seq<&Body>) -> Seq<BodyView> {
    Seq::new(bodies.len(), |i: int| bodies[i]@)
}

proof fn lemma_part_views(parts: Seq<Body>, count: nat)
    requires
        count <= parts.len(),
    ensures
        part_views(parts, count) == body_views(parts.subrange(0, count as int)),
    decreases count,
{
    reveal_with_fuel(part_views, 2);
    if count > 0 {
        lemma_part_views(parts, (count - 1) as nat);
        assert(part_views(parts, count) == part_views(parts, (count - 1) as nat).push(
            parts[count - 1].view(),
        ));
    }
    assert(part_views(parts, count) =~= body_views(parts.subrange(0, count as int)));
}

/// The square that a body starts as: from the origin, 40 to a side, wound
/// from the x axis to the y axis, owned by the body with id `id`.
pub open spec fn default_square(id: u128) -> Seq<Vertex> {
    let side = Scalar::from_bits(DEFAULT_SIDE_BITS);
    seq![
        Vertex { body: Some(id), x: Scalar::zero(), y: Scalar::zero(), index: 0, is_internal: false },
        Vertex { body: Some(id), x: side, y: Scalar::zero(), index: 1, is_internal: false },
        Vertex { body: Some(id), x: side, y: side, index: 2, is_internal: false },
        Vertex { body: Some(id), x: Scalar::zero(), y: side, index: 3, is_internal: false },
    ]
}

/// A new body with id `id`: at rest at the origin, without mass or area yet,
/// shaped as the default square, not frozen, with no parts and no parent.
pub open spec fn default_state(id: u128) -> BodyView {
    BodyView {
        angle_prev: Scalar::zero(),
        angle: Scalar::zero(),
        angular_speed: Scalar::zero(),
        angular_velocity: Scalar::zero(),
        area: Scalar::zero(),
        axes: None,
        bounds: None,
        chamfer: None,
        circle_radius: None,
        collision_filter: CollisionFilter { category: 1, mask: 0xffff_ffff, group: 0 },
        constraint_impulse: ConstraintImpulse { x: Scalar::zero(), y: Scalar::zero(), angle: Scalar::zero() },
        delta_time: Some(Scalar::from_bits(BASE_DELTA_BITS)),
        density: Scalar::from_bits(DEFAULT_DENSITY_BITS),
        force: Force { x: Scalar::zero(), y: Scalar::zero() },
        friction_air: Scalar::from_bits(DEFAULT_FRICTION_AIR_BITS),
        friction_static: Scalar::from_bits(DEFAULT_FRICTION_STATIC_BITS),
        friction: Scalar::from_bits(DEFAULT_FRICTION_BITS),
        id,
        inertia: Scalar::zero(),
        inverse_inertia: Scalar::zero(),
        inverse_mass: Scalar::zero(),
        is_sensor: false,
        is_sleeping: false,
        is_static: false,
        mass: Scalar::zero(),
        motion: Scalar::zero(),
        original: None,
        parent: None,
        parts: None,
        position_impulse: Position { x: Scalar::zero(), y: Scalar::zero() },
        position_prev: None,
        position: Position { x: Scalar::zero(), y: Scalar::zero() },
        render: Render {
            visible: true,
            opacity: Scalar::one(),
            sprite: Sprite { x_scale: Scalar::one(), y_scale: Scalar::one(), x_offset: Scalar::zero(), y_offset: Scalar::zero() },
        },
        resitution: Scalar::zero(),
        shape_type: ShapeType::Body,
        sleep_threshold: DEFAULT_SLEEP_THRESHOLD,
        slop: Scalar::from_bits(DEFAULT_SLOP_BITS),
        speed: Scalar::zero(),
        time_scale: 1,
        torque: Scalar::zero(),
        total_contacts: 0,
        velocity: Velocity { x: Scalar::zero(), y: Scalar::zero() },
        vertices: default_square(id),
    }
}

/// The body frozen in place: what freezing overwrites is kept in `original`;
/// it weighs infinitely much, does not bounce, grips fully, and its last
/// place and angle are its present ones, so that it reads as at rest.
pub open spec fn frozen(body: BodyView) -> BodyView {
    BodyView {
        original: Some(snapshot(body)),
        is_static: true,
        resitution: Scalar::zero(),
        friction: Scalar::one(),
        mass: Scalar::infinity(),
        inertia: Scalar::infinity(),
        density: Scalar::infinity(),
        inverse_mass: Scalar::zero(),
        inverse_inertia: Scalar::zero(),
        position_prev: Some(body.position),
        angle_prev: body.angle,
        angular_velocity: Scalar::zero(),
        speed: Scalar::zero(),
        angular_speed: Scalar::zero(),
        motion: Scalar::zero(),
        ..body
    }
}

/// The body set free: what was kept when it was frozen is back in place and
/// kept no longer. A body that was not frozen is as before.
pub open spec fn thawed(body: BodyView) -> BodyView {
    match body.original {
        Some(original) => BodyView {
            density: original.density,
            friction: original.friction,
            inertia: original.inertia,
            inverse_inertia: original.inverse_inertia,
            inverse_mass: original.inverse_mass,
            mass: original.mass,
            resitution: original.resitution,
            original: None,
            is_static: false,
            ..body
        },
        None => BodyView { is_static: false, ..body },
    }
}

/// One body frozen or set free, its parts left as they are.
pub open spec fn set_static_one(body: BodyView, is_static: bool) -> BodyView {
    if is_static {
        frozen(body)
    } else {
        thawed(body)
    }
}

/// A body frozen or set free, and each of its parts with it.
pub open spec fn static_set(body: BodyView, is_static: bool) -> BodyView {
    BodyView {
        parts: match body.parts {
            Some(parts) => Some(parts.map_values(|part: BodyView| set_static_one(part, is_static))),
            None => None,
        },
        ..set_static_one(body, is_static)
    }
}

/// The body and after it its parts: all that moves when the body moves.
pub open spec fn all_parts(body: BodyView) -> Seq<BodyView> {
    match body.parts {
        Some(parts) => seq![body] + parts,
        None => seq![body],
    }
}

/// The bodies that the totals of a body are taken over: its parts where it
/// has any, otherwise the body itself.
pub open spec fn total_parts(body: BodyView) -> Seq<BodyView> {
    match body.parts {
        Some(parts) => if parts.len() > 0 {
            parts
        } else {
            seq![body]
        },
        None => seq![body],
    }
}

/// What a mass counts for in the totals: itself, or one where it is
/// infinite, so that a frozen part does not swallow the others.
pub open spec fn weight_of(mass: Scalar) -> Scalar {
    if mass.eq(Scalar::infinity()) {
        Scalar::one()
    } else {
        mass
    }
}

/// The property that `option` names stands alone: it can be set without
/// any other property having to follow.
pub open spec fn settable_alone(option: BodyOption) -> bool {
    match option {
        BodyOption::ShapeType(_) => true,
        BodyOption::Force(_) => true,
        BodyOption::Torque(_) => true,
        BodyOption::PositionImpulse(_) => true,
        BodyOption::ConstraintImpulse(_) => true,
        BodyOption::TotalContracts(_) => true,
        BodyOption::IsSensor(_) => true,
        BodyOption::IsSleeping(_) => true,
        BodyOption::Motion(_) => true,
        BodyOption::SleepThreshold(_) => true,
        BodyOption::Resitution(_) => true,
        BodyOption::Friction(_) => true,
        BodyOption::FrictionStatic(_) => true,
        BodyOption::FrictionAir(_) => true,
        BodyOption::CollisionFilter(_) => true,
        BodyOption::Slop(_) => true,
        BodyOption::TimeScale(_) => true,
        BodyOption::Render(_) => true,
        BodyOption::Bounds(_) => true,
        BodyOption::Chamfer(_) => true,
        BodyOption::CircleRadius(_) => true,
        BodyOption::PositionPrev(_) => true,
        BodyOption::AnglePrev(_) => true,
        BodyOption::Area(_) => true,
        BodyOption::DeltaTime(_) => true,
        BodyOption::Axes(_) => true,
        BodyOption::IsStatic(_) => true,
        _ => false,
    }
}

/// The body with the one property set that `option` names.
pub open spec fn with_option(body: BodyView, option: BodyOption) -> BodyView {
    match option {
        BodyOption::ShapeType(value) => BodyView { shape_type: value, ..body },
        BodyOption::Force(value) => BodyView { force: value, ..body },
        BodyOption::Torque(value) => BodyView { torque: value, ..body },
        BodyOption::PositionImpulse(value) => BodyView { position_impulse: value, ..body },
        BodyOption::ConstraintImpulse(value) => BodyView { constraint_impulse: value, ..body },
        BodyOption::TotalContracts(value) => BodyView { total_contacts: value, ..body },
        BodyOption::IsSensor(value) => BodyView { is_sensor: value, ..body },
        BodyOption::IsSleeping(value) => BodyView { is_sleeping: value, ..body },
        BodyOption::Motion(value) => BodyView { motion: value, ..body },
        BodyOption::SleepThreshold(value) => BodyView { sleep_threshold: value, ..body },
        BodyOption::Resitution(value) => BodyView { resitution: value, ..body },
        BodyOption::Friction(value) => BodyView { friction: value, ..body },
        BodyOption::FrictionStatic(value) => BodyView { friction_static: value, ..body },
        BodyOption::FrictionAir(value) => BodyView { friction_air: value, ..body },
        BodyOption::CollisionFilter(value) => BodyView { collision_filter: value, ..body },
        BodyOption::Slop(value) => BodyView { slop: value, ..body },
        BodyOption::TimeScale(value) => BodyView { time_scale: value, ..body },
        BodyOption::Render(value) => BodyView { render: value, ..body },
        BodyOption::Bounds(value) => BodyView { bounds: Some(value), ..body },
        BodyOption::Chamfer(value) => BodyView { chamfer: Some(value@), ..body },
        BodyOption::CircleRadius(value) => BodyView { circle_radius: Some(value), ..body },
        BodyOption::PositionPrev(value) => BodyView { position_prev: Some(value), ..body },
        BodyOption::AnglePrev(value) => BodyView { angle_prev: value, ..body },
        BodyOption::Area(value) => BodyView { area: value, ..body },
        BodyOption::DeltaTime(value) => BodyView { delta_time: Some(value), ..body },
        BodyOption::Axes(normals) => BodyView {
            axes: Some(indexed_vertices(normals@, None)),
            ..body
        },
        BodyOption::IsStatic(value) => static_set(body, value),
        _ => body,
    }
}

/// The body after a move by `delta`. Where the move is to show as velocity,
/// the place before the move is kept as the last place, and `delta` and its
/// length `speed` are the velocity and the speed; otherwise the last place
/// goes along to `shifted_prev`, so that no velocity shows. The place itself
/// is moved with the parts.
pub open spec fn position_changed(
    body: BodyView,
    update_velocity: bool,
    delta: Velocity,
    speed: Scalar,
    shifted_prev: Position,
) -> BodyView {
    if update_velocity {
        BodyView { position_prev: Some(body.position), velocity: delta, speed, ..body }
    } else {
        BodyView { position_prev: Some(shifted_prev), ..body }
    }
}

/// The body after a turn by `delta`. Where the turn is to show as angular
/// velocity, the angle before the turn is kept as the last angle, `delta` is
/// the angular velocity and `delta` without its sign the angular speed;
/// otherwise the last angle goes along to `shifted_prev`. The angle itself is
/// turned with the parts.
pub open spec fn angle_changed(
    body: BodyView,
    update_velocity: bool,
    delta: Scalar,
    shifted_prev: Scalar,
) -> BodyView {
    if update_velocity {
        BodyView {
            angle_prev: body.angle,
            angular_velocity: delta,
            angular_speed: delta.abs(),
            ..body
        }
    } else {
        BodyView { angle_prev: shifted_prev, ..body }
    }
}

/// The body after a step of `delta_time` that moved it by `velocity` to
/// `position` and turned it by `angular_velocity` to `angle`: where it was
/// and how it was turned before the step are kept as the last place and the
/// last angle.
pub open spec fn stepped(
    body: BodyView,
    delta_time: Scalar,
    velocity: Velocity,
    position: Position,
    angular_velocity: Scalar,
    angle: Scalar,
) -> BodyView {
    BodyView {
        velocity,
        position_prev: Some(body.position),
        position,
        delta_time: Some(delta_time),
        angular_velocity,
        angle_prev: body.angle,
        angle,
        ..body
    }
}

/// The radius of a circle after its shape was scaled.
pub open spec fn scaled_circle_radius(
    radius: Option<Scalar>,
    scale_x: Scalar,
    scale_y: Scalar,
    scaled: Scalar,
) -> Option<Scalar> {
    if radius is Some {
        if scale_x.eq(scale_y) {
            Some(scaled)
        } else {
            None
        }
    } else {
        None
    }
}

/// Each of `parts` with the body of id `parent` for its parent.
pub open spec fn adopted(parts: Seq<BodyView>, parent: u128) -> Seq<BodyView> {
    parts.map_values(|part: BodyView| BodyView { parent: Some(parent), ..part })
}

/// Freezing a body and then setting it free brings back, exactly, its
/// density, friction, mass, inertia, inverse mass, inverse inertia and
/// restitution, and leaves it not frozen with nothing kept.
pub proof fn lemma_freeze_thaw_one(body: BodyView)
    ensures
        snapshot(thawed(frozen(body))) == snapshot(body),
        !thawed(frozen(body)).is_static,
        thawed(frozen(body)).original is None,
{
}

/// Freezing a body with its parts and then setting them free brings back the
/// same seven properties of the body and of every part, whatever state each
/// was in before.
pub proof fn lemma_freeze_thaw_restores(body: BodyView)
    ensures
        snapshot(static_set(static_set(body, true), false)) == snapshot(body),
        !static_set(static_set(body, true), false).is_static,
        static_set(static_set(body, true), false).original is None,
        match body.parts {
            Some(parts) => {
                &&& static_set(static_set(body, true), false).parts matches Some(after)
                &&& after.len() == parts.len()
                &&& forall|i: int|
                    0 <= i < parts.len() ==> {
                        &&& snapshot(#[trigger] after[i]) == snapshot(parts[i])
                        &&& !after[i].is_static
                        &&& after[i].original is None
                    }
            },
            None => static_set(static_set(body, true), false).parts is None,
        },
{
    lemma_freeze_thaw_one(body);
    match body.parts {
        Some(parts) => {
            let after = static_set(static_set(body, true), false).parts->Some_0;
            assert forall|i: int| 0 <= i < parts.len() implies {
                &&& snapshot(#[trigger] after[i]) == snapshot(parts[i])
                &&& !after[i].is_static
                &&& after[i].original is None
            } by {
                lemma_freeze_thaw_one(parts[i]);
            }
        },
        None => {},
    }
}

/// Freezing and setting free touch nothing but the properties that they are
/// about: which body it is, where it is, how it is shaped and what it is
/// part of stay as they were.
pub proof fn lemma_static_set_keeps_shape(body: BodyView, is_static: bool)
    ensures
        static_set(body, is_static).id == body.id,
        static_set(body, is_static).position == body.position,
        static_set(body, is_static).angle == body.angle,
        static_set(body, is_static).vertices == body.vertices,
        static_set(body, is_static).axes == body.axes,
        static_set(body, is_static).bounds == body.bounds,
        static_set(body, is_static).area == body.area,
        static_set(body, is_static).parent == body.parent,
        static_set(body, is_static).is_static == is_static,
{
}

impl Body {
    /// A body is frozen exactly while it keeps what it was like before.
    pub proof fn lemma_frozen_keeps_original(&self)
        ensures
            self@.is_static == (self@.original is Some),
    {
    }

    /// The parts of the value are the values of the parts.
    proof fn lemma_parts(&self)
        ensures
            self@.parts == match self.parts {
                Some(parts) => Some(body_views(parts@)),
                None => None,
            },
    {
        match self.parts {
            Some(parts) => {
                lemma_part_views(parts@, parts@.len());
                assert(parts@.subrange(0, parts@.len() as int) == parts@);
            },
            None => {},
        }
    }

    /// A new body with an id of its own.
    pub fn default_body() -> (body: Self)
        ensures
            body@ == default_state(body@.id),
            body@.id & ID_KIND_MASK == ID_KIND_RANDOM,
    {
        Body::with_id(next_id())
    }

    /// A new body with the id `id`.
    pub fn with_id(id: u128) -> (body: Self)
        ensures
            body@ == default_state(id),
    {
        let mut corners: Vec<Vertex> = Vec::new();
        let side = Scalar::from_bits(DEFAULT_SIDE_BITS);
        corners.push(Vertex::new(Some(id), Scalar::zero(), Scalar::zero(), 0, false));
        corners.push(Vertex::new(Some(id), side, Scalar::zero(), 1, false));
        corners.push(Vertex::new(Some(id), side, side, 2, false));
        corners.push(Vertex::new(Some(id), Scalar::zero(), side, 3, false));
        let body = Body {
            angle_prev: Scalar::zero(),
            angle: Scalar::zero(),
            angular_speed: Scalar::zero(),
            angular_velocity: Scalar::zero(),
            area: Scalar::zero(),
            axes: None,
            bounds: None,
            chamfer: None,
            circle_radius: None,
            collision_filter: CollisionFilter::new(1, u32::MAX, 0),
            constraint_impulse: ConstraintImpulse::new(
                Scalar::zero(),
                Scalar::zero(),
                Scalar::zero(),
            ),
            delta_time: Some(Scalar::from_bits(BASE_DELTA_BITS)),
            density: Scalar::from_bits(DEFAULT_DENSITY_BITS),
            force: Force::new(Scalar::zero(), Scalar::zero()),
            friction_air: Scalar::from_bits(DEFAULT_FRICTION_AIR_BITS),
            friction_static: Scalar::from_bits(DEFAULT_FRICTION_STATIC_BITS),
            friction: Scalar::from_bits(DEFAULT_FRICTION_BITS),
            id,
            inertia: Scalar::zero(),
            inverse_inertia: Scalar::zero(),
            inverse_mass: Scalar::zero(),
            is_sensor: false,
            is_sleeping: false,
            mass: Scalar::zero(),
            motion: Scalar::zero(),
            parent: None,
            parts: None,
            position_impulse: Position { x: Scalar::zero(), y: Scalar::zero() },
            position_prev: None,
            position: Position { x: Scalar::zero(), y: Scalar::zero() },
            render: Render::new(
                true,
                Scalar::one(),
                Sprite::new(Scalar::one(), Scalar::one(), Scalar::zero(), Scalar::zero()),
            ),
            resitution: Scalar::zero(),
            shape_type: ShapeType::Body,
            sleep_threshold: DEFAULT_SLEEP_THRESHOLD,
            slop: Scalar::from_bits(DEFAULT_SLOP_BITS),
            speed: Scalar::zero(),
            time_scale: 1,
            torque: Scalar::zero(),
            total_contacts: 0,
            velocity: Velocity { x: Scalar::zero(), y: Scalar::zero() },
            vertices: Vertices::from_value(corners),
            frozen: None,
        };
        assert(body@.vertices =~= default_square(id));
        body
    }

    /// A second body that holds what this one holds, parts and all.
    pub fn clone(&self) -> (copy: Body)
        ensures
            copy@ == self@,
        decreases self,
    {
        let parts = match &self.parts {
            Some(my_parts) => {
                let mut parts: Vec<Body> = Vec::new();
                let mut index: usize = 0;
                while index < my_parts.len()
                    invariant
                        index <= my_parts@.len(),
                        self.parts == Some(*my_parts),
                        parts@.len() == index,
                        forall|i: int| 0 <= i < index ==> parts@[i]@ == my_parts@[i]@,
                    decreases my_parts@.len() - index,
                {
                    proof {
                        assert(decreases_to!(self.parts => self.parts->Some_0));
                        assert(decreases_to!(self => my_parts@[index as int]));
                    }
                    parts.push(my_parts[index].clone());
                    index += 1;
                }
                Some(parts)
            },
            None => None,
        };
        let copy = Body {
            angle_prev: self.angle_prev,
            angle: self.angle,
            angular_speed: self.angular_speed,
            angular_velocity: self.angular_velocity,
            area: self.area,
            axes: match &self.axes {
                Some(axes) => Some(axes.clone()),
                None => None,
            },
            bounds: self.bounds,
            chamfer: match &self.chamfer {
                Some(chamfer) => Some(chamfer.clone()),
                None => None,
            },
            circle_radius: self.circle_radius,
            collision_filter: self.collision_filter,
            constraint_impulse: self.constraint_impulse,
            delta_time: self.delta_time,
            density: self.density,
            force: self.force,
            friction_air: self.friction_air,
            friction_static: self.friction_static,
            friction: self.friction,
            id: self.id,
            inertia: self.inertia,
            inverse_inertia: self.inverse_inertia,
            inverse_mass: self.inverse_mass,
            is_sensor: self.is_sensor,
            is_sleeping: self.is_sleeping,
            mass: self.mass,
            motion: self.motion,
            parent: self.parent,
            parts,
            position_impulse: self.position_impulse,
            position_prev: self.position_prev,
            position: self.position,
            render: self.render,
            resitution: self.resitution,
            shape_type: self.shape_type,
            sleep_threshold: self.sleep_threshold,
            slop: self.slop,
            speed: self.speed,
            time_scale: self.time_scale,
            torque: self.torque,
            total_contacts: self.total_contacts,
            velocity: self.velocity,
            vertices: self.vertices.clone(),
            frozen: self.frozen,
        };
        proof {
            self.lemma_parts();
            copy.lemma_parts();
            assert(copy@.parts =~= self@.parts);
            assert(copy@.axes =~= self@.axes);
            assert(copy@.chamfer =~= self@.chamfer);
        }
        copy
    }

    /// Freezes or frees this one body, not its parts.
    fn set_static_own(&mut self, is_static: bool)
        ensures
            final(self)@ == set_static_one(old(self)@, is_static),
            final(self).parts == old(self).parts,
    {
        if is_static {
            self.frozen = Some(
                BodyOriginal {
                    density: self.density,
                    friction: self.friction,
                    inertia: self.inertia,
                    inverse_inertia: self.inverse_inertia,
                    inverse_mass: self.inverse_mass,
                    mass: self.mass,
                    resitution: self.resitution,
                },
            );
            self.resitution = Scalar::zero();
            self.friction = Scalar::one();
            self.mass = Scalar::infinity();
            self.inertia = Scalar::infinity();
            self.density = Scalar::infinity();
            self.inverse_mass = Scalar::zero();
            self.inverse_inertia = Scalar::zero();
            self.position_prev = Some(self.position);
            self.angle_prev = self.angle;
            self.angular_velocity = Scalar::zero();
            self.speed = Scalar::zero();
            self.angular_speed = Scalar::zero();
            self.motion = Scalar::zero();
        } else if let Some(original) = self.frozen {
            self.set_from_body_original(&original);
            self.frozen = None;
        }
    }

    fn set_from_body_original(&mut self, value: &BodyOriginal)
        ensures
            *final(self) == (Body {
                density: value.density,
                friction: value.friction,
                inertia: value.inertia,
                inverse_inertia: value.inverse_inertia,
                inverse_mass: value.inverse_mass,
                mass: value.mass,
                resitution: value.resitution,
                ..*old(self)
            }),
    {
        self.density = value.get_density();
        self.friction = value.get_friction();
        self.inertia = value.get_inertia();
        self.inverse_inertia = value.get_inverse_inertia();
        self.inverse_mass = value.get_inverse_mass();
        self.mass = value.get_mass();
        self.resitution = value.get_resitution();
    }

    /// Freezes the body and its parts in place, or sets them free again.
    pub fn set_static(&mut self, is_static: bool)
        ensures
            final(self)@ == static_set(old(self)@, is_static),
    {
        self.set_static_own(is_static);
        let ghost own = *self;
        match &mut self.parts {
            Some(parts) => {
                let mut index: usize = 0;
                while index < parts.len()
                    invariant
                        index <= parts@.len(),
                        own.parts is Some,
                        parts@.len() == own.parts->Some_0@.len(),
                        forall|i: int|
                            0 <= i < index ==> parts@[i]@ == set_static_one(
                                own.parts->Some_0@[i]@,
                                is_static,
                            ),
                        forall|i: int| index <= i < parts@.len() ==> parts@[i] == own.parts->Some_0@[i],
                    decreases parts@.len() - index,
                {
                    parts[index].set_static_own(is_static);
                    index += 1;
                }
            },
            None => {},
        }
        proof {
            own.lemma_parts();
            self.lemma_parts();
            old(self).lemma_parts();
            assert(self@.parts =~= static_set(old(self)@, is_static).parts);
        }
    }

    /// The body itself and after it its parts.
    pub fn get_parts(&self) -> (parts: Vec<&Body>)
        ensures
            ref_views(parts@) == all_parts(self@),
    {
        let mut parts: Vec<&Body> = Vec::new();
        parts.push(self);
        proof {
            self.lemma_parts();
        }
        if let Some(my_parts) = &self.parts {
            let mut index: usize = 0;
            while index < my_parts.len()
                invariant
                    index <= my_parts@.len(),
                    parts@.len() == index + 1,
                    parts@[0] == self,
                    forall|i: int| 0 <= i < index ==> parts@[i + 1] == &my_parts@[i],
                decreases my_parts@.len() - index,
            {
                parts.push(&my_parts[index]);
                index += 1;
            }
            assert(ref_views(parts@) =~= all_parts(self@));
        } else {
            assert(ref_views(parts@) =~= all_parts(self@));
        }
        parts
    }

    /// The bodies that the totals are taken over.
    pub fn get_total_parts(&self) -> (parts: Vec<&Body>)
        ensures
            ref_views(parts@) == total_parts(self@),
    {
        let mut parts: Vec<&Body> = Vec::new();
        proof {
            self.lemma_parts();
        }
        if let Some(my_parts) = &self.parts {
            let mut index: usize = 0;
            while index < my_parts.len()
                invariant
                    index <= my_parts@.len(),
                    parts@.len() == index,
                    forall|i: int| 0 <= i < index ==> parts@[i] == &my_parts@[i],
                decreases my_parts@.len() - index,
            {
                parts.push(&my_parts[index]);
                index += 1;
            }
        }
        if parts.len() == 0 {
            parts.push(self);
        }
        assert(ref_views(parts@) =~= total_parts(self@));
        parts
    }

    /// What the body counts for in the totals of the body that it is part of.
    pub fn get_weight(&self) -> (weight: Scalar)
        ensures
            weight == weight_of(self@.mass),
    {
        if self.mass.eq(Scalar::infinity()) {
            Scalar::one()
        } else {
            self.mass
        }
    }

    pub fn is_part_parent(&self, part: &Body) -> (same: bool)
        ensures
            same == (self@.id == part@.id),
    {
        self.id == part.id
    }

    /// Makes `parts` the parts of this body and this body the parent of each
    /// of them. Without any parts nothing changes.
    pub fn attach_parts(&mut self, parts: Vec<Body>) -> (attached: bool)
        ensures
            attached == (parts@.len() > 0),
            attached ==> final(self)@ == (BodyView {
                parts: Some(adopted(body_views(parts@), old(self)@.id)),
                ..old(self)@
            }),
            !attached ==> final(self)@ == old(self)@,
    {
        let mut parts = parts;
        let ghost given = parts;
        let mut index: usize = 0;
        while index < parts.len()
            invariant
                index <= parts@.len(),
                parts@.len() == given@.len(),
                forall|i: int|
                    0 <= i < index ==> parts@[i]@ == (BodyView {
                        parent: Some(self.id),
                        ..given@[i]@
                    }),
                forall|i: int| index <= i < parts@.len() ==> parts@[i] == given@[i],
            decreases parts@.len() - index,
        {
            parts[index].set_parent(self.id);
            index += 1;
        }
        if parts.len() > 0 {
            self.parts = Some(parts);
            proof {
                self.lemma_parts();
                assert(self@.parts->Some_0 =~= adopted(body_views(given@), old(self)@.id));
            }
            true
        } else {
            false
        }
    }

    /// Puts `value` in the place of the parts, as it is.
    pub fn set_parts_prop(&mut self, value: Vec<Body>)
        ensures
            final(self)@ == (BodyView { parts: Some(body_views(value@)), ..old(self)@ }),
    {
        self.parts = Some(value);
        proof {
            self.lemma_parts();
        }
    }

    /// Hands the parts out and leaves the body without any.
    pub fn take_parts(&mut self) -> (parts: Option<Vec<Body>>)
        ensures
            final(self)@ == (BodyView { parts: None, ..old(self)@ }),
            old(self)@.parts == match parts {
                Some(parts) => Some(body_views(parts@)),
                None => None,
            },
    {
        proof {
            self.lemma_parts();
        }
        self.parts.take()
    }

    /// Sets the one property that `option` names.
    pub fn set_one(&mut self, option: &BodyOption)
        requires
            settable_alone(*option),
        ensures
            final(self)@ == with_option(old(self)@, *option),
    {
        match option {
            BodyOption::ShapeType(value) => {
                self.shape_type = *value;
            },
            BodyOption::Force(value) => {
                self.force = *value;
            },
            BodyOption::Torque(value) => {
                self.torque = *value;
            },
            BodyOption::PositionImpulse(value) => {
                self.position_impulse = *value;
            },
            BodyOption::ConstraintImpulse(value) => {
                self.constraint_impulse = *value;
            },
            BodyOption::TotalContracts(value) => {
                self.total_contacts = *value;
            },
            BodyOption::IsSensor(value) => {
                self.is_sensor = *value;
            },
            BodyOption::IsSleeping(value) => {
                self.is_sleeping = *value;
            },
            BodyOption::Motion(value) => {
                self.motion = *value;
            },
            BodyOption::SleepThreshold(value) => {
                self.sleep_threshold = *value;
            },
            BodyOption::Resitution(value) => {
                self.resitution = *value;
            },
            BodyOption::Friction(value) => {
                self.friction = *value;
            },
            BodyOption::FrictionStatic(value) => {
                self.friction_static = *value;
            },
            BodyOption::FrictionAir(value) => {
                self.friction_air = *value;
            },
            BodyOption::CollisionFilter(value) => {
                self.collision_filter = *value;
            },
            BodyOption::Slop(value) => {
                self.slop = *value;
            },
            BodyOption::TimeScale(value) => {
                self.time_scale = *value;
            },
            BodyOption::Render(value) => {
                self.render = *value;
            },
            BodyOption::Bounds(value) => {
                self.bounds = Some(*value);
            },
            BodyOption::Chamfer(value) => {
                self.chamfer = Some(value.clone());
            },
            BodyOption::CircleRadius(value) => {
                self.circle_radius = Some(*value);
            },
            BodyOption::PositionPrev(value) => {
                self.position_prev = Some(*value);
            },
            BodyOption::AnglePrev(value) => {
                self.angle_prev = *value;
            },
            BodyOption::Area(value) => {
                self.area = *value;
            },
            BodyOption::DeltaTime(value) => {
                self.delta_time = Some(*value);
            },
            BodyOption::Axes(normals) => {
                let axes = Vertices::new(normals.clone(), None);
                self.axes = Some(Axes::new(&axes.get_value()));
            },
            BodyOption::IsStatic(value) => {
                self.set_static(*value);
            },
            _ => {},
        }
    }

    pub fn get_axes(&self) -> (axes: Option<Axes>)
        ensures
            axes is Some == self@.axes is Some,
            axes is Some ==> axes->Some_0@ == self@.axes->Some_0,
    {
        match &self.axes {
            Some(axes) => Some(axes.clone()),
            None => None,
        }
    }

    pub fn get_vertices(&self) -> (vertices: Vertices)
        ensures
            vertices@ == self@.vertices,
    {
        self.vertices.clone()
    }

    pub fn get_chamfer(&self) -> (chamfer: Option<Vec<Vector>>)
        ensures
            chamfer is Some == self@.chamfer is Some,
            chamfer is Some ==> chamfer->Some_0@ == self@.chamfer->Some_0,
    {
        match &self.chamfer {
            Some(chamfer) => Some(chamfer.clone()),
            None => None,
        }
    }

    /// Takes a polygon for the shape of the body: the body becomes the owner
    /// of every corner.
    pub fn adopt_vertices(&mut self, vertices: &Vertices)
        ensures
            final(self)@ == (BodyView {
                vertices: vertices@.map_values(
                    |vertex: Vertex| Vertex { body: Some(old(self)@.id), ..vertex },
                ),
                ..old(self)@
            }),
    {
        let mut vertices = vertices.clone();
        vertices.set_body(self.id);
        self.vertices = vertices;
    }

    pub fn set_vertices_prop(&mut self, value: &Vertices)
        ensures
            final(self)@ == (BodyView { vertices: value@, ..old(self)@ }),
    {
        self.vertices = value.clone();
    }

    pub fn set_position_prop(&mut self, value: &impl XY)
        ensures
            final(self)@ == (BodyView {
                position: Position { x: value.x(), y: value.y() },
                ..old(self)@
            }),
    {
        self.position.x = value.get_x();
        self.position.y = value.get_y();
    }

    pub fn set_axes(&mut self, value: &Axes)
        ensures
            final(self)@ == (BodyView { axes: Some(value@), ..old(self)@ }),
    {
        self.axes = Some(value.clone());
    }

    pub fn set_chamfer(&mut self, value: &Vec<Vector>)
        ensures
            final(self)@ == (BodyView { chamfer: Some(value@), ..old(self)@ }),
    {
        self.chamfer = Some(value.clone());
    }

    /// Records a move of the body by `delta`, of length `speed`; `shifted_prev`
    /// is the last place moved by `delta` as well.
    pub fn record_position_change(
        &mut self,
        update_velocity: bool,
        delta: &Velocity,
        speed: Scalar,
        shifted_prev: &Position,
    )
        ensures
            final(self)@ == position_changed(
                old(self)@,
                update_velocity,
                *delta,
                speed,
                *shifted_prev,
            ),
    {
        if update_velocity {
            self.position_prev = Some(self.position);
            self.velocity = *delta;
            self.speed = speed;
        } else {
            self.position_prev = Some(*shifted_prev);
        }
    }

    /// Records a turn of the body by `delta`; `shifted_prev` is the last angle
    /// turned by `delta` as well.
    pub fn record_angle_change(&mut self, update_velocity: bool, delta: Scalar, shifted_prev: Scalar)
        ensures
            final(self)@ == angle_changed(old(self)@, update_velocity, delta, shifted_prev),
    {
        if update_velocity {
            self.angle_prev = self.angle;
            self.angular_velocity = delta;
            self.angular_speed = delta.abs();
        } else {
            self.angle_prev = shifted_prev;
        }
    }

    /// Records one step of the integration.
    pub fn record_step(
        &mut self,
        delta_time: Scalar,
        velocity: &Velocity,
        position: &Position,
        angular_velocity: Scalar,
        angle: Scalar,
    )
        ensures
            final(self)@ == stepped(
                old(self)@,
                delta_time,
                *velocity,
                *position,
                angular_velocity,
                angle,
            ),
    {
        self.velocity = *velocity;
        self.position_prev = Some(self.position);
        self.position = *position;
        self.delta_time = Some(delta_time);
        self.angular_velocity = angular_velocity;
        self.angle_prev = self.angle;
        self.angle = angle;
    }

    /// Follows a scaling of the shape with the radius of a circle: scaled
    /// alike along both axes the circle has the radius `scaled`, otherwise it
    /// is no circle any more and the radius is forgotten. A body that had no
    /// radius gets none.
    pub fn scale_circle_radius(&mut self, scale_x: Scalar, scale_y: Scalar, scaled: Scalar)
        ensures
            final(self)@ == (BodyView {
                circle_radius: scaled_circle_radius(
                    old(self)@.circle_radius,
                    scale_x,
                    scale_y,
                    scaled,
                ),
                ..old(self)@
            }),
    {
        if self.circle_radius.is_some() {
            if scale_x.eq(scale_y) {
                self.circle_radius = Some(scaled);
            } else {
                self.circle_radius = None;
            }
        }
    }

    /// Forgets the radius: the body is no circle any more.
    pub fn clear_circle_radius(&mut self)
        ensures
            final(self)@ == (BodyView { circle_radius: None, ..old(self)@ }),
    {
        self.circle_radius = None;
    }

    pub fn get_parent(&self) -> (parent: Option<u128>)
        ensures
            parent == self@.parent,
    {
        self.parent
    }

    pub fn get_id(&self) -> (id: u128)
        ensures
            id == self@.id,
    {
        self.id
    }

    pub fn get_inertia(&self) -> (inertia: Scalar)
        ensures
            inertia == self@.inertia,
    {
        self.inertia
    }

    pub fn get_inverse_inertia(&self) -> (inverse_inertia: Scalar)
        ensures
            inverse_inertia == self@.inverse_inertia,
    {
        self.inverse_inertia
    }

    pub fn get_mass(&self) -> (mass: Scalar)
        ensures
            mass == self@.mass,
    {
        self.mass
    }

    pub fn get_inverse_mass(&self) -> (inverse_mass: Scalar)
        ensures
            inverse_mass == self@.inverse_mass,
    {
        self.inverse_mass
    }

    pub fn get_density(&self) -> (density: Scalar)
        ensures
            density == self@.density,
    {
        self.density
    }

    pub fn get_area(&self) -> (area: Scalar)
        ensures
            area == self@.area,
    {
        self.area
    }

    pub fn get_position(&self) -> (position: Position)
        ensures
            position == self@.position,
    {
        self.position
    }

    pub fn get_bounds(&self) -> (bounds: Option<Bounds>)
        ensures
            bounds == self@.bounds,
    {
        self.bounds
    }

    pub fn get_velocity_prop(&self) -> (velocity: Velocity)
        ensures
            velocity == self@.velocity,
    {
        self.velocity
    }

    pub fn get_position_prev(&self) -> (position_prev: Option<Position>)
        ensures
            position_prev == self@.position_prev,
    {
        self.position_prev
    }

    pub fn get_angle(&self) -> (angle: Scalar)
        ensures
            angle == self@.angle,
    {
        self.angle
    }

    pub fn get_force(&self) -> (force: Force)
        ensures
            force == self@.force,
    {
        self.force
    }

    pub fn get_torque(&self) -> (torque: Scalar)
        ensures
            torque == self@.torque,
    {
        self.torque
    }

    pub fn get_position_impulse(&self) -> (position_impulse: Position)
        ensures
            position_impulse == self@.position_impulse,
    {
        self.position_impulse
    }

    pub fn get_constraint_impulse(&self) -> (constraint_impulse: ConstraintImpulse)
        ensures
            constraint_impulse == self@.constraint_impulse,
    {
        self.constraint_impulse
    }

    pub fn get_total_contacts(&self) -> (total_contacts: u32)
        ensures
            total_contacts == self@.total_contacts,
    {
        self.total_contacts
    }

    pub fn get_speed_prop(&self) -> (speed: Scalar)
        ensures
            speed == self@.speed,
    {
        self.speed
    }

    pub fn get_angular_speed_prop(&self) -> (angular_speed: Scalar)
        ensures
            angular_speed == self@.angular_speed,
    {
        self.angular_speed
    }

    pub fn get_angular_velocity_prop(&self) -> (angular_velocity: Scalar)
        ensures
            angular_velocity == self@.angular_velocity,
    {
        self.angular_velocity
    }

    pub fn get_is_sensor(&self) -> (is_sensor: bool)
        ensures
            is_sensor == self@.is_sensor,
    {
        self.is_sensor
    }

    pub fn get_is_static(&self) -> (is_static: bool)
        ensures
            is_static == self@.is_static,
    {
        self.frozen.is_some()
    }

    pub fn get_is_sleeping(&self) -> (is_sleeping: bool)
        ensures
            is_sleeping == self@.is_sleeping,
    {
        self.is_sleeping
    }

    pub fn get_motion(&self) -> (motion: Scalar)
        ensures
            motion == self@.motion,
    {
        self.motion
    }

    pub fn get_sleep_threshold(&self) -> (sleep_threshold: u32)
        ensures
            sleep_threshold == self@.sleep_threshold,
    {
        self.sleep_threshold
    }

    pub fn get_resitution(&self) -> (resitution: Scalar)
        ensures
            resitution == self@.resitution,
    {
        self.resitution
    }

    pub fn get_friction(&self) -> (friction: Scalar)
        ensures
            friction == self@.friction,
    {
        self.friction
    }

    pub fn get_friction_static(&self) -> (friction_static: Scalar)
        ensures
            friction_static == self@.friction_static,
    {
        self.friction_static
    }

    pub fn get_friction_air(&self) -> (friction_air: Scalar)
        ensures
            friction_air == self@.friction_air,
    {
        self.friction_air
    }

    pub fn get_collision_filter(&self) -> (collision_filter: CollisionFilter)
        ensures
            collision_filter == self@.collision_filter,
    {
        self.collision_filter
    }

    pub fn get_slop(&self) -> (slop: Scalar)
        ensures
            slop == self@.slop,
    {
        self.slop
    }

    pub fn get_time_scale(&self) -> (time_scale: u16)
        ensures
            time_scale == self@.time_scale,
    {
        self.time_scale
    }

    pub fn get_render(&self) -> (render: Render)
        ensures
            render == self@.render,
    {
        self.render
    }

    pub fn get_shape_type(&self) -> (shape_type: ShapeType)
        ensures
            shape_type == self@.shape_type,
    {
        self.shape_type
    }

    pub fn get_circle_radius(&self) -> (circle_radius: Option<Scalar>)
        ensures
            circle_radius == self@.circle_radius,
    {
        self.circle_radius
    }

    pub fn get_angle_prev(&self) -> (angle_prev: Scalar)
        ensures
            angle_prev == self@.angle_prev,
    {
        self.angle_prev
    }

    pub fn get_delta_time(&self) -> (delta_time: Option<Scalar>)
        ensures
            delta_time == self@.delta_time,
    {
        self.delta_time
    }

    pub fn get_original(&self) -> (original: Option<BodyOriginal>)
        ensures
            original == self@.original,
    {
        self.frozen
    }

    pub fn set_parent(&mut self, parent: u128)
        ensures
            final(self)@ == (BodyView { parent: Some(parent), ..old(self)@ }),
    {
        self.parent = Some(parent);
    }

    pub fn set_inertia_prop(&mut self, value: Scalar)
        ensures
            final(self)@ == (BodyView { inertia: value, ..old(self)@ }),
    {
        self.inertia = value;
    }

    pub fn set_mass_prop(&mut self, value: Scalar)
        ensures
            final(self)@ == (BodyView { mass: value, ..old(self)@ }),
    {
        self.mass = value;
    }

    pub fn set_angle_prop(&mut self, angle: Scalar)
        ensures
            final(self)@ == (BodyView { angle: angle, ..old(self)@ }),
    {
        self.angle = angle;
    }

    pub fn set_velocity_prop(&mut self, value: &Velocity)
        ensures
            final(self)@ == (BodyView { velocity: *value, ..old(self)@ }),
    {
        self.velocity = *value;
    }

    pub fn set_speed_prop(&mut self, value: Scalar)
        ensures
            final(self)@ == (BodyView { speed: value, ..old(self)@ }),
    {
        self.speed = value;
    }

    pub fn set_angular_speed_prop(&mut self, value: Scalar)
        ensures
            final(self)@ == (BodyView { angular_speed: value, ..old(self)@ }),
    {
        self.angular_speed = value;
    }

    pub fn set_area(&mut self, value: Scalar)
        ensures
            final(self)@ == (BodyView { area: value, ..old(self)@ }),
    {
        self.area = value;
    }

    pub fn set_bounds(&mut self, value: &Bounds)
        ensures
            final(self)@ == (BodyView { bounds: Some(*value), ..old(self)@ }),
    {
        self.bounds = Some(*value);
    }

    pub fn set_circle_radius(&mut self, value: Scalar)
        ensures
            final(self)@ == (BodyView { circle_radius: Some(value), ..old(self)@ }),
    {
        self.circle_radius = Some(value);
    }

    pub fn set_collision_filter(&mut self, value: &CollisionFilter)
        ensures
            final(self)@ == (BodyView { collision_filter: *value, ..old(self)@ }),
    {
        self.collision_filter = *value;
    }

    pub fn set_constraint_impulse(&mut self, value: &ConstraintImpulse)
        ensures
            final(self)@ == (BodyView { constraint_impulse: *value, ..old(self)@ }),
    {
        self.constraint_impulse = *value;
    }

    pub fn set_delta_time(&mut self, value: Scalar)
        ensures
            final(self)@ == (BodyView { delta_time: Some(value), ..old(self)@ }),
    {
        self.delta_time = Some(value);
    }

    pub fn set_density_prop(&mut self, value: Scalar)
        ensures
            final(self)@ == (BodyView { density: value, ..old(self)@ }),
    {
        self.density = value;
    }

    pub fn set_friction_air(&mut self, value: Scalar)
        ensures
            final(self)@ == (BodyView { friction_air: value, ..old(self)@ }),
    {
        self.friction_air = value;
    }

    pub fn set_friction_static(&mut self, value: Scalar)
        ensures
            final(self)@ == (BodyView { friction_static: value, ..old(self)@ }),
    {
        self.friction_static = value;
    }

    pub fn set_friction(&mut self, value: Scalar)
        ensures
            final(self)@ == (BodyView { friction: value, ..old(self)@ }),
    {
        self.friction = value;
    }

    pub fn set_is_sensor(&mut self, value: bool)
        ensures
            final(self)@ == (BodyView { is_sensor: value, ..old(self)@ }),
    {
        self.is_sensor = value;
    }

    pub fn set_is_sleeping(&mut self, value: bool)
        ensures
            final(self)@ == (BodyView { is_sleeping: value, ..old(self)@ }),
    {
        self.is_sleeping = value;
    }

    pub fn set_motion(&mut self, value: Scalar)
        ensures
            final(self)@ == (BodyView { motion: value, ..old(self)@ }),
    {
        self.motion = value;
    }

    pub fn set_position_impulse(&mut self, value: &Position)
        ensures
            final(self)@ == (BodyView { position_impulse: *value, ..old(self)@ }),
    {
        self.position_impulse = *value;
    }

    pub fn set_render(&mut self, value: &Render)
        ensures
            final(self)@ == (BodyView { render: *value, ..old(self)@ }),
    {
        self.render = *value;
    }

    pub fn set_resitution(&mut self, value: Scalar)
        ensures
            final(self)@ == (BodyView { resitution: value, ..old(self)@ }),
    {
        self.resitution = value;
    }

    pub fn set_shape_type(&mut self, value: &ShapeType)
        ensures
            final(self)@ == (BodyView { shape_type: *value, ..old(self)@ }),
    {
        self.shape_type = *value;
    }

    pub fn set_sleep_threshold(&mut self, value: u32)
        ensures
            final(self)@ == (BodyView { sleep_threshold: value, ..old(self)@ }),
    {
        self.sleep_threshold = value;
    }

    pub fn set_slop(&mut self, value: Scalar)
        ensures
            final(self)@ == (BodyView { slop: value, ..old(self)@ }),
    {
        self.slop = value;
    }

    pub fn set_time_scale(&mut self, value: u16)
        ensures
            final(self)@ == (BodyView { time_scale: value, ..old(self)@ }),
    {
        self.time_scale = value;
    }

    pub fn set_torque(&mut self, value: Scalar)
        ensures
            final(self)@ == (BodyView { torque: value, ..old(self)@ }),
    {
        self.torque = value;
    }

    pub fn set_total_contacts(&mut self, value: u32)
        ensures
            final(self)@ == (BodyView { total_contacts: value, ..old(self)@ }),
    {
        self.total_contacts = value;
    }

    pub fn set_inverse_mass(&mut self, value: Scalar)
        ensures
            final(self)@ == (BodyView { inverse_mass: value, ..old(self)@ }),
    {
        self.inverse_mass = value;
    }

    pub fn set_inverse_inertia(&mut self, value: Scalar)
        ensures
            final(self)@ == (BodyView { inverse_inertia: value, ..old(self)@ }),
    {
        self.inverse_inertia = value;
    }

    pub fn set_position_prev(&mut self, value: &Position)
        ensures
            final(self)@ == (BodyView { position_prev: Some(*value), ..old(self)@ }),
    {
        self.position_prev = Some(*value);
    }

    pub fn set_angle_prev(&mut self, value: Scalar)
        ensures
            final(self)@ == (BodyView { angle_prev: value, ..old(self)@ }),
    {
        self.angle_prev = value;
    }

    pub fn set_angular_velocity_prop(&mut self, value: Scalar)
        ensures
            final(self)@ == (BodyView { angular_velocity: value, ..old(self)@ }),
    {
        self.angular_velocity = value;
    }

    pub fn set_force(&mut self, value: &Force)
        ensures
            final(self)@ == (BodyView { force: *value, ..old(self)@ }),
    {
        self.force = *value;
    }
}

} // verus!
