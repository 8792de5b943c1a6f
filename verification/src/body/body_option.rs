use crate::base::collision_filter::CollisionFilter;
use crate::base::common::ShapeType;
use crate::base::constraint_impulse::ConstraintImpulse;
use crate::base::force::Force;
use crate::base::position::Position;
use crate::base::render::Render;
use crate::base::velocity::Velocity;
use crate::body::body::Body;
use crate::geometry::bounds::Bounds;
use crate::geometry::vector::Vector;
use crate::scalar::Scalar;
use vstd::prelude::*;

verus! {

/// One property of a body together with a value for it.
pub enum BodyOption {
    ShapeType(ShapeType),
    Angle(Scalar),
    Vertices(Vec<Vector>),
    Position(Position),
    Force(Force),
    Torque(Scalar),
    PositionImpulse(Position),
    ConstraintImpulse(ConstraintImpulse),
    TotalContracts(u32),
    Speed(Scalar),
    AngularSpeed(Scalar),
    Velocity(Velocity),
    AngularVelocity(Scalar),
    IsSensor(bool),
    IsStatic(bool),
    IsSleeping(bool),
    Motion(Scalar),
    SleepThreshold(u32),
    Density(Scalar),
    Resitution(Scalar),
    Friction(Scalar),
    FrictionStatic(Scalar),
    FrictionAir(Scalar),
    CollisionFilter(CollisionFilter),
    Slop(Scalar),
    TimeScale(u16),
    Render(Render),
    Bounds(Bounds),
    Chamfer(Vec<Vector>),
    CircleRadius(Scalar),
    PositionPrev(Position),
    AnglePrev(Scalar),
    Axes(Vec<Vector>),
    Area(Scalar),
    Mass(Scalar),
    Inertia(Scalar),
    DeltaTime(Scalar),
    Original(Body),
}

impl BodyOption {
    /// The property that the option names can be set without any other
    /// property having to follow.
    pub fn stands_alone(&self) -> (alone: bool)
        ensures
            alone == crate::body::body::settable_alone(*self),
    {
        match self {
            BodyOption::Angle(_) => false,
            BodyOption::Vertices(_) => false,
            BodyOption::Position(_) => false,
            BodyOption::Speed(_) => false,
            BodyOption::AngularSpeed(_) => false,
            BodyOption::Velocity(_) => false,
            BodyOption::AngularVelocity(_) => false,
            BodyOption::Density(_) => false,
            BodyOption::Mass(_) => false,
            BodyOption::Inertia(_) => false,
            BodyOption::Original(_) => false,
            _ => true,
        }
    }
}

} // verus!
