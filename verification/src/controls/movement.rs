//! Flying movement: the input axes that give the direction of movement.

use vstd::prelude::*;

verus! {

/// Name of the input axis for moving right (positive) or left.
pub const AXIS_RIGHT_LEFT: &'static str = "move_right_left";

/// Name of the input axis for moving up (positive) or down.
pub const AXIS_UP_DOWN: &'static str = "move_up_down";

/// Name of the input axis for moving to the front (positive) or back.
pub const AXIS_FRONT_BACK: &'static str = "move_front_back";

/// The three components of the direction of movement, in the entity's local
/// frame: x, y and z.
#[derive(Clone, Copy, Debug, PartialEq, Eq, Structural)]
pub enum MovementAxis {
    RightLeft,
    UpDown,
    FrontBack,
}

impl MovementAxis {
    /// The name of the input axis that drives this component.
    pub fn binding(self) -> (name: &'static str)
        ensures
            name@ == (match self {
                MovementAxis::RightLeft => AXIS_RIGHT_LEFT@,
                MovementAxis::UpDown => AXIS_UP_DOWN@,
                MovementAxis::FrontBack => AXIS_FRONT_BACK@,
            }),
    {
        match self {
            MovementAxis::RightLeft => AXIS_RIGHT_LEFT,
            MovementAxis::UpDown => AXIS_UP_DOWN,
            MovementAxis::FrontBack => AXIS_FRONT_BACK,
        }
    }

    /// Whether the axis value is negated to give the component: the local
    /// front is the negative z direction, so only the front-back axis is.
    pub fn is_inverted(self) -> (inverted: bool)
        ensures
            inverted == (self == MovementAxis::FrontBack),
    {
        match self {
            MovementAxis::FrontBack => true,
            _ => false,
        }
    }
}

/// System that moves entities in accordance with control inputs.
pub struct MyFlyMovementSystem;

impl MyFlyMovementSystem {
    /// A new system.
    pub fn new() -> (system: MyFlyMovementSystem)
        ensures
            system == MyFlyMovementSystem,
    {
        MyFlyMovementSystem
    }
}

impl Default for MyFlyMovementSystem {
    fn default() -> (system: MyFlyMovementSystem)
        ensures
            system == MyFlyMovementSystem,
    {
        MyFlyMovementSystem
    }
}

} // verus!
