//! Skeletal data that the body tracker reports for each detected body.
use vstd::prelude::*;

verus! {

/// Number of joints in a skeleton.
pub const JOINT_COUNT: usize = 32;

/// The body id reported for an index that names no body.
pub const INVALID_BODY_ID: u32 = 0xFFFF_FFFF;

/// How sure the tracker is of a joint.
#[derive(Clone, Copy, Debug, PartialEq, Eq, Structural)]
pub enum ConfidenceLevel {
    NoneLevel,
    Low,
    Medium,
    High,
}

/// A point in the depth camera's space, in millimetres.
#[derive(Clone, Copy, Debug, PartialEq, Eq, Structural)]
pub struct Position {
    pub x: i32,
    pub y: i32,
    pub z: i32,
}

/// One joint of a skeleton.
#[derive(Clone, Copy, Debug, PartialEq, Eq, Structural)]
pub struct Joint {
    pub position: Position,
    pub confidence_level: ConfidenceLevel,
}

impl Default for Joint {
    fn default() -> (r: Self)
        ensures
            r == (Joint { position: Position { x: 0, y: 0, z: 0 }, confidence_level: ConfidenceLevel::NoneLevel }),
    {
        Joint { position: Position { x: 0, y: 0, z: 0 }, confidence_level: ConfidenceLevel::NoneLevel }
    }
}

/// The joints of one body, in the tracker's joint order.
#[derive(Clone, Copy, Debug)]
pub struct Skeleton {
    pub joints: [Joint; JOINT_COUNT],
}

/// One detected body: its id and its skeleton. A plain value, copied out of
/// the result frame it came from.
#[derive(Clone, Copy, Debug)]
pub struct Body {
    pub id: u32,
    pub skeleton: Skeleton,
}

} // verus!
