//! Records exchanged between the pipeline stages.

use vstd::prelude::*;

verus! {

/// What the camera reports each step.
#[derive(Clone, Copy, Debug, PartialEq, Eq, Structural)]
pub struct CameraReading {
    pub num_people: usize,
    pub num_cars: usize,
    /// Distance to the closest obstacle, in millimetres.
    pub distance_obstacle: i64,
}

/// What the radar reports each step.
#[derive(Clone, Copy, Debug, PartialEq, Eq, Structural)]
pub struct RadarReading {
    /// Distance to the closest obstacle, in millimetres.
    pub distance_obstacle: i64,
    /// Measurement error, in millimetres, between -1000 and 1000.
    pub error_margin: i64,
}

/// The fused picture of the surroundings for one step.
#[derive(Clone, Copy, Debug, PartialEq, Eq, Structural)]
pub struct Scene {
    pub num_people: usize,
    pub num_cars: usize,
    /// Distance to the closest obstacle, in millimetres.
    pub distance_obstacle: i64,
    /// Distance to the left lane marking, in millimetres.
    pub distance_left_lane: i64,
    /// Distance to the right lane marking, in millimetres.
    pub distance_right_lane: i64,
}

/// The mode the vehicle is driven in.
#[derive(Clone, Copy, Debug, PartialEq, Eq, Structural)]
pub enum DrivingMode {
    Autonomous,
    Manual,
    Emergency,
}

impl DrivingMode {
    /// Rank in the severity order: Emergency above Manual above Autonomous.
    pub open spec fn severity_rank(self) -> int {
        match self {
            DrivingMode::Autonomous => 0,
            DrivingMode::Manual => 1,
            DrivingMode::Emergency => 2,
        }
    }

    /// Rank in the severity order, 0 for the mildest mode.
    pub fn severity(self) -> (rank: u8)
        ensures
            rank == self.severity_rank(),
    {
        match self {
            DrivingMode::Autonomous => 0,
            DrivingMode::Manual => 1,
            DrivingMode::Emergency => 2,
        }
    }

    /// Whether `self` is strictly more severe than `other`.
    pub fn outranks(self, other: DrivingMode) -> (yes: bool)
        ensures
            yes == (self.severity_rank() > other.severity_rank()),
    {
        self.severity() > other.severity()
    }

    /// The lower-case name carried on the wire.
    pub fn as_str(self) -> (name: &'static str)
        ensures
            name@ == match self {
                DrivingMode::Autonomous => "autonomous"@,
                DrivingMode::Manual => "manual"@,
                DrivingMode::Emergency => "emergency"@,
            },
    {
        match self {
            DrivingMode::Autonomous => "autonomous",
            DrivingMode::Manual => "manual",
            DrivingMode::Emergency => "emergency",
        }
    }
}

/// The mode announcement read by every downstream consumer.
#[derive(Clone, Copy, Debug, PartialEq, Eq, Structural)]
pub struct CarData {
    pub driving_mode: DrivingMode,
}

} // verus!
