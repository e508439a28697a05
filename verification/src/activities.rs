//! Activity types and the URLs of the activity endpoints.
//!
//! The Activity record itself carries floating-point measurements, so the
//! caller owns it together with the network round trip; the enumerations it
//! embeds and the endpoint URLs are defined and verified here.
use vstd::prelude::*;
use vstd::string::StringExecFns;

use crate::api::{secret_of, v3, v3_url, AccessToken};

verus! {

/// Activity Types
#[derive(Debug, Clone, Copy, PartialEq, Eq, Structural)]
pub enum ActivityType {
    Ride,
    Run,
    Swim,
    Hike,
    Walk,
    AlpineSki,
    BackcountrySki,
    Canoeing,
    Crossfit,
    EBikeRide,
    Elliptical,
    IceSkate,
    InlineSkate,
    Kayaking,
    Kitesurf,
    NordicSki,
    RockClimbing,
    RollerSki,
    Rowing,
    Snowboard,
    Snowshoe,
    StairStepper,
    StandUpPaddling,
    Surfing,
    WeightTraining,
    Windsurf,
    Workout,
    Yoga,
    Unknown,
}

/// The kind of run or ride a workout was recorded as.
#[derive(Debug, Clone, Copy, PartialEq, Eq, Structural)]
pub enum WorkoutType {
    DefaultRun,
    RaceRun,
    LongRun,
    WorkoutRun,
    DefaultRide,
    RaceRide,
    WorkoutRide,
}

impl WorkoutType {
    /// The numeric wire encoding of this workout type: runs are 0 through 3,
    /// rides are 10 through 12.
    pub open spec fn spec_code(self) -> u8 {
        match self {
            WorkoutType::DefaultRun => 0,
            WorkoutType::RaceRun => 1,
            WorkoutType::LongRun => 2,
            WorkoutType::WorkoutRun => 3,
            WorkoutType::DefaultRide => 10,
            WorkoutType::RaceRide => 11,
            WorkoutType::WorkoutRide => 12,
        }
    }

    /// Encode this workout type as its numeric wire value.
    pub fn to_code(&self) -> (r: u8)
        ensures
            r == self.spec_code(),
    {
        match self {
            WorkoutType::DefaultRun => 0,
            WorkoutType::RaceRun => 1,
            WorkoutType::LongRun => 2,
            WorkoutType::WorkoutRun => 3,
            WorkoutType::DefaultRide => 10,
            WorkoutType::RaceRide => 11,
            WorkoutType::WorkoutRide => 12,
        }
    }
}

/// A per-kilometre or per-mile split of an activity.
#[derive(Debug, Clone, Copy, PartialEq, Eq, Structural)]
pub struct Split;

/// The URL for fetching a single activity by its identifier.
pub fn activity_url(token: &AccessToken, id: &str) -> (r: String)
    ensures
        r@ == v3_url(secret_of(Some(token)), "activities/"@ + id@),
{
    let path = String::from_str("activities/").concat(id);
    v3(Some(token), path)
}

/// The URL for listing the authenticated athlete's activities.
pub fn athlete_activities_url(token: &AccessToken) -> (r: String)
    ensures
        r@ == v3_url(secret_of(Some(token)), "athlete/activities"@),
{
    v3(Some(token), String::from_str("athlete/activities"))
}

} // verus!
