//! The level: an ordered list of platform records, checked once when the
//! level is loaded and turned into the platforms that the simulation moves.

use vstd::prelude::*;
use crate::geometry::Point;
use crate::platform::MovingPlatform;

verus! {

/// One platform as the level configuration describes it. A platform that
/// does not patrol has an empty range, `patrol_min == patrol_max`.
#[derive(Clone, Copy, Debug, PartialEq, Eq, Structural)]
pub struct PlatformRecord {
    pub width: u32,
    pub height: u32,
    pub position: Point,
    pub patrol_min: i64,
    pub patrol_max: i64,
    /// `1` to start towards `patrol_max`, `-1` to start towards `patrol_min`.
    pub initial_direction: i32,
}

/// Why a level configuration is rejected; `index` is the place of the
/// offending record in the list.
#[derive(Clone, Copy, Debug, PartialEq, Eq, Structural)]
pub enum LevelError {
    /// The record's patrol range has its minimum above its maximum.
    InvertedPatrolRange { index: usize },
    /// The record's initial direction is neither `1` nor `-1`.
    InvalidDirection { index: usize },
}

impl PlatformRecord {
    /// What is wrong with this record, standing at `index`, if anything is.
    /// An inverted range is reported before a bad direction.
    pub open spec fn fault(self, index: usize) -> Option<LevelError> {
        if self.patrol_min > self.patrol_max {
            Some(LevelError::InvertedPatrolRange { index })
        } else if self.initial_direction != 1 && self.initial_direction != -1 {
            Some(LevelError::InvalidDirection { index })
        } else {
            None
        }
    }

    /// The platform that a sound record describes: it stands at the record's
    /// position, its collision half-extents are half the record's size
    /// (rounded down), and it patrols the record's range, starting in the
    /// record's direction.
    pub open spec fn platform(self) -> MovingPlatform {
        MovingPlatform {
            position: self.position,
            half_width: self.width / 2,
            half_height: self.height / 2,
            direction: self.initial_direction,
            min_x: self.patrol_min,
            max_x: self.patrol_max,
        }
    }

    /// Checks this record, standing at `index`, and builds its platform.
    pub fn build(&self, index: usize) -> (result: Result<MovingPlatform, LevelError>)
        ensures
            result == match self.fault(index) {
                Some(error) => Err::<MovingPlatform, LevelError>(error),
                None => Ok(self.platform()),
            },
    {
        if self.patrol_min > self.patrol_max {
            Err(LevelError::InvertedPatrolRange { index })
        } else if self.initial_direction != 1 && self.initial_direction != -1 {
            Err(LevelError::InvalidDirection { index })
        } else {
            Ok(
                MovingPlatform {
                    position: self.position,
                    half_width: self.width / 2,
                    half_height: self.height / 2,
                    direction: self.initial_direction,
                    min_x: self.patrol_min,
                    max_x: self.patrol_max,
                },
            )
        }
    }
}

/// No record of the list is at fault.
pub open spec fn level_is_sound(records: Seq<PlatformRecord>) -> bool {
    forall|i: int| 0 <= i < records.len() ==> (#[trigger] records[i]).fault(i as usize) is None
}

/// Builds the platforms of a level, in the order of its records.
///
/// A level with no faulty record gives one well-formed platform per record.
/// Any other level is rejected with the fault of its first faulty record.
pub fn spawn_map(records: &Vec<PlatformRecord>) -> (result: Result<Vec<MovingPlatform>, LevelError>)
    ensures
        result is Ok <==> level_is_sound(records@),
        result matches Ok(platforms) ==> {
            &&& platforms.len() == records.len()
            &&& forall|i: int|
                0 <= i < records.len() ==> {
                    &&& #[trigger] platforms[i] == records[i].platform()
                    &&& platforms[i].wf()
                }
        },
        result matches Err(error) ==> exists|i: int|
            {
                &&& 0 <= i < records.len()
                &&& (#[trigger] records[i]).fault(i as usize) == Some(error)
                &&& level_is_sound(records@.take(i))
            },
{
    let mut platforms: Vec<MovingPlatform> = Vec::new();
    let mut i: usize = 0;
    while i < records.len()
        invariant
            i <= records.len(),
            platforms.len() == i,
            level_is_sound(records@.take(i as int)),
            forall|j: int|
                0 <= j < i ==> {
                    &&& #[trigger] platforms[j] == records[j].platform()
                    &&& platforms[j].wf()
                },
        decreases records.len() - i,
    {
        match records[i].build(i) {
            Ok(platform) => {
                platforms.push(platform);
            },
            Err(error) => {
                return Err(error);
            },
        }
        assert forall|j: int| 0 <= j < i + 1 implies (#[trigger] records@.take(i + 1)[j]).fault(
            j as usize,
        ) is None by {
            if j < i {
                assert(records@.take(i as int)[j] == records@.take(i + 1)[j]);
            }
        }
        i += 1;
    }
    assert(records@.take(i as int) == records@);
    Ok(platforms)
}

} // verus!
