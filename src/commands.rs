use vstd::prelude::*;

use crate::angle::Angle;
use crate::posture::{posture_of, PostureType};

verus! {

/// The angle that the hinge reports: 42 degrees, until a sensor is read.
pub open spec fn reported_angle() -> int {
    42_000
}

/// Reads the hinge angle. No sensor stands behind it yet: it reports a
/// fixed angle and never fails.
pub fn read_hinge_angle() -> (r: Result<Angle, String>)
    ensures
        r matches Ok(a) && a@ == reported_angle(),
{
    Ok(Angle { millidegrees: 42_000 })
}

/// Reads the hinge angle and gives the text of its posture. A failure to
/// read the angle is handed on unchanged.
pub fn read_posture_type() -> (r: Result<String, String>)
    ensures
        r matches Ok(s) && s@ == posture_of(reported_angle()).label(),
{
    let angle = match read_hinge_angle() {
        Ok(a) => a,
        Err(e) => return Err(e),
    };
    let posture = PostureType::from_angle(angle);
    Ok(posture.to_string())
}

} // verus!
