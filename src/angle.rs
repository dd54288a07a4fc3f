use vstd::prelude::*;

verus! {

/// Millidegrees in one full turn of the hinge.
pub const FULL_TURN: i64 = 360_000;

/// A hinge angle, held exactly as a whole number of millidegrees.
/// Any value is allowed: negative angles and angles beyond one turn
/// stand for the same hinge position as their coterminal angle in one turn.
#[derive(Clone, Copy, Debug, PartialEq, Eq, Structural)]
pub struct Angle {
    pub millidegrees: i64,
}

impl View for Angle {
    type V = int;

    open spec fn view(&self) -> int {
        self.millidegrees as int
    }
}

/// The angle brought into one turn, `[0, FULL_TURN)`.
pub open spec fn normalize(a: int) -> int {
    a % (FULL_TURN as int)
}

impl Angle {
    /// The coterminal angle in `[0, FULL_TURN)`, in millidegrees.
    pub fn normalized(&self) -> (r: i64)
        ensures
            r as int == normalize(self@),
            0 <= r < FULL_TURN,
    {
        match self.millidegrees.checked_rem_euclid(FULL_TURN) {
            Some(n) => n,
            // never taken: the divisor is positive
            None => 0,
        }
    }
}

} // verus!
