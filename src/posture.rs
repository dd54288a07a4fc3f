use vstd::prelude::*;

use crate::angle::{normalize, Angle, FULL_TURN};

verus! {

/// The usage posture of a foldable device, decided by its hinge angle.
#[derive(Clone, Copy, Debug, PartialEq, Eq, Structural)]
pub enum PostureType {
    Continuous,
    Folded,
    HalfOpened,
    Flipped,
}

/// The posture of a hinge at `a` millidegrees. Over one turn the four
/// postures cover disjoint ranges: `[170, 190]` degrees is continuous,
/// `(190, 350)` flipped, `[0, 30]` and `[350, 360)` folded, `(30, 170)`
/// half opened.
pub open spec fn posture_of(a: int) -> PostureType {
    let n = normalize(a);
    if 170_000 <= n <= 190_000 {
        PostureType::Continuous
    } else if 190_000 < n < 350_000 {
        PostureType::Flipped
    } else if n <= 30_000 || 350_000 <= n {
        PostureType::Folded
    } else {
        PostureType::HalfOpened
    }
}

impl PostureType {
    /// The canonical text of the posture.
    pub open spec fn label(self) -> Seq<char> {
        match self {
            PostureType::Continuous => "continuous"@,
            PostureType::Folded => "folded"@,
            PostureType::HalfOpened => "half-opened"@,
            PostureType::Flipped => "flipped"@,
        }
    }

    /// Classifies a hinge angle. The ranges are tried in turn and the first
    /// that holds the normalized angle wins, so 190 degrees is continuous.
    pub fn from_angle(angle: Angle) -> (r: PostureType)
        ensures
            r == posture_of(angle@),
    {
        let normalized = angle.normalized();
        if 170_000 <= normalized && normalized <= 190_000 {
            return PostureType::Continuous;
        }
        if 190_000 <= normalized && normalized < 350_000 {
            return PostureType::Flipped;
        }
        if normalized <= 30_000 || normalized >= 350_000 {
            return PostureType::Folded;
        }
        PostureType::HalfOpened
    }

    /// The canonical text of the posture: `continuous`, `folded`,
    /// `half-opened` or `flipped`.
    pub fn to_string(&self) -> (r: String)
        ensures
            r@ == self.label(),
    {
        match self {
            PostureType::Continuous => String::from_str("continuous"),
            PostureType::Folded => String::from_str("folded"),
            PostureType::HalfOpened => String::from_str("half-opened"),
            PostureType::Flipped => String::from_str("flipped"),
        }
    }
}

/// Angles that differ by a whole number of turns, in either direction, have
/// the same posture: a negative angle is classified as its positive
/// coterminal angle.
pub proof fn lemma_coterminal_same_posture(angle: Angle, turns: int)
    ensures
        posture_of(angle@ + turns * FULL_TURN) == posture_of(angle@),
{
    let t = FULL_TURN as int;
    vstd::arithmetic::div_mod::lemma_mod_multiples_vanish(turns, angle@, t);
    assert(t * turns == turns * t) by (nonlinear_arith);
}

/// Adding one full turn to an angle leaves its posture unchanged.
pub proof fn lemma_full_turn_same_posture(angle: Angle)
    ensures
        posture_of(angle@ + FULL_TURN) == posture_of(angle@),
{
    lemma_coterminal_same_posture(angle, 1);
}

} // verus!
