//! Robot motions and the mecanum kinematic table.
use vstd::prelude::*;

verus! {

/// Supported robot motions.
#[derive(Clone, Copy, Debug, PartialEq, Eq, Structural)]
pub enum Motion {
    Forward,
    ForwardRight,
    Right,
    BackwardRight,
    Backward,
    BackwardLeft,
    Left,
    ForwardLeft,
    RightRot,
    LeftRot,
    Stop,
}

impl Motion {
    /// The short name a motion carries in persisted calibration keys.
    pub open spec fn spec_alias(self) -> Seq<char> {
        match self {
            Motion::Forward => seq!['f'],
            Motion::ForwardRight => seq!['f', 'r'],
            Motion::Right => seq!['r'],
            Motion::BackwardRight => seq!['b', 'r'],
            Motion::Backward => seq!['b'],
            Motion::BackwardLeft => seq!['b', 'l'],
            Motion::Left => seq!['l'],
            Motion::ForwardLeft => seq!['f', 'l'],
            Motion::RightRot => seq!['r', 'r'],
            Motion::LeftRot => seq!['l', 'r'],
            Motion::Stop => seq!['s'],
        }
    }

    /// Short name of the motion, e.g. `"fr"` for `ForwardRight`.
    pub fn alias(&self) -> (r: &'static str)
        ensures
            r@ == self.spec_alias(),
    {
        match self {
            Motion::Forward => {
                proof { reveal_strlit("f"); }
                assert("f"@ =~= self.spec_alias());
                "f"
            },
            Motion::ForwardRight => {
                proof { reveal_strlit("fr"); }
                assert("fr"@ =~= self.spec_alias());
                "fr"
            },
            Motion::Right => {
                proof { reveal_strlit("r"); }
                assert("r"@ =~= self.spec_alias());
                "r"
            },
            Motion::BackwardRight => {
                proof { reveal_strlit("br"); }
                assert("br"@ =~= self.spec_alias());
                "br"
            },
            Motion::Backward => {
                proof { reveal_strlit("b"); }
                assert("b"@ =~= self.spec_alias());
                "b"
            },
            Motion::BackwardLeft => {
                proof { reveal_strlit("bl"); }
                assert("bl"@ =~= self.spec_alias());
                "bl"
            },
            Motion::Left => {
                proof { reveal_strlit("l"); }
                assert("l"@ =~= self.spec_alias());
                "l"
            },
            Motion::ForwardLeft => {
                proof { reveal_strlit("fl"); }
                assert("fl"@ =~= self.spec_alias());
                "fl"
            },
            Motion::RightRot => {
                proof { reveal_strlit("rr"); }
                assert("rr"@ =~= self.spec_alias());
                "rr"
            },
            Motion::LeftRot => {
                proof { reveal_strlit("lr"); }
                assert("lr"@ =~= self.spec_alias());
                "lr"
            },
            Motion::Stop => {
                proof { reveal_strlit("s"); }
                assert("s"@ =~= self.spec_alias());
                "s"
            },
        }
    }

    /// Whether the motion is one of the two in-place rotations.
    pub open spec fn spec_is_rotation(self) -> bool {
        self == Motion::RightRot || self == Motion::LeftRot
    }

    /// True exactly for `RightRot` and `LeftRot`.
    pub fn is_rotation(&self) -> (r: bool)
        ensures
            r == self.spec_is_rotation(),
    {
        matches!(self, Motion::RightRot | Motion::LeftRot)
    }
}

/// One immediate drive request of the plain HTTP API: a direction
/// and a speed.
#[derive(Clone, Copy, Debug, PartialEq, Eq, Structural)]
pub struct DriveParams {
    /// The motion to start.
    pub direction: Motion,
    /// The speed to start it at.
    pub speed: crate::speed::Speed,
}

/// The fixed kinematic table: sign of wheel `i`'s duty cycle under a
/// motion, for wheels in the order front-left 0, front-right 1,
/// rear-right 2, rear-left 3.
pub open spec fn wheel_sign(m: Motion, i: int) -> int {
    match m {
        Motion::Forward => 1,
        Motion::ForwardRight => if i == 1 || i == 3 { 1 } else { 0 },
        Motion::Right => if i == 1 || i == 3 { 1 } else { -1 },
        Motion::BackwardRight => if i == 0 || i == 2 { -1 } else { 0 },
        Motion::Backward => -1,
        Motion::BackwardLeft => if i == 1 || i == 3 { -1 } else { 0 },
        Motion::Left => if i == 0 || i == 2 { 1 } else { -1 },
        Motion::ForwardLeft => if i == 0 || i == 2 { 1 } else { 0 },
        Motion::RightRot => if i == 0 || i == 3 { 1 } else { -1 },
        Motion::LeftRot => if i == 0 || i == 3 { -1 } else { 1 },
        Motion::Stop => 0,
    }
}

/// The per-wheel signed duty cycles of a motion at duty cycle `duty`,
/// as the kinematic table prescribes (permille; positive drives the
/// wheel forward, negative backward, zero lets it float).
pub open spec fn spec_wheel_duties(m: Motion, duty: int) -> Seq<int> {
    Seq::new(4, |i: int| wheel_sign(m, i) * duty)
}

/// Computes the signed per-wheel duty cycles for `motion` at `duty`
/// permille, in wheel order front-left, front-right, rear-right,
/// rear-left.
pub fn wheel_duties(motion: Motion, duty: u16) -> (r: Vec<i16>)
    requires
        duty <= 1000,
    ensures
        r@.len() == 4,
        forall|i: int| 0 <= i < 4 ==> r@[i] == spec_wheel_duties(motion, duty as int)[i],
        motion == Motion::Stop ==> forall|i: int| 0 <= i < 4 ==> r@[i] == 0,
{
    let d = duty as i16;
    let n = -d;
    let speeds: Vec<i16> = match motion {
        Motion::Forward => vec![d, d, d, d],
        Motion::ForwardRight => vec![0, d, 0, d],
        Motion::Right => vec![n, d, n, d],
        Motion::BackwardRight => vec![n, 0, n, 0],
        Motion::Backward => vec![n, n, n, n],
        Motion::BackwardLeft => vec![0, n, 0, n],
        Motion::Left => vec![d, n, d, n],
        Motion::ForwardLeft => vec![d, 0, d, 0],
        Motion::RightRot => vec![d, n, n, d],
        Motion::LeftRot => vec![n, d, d, n],
        Motion::Stop => vec![0, 0, 0, 0],
    };
    speeds
}

} // verus!
