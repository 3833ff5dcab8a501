use vstd::prelude::*;

verus! {

/// The direction of a pair of opposite keys: `+1`, `-1`, or `0` when both or
/// neither are held.
pub open spec fn axis(plus: bool, minus: bool) -> int {
    (if plus {
        1int
    } else {
        0int
    }) - (if minus {
        1int
    } else {
        0int
    })
}

fn axis_of(plus: bool, minus: bool) -> (r: i8)
    ensures
        r == axis(plus, minus),
{
    let mut r: i8 = 0;
    if plus {
        r = r + 1;
    }
    if minus {
        r = r - 1;
    }
    r
}

/// The direction the paddle moves in along `x`: right for the right arrow,
/// left for the left arrow, still for both.
pub fn paddle_direction(left: bool, right: bool) -> (r: i8)
    ensures
        r == axis(right, left),
        -1 <= r <= 1,
{
    axis_of(right, left)
}

/// How the ship turns and moves for the arrow keys held.
#[derive(Clone, Copy, Debug, PartialEq, Eq, Structural)]
pub struct Steering {
    /// Counter-clockwise turn: `+1`, `-1` or `0`.
    pub rotation: i8,
    /// Forward thrust: `1` or `0`.
    pub movement: i8,
}

/// The ship turns counter-clockwise for the left arrow, clockwise for the
/// right arrow, and moves forward for the up arrow.
pub fn steering(left: bool, right: bool, up: bool) -> (r: Steering)
    ensures
        r.rotation == axis(left, right),
        r.movement == axis(up, false),
{
    Steering { rotation: axis_of(left, right), movement: axis_of(up, false) }
}

/// A step of the music's volume.
#[derive(Clone, Copy, Debug, PartialEq, Eq, Structural)]
pub enum VolumeStep {
    Up,
    Down,
    Keep,
}

/// The equals key raises the volume; otherwise the minus key lowers it.
pub fn volume_step(equal: bool, minus: bool) -> (r: VolumeStep)
    ensures
        r == (if equal {
            VolumeStep::Up
        } else if minus {
            VolumeStep::Down
        } else {
            VolumeStep::Keep
        }),
{
    if equal {
        VolumeStep::Up
    } else if minus {
        VolumeStep::Down
    } else {
        VolumeStep::Keep
    }
}

} // verus!
