use vstd::prelude::*;
use crate::angle::{is_normal, is_turn_rate, turn_down, turn_up, turned_down, turned_up};
use crate::cast::{bounded_direction, valid_origin, Direction, Point, MAX_COORD};

verus! {

/// The four controls sampled once per frame.
#[derive(Clone, Copy, Debug, PartialEq, Eq, Structural)]
pub struct Controls {
    pub turn_left: bool,
    pub turn_right: bool,
    pub forward: bool,
    pub backward: bool,
}

/// The moving eye: its position, its facing angle, the displacement of one
/// frame's move (the facing direction scaled by the speed), and its turn rate.
#[derive(Clone, Copy, Debug, PartialEq, Eq, Structural)]
pub struct Viewpoint {
    pub position: Point,
    pub angle: i64,
    pub step: Direction,
    pub turn_rate: i64,
}

/// The facing angle after the turn controls of one frame: left first, then right.
pub open spec fn angle_after(angle: int, rate: int, c: Controls) -> int {
    let a = if c.turn_left {
        turned_down(angle, rate)
    } else {
        angle
    };
    if c.turn_right {
        turned_up(a, rate)
    } else {
        a
    }
}

/// A coordinate moved by `delta`, held at the bounds of the range a ray may
/// start from, `[-MAX_COORD, MAX_COORD]`, only where it would leave it.
pub open spec fn moved(v: int, delta: int) -> int {
    if v + delta < -MAX_COORD {
        -MAX_COORD as int
    } else if v + delta > MAX_COORD {
        MAX_COORD as int
    } else {
        v + delta
    }
}

/// Whether `p` shifted by `delta` times the step `s` stays in the range of ray origins.
pub open spec fn shift_in_range(p: Point, s: Direction, delta: int) -> bool {
    -MAX_COORD <= p.x + delta * s.dx <= MAX_COORD && -MAX_COORD <= p.y + delta * s.dy
        <= MAX_COORD
}

/// The position after the move controls of one frame: forward first, then back.
pub open spec fn position_after(p: Point, s: Direction, c: Controls) -> (int, int) {
    let x1 = if c.forward {
        moved(p.x as int, s.dx as int)
    } else {
        p.x as int
    };
    let y1 = if c.forward {
        moved(p.y as int, s.dy as int)
    } else {
        p.y as int
    };
    let x2 = if c.backward {
        moved(x1, -s.dx)
    } else {
        x1
    };
    let y2 = if c.backward {
        moved(y1, -s.dy)
    } else {
        y1
    };
    (x2, y2)
}

/// A coordinate moved by `delta`, held within `[-MAX_COORD, MAX_COORD]`.
fn move_coord(v: i64, delta: i64) -> (r: i64)
    requires
        -MAX_COORD <= v <= MAX_COORD,
        -MAX_COORD <= delta <= MAX_COORD,
    ensures
        r == moved(v as int, delta as int),
        -MAX_COORD <= r <= MAX_COORD,
{
    let t = v + delta;
    if t < -MAX_COORD {
        -MAX_COORD
    } else if t > MAX_COORD {
        MAX_COORD
    } else {
        t
    }
}

impl Viewpoint {
    /// The position is one a ray may start from, the angle is normal, and the
    /// step and turn rate are within bounds.
    pub open spec fn wf(&self) -> bool {
        &&& valid_origin(self.position)
        &&& is_normal(self.angle as int)
        &&& bounded_direction(self.step)
        &&& is_turn_rate(self.turn_rate as int)
    }

    /// A viewpoint at `position`, facing `angle`, moving by `step` per frame.
    pub fn new(position: Point, angle: i64, step: Direction, turn_rate: i64) -> (r: Viewpoint)
        requires
            valid_origin(position),
            is_normal(angle as int),
            bounded_direction(step),
            is_turn_rate(turn_rate as int),
        ensures
            r.wf(),
            r == (Viewpoint { position, angle, step, turn_rate }),
    {
        Viewpoint { position, angle, step, turn_rate }
    }

    /// Applies the turn controls of one frame to the facing angle. The caller then
    /// hands the step for the new angle to `set_step`.
    pub fn turn(&mut self, c: Controls)
        requires
            old(self).wf(),
        ensures
            final(self).wf(),
            final(self).angle == angle_after(old(self).angle as int, old(self).turn_rate as int, c),
            final(self).position == old(self).position,
            final(self).step == old(self).step,
            final(self).turn_rate == old(self).turn_rate,
    {
        if c.turn_left {
            self.angle = turn_down(self.angle, self.turn_rate);
        }
        if c.turn_right {
            self.angle = turn_up(self.angle, self.turn_rate);
        }
    }

    /// Replaces the per-frame displacement, recomputed for the current angle.
    pub fn set_step(&mut self, step: Direction)
        requires
            old(self).wf(),
            bounded_direction(step),
        ensures
            final(self).wf(),
            *final(self) == (Viewpoint { step, ..*old(self) }),
    {
        self.step = step;
    }

    /// Applies the move controls of one frame to the position: forward adds the
    /// step, backward subtracts it. Walls do not stop the move; only the bounds
    /// of the range of ray origins, `[-MAX_COORD, MAX_COORD]`, do.
    pub fn translate(&mut self, c: Controls)
        requires
            old(self).wf(),
        ensures
            final(self).wf(),
            (final(self).position.x as int, final(self).position.y as int) == position_after(
                old(self).position,
                old(self).step,
                c,
            ),
            c.forward && !c.backward && shift_in_range(old(self).position, old(self).step, 1) ==> (
            final(self).position.x == old(self).position.x + old(self).step.dx
                && final(self).position.y == old(self).position.y + old(self).step.dy),
            c.backward && !c.forward && shift_in_range(old(self).position, old(self).step, -1)
                ==> (final(self).position.x == old(self).position.x - old(self).step.dx
                && final(self).position.y == old(self).position.y - old(self).step.dy),
            c.forward == c.backward && shift_in_range(old(self).position, old(self).step, 1)
                ==> final(self).position == old(self).position,
            final(self).angle == old(self).angle,
            final(self).step == old(self).step,
            final(self).turn_rate == old(self).turn_rate,
    {
        if c.forward {
            self.position = Point {
                x: move_coord(self.position.x, self.step.dx),
                y: move_coord(self.position.y, self.step.dy),
            };
        }
        if c.backward {
            self.position = Point {
                x: move_coord(self.position.x, -self.step.dx),
                y: move_coord(self.position.y, -self.step.dy),
            };
        }
    }
}

} // verus!
