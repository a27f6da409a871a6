use vstd::prelude::*;

verus! {

/// Angle units in one full turn: an angle is measured in tenths of a degree.
/// Angles grow clockwise on screen, where y points down.
pub const FULL_TURN: i64 = 3600;

/// Half a turn: the angle of a ray pointing toward decreasing x.
pub const HALF_TURN: i64 = 1800;

/// A quarter turn: the angle of a ray pointing toward increasing y.
pub const QUARTER_TURN: i64 = 900;

/// One degree, in angle units.
pub const ONE_DEGREE: i64 = 10;

/// An angle in its normal range `[0, FULL_TURN)`.
pub open spec fn is_normal(a: int) -> bool {
    0 <= a < FULL_TURN
}

/// The value of `a` reduced into `[0, FULL_TURN)`.
pub open spec fn reduced(a: int) -> int {
    a % (FULL_TURN as int)
}

/// Brings an angle that is at most one turn outside `[0, FULL_TURN)` back into it,
/// by adding or subtracting one full turn (never by a remainder).
pub fn normalize(a: i64) -> (r: i64)
    requires
        -FULL_TURN <= a < 2 * FULL_TURN,
    ensures
        is_normal(r as int),
        r == reduced(a as int),
        r == a || r == a + FULL_TURN || r == a - FULL_TURN,
{
    if a < 0 {
        a + FULL_TURN
    } else if a >= FULL_TURN {
        a - FULL_TURN
    } else {
        a
    }
}

/// A turn rate that one wraparound correction always absorbs.
pub open spec fn is_turn_rate(rate: int) -> bool {
    0 <= rate <= FULL_TURN
}

/// The angle after one turn by `rate` toward larger angles.
pub open spec fn turned_up(a: int, rate: int) -> int {
    if a + rate >= FULL_TURN {
        a + rate - FULL_TURN
    } else {
        a + rate
    }
}

/// The angle after one turn by `rate` toward smaller angles.
pub open spec fn turned_down(a: int, rate: int) -> int {
    if a - rate < 0 {
        a - rate + FULL_TURN
    } else {
        a - rate
    }
}

/// The angle after `n` turns toward larger angles.
pub open spec fn turned_up_times(a: int, rate: int, n: nat) -> int
    decreases n,
{
    if n == 0 {
        a
    } else {
        turned_up(turned_up_times(a, rate, (n - 1) as nat), rate)
    }
}

/// The angle after `n` turns toward smaller angles.
pub open spec fn turned_down_times(a: int, rate: int, n: nat) -> int
    decreases n,
{
    if n == 0 {
        a
    } else {
        turned_down_times(turned_down(a, rate), rate, (n - 1) as nat)
    }
}

/// Turns `a` by `rate` toward larger angles and normalizes the result.
pub fn turn_up(a: i64, rate: i64) -> (r: i64)
    requires
        is_normal(a as int),
        is_turn_rate(rate as int),
    ensures
        is_normal(r as int),
        r == turned_up(a as int, rate as int),
        r == reduced(a + rate),
{
    normalize(a + rate)
}

/// Turns `a` by `rate` toward smaller angles and normalizes the result.
pub fn turn_down(a: i64, rate: i64) -> (r: i64)
    requires
        is_normal(a as int),
        is_turn_rate(rate as int),
    ensures
        is_normal(r as int),
        r == turned_down(a as int, rate as int),
        r == reduced(a - rate),
{
    normalize(a - rate)
}

/// Turning keeps an angle in its normal range, however many times it is done.
pub proof fn lemma_turns_stay_normal(a: int, rate: int, n: nat)
    requires
        is_normal(a),
        is_turn_rate(rate),
    ensures
        is_normal(turned_up_times(a, rate, n)),
        is_normal(turned_down_times(a, rate, n)),
    decreases n,
{
    if n > 0 {
        lemma_turns_stay_normal(a, rate, (n - 1) as nat);
        lemma_turns_stay_normal(turned_down(a, rate), rate, (n - 1) as nat);
    }
}

/// Turning `n` times one way and then `n` times the other way, by the same rate,
/// gives back the angle that was started from.
pub proof fn lemma_turns_undo(a: int, rate: int, n: nat)
    requires
        is_normal(a),
        is_turn_rate(rate),
    ensures
        turned_down_times(turned_up_times(a, rate, n), rate, n) == a,
        turned_up_times(turned_down_times(a, rate, n), rate, n) == a,
    decreases n,
{
    if n > 0 {
        let m = (n - 1) as nat;
        lemma_turns_undo(a, rate, m);
        lemma_turns_stay_normal(a, rate, m);
        lemma_turns_undo(turned_down(a, rate), rate, m);
        lemma_turns_up_last(turned_down(a, rate), rate, m);
        lemma_turns_stay_normal(turned_down(a, rate), rate, m);
    }
}

/// The last of `n + 1` turns toward larger angles may be taken first.
proof fn lemma_turns_up_last(a: int, rate: int, n: nat)
    requires
        is_normal(a),
        is_turn_rate(rate),
    ensures
        turned_up_times(a, rate, n + 1) == turned_up_times(turned_up(a, rate), rate, n),
    decreases n,
{
    if n > 0 {
        lemma_turns_up_last(a, rate, (n - 1) as nat);
        assert(turned_up_times(a, rate, n + 1) == turned_up(turned_up_times(a, rate, n), rate));
    } else {
        assert(turned_up_times(a, rate, 1) == turned_up(turned_up_times(a, rate, 0), rate));
    }
}

} // verus!
