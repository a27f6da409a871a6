use vstd::prelude::*;
use vstd::arithmetic::div_mod::lemma_div_is_ordered_by_denominator;
use crate::angle::{is_normal, normalize, reduced, ONE_DEGREE};
use crate::cast::{cast, valid_direction, valid_origin, Direction, Point, Ray};
use crate::grid::Grid;

verus! {

/// Rays cast per frame, one per screen column strip.
pub const RAY_COUNT: usize = 60;

/// Width of the field of view, in angle units: 60 degrees.
pub const FIELD_OF_VIEW: i64 = 600;

/// Height of the wall slice for a wall at `distance`: `k / distance`, capped at
/// `max_height`; a wall at distance zero gets the cap.
pub open spec fn height_for(distance: int, k: int, max_height: int) -> int {
    if distance == 0 {
        max_height
    } else if k / distance > max_height {
        max_height
    } else {
        k / distance
    }
}

/// Projects a hit distance to an on-screen wall height, inversely to the distance.
pub fn wall_height(distance: u64, k: u64, max_height: u64) -> (r: u64)
    ensures
        r == height_for(distance as int, k as int, max_height as int),
        r <= max_height,
{
    if distance == 0 {
        max_height
    } else {
        let h = k / distance;
        if h > max_height {
            max_height
        } else {
            h
        }
    }
}

/// A nearer wall is drawn at least as tall as a farther one, and every height
/// lies within `[0, max_height]`.
pub proof fn lemma_height_monotonic(d1: nat, d2: nat, k: nat, max_height: nat)
    requires
        d1 < d2,
    ensures
        height_for(d1 as int, k as int, max_height as int) >= height_for(
            d2 as int,
            k as int,
            max_height as int,
        ),
        0 <= height_for(d1 as int, k as int, max_height as int) <= max_height,
        0 <= height_for(d2 as int, k as int, max_height as int) <= max_height,
{
    if d1 > 0 {
        lemma_div_is_ordered_by_denominator(k as int, d1 as int, d2 as int);
    }
    assert(0 <= (k as int) / (d2 as int)) by {
        vstd::arithmetic::div_mod::lemma_div_pos_is_pos(k as int, d2 as int);
    }
    if d1 > 0 {
        vstd::arithmetic::div_mod::lemma_div_pos_is_pos(k as int, d1 as int);
    }
}

/// The screen rows between which the slice of `height` is drawn on a screen
/// `screen` rows high: from `screen - height` to `height`.
pub fn strip_ends(height: u64, screen: u64) -> (r: (u64, u64))
    requires
        height <= screen,
    ensures
        r.0 == screen - height,
        r.1 == height,
{
    (screen - height, height)
}

/// The angle of the `i`-th ray of the fan about `facing`, left to right.
pub open spec fn fan_angle(facing: int, i: int) -> int {
    reduced(facing - FIELD_OF_VIEW / 2 + i * ONE_DEGREE)
}

/// The `RAY_COUNT` ray angles spanning the field of view about `facing`, one
/// degree apart, each normalized.
pub fn ray_angles(facing: i64) -> (r: Vec<i64>)
    requires
        is_normal(facing as int),
    ensures
        r@.len() == RAY_COUNT,
        forall|i: int| 0 <= i < RAY_COUNT ==> r@[i] == fan_angle(facing as int, i),
        forall|i: int| 0 <= i < RAY_COUNT ==> is_normal(#[trigger] r@[i] as int),
{
    let mut r: Vec<i64> = Vec::new();
    let mut i: usize = 0;
    while i < RAY_COUNT
        invariant
            is_normal(facing as int),
            i <= RAY_COUNT,
            r@.len() == i,
            forall|j: int| 0 <= j < i ==> r@[j] == fan_angle(facing as int, j),
            forall|j: int| 0 <= j < i ==> is_normal(#[trigger] r@[j] as int),
        decreases RAY_COUNT - i,
    {
        let a = normalize(facing - FIELD_OF_VIEW / 2 + (i as i64) * ONE_DEGREE);
        r.push(a);
        i = i + 1;
    }
    r
}

/// Casts one ray from `o` along each direction of `dirs`, in order.
pub fn cast_fan(g: &Grid, o: Point, dirs: &Vec<Direction>) -> (r: Vec<Ray>)
    requires
        g.wf(),
        valid_origin(o),
        forall|i: int| 0 <= i < dirs@.len() ==> valid_direction(#[trigger] dirs@[i]),
    ensures
        r@.len() == dirs@.len(),
        forall|i: int| 0 <= i < dirs@.len() ==> (#[trigger] r@[i]).is_cast_of(*g, o, dirs@[i]),
{
    let mut r: Vec<Ray> = Vec::new();
    let mut i: usize = 0;
    while i < dirs.len()
        invariant
            g.wf(),
            valid_origin(o),
            forall|j: int| 0 <= j < dirs@.len() ==> valid_direction(#[trigger] dirs@[j]),
            i <= dirs@.len(),
            r@.len() == i,
            forall|j: int| 0 <= j < i ==> (#[trigger] r@[j]).is_cast_of(*g, o, dirs@[j]),
        decreases dirs@.len() - i,
    {
        let ray = cast(g, o, dirs[i]);
        r.push(ray);
        i = i + 1;
    }
    r
}

} // verus!
