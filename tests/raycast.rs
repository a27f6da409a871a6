use raycaster::angle::{normalize, turn_down, turn_up, FULL_TURN, HALF_TURN, QUARTER_TURN};
use raycaster::arith::{floor_div, isqrt};
use raycaster::cast::{cast, march, Axis, Direction, Point};
use raycaster::grid::Grid;
use raycaster::render::{cast_fan, ray_angles, strip_ends, wall_height, RAY_COUNT};
use raycaster::viewpoint::{Controls, Viewpoint};

fn open_grid() -> Grid {
    let mut cells = vec![0u8; 64];
    for i in 0..8 {
        cells[i] = 1;
        cells[56 + i] = 1;
        cells[i * 8] = 1;
        cells[i * 8 + 7] = 1;
    }
    Grid::new(cells, 8, 8, 100).unwrap()
}

fn p(x: i64, y: i64) -> Point {
    Point { x, y }
}

fn d(dx: i64, dy: i64) -> Direction {
    Direction { dx, dy }
}

#[test]
fn normalize_wraps_once() {
    assert_eq!(normalize(-10), 3590);
    assert_eq!(normalize(FULL_TURN), 0);
    assert_eq!(normalize(FULL_TURN + 5), 5);
    assert_eq!(normalize(1234), 1234);
    assert_eq!(normalize(-FULL_TURN), 0);
}

#[test]
fn turns_undo_each_other() {
    let start: i64 = 30;
    let rate: i64 = 57;
    let mut a = start;
    for _ in 0..100 {
        a = turn_up(a, rate);
        assert!(a >= 0 && a < FULL_TURN);
    }
    for _ in 0..100 {
        a = turn_down(a, rate);
        assert!(a >= 0 && a < FULL_TURN);
    }
    assert_eq!(a, start);
    assert_eq!(turn_down(10, 57), 3553);
    assert_eq!(turn_up(3590, 57), 47);
}

#[test]
fn grid_rejects_bad_sizes() {
    assert!(Grid::new(vec![0u8; 63], 8, 8, 100).is_none());
    assert!(Grid::new(vec![0u8; 64], 8, 8, 0).is_none());
    assert!(Grid::new(vec![], 0, 0, 100).is_none());
    assert!(Grid::new(vec![0u8; 64], 8, 8, 100).is_some());
}

#[test]
fn grid_clamps_queries() {
    let g = Grid::reference();
    assert_eq!(g.width(), 8);
    assert_eq!(g.height(), 8);
    assert_eq!(g.cell_size(), 100);
    assert!(g.is_wall(2, 1));
    assert!(g.is_wall(5, 5));
    assert!(!g.is_wall(3, 3));
    assert!(g.is_wall(-5, 3));
    assert!(g.is_wall(3, 100));
    let mut cells = vec![0u8; 4];
    cells[3] = 1;
    let small = Grid::new(cells, 2, 2, 10).unwrap();
    assert!(small.is_wall(9, 9));
    assert!(!small.is_wall(-1, -1));
    assert!(!small.is_wall(1, 0));
}

#[test]
fn floor_division_rounds_down() {
    assert_eq!(floor_div(7, 2), 3);
    assert_eq!(floor_div(-7, 2), -4);
    assert_eq!(floor_div(-8, 2), -4);
    assert_eq!(floor_div(0, 5), 0);
    assert_eq!(floor_div(-1, 100), -1);
}

#[test]
fn integer_square_root() {
    assert_eq!(isqrt(0), 0);
    assert_eq!(isqrt(1), 1);
    assert_eq!(isqrt(99), 9);
    assert_eq!(isqrt(100), 10);
    assert_eq!(isqrt(20000), 141);
    assert_eq!(isqrt(1u128 << 80), 1u64 << 40);
}

#[test]
fn reference_map_east_reaches_border() {
    let g = Grid::reference();
    let r = cast(&g, p(300, 300), d(1, 0));
    assert_eq!(r.axis, Axis::Vertical);
    assert_eq!(r.hit, p(700, 300));
    assert_eq!(r.distance, 400);
    assert_eq!(r.dist_sq, 160000);
    assert_eq!(r.steps, 3);
    assert_eq!(r.origin, p(300, 300));
}

#[test]
fn reference_map_west_touches_interior_wall() {
    let g = Grid::reference();
    let r = cast(&g, p(300, 300), d(-1, 0));
    assert_eq!(r.axis, Axis::Vertical);
    assert_eq!(r.hit, p(300, 300));
    assert_eq!(r.distance, 0);
    assert_eq!(r.steps, 0);
}

#[test]
fn reference_map_west_from_open_row() {
    let g = Grid::reference();
    let r = cast(&g, p(350, 450), d(-1, 0));
    assert_eq!(r.axis, Axis::Vertical);
    assert_eq!(r.hit, p(100, 450));
    assert_eq!(r.distance, 250);
}

#[test]
fn axis_aligned_rays_use_one_march() {
    let g = Grid::reference();
    assert!(march(&g, p(350, 350), d(1, 0), Axis::Horizontal).is_none());
    assert!(march(&g, p(350, 350), d(0, 1), Axis::Vertical).is_none());
    let east = cast(&g, p(350, 350), d(1, 0));
    assert_eq!(east.axis, Axis::Vertical);
    let down = cast(&g, p(350, 350), d(0, 1));
    assert_eq!(down.axis, Axis::Horizontal);
    assert_eq!(down.hit, p(350, 700));
    assert_eq!(down.distance, 350);
    let up = cast(&g, p(350, 650), d(0, -1));
    assert_eq!(up.axis, Axis::Horizontal);
    assert_eq!(up.hit, p(350, 100));
    assert_eq!(up.distance, 550);
}

#[test]
fn interior_wall_stops_a_downward_ray() {
    let g = Grid::reference();
    let r = cast(&g, p(550, 150), d(0, 1));
    assert_eq!(r.axis, Axis::Horizontal);
    assert_eq!(r.hit, p(550, 500));
    assert_eq!(r.distance, 350);
    assert_eq!(r.steps, 3);
}

#[test]
fn hit_lies_on_a_grid_line() {
    let g = Grid::reference();
    let dirs = [d(3, 1), d(-2, 5), d(7, -3), d(-1, -1), d(100, 1), d(1, 100)];
    for dir in dirs.iter() {
        let r = cast(&g, p(420, 530), *dir);
        match r.axis {
            Axis::Horizontal => assert_eq!(r.hit.y % 100, 0),
            Axis::Vertical => assert_eq!(r.hit.x % 100, 0),
        }
        assert!(r.steps <= 8);
        assert!(r.distance * r.distance <= r.dist_sq as u64);
    }
}

#[test]
fn diagonal_ray_mixed_lines() {
    let g = open_grid();
    let r = cast(&g, p(150, 150), d(2, 1));
    assert_eq!(r.axis, Axis::Vertical);
    assert_eq!(r.hit, p(700, 425));
    assert_eq!(r.dist_sq, 550 * 550 + 275 * 275);
    assert_eq!(r.distance, 614);
}

#[test]
fn equal_distances_pick_horizontal_every_time() {
    let g = open_grid();
    let first = cast(&g, p(350, 350), d(1, 1));
    assert_eq!(first.axis, Axis::Horizontal);
    assert_eq!(first.hit, p(700, 700));
    for _ in 0..10 {
        assert_eq!(cast(&g, p(350, 350), d(1, 1)), first);
    }
}

#[test]
fn march_falls_back_after_eight_lines() {
    let mut cells = vec![0u8; 400];
    cells[399] = 1;
    let g = Grid::new(cells, 20, 20, 10).unwrap();
    let c = march(&g, p(5, 5), d(1, 0), Axis::Vertical).unwrap();
    assert_eq!(c.steps, 8);
    assert_eq!(c.point, p(90, 5));
}

#[test]
fn wall_height_projection() {
    assert_eq!(wall_height(100, 20480, 320), 204);
    assert_eq!(wall_height(10, 20480, 320), 320);
    assert_eq!(wall_height(0, 20480, 320), 320);
    assert_eq!(wall_height(100000, 20480, 320), 0);
    let mut last = wall_height(1, 20480, 320);
    for dist in 2..1000u64 {
        let h = wall_height(dist, 20480, 320);
        assert!(h <= last);
        assert!(h <= 320);
        last = h;
    }
}

#[test]
fn strip_is_centred() {
    assert_eq!(strip_ends(204, 800), (596, 204));
    assert_eq!(strip_ends(0, 800), (800, 0));
}

#[test]
fn fan_covers_field_of_view() {
    let a = ray_angles(0);
    assert_eq!(a.len(), RAY_COUNT);
    assert_eq!(a[0], 3300);
    assert_eq!(a[30], 0);
    assert_eq!(a[59], 290);
    let b = ray_angles(HALF_TURN);
    assert_eq!(b[0], HALF_TURN - 300);
    assert_eq!(b[59], HALF_TURN + 290);
    let c = ray_angles(QUARTER_TURN);
    assert_eq!(c[10], QUARTER_TURN - 200);
}

#[test]
fn fan_casts_in_order() {
    let g = Grid::reference();
    let dirs = vec![d(1, 0), d(-1, 0), d(0, 1)];
    let rays = cast_fan(&g, p(300, 300), &dirs);
    assert_eq!(rays.len(), 3);
    assert_eq!(rays[0].hit, p(700, 300));
    assert_eq!(rays[1].hit, p(300, 300));
    assert_eq!(rays[2].hit, p(300, 700));
}

#[test]
fn viewpoint_turns_and_moves() {
    let mut v = Viewpoint::new(p(300, 300), 0, d(5, 0), 57);
    let left = Controls { turn_left: true, turn_right: false, forward: false, backward: false };
    v.turn(left);
    assert_eq!(v.angle, 3543);
    let right = Controls { turn_left: false, turn_right: true, forward: false, backward: false };
    v.turn(right);
    assert_eq!(v.angle, 0);
    let both = Controls { turn_left: true, turn_right: true, forward: true, backward: false };
    v.turn(both);
    assert_eq!(v.angle, 0);
    v.translate(both);
    assert_eq!(v.position, p(305, 300));
    v.set_step(d(0, -400));
    let back = Controls { turn_left: false, turn_right: false, forward: false, backward: true };
    v.translate(back);
    assert_eq!(v.position, p(305, 700));
    let fwd = Controls { turn_left: false, turn_right: false, forward: true, backward: false };
    v.translate(fwd);
    v.translate(fwd);
    assert_eq!(v.position, p(305, -100));
}

#[test]
fn viewpoint_walks_past_the_map_edge() {
    let mut v = Viewpoint::new(p(3, 300), HALF_TURN, d(-5, 0), 57);
    let fwd = Controls { turn_left: false, turn_right: false, forward: true, backward: false };
    v.translate(fwd);
    assert_eq!(v.position, p(-2, 300));
    let back = Controls { turn_left: false, turn_right: false, forward: false, backward: true };
    v.translate(back);
    v.translate(back);
    assert_eq!(v.position, p(8, 300));
    let mut far = Viewpoint::new(p(-268435454, 0), HALF_TURN, d(-5, 0), 57);
    far.translate(fwd);
    assert_eq!(far.position, p(-268435456, 0));
}

#[test]
fn origin_outside_the_map_is_clamped() {
    let g = Grid::reference();
    let r = cast(&g, p(-50, 350), d(1, 0));
    assert_eq!(r.axis, Axis::Vertical);
    assert_eq!(r.hit, p(0, 350));
    assert_eq!(r.distance, 50);
    let up = cast(&g, p(350, -250), d(0, -1));
    assert_eq!(up.axis, Axis::Horizontal);
    assert_eq!(up.hit, p(350, -300));
    assert_eq!(up.steps, 0);
    let c = march(&g, p(-150, -150), d(-1, 0), Axis::Vertical).unwrap();
    assert_eq!(c.point, p(-200, -150));
}

#[test]
fn world_to_cell_clamps() {
    let g = Grid::reference();
    assert_eq!(g.column_of(350), 3);
    assert_eq!(g.column_of(400), 4);
    assert_eq!(g.column_of(-1), 0);
    assert_eq!(g.column_of(12345), 7);
    assert_eq!(g.row_of(799), 7);
    assert_eq!(g.row_of(99), 0);
}
