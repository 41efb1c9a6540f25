use platformer::map::{Collision, TileMap};
use platformer::rect::Rect;
use platformer::units::UNIT;

const NONE: Collision = Collision { left: false, right: false, top: false, bottom: false };

fn room() -> TileMap {
    TileMap::new(vec![
        vec![1, 1, 1, 1, 1, 1, 1, 1],
        vec![1, 0, 0, 0, 0, 0, 0, 1],
        vec![1, 0, 0, 0, 0, 0, 0, 1],
        vec![1, 0, 0, 0, 0, 0, 0, 1],
        vec![1, 0, 0, 0, 0, 0, 0, 1],
        vec![1, 1, 1, 1, 1, 1, 1, 1],
    ])
}

fn corridor() -> TileMap {
    TileMap::new(vec![vec![1, 0, 0, 0, 1], vec![1, 0, 0, 0, 1], vec![1, 0, 0, 0, 1]])
}

#[test]
fn resting_rectangle_is_left_alone() {
    let map = room();
    let mut rect = Rect::new(2 * UNIT, 2 * UNIT + UNIT / 2, UNIT, UNIT);
    let c = map.move_item(&mut rect, 0, 0, 16);
    assert_eq!(c, NONE);
    assert_eq!(rect, Rect::new(2 * UNIT, 2 * UNIT + UNIT / 2, UNIT, UNIT));
}

#[test]
fn resting_rectangle_is_left_alone_even_inside_a_wall() {
    let map = room();
    let mut rect = Rect::new(0, 0, UNIT, UNIT);
    let c = map.move_item(&mut rect, 0, 0, 1000);
    assert_eq!(c, NONE);
    assert_eq!(rect, Rect::new(0, 0, UNIT, UNIT));
}

#[test]
fn zero_ticks_with_downward_speed_still_feels_the_floor() {
    let map = room();
    let mut rect = Rect::new(2 * UNIT, 4 * UNIT, UNIT, UNIT);
    let c = map.move_item(&mut rect, 0, 5, 0);
    assert!(c.is_on_floor());
    assert_eq!(rect, Rect::new(2 * UNIT, 4 * UNIT, UNIT, UNIT));
}

#[test]
fn falling_rectangle_lands_on_the_row_boundary() {
    let map = room();
    let mut rect = Rect::new(2 * UNIT + 100, 3 * UNIT + 7, UNIT, UNIT);
    let c = map.move_item(&mut rect, 0, 1000, 70);
    assert_eq!(c, Collision { bottom: true, ..NONE });
    assert_eq!(rect.bottom(), 5 * UNIT);
    assert_eq!(rect.bottom() % UNIT, 0);
    assert_eq!(rect.y, 4 * UNIT);
    assert_eq!(rect.x, 2 * UNIT + 100);
    assert_eq!((rect.width, rect.height), (UNIT, UNIT));
    assert_eq!(map.get_i(2, 5), 1);
}

#[test]
fn falling_rectangle_in_open_space_moves_by_the_whole_step() {
    let map = room();
    let mut rect = Rect::new(2 * UNIT, UNIT, UNIT, UNIT);
    let c = map.move_item(&mut rect, 0, 1000, 16);
    assert_eq!(c, NONE);
    assert_eq!(rect, Rect::new(2 * UNIT, UNIT + 16000, UNIT, UNIT));
}

#[test]
fn rising_rectangle_stops_under_the_ceiling() {
    let map = room();
    let mut rect = Rect::new(3 * UNIT, UNIT + 500, UNIT, UNIT);
    let c = map.move_item(&mut rect, 0, -100, 16);
    assert_eq!(c, Collision { top: true, ..NONE });
    assert_eq!(rect.y, UNIT);
    assert_eq!(rect.y % UNIT, 0);
    assert!(!c.is_on_floor());
}

#[test]
fn rectangle_moving_right_stops_at_the_wall() {
    let map = room();
    let mut rect = Rect::new(5 * UNIT + UNIT / 2, 2 * UNIT, UNIT, UNIT);
    let c = map.move_item(&mut rect, UNIT, 0, 1);
    assert_eq!(c, Collision { right: true, ..NONE });
    assert_eq!(rect.right(), 7 * UNIT);
    assert_eq!(rect.x, 6 * UNIT);
    assert_eq!(rect.y, 2 * UNIT);
}

#[test]
fn rectangle_moving_left_stops_at_the_wall() {
    let map = room();
    let mut rect = Rect::new(UNIT + UNIT / 4, 2 * UNIT, UNIT, UNIT);
    let c = map.move_item(&mut rect, -UNIT / 2, 0, 1);
    assert_eq!(c, Collision { left: true, ..NONE });
    assert_eq!(rect.x, UNIT);
    assert_eq!(rect.x % UNIT, 0);
}

#[test]
fn right_edge_on_a_boundary_does_not_reach_the_next_column() {
    // In row 1 column 2 is open and column 3 is solid.
    let map = TileMap::new(vec![vec![1, 0, 0, 0, 1], vec![1, 0, 0, 1, 1], vec![1, 1, 1, 1, 1]]);
    // The right edge sits exactly on the boundary of column 3, so the sweep
    // covers column 2 alone and the solid cell (3, 1) is not met.
    let mut rect = Rect::new(2 * UNIT, UNIT / 2, UNIT, UNIT);
    let c = map.move_item(&mut rect, 0, UNIT / 4, 1);
    assert_eq!(c, NONE);
    assert_eq!(rect, Rect::new(2 * UNIT, 3 * UNIT / 4, UNIT, UNIT));
    // One unit further right the rectangle reaches into column 3.
    let mut rect = Rect::new(2 * UNIT + 1, UNIT / 2, UNIT, UNIT);
    let c = map.move_item(&mut rect, 0, UNIT / 4, 1);
    assert_eq!(c, Collision { bottom: true, ..NONE });
    assert_eq!(rect.bottom(), UNIT);
}

#[test]
fn vertical_pass_runs_before_the_horizontal_pass() {
    // A ledge: cell (3, 3) is solid, everything around it open.
    let map = TileMap::new(vec![
        vec![0, 0, 0, 0, 0],
        vec![0, 0, 0, 0, 0],
        vec![0, 0, 0, 0, 0],
        vec![0, 0, 0, 1, 0],
        vec![0, 0, 0, 0, 0],
    ]);
    // Moving down and right at once from the upper left of the ledge: the
    // fall is resolved first, in the old column, and passes beside the ledge;
    // the move right then runs into its side.
    let mut rect = Rect::new(2 * UNIT - 10, 2 * UNIT - 10, UNIT, UNIT);
    let c = map.move_item(&mut rect, 100, 100, 1);
    assert_eq!(c, Collision { right: true, ..NONE });
    assert_eq!(rect.right(), 3 * UNIT);
    assert_eq!(rect.y, 2 * UNIT + 90);
}

#[test]
fn outside_the_grid_everything_is_solid() {
    let map = TileMap::new(vec![vec![0, 0, 0, 0], vec![0, 0], vec![0, 2, 1]]);
    assert_eq!(map.get_i(-1, 0), 1);
    assert_eq!(map.get_i(0, -1), 1);
    assert_eq!(map.get_i(i64::MIN, i64::MIN), 1);
    assert_eq!(map.get_i(i64::MAX, 0), 1);
    assert_eq!(map.get_i(1_000_000_000_000, 1), 1);
    assert_eq!(map.get_i(0, 3), 1);
    assert_eq!(map.get_i(0, i64::MAX), 1);
    // inside the shorter row and just past its end
    assert_eq!(map.get_i(1, 1), 0);
    assert_eq!(map.get_i(2, 1), 1);
    assert_eq!(map.get_i(3, 1), 1);
    assert_eq!(map.get_i(3, 0), 0);
    assert_eq!(map.get_i(4, 0), 1);
    // cells hold what was put in them
    assert_eq!(map.get_i(1, 2), 2);
    assert_eq!(map.get_i(2, 2), 1);
}

#[test]
fn a_cell_holding_another_value_does_not_stop_movement() {
    let map = TileMap::new(vec![vec![0, 0, 0], vec![0, 2, 0], vec![0, 0, 0]]);
    assert!(!map.row_blocked(0, 3, 1));
    assert!(!map.column_blocked(1, 0, 3));
}

#[test]
fn a_map_without_rows_is_solid_everywhere() {
    let map = TileMap::new(vec![]);
    assert_eq!(map.get_i(0, 0), 1);
    assert_eq!(map.get_i(5, 7), 1);
    let mut rect = Rect::new(0, 0, UNIT, UNIT);
    let c = map.move_item(&mut rect, 10, 10, 1);
    assert_eq!(c, Collision { right: true, bottom: true, ..NONE });
    assert_eq!(rect, Rect::new(0, 0, UNIT, UNIT));
}

#[test]
fn a_map_of_empty_rows_is_solid_everywhere() {
    let map = TileMap::new(vec![vec![], vec![]]);
    assert_eq!(map.get_i(0, 0), 1);
    assert_eq!(map.get_i(0, 1), 1);
    assert!(map.row_blocked(0, 1, 0));
}

#[test]
fn sweeps_report_solid_cells_in_their_range_only() {
    let map = room();
    assert!(!map.row_blocked(1, 7, 2));
    assert!(map.row_blocked(1, 8, 2));
    assert!(map.row_blocked(0, 2, 2));
    assert!(!map.row_blocked(3, 3, 0));
    assert!(!map.row_blocked(4, 3, 0));
    assert!(!map.column_blocked(3, 1, 5));
    assert!(map.column_blocked(3, 1, 6));
    assert!(map.column_blocked(3, 0, 1));
    assert!(!map.column_blocked(0, 2, 2));
}

#[test]
fn single_solid_row_rectangle_one_tile_down() {
    // The rectangle starts in row 0, the only row, and moves a whole tile in
    // one step. Its bottom edge then lies in row 2, which is outside the grid
    // and so solid: it is stopped there, on the boundary at 2 tiles.
    let map = TileMap::new(vec![vec![1, 1, 1]]);
    let mut rect = Rect::new(UNIT, 0, UNIT, UNIT);
    let c = map.move_item(&mut rect, 0, UNIT, 1);
    assert!(c.is_on_floor());
    assert_eq!(c, Collision { bottom: true, ..NONE });
    assert_eq!(rect.bottom(), 2 * UNIT);
    assert_eq!(rect, Rect::new(UNIT, UNIT, UNIT, UNIT));
}

#[test]
fn single_solid_row_rectangle_from_above_lands_at_one_tile() {
    let map = TileMap::new(vec![vec![1, 1, 1]]);
    let mut rect = Rect::new(UNIT, -UNIT, UNIT, UNIT);
    let c = map.move_item(&mut rect, 0, UNIT, 1);
    assert!(c.is_on_floor());
    assert_eq!(rect.bottom(), UNIT);
    assert_eq!(rect.y, 0);
}

#[test]
fn rectangle_above_a_solid_row_lands_on_its_top() {
    let map = TileMap::new(vec![vec![0, 0, 0], vec![1, 1, 1]]);
    let mut rect = Rect::new(UNIT, 0, UNIT, UNIT);
    let c = map.move_item(&mut rect, 0, UNIT / 2, 1);
    assert!(c.is_on_floor());
    assert_eq!(rect.bottom(), UNIT);
    assert_eq!(rect, Rect::new(UNIT, 0, UNIT, UNIT));
}

#[test]
fn corridor_rectangle_ten_tiles_right() {
    // Ten tiles in one step carry the right edge to column 12, past the wall
    // in column 4 and outside the grid, where every cell is solid: the edge
    // is stopped on the boundary at 12 tiles.
    let map = corridor();
    let mut rect = Rect::new(UNIT, UNIT, UNIT, UNIT);
    let c = map.move_item(&mut rect, 10 * UNIT, 0, 1);
    assert_eq!(c, Collision { right: true, ..NONE });
    assert_eq!(rect.right(), 12 * UNIT);
    assert_eq!(rect.y, UNIT);
}

#[test]
fn corridor_rectangle_stops_at_the_right_wall() {
    let map = corridor();
    let mut rect = Rect::new(UNIT, UNIT, UNIT, UNIT);
    let c = map.move_item(&mut rect, 5 * UNIT / 2, 0, 1);
    assert_eq!(c, Collision { right: true, ..NONE });
    assert_eq!(rect.right(), 4 * UNIT);
    assert_eq!(rect, Rect::new(3 * UNIT, UNIT, UNIT, UNIT));
}

#[test]
fn corridor_rectangle_stops_at_the_right_wall_in_small_steps() {
    let map = corridor();
    let mut rect = Rect::new(UNIT, UNIT, UNIT, UNIT);
    let mut hit = false;
    for _ in 0..100 {
        let c = map.move_item(&mut rect, 10, 0, 1000);
        if c.right {
            hit = true;
            break;
        }
    }
    assert!(hit);
    assert_eq!(rect.right(), 4 * UNIT);
}

#[test]
fn a_step_longer_than_a_tile_can_pass_a_solid_row() {
    // Only the place where the step ends is tested: a solid row that the
    // whole rectangle has passed by then does not stop it.
    let map = TileMap::new(vec![vec![0], vec![1], vec![0], vec![0], vec![0]]);
    let mut rect = Rect::new(0, 0, UNIT, UNIT);
    let c = map.move_item(&mut rect, 0, 2 * UNIT, 1);
    assert_eq!(c, NONE);
    assert_eq!(rect, Rect::new(0, 2 * UNIT, UNIT, UNIT));
}

#[test]
fn default_collision_has_no_contact() {
    assert_eq!(Collision::default(), NONE);
    assert!(!Collision::default().is_on_floor());
    assert!(Collision { bottom: true, ..NONE }.is_on_floor());
    assert!(!Collision { left: true, right: true, top: true, bottom: false }.is_on_floor());
}
