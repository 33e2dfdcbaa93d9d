use fire_sim::cell::Cell;
use fire_sim::game::GameConfig;
use fire_sim::game::Universe;
use fire_sim::game::PROB_SCALE;
use fire_sim::game::RGB;

fn cfg(to_burn: u32, time_to_burn: u8, num_focus: u8) -> GameConfig {
    GameConfig { to_burn, time_to_burn, num_focus }
}

#[test]
fn cell_transitions() {
    let mut c = Cell::Alive;
    assert_eq!(c.is_burning(), 0);
    c.live_to_burn();
    assert_eq!(c, Cell::Burning);
    assert_eq!(c.is_burning(), 1);
    c.live_to_burn();
    assert_eq!(c, Cell::Burning);
    c.burn_to_dead();
    assert_eq!(c, Cell::Dead);
    assert_eq!(c.is_burning(), 0);
    c.burn_to_dead();
    assert_eq!(c, Cell::Dead);
    c.live_to_burn();
    assert_eq!(c, Cell::Dead);

    let mut a = Cell::Alive;
    a.burn_to_dead();
    assert_eq!(a, Cell::Alive);
}

#[test]
fn scenario_center_ignition() {
    // 3x3 torus, certain ignition, burn limit 1, single ignition at the
    // center: the only cell whose Moore neighborhood covers all 8 others.
    let mut u = Universe::with_ignitions(3, 3, cfg(PROB_SCALE, 1, 1), vec![4]);
    assert_eq!(u.cells.len(), 9);
    assert_eq!(u.time_cells.len(), 9);
    for i in 0..9 {
        assert_eq!(u.cells[i], if i == 4 { Cell::Burning } else { Cell::Alive });
        assert_eq!(u.time_cells[i], 0);
    }

    // Tick 1: the center's timer goes 0 -> 1 (0 < 1, so it stays Burning);
    // all 8 neighbors ignite with certainty.
    let stable = u.tick();
    assert!(!stable);
    for i in 0..9 {
        assert_eq!(u.cells[i], Cell::Burning);
        assert_eq!(u.time_cells[i], if i == 4 { 1 } else { 0 });
    }

    // Tick 2: the center's timer is at the limit, so it converts to Dead;
    // the other timers go 0 -> 1.
    let stable = u.tick();
    assert!(!stable);
    for i in 0..9 {
        assert_eq!(u.cells[i], if i == 4 { Cell::Dead } else { Cell::Burning });
        assert_eq!(u.time_cells[i], 1);
    }
    assert_eq!(u.cells.len(), 9);
    assert_eq!(u.time_cells.len(), 9);
}

#[test]
fn all_alive_first_tick_stable() {
    // No ignition draw at all: every cell starts Alive and the very first
    // tick reports the grid stable without touching anything.
    let mut u = Universe::new(4, 3, cfg(PROB_SCALE, 5, 0));
    assert_eq!(u.cells.len(), 12);
    for i in 0..12 {
        assert_eq!(u.cells[i], Cell::Alive);
        assert_eq!(u.time_cells[i], 0);
    }
    let stable = u.tick();
    assert!(stable);
    for i in 0..12 {
        assert_eq!(u.cells[i], Cell::Alive);
        assert_eq!(u.time_cells[i], 0);
    }
}

#[test]
fn zero_probability_never_spreads() {
    // to_burn == 0: the burning center runs its timer out without ever
    // igniting a neighbor. While only timers move, the cell buffer is
    // unchanged and the tick reports stable; the burn-out itself is a change.
    let mut u = Universe::with_ignitions(3, 3, cfg(0, 2, 1), vec![4]);

    let stable = u.tick();
    assert!(stable);
    assert_eq!(u.cells[4], Cell::Burning);
    assert_eq!(u.time_cells[4], 1);

    let stable = u.tick();
    assert!(stable);
    assert_eq!(u.cells[4], Cell::Burning);
    assert_eq!(u.time_cells[4], 2);

    let stable = u.tick();
    assert!(!stable);
    assert_eq!(u.cells[4], Cell::Dead);
    assert_eq!(u.time_cells[4], 2);

    for i in 0..9 {
        if i != 4 {
            assert_eq!(u.cells[i], Cell::Alive);
            assert_eq!(u.time_cells[i], 0);
        }
    }
}

#[test]
fn zero_duration_burns_out_at_once() {
    // time_to_burn == 0: a Burning cell's timer (0) is already at the limit,
    // so it converts to Dead on its first tick and the timer never moves.
    let mut u = Universe::with_ignitions(3, 3, cfg(0, 0, 1), vec![4]);
    let stable = u.tick();
    assert!(!stable);
    assert_eq!(u.cells[4], Cell::Dead);
    assert_eq!(u.time_cells[4], 0);
    for i in 0..9 {
        if i != 4 {
            assert_eq!(u.cells[i], Cell::Alive);
        }
    }
}

#[test]
fn fixpoint_ticks_stay_stable() {
    // Once a grid without Burning cells is reported stable, every further
    // tick reports it stable again and changes nothing.
    let mut u = Universe::with_ignitions(3, 3, cfg(0, 0, 1), vec![4]);
    let stable = u.tick();
    assert!(!stable);

    let stable = u.tick();
    assert!(stable);
    let cells_before = u.cells.clone();
    let time_before = u.time_cells.clone();
    for _ in 0..5 {
        let stable = u.tick();
        assert!(stable);
        assert_eq!(u.cells, cells_before);
        assert_eq!(u.time_cells, time_before);
    }
}

#[test]
fn dead_cell_stays_dead() {
    // Terminal monotonicity on a 1x2 strip: once the left cell has burned
    // out it stays Dead across every later tick.
    let mut u = Universe::with_ignitions(2, 1, cfg(0, 0, 1), vec![0]);
    let stable = u.tick();
    assert!(!stable);
    assert_eq!(u.cells[0], Cell::Dead);
    for _ in 0..3 {
        u.tick();
        assert_eq!(u.cells[0], Cell::Dead);
    }
    assert_eq!(u.cells[1], Cell::Alive);
}

#[test]
fn no_spurious_ignition_with_certain_spread() {
    // 1x5 ring, certain ignition, cell 0 burning: only the two cells with a
    // burning neighbor ignite on the first tick; the cells without one stay
    // Alive even though the probability is 1.
    let mut u = Universe::with_ignitions(5, 1, cfg(PROB_SCALE, 10, 1), vec![0]);
    let stable = u.tick();
    assert!(!stable);
    assert_eq!(u.cells[0], Cell::Burning);
    assert_eq!(u.cells[1], Cell::Burning);
    assert_eq!(u.cells[2], Cell::Alive);
    assert_eq!(u.cells[3], Cell::Alive);
    assert_eq!(u.cells[4], Cell::Burning);

    let stable = u.tick();
    assert!(!stable);
    for i in 0..5 {
        assert_eq!(u.cells[i], Cell::Burning);
    }
}

#[test]
fn neighbor_count_wide_line_double_counts() {
    // 4x1 grid (4 wide, 1 tall): with one row, north and south wrap back to
    // the row itself, so an east or west neighbor is seen through three
    // directions and the cell sees itself through two.
    let u = Universe::with_ignitions(4, 1, cfg(0, 1, 1), vec![1]);
    // Burning cell at column 1: column 0 sees it as ne, e and se.
    assert_eq!(u.burning_neighbor_count(0, 0), 3);
    // Column 2 sees it as nw, w and sw.
    assert_eq!(u.burning_neighbor_count(0, 2), 3);
    // The burning cell itself appears among its own neighbors as n and s.
    assert_eq!(u.burning_neighbor_count(0, 1), 2);
    // Column 3 wraps east to column 0; no burning cell in sight.
    assert_eq!(u.burning_neighbor_count(0, 3), 0);
}

#[test]
fn neighbor_count_tall_line_double_counts() {
    // 1x4 grid (1 wide, 4 tall): the symmetric case, wrapping columns.
    let u = Universe::with_ignitions(1, 4, cfg(0, 1, 1), vec![1]);
    assert_eq!(u.burning_neighbor_count(0, 0), 3);
    assert_eq!(u.burning_neighbor_count(2, 0), 3);
    assert_eq!(u.burning_neighbor_count(1, 0), 2);
    assert_eq!(u.burning_neighbor_count(3, 0), 0);
}

#[test]
fn neighbor_count_reaches_bound() {
    // All 8 neighbors of the center burning: the count reaches its bound.
    let u = Universe::with_ignitions(3, 3, cfg(0, 1, 8), vec![0, 1, 2, 3, 5, 6, 7, 8]);
    assert_eq!(u.burning_neighbor_count(1, 1), 8);
    // On a 1x1 grid all 8 neighbor positions are the cell itself: a burning
    // cell is counted once per direction.
    let v = Universe::with_ignitions(1, 1, cfg(0, 1, 1), vec![0]);
    assert_eq!(v.burning_neighbor_count(0, 0), 8);
}

#[test]
fn new_single_focus_tiny_grid() {
    // On a 1x1 grid the single uniform draw over [0, 1) can only pick the
    // one cell: construction must leave it Burning.
    let u = Universe::new(1, 1, cfg(0, 1, 1));
    assert_eq!(u.cells.len(), 1);
    assert_eq!(u.cells[0], Cell::Burning);
    assert_eq!(u.time_cells[0], 0);
}

#[test]
fn new_buffers_and_ignition_count() {
    // Random construction: both buffers sized width*height, timers zero,
    // every cell Alive or Burning, and at most num_focus cells Burning
    // (draws may repeat an index) but at least one.
    let u = Universe::new(5, 4, cfg(300_000, 10, 3));
    assert_eq!(u.cells.len(), 20);
    assert_eq!(u.time_cells.len(), 20);
    let mut burning: u32 = 0;
    for i in 0..20 {
        assert_eq!(u.time_cells[i], 0);
        match u.cells[i] {
            Cell::Alive => {}
            Cell::Burning => burning += 1,
            Cell::Dead => panic!("a fresh grid holds no Dead cell"),
        }
    }
    assert!(burning >= 1);
    assert!(burning <= 3);
}

#[test]
fn buffers_keep_their_length() {
    // The two buffers stay aligned at width*height across ticks.
    let mut u = Universe::with_ignitions(4, 5, cfg(PROB_SCALE, 2, 1), vec![7]);
    for _ in 0..8 {
        u.tick();
        assert_eq!(u.cells.len(), 20);
        assert_eq!(u.time_cells.len(), 20);
    }
}

#[test]
fn time_to_pos_scales_timer() {
    let c = cfg(300_000, 10, 3);
    assert_eq!(RGB::time_to_pos(0, 4, &c), 0);
    assert_eq!(RGB::time_to_pos(5, 4, &c), 2);
    assert_eq!(RGB::time_to_pos(9, 4, &c), 3);
    assert_eq!(RGB::time_to_pos(10, 4, &c), 4);
}

#[test]
fn rgb_new_keeps_channels() {
    let c = RGB::new(249, 199, 63);
    assert_eq!(c.r, 249);
    assert_eq!(c.g, 199);
    assert_eq!(c.b, 63);
}
