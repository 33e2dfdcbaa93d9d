//! Laws of the tick relation: what holds of every outcome of a step,
//! whatever the random ignition trials returned.

use vstd::prelude::*;

use crate::cell::Cell;
use crate::game::burning_at;
use crate::game::burning_neighbors;
use crate::game::burning_neighbors_of;
use crate::game::cell_step_ok;
use crate::game::tick_rel;
use crate::game::wrap_dec;
use crate::game::wrap_inc;
use crate::game::GameConfig;

verus! {

/// Law: the burning-neighbor count lies in `[0, 8]` for every grid, every
/// size, and every position, the 1-wide and 1-tall grids included (there a
/// cell counted through several directions contributes once per direction).
pub proof fn lemma_neighbor_bound(cells: Seq<Cell>, width: int, height: int, row: int, col: int)
    ensures
        0 <= burning_neighbors(cells, width, height, row, col) <= 8,
{
}

/// Law (terminal monotonicity): a `Dead` cell never leaves `Dead`, and its
/// timer stays put, whatever a tick did elsewhere.
pub proof fn lemma_dead_stays_dead(
    cfg: GameConfig,
    width: int,
    height: int,
    cells0: Seq<Cell>,
    time0: Seq<u8>,
    cells1: Seq<Cell>,
    time1: Seq<u8>,
    stable: bool,
    i: int,
)
    requires
        tick_rel(cfg, width, height, cells0, time0, cells1, time1, stable),
        0 <= i < cells0.len(),
        cells0[i] is Dead,
    ensures
        cells1[i] is Dead,
        time1[i] == time0[i],
{
    assert(cell_step_ok(
        cfg,
        cells0[i],
        time0[i],
        burning_neighbors_of(cells0, width, height, i),
        cells1[i],
        time1[i],
    ));
}

/// Law (no spurious ignition): an `Alive` cell with zero burning neighbors
/// in the pre-tick snapshot stays `Alive` that tick, whatever the random
/// trial would have said.
pub proof fn lemma_no_spurious_ignition(
    cfg: GameConfig,
    width: int,
    height: int,
    cells0: Seq<Cell>,
    time0: Seq<u8>,
    cells1: Seq<Cell>,
    time1: Seq<u8>,
    stable: bool,
    i: int,
)
    requires
        tick_rel(cfg, width, height, cells0, time0, cells1, time1, stable),
        0 <= i < cells0.len(),
        cells0[i] is Alive,
        burning_neighbors_of(cells0, width, height, i) == 0,
    ensures
        cells1[i] is Alive,
        time1[i] == time0[i],
{
    assert(cell_step_ok(
        cfg,
        cells0[i],
        time0[i],
        burning_neighbors_of(cells0, width, height, i),
        cells1[i],
        time1[i],
    ));
}

/// Law (zero probability): with `to_burn == 0`, no `Alive` cell ignites,
/// whatever its neighborhood looks like.
pub proof fn lemma_zero_probability(
    cfg: GameConfig,
    width: int,
    height: int,
    cells0: Seq<Cell>,
    time0: Seq<u8>,
    cells1: Seq<Cell>,
    time1: Seq<u8>,
    stable: bool,
    i: int,
)
    requires
        tick_rel(cfg, width, height, cells0, time0, cells1, time1, stable),
        cfg.to_burn == 0,
        0 <= i < cells0.len(),
        cells0[i] is Alive,
    ensures
        cells1[i] is Alive,
        time1[i] == time0[i],
{
    assert(cell_step_ok(
        cfg,
        cells0[i],
        time0[i],
        burning_neighbors_of(cells0, width, height, i),
        cells1[i],
        time1[i],
    ));
}

/// Law (zero burn duration): with `time_to_burn == 0`, a cell that starts a
/// tick `Burning` converts to `Dead` that same tick, its timer untouched.
pub proof fn lemma_zero_duration(
    cfg: GameConfig,
    width: int,
    height: int,
    cells0: Seq<Cell>,
    time0: Seq<u8>,
    cells1: Seq<Cell>,
    time1: Seq<u8>,
    stable: bool,
    i: int,
)
    requires
        tick_rel(cfg, width, height, cells0, time0, cells1, time1, stable),
        cfg.time_to_burn == 0,
        0 <= i < cells0.len(),
        cells0[i] is Burning,
    ensures
        cells1[i] is Dead,
        time1[i] == time0[i],
{
    assert(cell_step_ok(
        cfg,
        cells0[i],
        time0[i],
        burning_neighbors_of(cells0, width, height, i),
        cells1[i],
        time1[i],
    ));
}

/// Law (legal transitions only): in one tick a cell either keeps its state,
/// ignites (`Alive -> Burning`), or burns out (`Burning -> Dead`); no other
/// move exists.
pub proof fn lemma_legal_transitions(
    cfg: GameConfig,
    width: int,
    height: int,
    cells0: Seq<Cell>,
    time0: Seq<u8>,
    cells1: Seq<Cell>,
    time1: Seq<u8>,
    stable: bool,
    i: int,
)
    requires
        tick_rel(cfg, width, height, cells0, time0, cells1, time1, stable),
        0 <= i < cells0.len(),
    ensures
        cells1[i] == cells0[i] || (cells0[i] is Alive && cells1[i] is Burning) || (cells0[i]
            is Burning && cells1[i] is Dead),
{
    assert(cell_step_ok(
        cfg,
        cells0[i],
        time0[i],
        burning_neighbors_of(cells0, width, height, i),
        cells1[i],
        time1[i],
    ));
}

/// Law (timer bound): a tick keeps every burn timer at or below the burn
/// duration limit — a timer moves only by the increment that the strict
/// comparison against the limit guards.
pub proof fn lemma_timer_bound(
    cfg: GameConfig,
    width: int,
    height: int,
    cells0: Seq<Cell>,
    time0: Seq<u8>,
    cells1: Seq<Cell>,
    time1: Seq<u8>,
    stable: bool,
)
    requires
        time0.len() == cells0.len(),
        tick_rel(cfg, width, height, cells0, time0, cells1, time1, stable),
        forall|k: int| 0 <= k < time0.len() ==> time0[k] <= cfg.time_to_burn,
    ensures
        forall|k: int| 0 <= k < time1.len() ==> time1[k] <= cfg.time_to_burn,
{
    assert forall|k: int| 0 <= k < time1.len() implies time1[k] <= cfg.time_to_burn by {
        assert(cell_step_ok(
            cfg,
            cells0[k],
            time0[k],
            burning_neighbors_of(cells0, width, height, k),
            cells1[k],
            time1[k],
        ));
    }
}

/// On a grid without a single `Burning` cell, every in-range position has a
/// burning-neighbor count of zero.
proof fn lemma_no_burning_no_neighbors(
    cells: Seq<Cell>,
    width: int,
    height: int,
    row: int,
    col: int,
)
    requires
        width >= 1,
        height >= 1,
        cells.len() == width * height,
        forall|k: int| 0 <= k < cells.len() ==> !(cells[k] is Burning),
        0 <= row < height,
        0 <= col < width,
    ensures
        burning_neighbors(cells, width, height, row, col) == 0,
{
    let north = wrap_dec(row, height);
    let south = wrap_inc(row, height);
    let west = wrap_dec(col, width);
    let east = wrap_inc(col, width);
    lemma_quiet_at(cells, width, height, north, west);
    lemma_quiet_at(cells, width, height, north, col);
    lemma_quiet_at(cells, width, height, north, east);
    lemma_quiet_at(cells, width, height, row, west);
    lemma_quiet_at(cells, width, height, row, east);
    lemma_quiet_at(cells, width, height, south, west);
    lemma_quiet_at(cells, width, height, south, col);
    lemma_quiet_at(cells, width, height, south, east);
}

/// One in-range position of a grid without `Burning` cells weighs zero.
proof fn lemma_quiet_at(cells: Seq<Cell>, width: int, height: int, r: int, c: int)
    requires
        width >= 1,
        height >= 1,
        cells.len() == width * height,
        forall|k: int| 0 <= k < cells.len() ==> !(cells[k] is Burning),
        0 <= r < height,
        0 <= c < width,
    ensures
        burning_at(cells, width, r, c) == 0,
{
    assert(0 <= r * width + c < width * height) by (nonlinear_arith)
        requires
            0 <= r < height,
            0 <= c < width,
            width >= 1,
    ;
}

/// Law (quiescence): on a grid without a single `Burning` cell a tick
/// changes nothing — every cell and every timer keeps its value — and the
/// tick reports the grid stable.
pub proof fn lemma_quiescent(
    cfg: GameConfig,
    width: int,
    height: int,
    cells0: Seq<Cell>,
    time0: Seq<u8>,
    cells1: Seq<Cell>,
    time1: Seq<u8>,
    stable: bool,
)
    requires
        width >= 1,
        height >= 1,
        cells0.len() == width * height,
        time0.len() == cells0.len(),
        tick_rel(cfg, width, height, cells0, time0, cells1, time1, stable),
        forall|k: int| 0 <= k < cells0.len() ==> !(cells0[k] is Burning),
    ensures
        stable == true,
        cells1 == cells0,
        time1 == time0,
{
    assert forall|i: int| 0 <= i < cells0.len() implies cells1[i] == cells0[i] && time1[i]
        == time0[i] by {
        assert(cell_step_ok(
            cfg,
            cells0[i],
            time0[i],
            burning_neighbors_of(cells0, width, height, i),
            cells1[i],
            time1[i],
        ));
        if cells0[i] is Alive {
            vstd::arithmetic::div_mod::lemma_div_pos_is_pos(i, width);
            vstd::arithmetic::div_mod::lemma_multiply_divide_lt(i, width, height);
            vstd::arithmetic::div_mod::lemma_mod_bound(i, width);
            lemma_no_burning_no_neighbors(cells0, width, height, i / width, i % width);
        }
    }
    assert(cells1 =~= cells0);
    assert(time1 =~= time0);
}

/// Law (idempotence at the fixed point): after a tick has reported a grid
/// without `Burning` cells stable, any further tick reports it stable again
/// and leaves cells and timers exactly as they were — so every later tick
/// does too. A stable report alone does not promise this: a `Burning` cell
/// whose whole neighborhood is already `Burning` or `Dead` leaves the cell
/// buffer unchanged while its timer still runs toward burn-out.
pub proof fn lemma_fixpoint_idempotent(
    cfg: GameConfig,
    width: int,
    height: int,
    cells0: Seq<Cell>,
    time0: Seq<u8>,
    cells1: Seq<Cell>,
    time1: Seq<u8>,
    cells2: Seq<Cell>,
    time2: Seq<u8>,
    stable2: bool,
)
    requires
        width >= 1,
        height >= 1,
        cells0.len() == width * height,
        time0.len() == cells0.len(),
        tick_rel(cfg, width, height, cells0, time0, cells1, time1, true),
        forall|k: int| 0 <= k < cells0.len() ==> !(cells0[k] is Burning),
        tick_rel(cfg, width, height, cells1, time1, cells2, time2, stable2),
    ensures
        stable2 == true,
        cells2 == cells1,
        time2 == time1,
        forall|k: int| 0 <= k < cells1.len() ==> !(cells1[k] is Burning),
{
    lemma_quiescent(cfg, width, height, cells0, time0, cells1, time1, true);
    lemma_quiescent(cfg, width, height, cells1, time1, cells2, time2, stable2);
}

} // verus!
