use vstd::prelude::*;

use crate::cell::Cell;
use crate::rng::random_below;

verus! {

/// Fixed-point scale for the ignition probability: a probability is held as
/// a numerator over this denominator, so `to_burn == 0` means the fire never
/// spreads and `to_burn >= PROB_SCALE` means it always spreads when adjacent.
pub const PROB_SCALE: u32 = 1_000_000;

/// Immutable parameters of a simulation run.
#[derive(Debug, Clone, Copy)]
pub struct GameConfig {
    /// Chance per tick that an `Alive` cell next to a `Burning` cell ignites,
    /// as a fixed-point numerator over `PROB_SCALE`.
    pub to_burn: u32,
    /// Ticks a cell may stay `Burning` before it converts to `Dead`.
    pub time_to_burn: u8,
    /// Number of ignition draws performed at construction; draws are
    /// independent and may repeat an index.
    pub num_focus: u8,
}

/// A color, used by the presentation layer to paint burning cells.
#[derive(Debug, Clone, Copy)]
pub struct RGB {
    pub r: u8,
    pub g: u8,
    pub b: u8,
}

impl RGB {
    pub fn new(r: u8, g: u8, b: u8) -> (c: RGB)
        ensures
            c.r == r,
            c.g == g,
            c.b == b,
    {
        RGB { r, g, b }
    }

    /// Map a burn timer to a palette position: the timer's share of the burn
    /// duration limit, scaled to a palette of `len` entries.
    pub fn time_to_pos(time: u8, len: usize, game_config: &GameConfig) -> (pos: usize)
        requires
            game_config.time_to_burn > 0,
            time * len <= usize::MAX,
        ensures
            pos == time * len / (game_config.time_to_burn as int),
    {
        let pos = time as usize * len / game_config.time_to_burn as usize;
        pos
    }
}

/// The grid engine: the cell buffer, the per-cell burn timers, and the
/// configuration. Cells are stored row-major: index `row * width + col`.
#[derive(Clone)]
pub struct Universe {
    pub width: u32,
    pub height: u32,
    pub cells: Vec<Cell>,
    pub time_cells: Vec<u8>,
    pub game_config: GameConfig,
}

/// Toroidal step towards lower indices: the coordinate just before `i` on a
/// ring of size `n`.
pub open spec fn wrap_dec(i: int, n: int) -> int {
    if i == 0 {
        n - 1
    } else {
        i - 1
    }
}

/// Toroidal step towards higher indices: the coordinate just after `i` on a
/// ring of size `n`.
pub open spec fn wrap_inc(i: int, n: int) -> int {
    if i == n - 1 {
        0
    } else {
        i + 1
    }
}

/// 1 if the cell at `(row, col)` is `Burning`, else 0.
pub open spec fn burning_at(cells: Seq<Cell>, width: int, row: int, col: int) -> int {
    cells[row * width + col].burning_weight()
}

/// The number of `Burning` cells among the 8 toroidal Moore neighbors of
/// `(row, col)`. On grids that are 1 or 2 cells wide or tall, distinct
/// neighbor directions can land on the same underlying cell, which is then
/// counted once per direction.
pub open spec fn burning_neighbors(
    cells: Seq<Cell>,
    width: int,
    height: int,
    row: int,
    col: int,
) -> int {
    let north = wrap_dec(row, height);
    let south = wrap_inc(row, height);
    let west = wrap_dec(col, width);
    let east = wrap_inc(col, width);
    burning_at(cells, width, north, west) + burning_at(cells, width, north, col) + burning_at(
        cells,
        width,
        north,
        east,
    ) + burning_at(cells, width, row, west) + burning_at(cells, width, row, east) + burning_at(
        cells,
        width,
        south,
        west,
    ) + burning_at(cells, width, south, col) + burning_at(cells, width, south, east)
}

/// `burning_neighbors` addressed by flat index instead of coordinates.
pub open spec fn burning_neighbors_of(cells: Seq<Cell>, width: int, height: int, i: int) -> int {
    burning_neighbors(cells, width, height, i / width, i % width)
}

/// The grid was initialized from the ignition draws `draws`: exactly the
/// drawn indices are `Burning`, every other cell is `Alive`.
pub open spec fn ignited_by(u: Universe, draws: Seq<u32>) -> bool {
    &&& forall|j: int| 0 <= j < draws.len() ==> draws[j] < u.width * u.height
    &&& forall|i: int|
        0 <= i < u.cells@.len() ==> u.cells@[i] == (if draws.contains(i as u32) {
            Cell::Burning
        } else {
            Cell::Alive
        })
}

/// What one tick may do to one cell: `c` and `t` are the cell and its burn
/// timer in the pre-tick snapshot, `nb` its burning-neighbor count there, and
/// `c2` and `t2` the cell and timer after the tick.
///
/// An `Alive` cell may ignite only when it has a burning neighbor and the
/// ignition probability is positive, and must ignite when the probability is
/// at or above certainty; which way the random trial goes is otherwise open.
/// A `Burning` cell increments its timer while below the limit and converts
/// to `Dead` once the limit is reached; a `Dead` cell stays `Dead`.
pub open spec fn cell_step_ok(cfg: GameConfig, c: Cell, t: u8, nb: int, c2: Cell, t2: u8) -> bool {
    match c {
        Cell::Alive => {
            &&& t2 == t
            &&& (c2 is Alive || c2 is Burning)
            &&& (c2 is Burning ==> nb > 0 && cfg.to_burn > 0)
            &&& (nb > 0 && cfg.to_burn >= PROB_SCALE ==> c2 is Burning)
        },
        Cell::Burning => {
            if t < cfg.time_to_burn {
                c2 is Burning && t2 == t + 1
            } else {
                c2 is Dead && t2 == t
            }
        },
        Cell::Dead => c2 is Dead && t2 == t,
    }
}

/// The whole-grid tick relation: every cell stepped against the pre-tick
/// snapshot `cells0`/`time0`, and `stable` exactly when the cell buffer came
/// out unchanged.
pub open spec fn tick_rel(
    cfg: GameConfig,
    width: int,
    height: int,
    cells0: Seq<Cell>,
    time0: Seq<u8>,
    cells1: Seq<Cell>,
    time1: Seq<u8>,
    stable: bool,
) -> bool {
    &&& cells1.len() == cells0.len()
    &&& time1.len() == time0.len()
    &&& forall|i: int|
        0 <= i < cells0.len() ==> #[trigger] cell_step_ok(
            cfg,
            cells0[i],
            time0[i],
            burning_neighbors_of(cells0, width, height, i),
            cells1[i],
            time1[i],
        )
    &&& (stable <==> cells1 == cells0)
}

impl Universe {
    /// Well-formedness: positive dimensions and both buffers of length
    /// `width * height`.
    pub open spec fn wf(self) -> bool {
        &&& self.width >= 1
        &&& self.height >= 1
        &&& self.width * self.height <= u32::MAX
        &&& self.cells@.len() == self.width * self.height
        &&& self.time_cells@.len() == self.cells@.len()
    }

    /// Flat row-major index of `(row, column)`.
    fn get_index(&self, row: u32, column: u32) -> (idx: usize)
        requires
            self.wf(),
            row < self.height,
            column < self.width,
        ensures
            idx == row * self.width + column,
            idx < self.cells@.len(),
    {
        proof {
            assert((row as int) * (self.width as int) + (column as int) < (self.width as int) * (
            self.height as int)) by (nonlinear_arith)
                requires
                    0 <= (row as int) < (self.height as int),
                    0 <= (column as int) < (self.width as int),
            ;
        }
        (row * self.width + column) as usize
    }

    /// 1 when the cell at `(row, column)` is `Burning`, else 0.
    fn burning_weight_at(&self, row: u32, column: u32) -> (r: u8)
        requires
            self.wf(),
            row < self.height,
            column < self.width,
        ensures
            r == burning_at(self.cells@, self.width as int, row as int, column as int),
            r <= 1,
    {
        let idx = self.get_index(row, column);
        self.cells[idx].is_burning()
    }

    /// Count the `Burning` cells among the 8 toroidal Moore neighbors of
    /// `(row, column)`, reading only the current cell buffer.
    pub fn burning_neighbor_count(&self, row: u32, column: u32) -> (count: u8)
        requires
            self.wf(),
            row < self.height,
            column < self.width,
        ensures
            count == burning_neighbors(
                self.cells@,
                self.width as int,
                self.height as int,
                row as int,
                column as int,
            ),
            count <= 8,
    {
        let mut count: u8 = 0;

        let north = if row == 0 {
            self.height - 1
        } else {
            row - 1
        };

        let south = if row == self.height - 1 {
            0
        } else {
            row + 1
        };

        let west = if column == 0 {
            self.width - 1
        } else {
            column - 1
        };

        let east = if column == self.width - 1 {
            0
        } else {
            column + 1
        };

        proof {
            assert(north as int == wrap_dec(row as int, self.height as int));
            assert(south as int == wrap_inc(row as int, self.height as int));
            assert(west as int == wrap_dec(column as int, self.width as int));
            assert(east as int == wrap_inc(column as int, self.width as int));
        }

        count += self.burning_weight_at(north, west);
        count += self.burning_weight_at(north, column);
        count += self.burning_weight_at(north, east);
        count += self.burning_weight_at(row, west);
        count += self.burning_weight_at(row, east);
        count += self.burning_weight_at(south, west);
        count += self.burning_weight_at(south, column);
        count += self.burning_weight_at(south, east);

        count
    }

    /// Build a grid whose `Burning` cells are exactly the listed indices,
    /// every other cell `Alive` and every burn timer zero. This is the
    /// deterministic core of construction: `new` feeds it random draws, a
    /// test can feed it chosen ones.
    pub fn with_ignitions(width: u32, height: u32, game_config: GameConfig, ignitions: Vec<u32>) -> (u:
        Universe)
        requires
            width >= 1,
            height >= 1,
            width * height <= u32::MAX,
            forall|j: int| 0 <= j < ignitions@.len() ==> ignitions@[j] < width * height,
        ensures
            u.wf(),
            u.width == width,
            u.height == height,
            u.game_config == game_config,
            ignited_by(u, ignitions@),
            forall|i: int| 0 <= i < u.time_cells@.len() ==> u.time_cells@[i] == 0u8,
    {
        let len = width * height;
        let mut cells: Vec<Cell> = Vec::new();
        let mut i: u32 = 0;
        while i < len
            invariant
                i <= len,
                len == width * height,
                cells@.len() == i as int,
                forall|j: int|
                    0 <= j < i as int ==> cells@[j] == (if ignitions@.contains(j as u32) {
                        Cell::Burning
                    } else {
                        Cell::Alive
                    }),
            decreases len - i,
        {
            if contains_u32(&ignitions, i) {
                cells.push(Cell::Burning);
            } else {
                cells.push(Cell::Alive);
            }
            i += 1;
        }
        let mut time_cells: Vec<u8> = Vec::new();
        let mut i: u32 = 0;
        while i < len
            invariant
                i <= len,
                time_cells@.len() == i as int,
                forall|j: int| 0 <= j < i as int ==> time_cells@[j] == 0u8,
            decreases len - i,
        {
            time_cells.push(0);
            i += 1;
        }
        Universe { width, height, cells, time_cells, game_config }
    }

    /// Build a grid from `game_config.num_focus` independent uniform draws
    /// over the cell indices; drawn cells start `Burning` (a repeated draw
    /// has no further effect), the rest start `Alive`, all timers at zero.
    pub fn new(width: u32, height: u32, game_config: GameConfig) -> (u: Universe)
        requires
            width >= 1,
            height >= 1,
            width * height <= u32::MAX,
        ensures
            u.wf(),
            u.width == width,
            u.height == height,
            u.game_config == game_config,
            forall|i: int| 0 <= i < u.time_cells@.len() ==> u.time_cells@[i] == 0u8,
            exists|draws: Seq<u32>|
                #[trigger] ignited_by(u, draws) && draws.len() == game_config.num_focus as int,
            game_config.num_focus == 0 ==> forall|i: int|
                0 <= i < u.cells@.len() ==> u.cells@[i] is Alive,
    {
        proof {
            assert((width as int) * (height as int) >= 1) by (nonlinear_arith)
                requires
                    width as int >= 1,
                    height as int >= 1,
            ;
        }
        let len = width * height;
        let mut pos: Vec<u32> = Vec::new();
        let mut k: u8 = 0;
        while k < game_config.num_focus
            invariant
                k <= game_config.num_focus,
                len == width * height,
                len >= 1,
                pos@.len() == k as int,
                forall|j: int| 0 <= j < pos@.len() ==> pos@[j] < width * height,
            decreases game_config.num_focus - k,
        {
            let n = random_below(len);
            pos.push(n);
            k += 1;
        }
        let ghost draws = pos@;
        let u = Self::with_ignitions(width, height, game_config, pos);
        proof {
            assert(ignited_by(u, draws));
            if game_config.num_focus == 0 {
                assert forall|i: int| 0 <= i < u.cells@.len() implies u.cells@[i] is Alive by {
                    assert(!draws.contains(i as u32));
                }
            }
        }
        u
    }

    /// One synchronous whole-grid step. Every decision reads the pre-tick
    /// cell buffer; ignition and burn-out are written to a fresh copy, while
    /// the burn timers are incremented in place. Returns `true` exactly when
    /// the freshly computed cell buffer equals the pre-tick one (the buffer
    /// is then discarded and the cells stay as they were).
    pub fn tick(&mut self) -> (stable: bool)
        requires
            old(self).wf(),
        ensures
            final(self).wf(),
            final(self).width == old(self).width,
            final(self).height == old(self).height,
            final(self).game_config == old(self).game_config,
            tick_rel(
                old(self).game_config,
                old(self).width as int,
                old(self).height as int,
                old(self).cells@,
                old(self).time_cells@,
                final(self).cells@,
                final(self).time_cells@,
                stable,
            ),
    {
        let ghost cells0 = self.cells@;
        let ghost time0 = self.time_cells@;
        let ghost cfg = self.game_config;
        let ghost w = self.width as int;
        let ghost h = self.height as int;

        let mut next = clone_cells(&self.cells);

        let mut row: u32 = 0;
        while row < self.height
            invariant
                self.wf(),
                row <= self.height,
                self.width as int == w,
                self.height as int == h,
                self.game_config == cfg,
                self.cells@ == cells0,
                time0.len() == cells0.len(),
                self.time_cells@.len() == time0.len(),
                next@.len() == cells0.len(),
                forall|i: int|
                    0 <= i < (row as int) * w ==> #[trigger] cell_step_ok(
                        cfg,
                        cells0[i],
                        time0[i],
                        burning_neighbors_of(cells0, w, h, i),
                        next@[i],
                        self.time_cells@[i],
                    ),
                forall|i: int|
                    (row as int) * w <= i < cells0.len() ==> next@[i] == cells0[i]
                        && self.time_cells@[i] == time0[i],
            decreases self.height - row,
        {
            let mut col: u32 = 0;
            while col < self.width
                invariant
                    self.wf(),
                    row < self.height,
                    col <= self.width,
                    self.width as int == w,
                    self.height as int == h,
                    self.game_config == cfg,
                    self.cells@ == cells0,
                    time0.len() == cells0.len(),
                    self.time_cells@.len() == time0.len(),
                    next@.len() == cells0.len(),
                    forall|i: int|
                        0 <= i < (row as int) * w + (col as int) ==> #[trigger] cell_step_ok(
                            cfg,
                            cells0[i],
                            time0[i],
                            burning_neighbors_of(cells0, w, h, i),
                            next@[i],
                            self.time_cells@[i],
                        ),
                    forall|i: int|
                        (row as int) * w + (col as int) <= i < cells0.len() ==> next@[i]
                            == cells0[i] && self.time_cells@[i] == time0[i],
                decreases self.width - col,
            {
                let idx = self.get_index(row, col);
                proof {
                    vstd::arithmetic::div_mod::lemma_fundamental_div_mod_converse(
                        idx as int,
                        w,
                        row as int,
                        col as int,
                    );
                }
                let cell = self.cells[idx];

                if cell == Cell::Alive {
                    let burning_neighbor = self.burning_neighbor_count(row, col);
                    if burning_neighbor > 0 {
                        let prob_burn = random_below(PROB_SCALE);
                        if prob_burn < self.game_config.to_burn {
                            let mut c = next[idx];
                            c.live_to_burn();
                            next.set(idx, c);
                        }
                    }
                }

                if cell == Cell::Burning {
                    if self.time_cells[idx] < self.game_config.time_to_burn {
                        let t = self.time_cells[idx];
                        self.time_cells.set(idx, t + 1);
                    } else {
                        let mut c = next[idx];
                        c.burn_to_dead();
                        next.set(idx, c);
                    }
                }

                proof {
                    assert(cell_step_ok(
                        cfg,
                        cells0[idx as int],
                        time0[idx as int],
                        burning_neighbors_of(cells0, w, h, idx as int),
                        next@[idx as int],
                        self.time_cells@[idx as int],
                    ));
                }
                col += 1;
            }
            proof {
                assert(((row as int) + 1) * w == (row as int) * w + w) by (nonlinear_arith);
            }
            row += 1;
        }
        proof {
            assert(h * w == w * h) by (nonlinear_arith);
        }

        let stable = cells_equal(&self.cells, &next);
        if stable {
            return true;
        }
        self.cells = next;
        false
    }
}

/// Element-wise copy of a cell buffer: the pre-tick snapshot that `tick`
/// writes its decisions into.
fn clone_cells(v: &Vec<Cell>) -> (r: Vec<Cell>)
    ensures
        r@ == v@,
{
    let mut r: Vec<Cell> = Vec::new();
    let mut i: usize = 0;
    while i < v.len()
        invariant
            i <= v@.len(),
            r@.len() == i as int,
            forall|j: int| 0 <= j < i as int ==> r@[j] == v@[j],
        decreases v@.len() - i,
    {
        r.push(v[i]);
        i += 1;
    }
    proof {
        assert(r@ =~= v@);
    }
    r
}

/// Element-wise equality of two cell buffers of one length.
fn cells_equal(a: &Vec<Cell>, b: &Vec<Cell>) -> (r: bool)
    requires
        a@.len() == b@.len(),
    ensures
        r == (a@ == b@),
{
    let mut i: usize = 0;
    while i < a.len()
        invariant
            i <= a@.len(),
            a@.len() == b@.len(),
            forall|j: int| 0 <= j < i as int ==> a@[j] == b@[j],
        decreases a@.len() - i,
    {
        if a[i] != b[i] {
            return false;
        }
        i += 1;
    }
    proof {
        assert(a@ =~= b@);
    }
    true
}

/// Linear membership test: does `v` hold `x`?
fn contains_u32(v: &Vec<u32>, x: u32) -> (r: bool)
    ensures
        r == v@.contains(x),
{
    let mut i: usize = 0;
    while i < v.len()
        invariant
            i <= v@.len(),
            forall|j: int| 0 <= j < i as int ==> v@[j] != x,
        decreases v@.len() - i,
    {
        if v[i] == x {
            return true;
        }
        i += 1;
    }
    false
}

} // verus!
