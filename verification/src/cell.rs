use vstd::prelude::*;

verus! {

/// The fire status of one grid location.
///
/// The only legal forward transitions are `Alive -> Burning` (ignition) and
/// `Burning -> Dead` (burning out); `Dead` is terminal.
#[derive(Debug, Clone, Copy, PartialEq, Eq, Structural)]
pub enum Cell {
    Dead,
    Burning,
    Alive,
}

impl Cell {
    /// 1 for `Burning`, 0 for the other states: one summand of a
    /// burning-neighbor count.
    pub open spec fn burning_weight(self) -> int {
        if self is Burning {
            1
        } else {
            0
        }
    }

    /// Ignite the cell; a no-op unless it is currently `Alive`.
    pub fn live_to_burn(&mut self)
        ensures
            *final(self) == (if *old(self) is Alive {
                Cell::Burning
            } else {
                *old(self)
            }),
    {
        if let Cell::Alive = *self {
            *self = Cell::Burning
        };
    }

    /// Burn the cell out; a no-op unless it is currently `Burning`.
    pub fn burn_to_dead(&mut self)
        ensures
            *final(self) == (if *old(self) is Burning {
                Cell::Dead
            } else {
                *old(self)
            }),
    {
        if let Cell::Burning = *self {
            *self = Cell::Dead
        };
    }

    /// 1 when the cell is `Burning`, 0 otherwise.
    pub fn is_burning(&self) -> (r: u8)
        ensures
            r == self.burning_weight(),
    {
        match *self {
            Cell::Dead => 0,
            Cell::Burning => 1,
            Cell::Alive => 0,
        }
    }
}

} // verus!
