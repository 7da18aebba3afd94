use vstd::prelude::*;

verus! {

/// One of the four directions from which enemies attack and which a wall defends.
#[derive(Clone, Copy, Debug, PartialEq, Eq, Structural, Hash)]
pub enum Side {
    North,
    South,
    West,
    East,
}

/// The four sides, in the order in which per-side state is stored.
pub open spec fn all_sides() -> Seq<Side> {
    seq![Side::North, Side::South, Side::West, Side::East]
}

impl Side {
    /// Position of this side in per-side tables.
    pub open spec fn spec_index(self) -> nat {
        match self {
            Side::North => 0,
            Side::South => 1,
            Side::West => 2,
            Side::East => 3,
        }
    }

    /// Position of this side in per-side tables.
    pub fn index(self) -> (r: usize)
        ensures
            r as nat == self.spec_index(),
            r < 4,
            all_sides()[r as int] == self,
    {
        match self {
            Side::North => 0,
            Side::South => 1,
            Side::West => 2,
            Side::East => 3,
        }
    }

    /// The side stored at position `i` of a per-side table.
    pub fn from_index(i: usize) -> (r: Side)
        requires
            i < 4,
        ensures
            r == all_sides()[i as int],
            r.spec_index() == i as nat,
    {
        if i == 0 {
            Side::North
        } else if i == 1 {
            Side::South
        } else if i == 2 {
            Side::West
        } else {
            Side::East
        }
    }
}

impl Default for Side {
    fn default() -> (r: Side)
        ensures
            r == Side::North,
    {
        Side::North
    }
}

} // verus!
