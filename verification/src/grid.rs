//! Numbering of the points of a rectangular grid and of their neighbours.

use vstd::prelude::*;
use vstd::arithmetic::div_mod::{lemma_fundamental_div_mod, lemma_fundamental_div_mod_converse};

verus! {

/// Specifies the (boundary) side of a rectangle
#[derive(Clone, Copy, Debug, PartialEq, Eq, Structural)]
pub enum Side {
    Left,
    Right,
    Bottom,
    Top,
}

/// Index of the current point in the five-point molecule
pub const CUR: usize = 0;

/// Index of the left neighbour in the five-point molecule
pub const LEF: usize = 1;

/// Index of the right neighbour in the five-point molecule
pub const RIG: usize = 2;

/// Index of the bottom neighbour in the five-point molecule
pub const BOT: usize = 3;

/// Index of the top neighbour in the five-point molecule
pub const TOP: usize = 4;

/// A grid of `nx` by `ny` points, numbered line after line from the
/// bottom-left corner: the point in column `i` and line `j` has the
/// number `i + j nx`.
#[derive(Clone, Copy, Debug)]
pub struct Grid {
    /// number of points along x (≥ 2)
    pub nx: usize,
    /// number of points along y (≥ 2)
    pub ny: usize,
    /// the left and the right edge are joined; else they mirror
    pub periodic_along_x: bool,
    /// the bottom and the top edge are joined; else they mirror
    pub periodic_along_y: bool,
}

impl Grid {
    /// Both directions have two points at least, and the number of
    /// points is a machine number.
    pub open spec fn wf(self) -> bool {
        self.nx >= 2 && self.ny >= 2 && self.nx * self.ny <= usize::MAX
    }

    /// Number of points.
    pub open spec fn dim(self) -> int {
        self.nx * self.ny
    }

    /// Number of the point in column `i` and line `j`.
    pub open spec fn node(self, i: int, j: int) -> int {
        i + j * self.nx
    }

    /// Column of the left neighbour of a point in column `i`.
    pub open spec fn left_of(self, i: int) -> int {
        if i != 0 {
            i - 1
        } else if self.periodic_along_x {
            self.nx - 1
        } else {
            1
        }
    }

    /// Column of the right neighbour of a point in column `i`.
    pub open spec fn right_of(self, i: int) -> int {
        if i != self.nx - 1 {
            i + 1
        } else if self.periodic_along_x {
            0
        } else {
            self.nx - 2
        }
    }

    /// Line of the bottom neighbour of a point in line `j`.
    pub open spec fn below(self, j: int) -> int {
        if j != 0 {
            j - 1
        } else if self.periodic_along_y {
            self.ny - 1
        } else {
            1
        }
    }

    /// Line of the top neighbour of a point in line `j`.
    pub open spec fn above(self, j: int) -> int {
        if j != self.ny - 1 {
            j + 1
        } else if self.periodic_along_y {
            0
        } else {
            self.ny - 2
        }
    }

    /// Number of the point that the molecule of point `m` reaches with
    /// its arm `b`: the point itself, then its left, right, bottom and
    /// top neighbour. On an edge the missing neighbour is the mirror
    /// image of the opposite one, or on a periodic grid the point on the
    /// opposite edge.
    pub open spec fn neighbor(self, m: int, b: int) -> int {
        let i = m % (self.nx as int);
        let j = m / (self.nx as int);
        if b == CUR {
            m
        } else if b == LEF {
            self.node(self.left_of(i), j)
        } else if b == RIG {
            self.node(self.right_of(i), j)
        } else if b == BOT {
            self.node(i, self.below(j))
        } else {
            self.node(i, self.above(j))
        }
    }

    /// Number of points on a side.
    pub open spec fn side_len(self, side: Side) -> int {
        match side {
            Side::Left => self.ny as int,
            Side::Right => self.ny as int,
            Side::Bottom => self.nx as int,
            Side::Top => self.nx as int,
        }
    }

    /// Number of the `k`-th point of a side, counted from the bottom
    /// or from the left.
    pub open spec fn side_node(self, side: Side, k: int) -> int {
        match side {
            Side::Left => self.node(0, k),
            Side::Right => self.node(self.nx - 1, k),
            Side::Bottom => self.node(k, 0),
            Side::Top => self.node(k, self.ny - 1),
        }
    }

    /// The points of a side in ascending order.
    pub open spec fn side_nodes(self, side: Side) -> Seq<usize> {
        Seq::new(self.side_len(side) as nat, |k: int| self.side_node(side, k) as usize)
    }

    /// Point `n` lies on the given side of the grid.
    pub open spec fn on_side(self, side: Side, n: int) -> bool {
        &&& 0 <= n < self.dim()
        &&& match side {
            Side::Left => n % (self.nx as int) == 0,
            Side::Right => n % (self.nx as int) == self.nx - 1,
            Side::Bottom => n / (self.nx as int) == 0,
            Side::Top => n / (self.nx as int) == self.ny - 1,
        }
    }

    /// Position of point `n` along the given side.
    pub open spec fn side_index(self, side: Side, n: int) -> int {
        match side {
            Side::Left => n / (self.nx as int),
            Side::Right => n / (self.nx as int),
            Side::Bottom => n % (self.nx as int),
            Side::Top => n % (self.nx as int),
        }
    }

    /// Point `n` lies on the boundary of the grid.
    pub open spec fn on_boundary(self, n: int) -> bool {
        self.on_side(Side::Left, n) || self.on_side(Side::Right, n) || self.on_side(
            Side::Bottom,
            n,
        ) || self.on_side(Side::Top, n)
    }

    /// Every pair of a column and a line has one number below the
    /// dimension, from which column and line are found again.
    pub proof fn lemma_node_coordinates(self, i: int, j: int)
        requires
            self.wf(),
            0 <= i < self.nx,
            0 <= j < self.ny,
        ensures
            0 <= self.node(i, j) < self.dim(),
            self.node(i, j) % (self.nx as int) == i,
            self.node(i, j) / (self.nx as int) == j,
    {
        let nx = self.nx as int;
        let ny = self.ny as int;
        lemma_fundamental_div_mod_converse(j * nx + i, nx, j, i);
        assert(j * nx + i < nx * ny) by (nonlinear_arith)
            requires
                0 <= i < nx,
                0 <= j < ny,
        ;
        assert(0 <= j * nx) by (nonlinear_arith)
            requires
                0 <= j,
                0 < nx,
        ;
    }

    /// Every number below the dimension is the number of its column and line.
    pub proof fn lemma_coordinates_of(self, m: int)
        requires
            self.wf(),
            0 <= m < self.dim(),
        ensures
            0 <= m % (self.nx as int) < self.nx,
            0 <= m / (self.nx as int) < self.ny,
            self.node(m % (self.nx as int), m / (self.nx as int)) == m,
    {
        let nx = self.nx as int;
        let ny = self.ny as int;
        lemma_fundamental_div_mod(m, nx);
        let j = m / nx;
        let i = m % nx;
        assert(nx * j == j * nx) by (nonlinear_arith);
        assert(0 <= j) by (nonlinear_arith)
            requires
                0 <= m,
                0 < nx,
                j == m / nx,
        ;
        assert(j < ny) by (nonlinear_arith)
            requires
                j * nx + i == m,
                0 <= i,
                m < nx * ny,
                0 < nx,
        ;
    }

    /// The five arms of the molecule of a point of the grid end on
    /// points of the grid.
    pub proof fn lemma_neighbor_in_grid(self, m: int, b: int)
        requires
            self.wf(),
            0 <= m < self.dim(),
            0 <= b < 5,
        ensures
            0 <= self.neighbor(m, b) < self.dim(),
    {
        self.lemma_coordinates_of(m);
        let i = m % (self.nx as int);
        let j = m / (self.nx as int);
        self.lemma_node_coordinates(self.left_of(i), j);
        self.lemma_node_coordinates(self.right_of(i), j);
        self.lemma_node_coordinates(i, self.below(j));
        self.lemma_node_coordinates(i, self.above(j));
    }

    /// The `k`-th point of a side lies on that side at position `k`.
    pub proof fn lemma_side_node_on_side(self, side: Side, k: int)
        requires
            self.wf(),
            0 <= k < self.side_len(side),
        ensures
            self.on_side(side, self.side_node(side, k)),
            self.side_index(side, self.side_node(side, k)) == k,
    {
        match side {
            Side::Left => self.lemma_node_coordinates(0, k),
            Side::Right => self.lemma_node_coordinates(self.nx - 1, k),
            Side::Bottom => self.lemma_node_coordinates(k, 0),
            Side::Top => self.lemma_node_coordinates(k, self.ny - 1),
        }
    }

    /// A point on a side is the point of that side at its position.
    pub proof fn lemma_on_side_is_side_node(self, side: Side, n: int)
        requires
            self.wf(),
            self.on_side(side, n),
        ensures
            0 <= self.side_index(side, n) < self.side_len(side),
            self.side_node(side, self.side_index(side, n)) == n,
    {
        self.lemma_coordinates_of(n);
    }
}

} // verus!
