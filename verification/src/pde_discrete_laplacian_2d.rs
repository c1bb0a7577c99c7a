//! Index structure of the finite-difference Laplacian on a rectangular grid.

use std::collections::HashMap;
use vstd::prelude::*;
use crate::grid::{Grid, Side, BOT, LEF, RIG, TOP};

verus! {

broadcast use vstd::std_specs::hash::group_hash_axioms;

/// Why a grid cannot be built.
#[derive(Clone, Copy, Debug, PartialEq, Eq, Structural)]
pub enum GridError {
    /// Fewer than two points along x
    NxTooSmall,
    /// Fewer than two points along y
    NyTooSmall,
}

impl GridError {
    /// The text of each error.
    pub open spec fn text(self) -> Seq<char> {
        match self {
            GridError::NxTooSmall => "nx must be ≥ 2"@,
            GridError::NyTooSmall => "ny must be ≥ 2"@,
        }
    }

    /// Returns the message of the error.
    pub fn message(&self) -> (m: &'static str)
        ensures
            m@ == self.text(),
    {
        match self {
            GridError::NxTooSmall => "nx must be ≥ 2",
            GridError::NyTooSmall => "ny must be ≥ 2",
        }
    }
}

/// The value prescribed at a point with an essential boundary condition.
#[derive(Clone, Copy, Debug, PartialEq, Eq, Structural)]
pub enum EssentialValue {
    /// Zero everywhere
    Zero,
    /// The function of space that the caller keeps under this number
    Function(usize),
}

/// The value that multiplies an unknown in an equation of the system.
#[derive(Clone, Copy, Debug, PartialEq, Eq, Structural)]
pub enum Weight {
    /// One: the equation of a prescribed point
    One,
    /// The coefficient of the molecule with this index
    Molecule(usize),
}

/// One entry of a sparse matrix, with its value named by its weight.
#[derive(Clone, Copy, Debug, PartialEq, Eq, Structural)]
pub struct Entry {
    /// Row index
    pub row: usize,
    /// Column index
    pub col: usize,
    /// What the value is
    pub weight: Weight,
}

/// The map in which every point of `side` has `value`, and every other
/// point what it had in `essential`.
pub open spec fn prescribed_on(
    essential: Map<usize, EssentialValue>,
    grid: Grid,
    side: Side,
    value: EssentialValue,
) -> Map<usize, EssentialValue> {
    Map::new(
        |n: usize| essential.contains_key(n) || grid.on_side(side, n as int),
        |n: usize|
            if grid.on_side(side, n as int) {
                value
            } else {
                essential[n]
            },
    )
}

/// The map in which the points of `side` below position `k` have
/// `value`, and every other point what it had in `essential`.
pub open spec fn prescribed_upto(
    essential: Map<usize, EssentialValue>,
    grid: Grid,
    side: Side,
    value: EssentialValue,
    k: int,
) -> Map<usize, EssentialValue> {
    Map::new(
        |n: usize|
            essential.contains_key(n) || (grid.on_side(side, n as int) && grid.side_index(
                side,
                n as int,
            ) < k),
        |n: usize|
            if grid.on_side(side, n as int) && grid.side_index(side, n as int) < k {
                value
            } else {
                essential[n]
            },
    )
}

/// The map that prescribes zero on the whole boundary and nothing else.
pub open spec fn homogeneous(grid: Grid) -> Map<usize, EssentialValue> {
    Map::new(|n: usize| grid.on_boundary(n as int), |n: usize| EssentialValue::Zero)
}

/// The entries that the arms below `upto` of the molecule of row `m`
/// contribute: those whose column is prescribed if `prescribed` is set,
/// the others if not.
pub open spec fn molecule_entries(
    grid: Grid,
    essential: Map<usize, EssentialValue>,
    m: int,
    upto: int,
    prescribed: bool,
) -> Seq<Entry>
    decreases upto,
{
    if upto <= 0 {
        Seq::empty()
    } else {
        let b = upto - 1;
        let n = grid.neighbor(m, b) as usize;
        let before = molecule_entries(grid, essential, m, b, prescribed);
        if essential.contains_key(n) == prescribed {
            before.push(Entry { row: m as usize, col: n, weight: Weight::Molecule(b as usize) })
        } else {
            before
        }
    }
}

/// Row `m` of the augmented matrix of the unknowns: a one on the
/// diagonal if the point is prescribed, else the arms of its molecule
/// that end on points that are not.
pub open spec fn unknown_row(grid: Grid, essential: Map<usize, EssentialValue>, m: int) -> Seq<
    Entry,
> {
    if essential.contains_key(m as usize) {
        seq![Entry { row: m as usize, col: m as usize, weight: Weight::One }]
    } else {
        molecule_entries(grid, essential, m, 5, false)
    }
}

/// Row `m` of the correction matrix: nothing if the point is prescribed,
/// else the arms of its molecule that end on prescribed points.
pub open spec fn correction_row(
    grid: Grid,
    essential: Map<usize, EssentialValue>,
    m: int,
) -> Seq<Entry> {
    if essential.contains_key(m as usize) {
        Seq::empty()
    } else {
        molecule_entries(grid, essential, m, 5, true)
    }
}

/// The rows below `upto` of the augmented matrix of the unknowns.
pub open spec fn unknown_rows(grid: Grid, essential: Map<usize, EssentialValue>, upto: int) -> Seq<
    Entry,
>
    decreases upto,
{
    if upto <= 0 {
        Seq::empty()
    } else {
        unknown_rows(grid, essential, upto - 1) + unknown_row(grid, essential, upto - 1)
    }
}

/// The rows below `upto` of the correction matrix.
pub open spec fn correction_rows(
    grid: Grid,
    essential: Map<usize, EssentialValue>,
    upto: int,
) -> Seq<Entry>
    decreases upto,
{
    if upto <= 0 {
        Seq::empty()
    } else {
        correction_rows(grid, essential, upto - 1) + correction_row(grid, essential, upto - 1)
    }
}

/// Implements the index structure of the Finite Difference (FDM)
/// Laplacian operator in 2D.
///
/// The operator is built with a five-point stencil over a rectangular
/// grid whose points are numbered `m = i + j nx`. The coefficients of
/// the stencil and the coordinates of the points are real numbers and
/// stay with the caller; this type decides which entries the coefficient
/// matrix has, and which coefficient each of them takes.
///
/// * The boundary conditions may be Neumann with zero-flux or periodic.
/// * By default (Neumann BC), the boundary nodes are 'mirrored' yielding a no-flux barrier.
pub struct PdeDiscreteLaplacian2d {
    grid: Grid,
    left: Vec<usize>,
    right: Vec<usize>,
    bottom: Vec<usize>,
    top: Vec<usize>,
    essential: HashMap<usize, EssentialValue>,
}

impl PdeDiscreteLaplacian2d {
    /// The grid and its periodicity.
    pub closed spec fn grid(&self) -> Grid {
        self.grid
    }

    /// The essential boundary conditions: point to prescribed value.
    pub closed spec fn essential(&self) -> Map<usize, EssentialValue> {
        self.essential@
    }

    /// The points of a side as they are stored.
    pub closed spec fn stored_side(&self, side: Side) -> Seq<usize> {
        match side {
            Side::Left => self.left@,
            Side::Right => self.right@,
            Side::Bottom => self.bottom@,
            Side::Top => self.top@,
        }
    }

    /// The grid is well formed, the four sides list their points in
    /// ascending order, and only points of the grid are prescribed.
    pub closed spec fn wf(&self) -> bool {
        &&& self.grid.wf()
        &&& self.left@ == self.grid.side_nodes(Side::Left)
        &&& self.right@ == self.grid.side_nodes(Side::Right)
        &&& self.bottom@ == self.grid.side_nodes(Side::Bottom)
        &&& self.top@ == self.grid.side_nodes(Side::Top)
        &&& forall|n: usize| #[trigger] self.essential@.contains_key(n) ==> n < self.grid.dim()
    }

    /// What well-formedness means, for those who cannot look inside.
    pub proof fn lemma_wf(&self)
        requires
            self.wf(),
        ensures
            self.grid().wf(),
            forall|side: Side| #[trigger] self.stored_side(side) == self.grid().side_nodes(side),
            forall|n: usize| #[trigger] self.essential().contains_key(n) ==> n < self.grid().dim(),
            self.essential().dom().finite(),
    {
    }

    /// Lists the points of one side of a grid.
    fn list_side(grid: &Grid, side: Side) -> (nodes: Vec<usize>)
        requires
            grid.wf(),
        ensures
            nodes@ == grid.side_nodes(side),
    {
        let len: usize = match side {
            Side::Left => grid.ny,
            Side::Right => grid.ny,
            Side::Bottom => grid.nx,
            Side::Top => grid.nx,
        };
        let mut nodes: Vec<usize> = Vec::new();
        let mut k: usize = 0;
        while k < len
            invariant
                grid.wf(),
                len == grid.side_len(side),
                k <= len,
                nodes@.len() == k,
                forall|q: int| 0 <= q < k ==> #[trigger] nodes@[q] == grid.side_node(side, q),
            decreases len - k,
        {
            proof {
                grid.lemma_side_node_on_side(side, k as int);
                match side {
                    Side::Left => grid.lemma_node_coordinates(0, k as int),
                    Side::Right => grid.lemma_node_coordinates(grid.nx - 1, k as int),
                    Side::Bottom => grid.lemma_node_coordinates(k as int, 0),
                    Side::Top => grid.lemma_node_coordinates(k as int, grid.ny - 1),
                }
                assert(0 <= k * grid.nx) by (nonlinear_arith);
                assert(0 <= (grid.ny - 1) * grid.nx) by (nonlinear_arith)
                    requires
                        grid.ny >= 2,
                ;
            }
            let node: usize = match side {
                Side::Left => k * grid.nx,
                Side::Right => grid.nx - 1 + k * grid.nx,
                Side::Bottom => k,
                Side::Top => k + (grid.ny - 1) * grid.nx,
            };
            nodes.push(node);
            k += 1;
        }
        assert(nodes@ =~= grid.side_nodes(side));
        nodes
    }

    /// Allocates a new instance
    ///
    /// # Input
    ///
    /// * `nx` -- number of points along x (≥ 2)
    /// * `ny` -- number of points along y (≥ 2)
    ///
    /// The number of points along x is looked at first. The boundaries
    /// start as zero-flux barriers, with no point prescribed.
    pub fn new(nx: usize, ny: usize) -> (res: Result<Self, GridError>)
        requires
            nx * ny <= usize::MAX,
        ensures
            nx < 2 ==> res == Err::<Self, GridError>(GridError::NxTooSmall),
            nx >= 2 && ny < 2 ==> res == Err::<Self, GridError>(GridError::NyTooSmall),
            nx >= 2 && ny >= 2 ==> {
                &&& res is Ok
                &&& res->Ok_0.wf()
                &&& res->Ok_0.grid() == (Grid {
                    nx,
                    ny,
                    periodic_along_x: false,
                    periodic_along_y: false,
                })
                &&& res->Ok_0.essential() == Map::<usize, EssentialValue>::empty()
            },
    {
        if nx < 2 {
            return Err(GridError::NxTooSmall);
        }
        if ny < 2 {
            return Err(GridError::NyTooSmall);
        }
        let grid = Grid { nx, ny, periodic_along_x: false, periodic_along_y: false };
        let lap = PdeDiscreteLaplacian2d {
            grid,
            left: Self::list_side(&grid, Side::Left),
            right: Self::list_side(&grid, Side::Right),
            bottom: Self::list_side(&grid, Side::Bottom),
            top: Self::list_side(&grid, Side::Top),
            essential: HashMap::new(),
        };
        Ok(lap)
    }

    /// Returns the points of a side, in ascending order
    pub fn side(&self, side: Side) -> (nodes: &Vec<usize>)
        requires
            self.wf(),
        ensures
            nodes@ == self.grid().side_nodes(side),
    {
        match side {
            Side::Left => &self.left,
            Side::Right => &self.right,
            Side::Bottom => &self.bottom,
            Side::Top => &self.top,
        }
    }

    /// Returns the number of points along x
    pub fn nx(&self) -> (nx: usize)
        ensures
            nx == self.grid().nx,
    {
        self.grid.nx
    }

    /// Returns the number of points along y
    pub fn ny(&self) -> (ny: usize)
        ensures
            ny == self.grid().ny,
    {
        self.grid.ny
    }

    /// Sets periodic boundary condition
    ///
    /// **Note:** It is only necessary to specify one of (Left, Right) or (Bottom, Top)
    ///
    /// **Warning:** Make sure that no essential boundary conditions are specified on the corresponding sides.
    /// Otherwise, the results may be incorrect.
    pub fn set_periodic_boundary_condition(&mut self, side: Side)
        requires
            old(self).wf(),
        ensures
            final(self).wf(),
            final(self).essential() == old(self).essential(),
            final(self).grid() == match side {
                Side::Left => Grid { periodic_along_x: true, ..old(self).grid() },
                Side::Right => Grid { periodic_along_x: true, ..old(self).grid() },
                Side::Bottom => Grid { periodic_along_y: true, ..old(self).grid() },
                Side::Top => Grid { periodic_along_y: true, ..old(self).grid() },
            },
    {
        match side {
            Side::Left => self.grid.periodic_along_x = true,
            Side::Right => self.grid.periodic_along_x = true,
            Side::Bottom => self.grid.periodic_along_y = true,
            Side::Top => self.grid.periodic_along_y = true,
        }
        proof {
            let before = old(self).grid;
            let after = self.grid;
            assert(after.side_nodes(Side::Left) =~= before.side_nodes(Side::Left));
            assert(after.side_nodes(Side::Right) =~= before.side_nodes(Side::Right));
            assert(after.side_nodes(Side::Bottom) =~= before.side_nodes(Side::Bottom));
            assert(after.side_nodes(Side::Top) =~= before.side_nodes(Side::Top));
        }
    }

    /// Prescribes `value` at every point of `side`, one point after the other.
    fn prescribe(&mut self, side: Side, value: EssentialValue)
        requires
            old(self).wf(),
        ensures
            final(self).wf(),
            final(self).grid == old(self).grid,
            final(self).essential@ == prescribed_on(
                old(self).essential@,
                old(self).grid,
                side,
                value,
            ),
    {
        let len: usize = match side {
            Side::Left => self.left.len(),
            Side::Right => self.right.len(),
            Side::Bottom => self.bottom.len(),
            Side::Top => self.top.len(),
        };
        let ghost grid = self.grid;
        let ghost before = self.essential@;
        let mut k: usize = 0;
        assert(self.essential@ =~= prescribed_upto(before, grid, side, value, 0));
        while k < len
            invariant
                grid.wf(),
                self.grid == grid,
                self.left@ == grid.side_nodes(Side::Left),
                self.right@ == grid.side_nodes(Side::Right),
                self.bottom@ == grid.side_nodes(Side::Bottom),
                self.top@ == grid.side_nodes(Side::Top),
                len == grid.side_len(side),
                k <= len,
                self.essential@ == prescribed_upto(before, grid, side, value, k as int),
            decreases len - k,
        {
            let node: usize = match side {
                Side::Left => self.left[k],
                Side::Right => self.right[k],
                Side::Bottom => self.bottom[k],
                Side::Top => self.top[k],
            };
            self.essential.insert(node, value);
            proof {
                grid.lemma_side_node_on_side(side, k as int);
                assert(node == grid.side_node(side, k as int));
                assert forall|n: usize|
                    grid.on_side(side, n as int) && grid.side_index(side, n as int)
                        == k implies n == node by {
                    grid.lemma_on_side_is_side_node(side, n as int);
                }
                assert(self.essential@ =~= prescribed_upto(
                    before,
                    grid,
                    side,
                    value,
                    k as int + 1,
                ));
            }
            k += 1;
        }
        proof {
            assert forall|n: usize| grid.on_side(side, n as int) implies grid.side_index(
                side,
                n as int,
            ) < len by {
                grid.lemma_on_side_is_side_node(side, n as int);
            }
            assert(self.essential@ =~= prescribed_on(before, grid, side, value));
        }
    }

    /// Sets essential (Dirichlet) boundary condition
    ///
    /// Every point of the side takes `value`, also where another side
    /// had prescribed a value before: the last call wins at a corner.
    ///
    /// **Note:** If specified, the periodic boundary condition on the corresponding side will be set to false
    pub fn set_essential_boundary_condition(&mut self, side: Side, value: EssentialValue)
        requires
            old(self).wf(),
        ensures
            final(self).wf(),
            final(self).grid() == match side {
                Side::Left => Grid { periodic_along_x: false, ..old(self).grid() },
                Side::Right => Grid { periodic_along_x: false, ..old(self).grid() },
                Side::Bottom => Grid { periodic_along_y: false, ..old(self).grid() },
                Side::Top => Grid { periodic_along_y: false, ..old(self).grid() },
            },
            final(self).essential() == prescribed_on(
                old(self).essential(),
                old(self).grid(),
                side,
                value,
            ),
    {
        self.clear_periodic(side);
        self.prescribe(side, value);
        assert(self.essential@ =~= prescribed_on(
            old(self).essential@,
            old(self).grid,
            side,
            value,
        ));
    }

    /// Makes the boundaries across `side` zero-flux barriers again.
    fn clear_periodic(&mut self, side: Side)
        requires
            old(self).wf(),
        ensures
            final(self).wf(),
            final(self).essential@ == old(self).essential@,
            final(self).grid == match side {
                Side::Left => Grid { periodic_along_x: false, ..old(self).grid },
                Side::Right => Grid { periodic_along_x: false, ..old(self).grid },
                Side::Bottom => Grid { periodic_along_y: false, ..old(self).grid },
                Side::Top => Grid { periodic_along_y: false, ..old(self).grid },
            },
    {
        match side {
            Side::Left => self.grid.periodic_along_x = false,
            Side::Right => self.grid.periodic_along_x = false,
            Side::Bottom => self.grid.periodic_along_y = false,
            Side::Top => self.grid.periodic_along_y = false,
        }
        proof {
            let before = old(self).grid;
            let after = self.grid;
            assert(after.side_nodes(Side::Left) =~= before.side_nodes(Side::Left));
            assert(after.side_nodes(Side::Right) =~= before.side_nodes(Side::Right));
            assert(after.side_nodes(Side::Bottom) =~= before.side_nodes(Side::Bottom));
            assert(after.side_nodes(Side::Top) =~= before.side_nodes(Side::Top));
        }
    }

    /// Sets homogeneous boundary conditions (i.e., zero essential values at the borders)
    ///
    /// Whatever was prescribed before is forgotten.
    ///
    /// **Note:** If specified, periodic boundary conditions will be set to false
    pub fn set_homogeneous_boundary_conditions(&mut self)
        requires
            old(self).wf(),
        ensures
            final(self).wf(),
            final(self).grid() == (Grid {
                periodic_along_x: false,
                periodic_along_y: false,
                ..old(self).grid()
            }),
            final(self).essential() == homogeneous(old(self).grid()),
    {
        self.clear_periodic(Side::Left);
        self.clear_periodic(Side::Bottom);
        self.essential.clear();
        self.prescribe(Side::Left, EssentialValue::Zero);
        self.prescribe(Side::Right, EssentialValue::Zero);
        self.prescribe(Side::Bottom, EssentialValue::Zero);
        self.prescribe(Side::Top, EssentialValue::Zero);
        assert(self.essential@ =~= homogeneous(old(self).grid));
    }

    /// Finds the "bandwidth" of a row of the coefficient matrix
    ///
    /// Here, the "bandwidth" means the non-zero values on a row of the coefficient matrix.
    /// This is not the actual bandwidth because the zero elements are ignored. There are
    /// five non-zero values in the "bandwidth" and they correspond to the molecule:
    /// entry `b` of the result is the column index that takes coefficient `b`.
    ///
    /// # Input
    ///
    /// * `m` -- the row index
    pub fn loop_over_bandwidth(&self, m: usize) -> (nn: [usize; 5])
        requires
            self.wf(),
            m < self.grid().dim(),
        ensures
            forall|b: int|
                0 <= b < 5 ==> #[trigger] nn@[b] == self.grid().neighbor(m as int, b) && nn@[b]
                    < self.grid().dim(),
    {
        let nx: usize = self.grid.nx;
        let ny: usize = self.grid.ny;
        let fin_x: usize = nx - 1;
        let fin_y: usize = ny - 1;
        let i: usize = m % nx;
        let j: usize = m / nx;
        proof {
            let g = self.grid;
            g.lemma_coordinates_of(m as int);
            g.lemma_neighbor_in_grid(m as int, LEF as int);
            g.lemma_neighbor_in_grid(m as int, RIG as int);
            g.lemma_neighbor_in_grid(m as int, BOT as int);
            g.lemma_neighbor_in_grid(m as int, TOP as int);
            assert((j - 1) * nx == j * nx - nx) by (nonlinear_arith);
            assert((j + 1) * nx == j * nx + nx) by (nonlinear_arith);
            assert((ny - 2) * nx == (ny - 1) * nx - nx) by (nonlinear_arith);
            assert(0 <= (ny - 1) * nx <= nx * ny) by (nonlinear_arith)
                requires
                    ny >= 2,
                    nx >= 2,
            ;
        }
        let lef: usize = if self.grid.periodic_along_x {
            if i != 0 {
                m - 1
            } else {
                m + fin_x
            }
        } else {
            if i != 0 {
                m - 1
            } else {
                m + 1
            }
        };
        let rig: usize = if self.grid.periodic_along_x {
            if i != fin_x {
                m + 1
            } else {
                m - fin_x
            }
        } else {
            if i != fin_x {
                m + 1
            } else {
                m - 1
            }
        };
        let bot: usize = if self.grid.periodic_along_y {
            if j != 0 {
                m - nx
            } else {
                m + fin_y * nx
            }
        } else {
            if j != 0 {
                m - nx
            } else {
                m + nx
            }
        };
        let top: usize = if self.grid.periodic_along_y {
            if j != fin_y {
                m + nx
            } else {
                m - fin_y * nx
            }
        } else {
            if j != fin_y {
                m + nx
            } else {
                m - nx
            }
        };
        [m, lef, rig, bot, top]
    }

    /// Lists one row of the coefficient matrix 'A' of A ⋅ X = B
    ///
    /// Note that some column indices may appear repeated; e.g. due to the zero-flux boundaries.
    ///
    /// # Input
    ///
    /// * `m` -- the row of the coefficient matrix
    ///
    /// # Output
    ///
    /// The five entries of the row, in the order of the molecule,
    /// whether or not their points are prescribed.
    pub fn loop_over_coef_mat_row(&self, m: usize) -> (row: Vec<Entry>)
        requires
            self.wf(),
            m < self.grid().dim(),
        ensures
            row@.len() == 5,
            forall|b: int|
                0 <= b < 5 ==> #[trigger] row@[b] == (Entry {
                    row: m,
                    col: self.grid().neighbor(m as int, b) as usize,
                    weight: Weight::Molecule(b as usize),
                }),
    {
        let nn = self.loop_over_bandwidth(m);
        let mut row: Vec<Entry> = Vec::new();
        let mut b: usize = 0;
        while b < 5
            invariant
                b <= 5,
                row@.len() == b,
                forall|q: int|
                    0 <= q < 5 ==> #[trigger] nn@[q] == self.grid().neighbor(m as int, q),
                forall|q: int|
                    0 <= q < b ==> #[trigger] row@[q] == (Entry {
                        row: m,
                        col: self.grid().neighbor(m as int, q) as usize,
                        weight: Weight::Molecule(q as usize),
                    }),
            decreases 5 - b,
        {
            row.push(Entry { row: m, col: nn[b], weight: Weight::Molecule(b) });
            b += 1;
        }
        row
    }

    /// Computes the pattern of the coefficient matrix 'A' of A ⋅ X = B
    ///
    /// **Note:** Consider the following partitioning:
    ///
    /// ```text
    /// ┌          ┐ ┌    ┐   ┌    ┐
    /// │ Auu  Aup │ │ Xu │   │ Bu │
    /// │          │ │    │ = │    │
    /// │ Apu  App │ │ Xp │   │ Bp │
    /// └          ┘ └    ┘   └    ┘
    /// ```
    ///
    /// where `u` means *unknown* and `p` means *prescribed*.
    ///
    /// # Output
    ///
    /// Returns `(A, C)` where:
    ///
    /// * `A` -- is the augmented 'Auu' matrix (dim × dim) with ones placed on the diagonal entries
    ///  corresponding to the prescribed essential values. Also, the entries corresponding to the
    ///  essential values are zeroed.
    /// * `C` -- is the augmented 'Aup' (correction) matrix (dim × dim) with only the 'unknown rows'
    ///   and the 'prescribed' columns.
    ///
    /// Both are lists of entries, row after row; within a row of an
    /// unknown the entries follow the molecule. An entry that occurs
    /// twice in a row (mirrored neighbours) stands for the sum.
    ///
    /// # Warnings
    ///
    /// **Important:** This function must be called after [PdeDiscreteLaplacian2d::set_essential_boundary_condition]
    pub fn coefficient_matrix(&self) -> (res: (Vec<Entry>, Vec<Entry>))
        requires
            self.wf(),
        ensures
            res.0@ == unknown_rows(self.grid(), self.essential(), self.grid().dim()),
            res.1@ == correction_rows(self.grid(), self.essential(), self.grid().dim()),
    {
        let dim: usize = self.dim();
        let ghost grid = self.grid;
        let ghost ess = self.essential@;
        let mut aa: Vec<Entry> = Vec::new();
        let mut cc: Vec<Entry> = Vec::new();
        let mut m: usize = 0;
        while m < dim
            invariant
                self.wf(),
                grid == self.grid,
                ess == self.essential@,
                dim == grid.dim(),
                m <= dim,
                aa@ == unknown_rows(grid, ess, m as int),
                cc@ == correction_rows(grid, ess, m as int),
            decreases dim - m,
        {
            if !self.essential.contains_key(&m) {
                let nn = self.loop_over_bandwidth(m);
                let ghost aa0 = aa@;
                let ghost cc0 = cc@;
                let mut b: usize = 0;
                assert(aa@ =~= aa0 + molecule_entries(grid, ess, m as int, 0, false));
                assert(cc@ =~= cc0 + molecule_entries(grid, ess, m as int, 0, true));
                while b < 5
                    invariant
                        b <= 5,
                        ess == self.essential@,
                        forall|q: int|
                            0 <= q < 5 ==> #[trigger] nn@[q] == grid.neighbor(m as int, q),
                        aa@ == aa0 + molecule_entries(grid, ess, m as int, b as int, false),
                        cc@ == cc0 + molecule_entries(grid, ess, m as int, b as int, true),
                    decreases 5 - b,
                {
                    let n: usize = nn[b];
                    let entry = Entry { row: m, col: n, weight: Weight::Molecule(b) };
                    if !self.essential.contains_key(&n) {
                        aa.push(entry);
                    } else {
                        cc.push(entry);
                    }
                    proof {
                        assert(aa@ =~= aa0 + molecule_entries(
                            grid,
                            ess,
                            m as int,
                            b as int + 1,
                            false,
                        ));
                        assert(cc@ =~= cc0 + molecule_entries(
                            grid,
                            ess,
                            m as int,
                            b as int + 1,
                            true,
                        ));
                    }
                    b += 1;
                }
                assert(cc@ =~= correction_rows(grid, ess, m as int + 1));
                assert(aa@ =~= unknown_rows(grid, ess, m as int + 1));
            } else {
                aa.push(Entry { row: m, col: m, weight: Weight::One });
                assert(aa@ =~= unknown_rows(grid, ess, m as int + 1));
                assert(cc@ =~= correction_rows(grid, ess, m as int + 1));
            }
            m += 1;
        }
        (aa, cc)
    }

    /// Lists the prescribed points with their values, in ascending
    /// order of the points.
    pub fn loop_over_prescribed_values(&self) -> (values: Vec<(usize, EssentialValue)>)
        requires
            self.wf(),
        ensures
            forall|k: int|
                0 <= k < values@.len() ==> self.essential().contains_key(
                    (#[trigger] values@[k]).0,
                ) && self.essential()[values@[k].0] == values@[k].1,
            forall|k: int, l: int|
                0 <= k < l < values@.len() ==> (#[trigger] values@[k]).0 < (
                #[trigger] values@[l]).0,
            forall|n: usize|
                self.essential().contains_key(n) ==> exists|k: int|
                    0 <= k < values@.len() && (#[trigger] values@[k]).0 == n,
    {
        let dim: usize = self.dim();
        let mut values: Vec<(usize, EssentialValue)> = Vec::new();
        let mut m: usize = 0;
        while m < dim
            invariant
                self.wf(),
                dim == self.grid.dim(),
                m <= dim,
                forall|k: int|
                    0 <= k < values@.len() ==> self.essential@.contains_key(
                        (#[trigger] values@[k]).0,
                    ) && self.essential@[values@[k].0] == values@[k].1 && values@[k].0 < m,
                forall|k: int, l: int|
                    0 <= k < l < values@.len() ==> (#[trigger] values@[k]).0 < (
                    #[trigger] values@[l]).0,
                forall|n: usize|
                    self.essential@.contains_key(n) && n < m ==> exists|k: int|
                        0 <= k < values@.len() && (#[trigger] values@[k]).0 == n,
            decreases dim - m,
        {
            let ghost before = values@;
            match self.essential.get(&m) {
                Some(value) => {
                    values.push((m, *value));
                    proof {
                        assert(values@[before.len() as int].0 == m);
                        assert forall|n: usize|
                            self.essential@.contains_key(n) && n < m + 1 implies exists|k: int|
                            0 <= k < values@.len() && (#[trigger] values@[k]).0 == n by {
                            if n < m {
                                let k = choose|k: int|
                                    0 <= k < before.len() && (#[trigger] before[k]).0 == n;
                                assert(values@[k].0 == n);
                            }
                        }
                    }
                },
                None => {},
            }
            m += 1;
        }
        values
    }

    /// Lists the grid points
    ///
    /// # Output
    ///
    /// For each point, in ascending order: `(m, i, j)` where `m` is the
    /// sequential point number, `i` its column and `j` its line.
    ///
    /// Note that:
    ///
    /// ```text
    /// m = i + j nx
    /// i = m % nx
    /// j = m / nx
    /// ```
    pub fn loop_over_grid_points(&self) -> (points: Vec<(usize, usize, usize)>)
        requires
            self.wf(),
        ensures
            points@.len() == self.grid().dim(),
            forall|m: int|
                0 <= m < points@.len() ==> #[trigger] points@[m] == (
                    m as usize,
                    (m % (self.grid().nx as int)) as usize,
                    (m / (self.grid().nx as int)) as usize,
                ),
    {
        let dim: usize = self.dim();
        let nx: usize = self.grid.nx;
        let mut points: Vec<(usize, usize, usize)> = Vec::new();
        let mut m: usize = 0;
        while m < dim
            invariant
                self.wf(),
                nx == self.grid.nx,
                dim == self.grid.dim(),
                m <= dim,
                points@.len() == m,
                forall|q: int|
                    0 <= q < m ==> #[trigger] points@[q] == (
                        q as usize,
                        (q % (nx as int)) as usize,
                        (q / (nx as int)) as usize,
                    ),
            decreases dim - m,
        {
            points.push((m, m % nx, m / nx));
            m += 1;
        }
        points
    }

    /// Returns the dimension of the linear system
    ///
    /// ```text
    /// dim = nx × ny
    /// ```
    pub fn dim(&self) -> (dim: usize)
        requires
            self.wf(),
        ensures
            dim == self.grid().dim(),
    {
        self.grid.nx * self.grid.ny
    }

    /// Returns the number of prescribed equations
    ///
    /// The number of prescribed equations is equal to the number of nodes with essential conditions.
    pub fn num_prescribed(&self) -> (count: usize)
        ensures
            count == self.essential().len(),
    {
        self.essential.len()
    }
}

} // verus!
