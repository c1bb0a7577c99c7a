//! What holds of the entries of the coefficient and correction matrices.

use vstd::prelude::*;
use crate::grid::Grid;
use crate::pde_discrete_laplacian_2d::{
    correction_row,
    correction_rows,
    molecule_entries,
    unknown_row,
    unknown_rows,
    Entry,
    EssentialValue,
    Weight,
};

verus! {

/// The entry that arm `b` of the molecule of row `m` stands for.
pub open spec fn arm(grid: Grid, m: int, b: int) -> Entry {
    Entry { row: m as usize, col: grid.neighbor(m, b) as usize, weight: Weight::Molecule(b as usize) }
}

/// An entry belongs to the block of the unknowns: it is an arm of the
/// molecule of an unknown point that ends on an unknown point.
pub open spec fn in_unknown_block(
    grid: Grid,
    essential: Map<usize, EssentialValue>,
    entry: Entry,
) -> bool {
    &&& !essential.contains_key(entry.row)
    &&& !essential.contains_key(entry.col)
    &&& exists|b: int| 0 <= b < 5 && entry == #[trigger] arm(grid, entry.row as int, b)
}

/// An entry belongs to the correction block: it is an arm of the
/// molecule of an unknown point that ends on a prescribed point.
pub open spec fn in_correction_block(
    grid: Grid,
    essential: Map<usize, EssentialValue>,
    entry: Entry,
) -> bool {
    &&& !essential.contains_key(entry.row)
    &&& essential.contains_key(entry.col)
    &&& exists|b: int| 0 <= b < 5 && entry == #[trigger] arm(grid, entry.row as int, b)
}

/// An entry is the one on the diagonal of a prescribed point.
pub open spec fn is_prescribed_diagonal(essential: Map<usize, EssentialValue>, entry: Entry) -> bool {
    &&& essential.contains_key(entry.row)
    &&& entry.col == entry.row
    &&& entry.weight == Weight::One
}

/// The two matrices share the arms of a molecule between them: each arm
/// goes to exactly one of them.
pub proof fn lemma_molecule_is_split(
    grid: Grid,
    essential: Map<usize, EssentialValue>,
    m: int,
    upto: int,
)
    requires
        0 <= upto <= 5,
    ensures
        molecule_entries(grid, essential, m, upto, false).len() + molecule_entries(
            grid,
            essential,
            m,
            upto,
            true,
        ).len() == upto,
    decreases upto,
{
    if upto > 0 {
        lemma_molecule_is_split(grid, essential, m, upto - 1);
    }
}

/// Each entry that a molecule contributes is one of its arms, lies in
/// the row of its point and in a column of the grid, and that column is
/// prescribed or not as was asked for.
pub proof fn lemma_molecule_entry(
    grid: Grid,
    essential: Map<usize, EssentialValue>,
    m: int,
    upto: int,
    prescribed: bool,
    k: int,
)
    requires
        grid.wf(),
        0 <= m < grid.dim(),
        0 <= upto <= 5,
        0 <= k < molecule_entries(grid, essential, m, upto, prescribed).len(),
    ensures
        ({
            let entry = molecule_entries(grid, essential, m, upto, prescribed)[k];
            &&& entry.row == m
            &&& entry.col < grid.dim()
            &&& essential.contains_key(entry.col) == prescribed
            &&& exists|b: int| 0 <= b < upto && entry == #[trigger] arm(grid, m, b)
        }),
    decreases upto,
{
    let b = upto - 1;
    let before = molecule_entries(grid, essential, m, b, prescribed);
    if k < before.len() {
        lemma_molecule_entry(grid, essential, m, b, prescribed, k);
        let entry = before[k];
        let w = choose|w: int| 0 <= w < b && entry == #[trigger] arm(grid, m, w);
        assert(0 <= w < upto && entry == arm(grid, m, w));
    } else {
        grid.lemma_neighbor_in_grid(m, b);
        let entry = molecule_entries(grid, essential, m, upto, prescribed)[k];
        assert(entry == arm(grid, m, b));
    }
}

/// Every entry of the augmented matrix of the unknowns lies in the
/// grid and is either the one on the diagonal of a prescribed point or
/// an arm between two unknown points: rows and columns of prescribed
/// points hold nothing else.
pub proof fn lemma_unknown_rows_entry(
    grid: Grid,
    essential: Map<usize, EssentialValue>,
    upto: int,
    k: int,
)
    requires
        grid.wf(),
        0 <= upto <= grid.dim(),
        0 <= k < unknown_rows(grid, essential, upto).len(),
    ensures
        ({
            let entry = unknown_rows(grid, essential, upto)[k];
            &&& entry.row < upto
            &&& entry.col < grid.dim()
            &&& is_prescribed_diagonal(essential, entry) || in_unknown_block(
                grid,
                essential,
                entry,
            )
        }),
    decreases upto,
{
    let m = upto - 1;
    let before = unknown_rows(grid, essential, m);
    if k < before.len() {
        lemma_unknown_rows_entry(grid, essential, m, k);
    } else {
        let row = unknown_row(grid, essential, m);
        let entry = row[k - before.len()];
        if !essential.contains_key(m as usize) {
            lemma_molecule_entry(grid, essential, m, 5, false, k - before.len());
            let b = choose|b: int| 0 <= b < 5 && entry == #[trigger] arm(grid, m, b);
            assert(entry == arm(grid, entry.row as int, b));
        }
    }
}

/// Every entry of the correction matrix lies in the grid, in the row
/// of an unknown point and in the column of a prescribed one.
pub proof fn lemma_correction_rows_entry(
    grid: Grid,
    essential: Map<usize, EssentialValue>,
    upto: int,
    k: int,
)
    requires
        grid.wf(),
        0 <= upto <= grid.dim(),
        0 <= k < correction_rows(grid, essential, upto).len(),
    ensures
        ({
            let entry = correction_rows(grid, essential, upto)[k];
            &&& entry.row < upto
            &&& entry.col < grid.dim()
            &&& in_correction_block(grid, essential, entry)
        }),
    decreases upto,
{
    let m = upto - 1;
    let before = correction_rows(grid, essential, m);
    if k < before.len() {
        lemma_correction_rows_entry(grid, essential, m, k);
    } else {
        let row = correction_row(grid, essential, m);
        let entry = row[k - before.len()];
        lemma_molecule_entry(grid, essential, m, 5, true, k - before.len());
        let b = choose|b: int| 0 <= b < 5 && entry == #[trigger] arm(grid, m, b);
        assert(entry == arm(grid, entry.row as int, b));
    }
}

/// The two matrices hold one entry for each prescribed point and five
/// for each unknown one: with `p` prescribed points among the first
/// `upto`, they hold `p + 5 (upto - p)` entries together.
pub proof fn lemma_number_of_entries(grid: Grid, essential: Map<usize, EssentialValue>, upto: int)
    requires
        0 <= upto,
    ensures
        unknown_rows(grid, essential, upto).len() + correction_rows(grid, essential, upto).len()
            == prescribed_below(essential, upto) + 5 * (upto - prescribed_below(essential, upto)),
        0 <= prescribed_below(essential, upto) <= upto,
    decreases upto,
{
    if upto > 0 {
        lemma_number_of_entries(grid, essential, upto - 1);
        lemma_molecule_is_split(grid, essential, upto - 1, 5);
    }
}

/// Number of prescribed points among the first `upto`.
pub open spec fn prescribed_below(essential: Map<usize, EssentialValue>, upto: int) -> int
    decreases upto,
{
    if upto <= 0 {
        0
    } else {
        prescribed_below(essential, upto - 1) + if essential.contains_key((upto - 1) as usize) {
            1int
        } else {
            0int
        }
    }
}

/// Without essential conditions the correction matrix is empty and
/// every row of the coefficient matrix is its full molecule.
pub proof fn lemma_no_conditions_no_correction(grid: Grid, upto: int)
    requires
        0 <= upto,
    ensures
        correction_rows(grid, Map::<usize, EssentialValue>::empty(), upto).len() == 0,
        unknown_rows(grid, Map::<usize, EssentialValue>::empty(), upto).len() == 5 * upto,
    decreases upto,
{
    let none = Map::<usize, EssentialValue>::empty();
    if upto > 0 {
        lemma_no_conditions_no_correction(grid, upto - 1);
        lemma_molecule_is_split(grid, none, upto - 1, 5);
        lemma_no_arm_prescribed(grid, upto - 1, 5);
    }
}

/// Without essential conditions no arm of a molecule ends on a
/// prescribed point.
pub proof fn lemma_no_arm_prescribed(grid: Grid, m: int, upto: int)
    requires
        0 <= upto <= 5,
    ensures
        molecule_entries(grid, Map::<usize, EssentialValue>::empty(), m, upto, true).len() == 0,
    decreases upto,
{
    if upto > 0 {
        lemma_no_arm_prescribed(grid, m, upto - 1);
    }
}

} // verus!
