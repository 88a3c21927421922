use vstd::prelude::*;

verus! {

/// Controls in the matrix grid: one for each entry of a 4x4 matrix.
pub const GRID_CELLS: usize = 16;

/// The matrix entry that grid control `id` edits, as (axis, component). The
/// matrix is held as four axes (x, y, z, w: its columns), each of four
/// components (x, y, z, w). Controls are numbered row by row over a 4x4 grid.
/// Grid rows X, Y and Z show the x, y and z components of the x, y and z axis
/// respectively, then that row's component of the w axis (the translation);
/// grid row W shows the w component of each axis.
pub open spec fn cell_of(id: int) -> (int, int) {
    let row = id / 4;
    let col = id % 4;
    if row < 3 {
        if col < 3 {
            (row, col)
        } else {
            (3, row)
        }
    } else {
        (col, 3)
    }
}

/// The grid control that edits component `comp` of axis `axis`.
pub open spec fn id_of(axis: int, comp: int) -> int {
    if axis < 3 && comp < 3 {
        4 * axis + comp
    } else if comp < 3 {
        4 * comp + 3
    } else {
        12 + axis
    }
}

/// Where a matrix entry stands in the matrix's column-major array.
pub open spec fn flat_index(cell: (int, int)) -> int {
    4 * cell.0 + cell.1
}

/// The name of an axis, as in "x_axis".
pub open spec fn axis_name_of(axis: int) -> Seq<char> {
    if axis == 0 {
        seq!['x', '_', 'a', 'x', 'i', 's']
    } else if axis == 1 {
        seq!['y', '_', 'a', 'x', 'i', 's']
    } else if axis == 2 {
        seq!['z', '_', 'a', 'x', 'i', 's']
    } else {
        seq!['w', '_', 'a', 'x', 'i', 's']
    }
}

/// The name of a component: "x", "y", "z" or "w".
pub open spec fn component_name_of(comp: int) -> Seq<char> {
    if comp == 0 {
        seq!['x']
    } else if comp == 1 {
        seq!['y']
    } else if comp == 2 {
        seq!['z']
    } else {
        seq!['w']
    }
}

/// The entry grid control `id` edits, as (axis, component).
pub fn cell(id: usize) -> (r: (usize, usize))
    requires
        id < GRID_CELLS,
    ensures
        (r.0 as int, r.1 as int) == cell_of(id as int),
        r.0 < 4,
        r.1 < 4,
{
    let row = id / 4;
    let col = id % 4;
    if row < 3 {
        if col < 3 {
            (row, col)
        } else {
            (3, row)
        }
    } else {
        (col, 3)
    }
}

/// The position in the column-major array of the entry that grid control
/// `id` edits.
pub fn cell_index(id: usize) -> (r: usize)
    requires
        id < GRID_CELLS,
    ensures
        r as int == flat_index(cell_of(id as int)),
        r < GRID_CELLS,
{
    let (axis, comp) = cell(id);
    4 * axis + comp
}

/// Whether grid control `id` edits an entry on the diagonal, which is 1 in
/// the identity matrix and where the control starts at 1.
pub fn is_diagonal(id: usize) -> (r: bool)
    requires
        id < GRID_CELLS,
    ensures
        r == (cell_of(id as int).0 == cell_of(id as int).1),
{
    let (axis, comp) = cell(id);
    axis == comp
}

/// The name of an axis of the matrix.
pub fn axis_name(axis: usize) -> (r: &'static str)
    requires
        axis < 4,
    ensures
        r@ == axis_name_of(axis as int),
{
    proof {
        reveal_strlit("x_axis");
        reveal_strlit("y_axis");
        reveal_strlit("z_axis");
        reveal_strlit("w_axis");
    }
    if axis == 0 {
        "x_axis"
    } else if axis == 1 {
        "y_axis"
    } else if axis == 2 {
        "z_axis"
    } else {
        "w_axis"
    }
}

/// The name of a component of an axis.
pub fn component_name(comp: usize) -> (r: &'static str)
    requires
        comp < 4,
    ensures
        r@ == component_name_of(comp as int),
{
    proof {
        reveal_strlit("x");
        reveal_strlit("y");
        reveal_strlit("z");
        reveal_strlit("w");
    }
    if comp == 0 {
        "x"
    } else if comp == 1 {
        "y"
    } else if comp == 2 {
        "z"
    } else {
        "w"
    }
}

/// The grid edits every entry of the matrix through exactly one control:
/// `cell_of` takes the ids `0..16` one to one onto the 4x4 entries, and
/// `id_of` undoes it.
pub proof fn lemma_grid_is_one_to_one(id: int, axis: int, comp: int)
    requires
        0 <= id < GRID_CELLS,
        0 <= axis < 4,
        0 <= comp < 4,
    ensures
        0 <= cell_of(id).0 < 4,
        0 <= cell_of(id).1 < 4,
        id_of(cell_of(id).0, cell_of(id).1) == id,
        0 <= id_of(axis, comp) < GRID_CELLS,
        cell_of(id_of(axis, comp)) == (axis, comp),
{
}

/// The controls that start at 1 are those of the diagonal: ids 0, 5, 10
/// and 15.
pub proof fn lemma_diagonal_ids(id: int)
    requires
        0 <= id < GRID_CELLS,
    ensures
        (cell_of(id).0 == cell_of(id).1) <==> (id == 0 || id == 5 || id == 10 || id == 15),
{
}

} // verus!
