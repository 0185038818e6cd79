//! The grid store: creation of a row-major grid of cells, bounds-checked
//! single-cell and whole-grid operations.
use vstd::prelude::*;

use crate::element::{
    all_equal, cell_count, is_fresh_element, DartToRustElementFFI, NumStateListIndex, CONST_MATRIX_ELEMENTS,
    CONST_MATRIX_SIZE, PATTERN_LIST_OFF, REQUESTED_CAND_HIGHLIGHT_SIZE,
    REQUESTED_ELEMENT_HIGHLIGHT_SIZE, SELECTED_NUMBER_LIST_SIZE, SELECTED_NUM_STATE_LIST_SIZE,
    SELECTED_PATTERN_LIST_SIZE,
};
use crate::patterns::{check_cell_for_patterns, is_recomputed};

verus! {

/// Why a grid operation refused to run.
#[derive(Debug, Clone, Copy, PartialEq, Eq, Structural)]
pub enum GridError {
    /// The requested dimensions are not the configured square size.
    UnsupportedDimension,
    /// `rows * cols` exceeds the configured number of cells.
    TooManyElements,
    /// The cell storage does not hold `rows * cols` cells.
    SizeMismatch,
    /// The cell index lies outside the grid.
    IndexOutOfRange,
}

/// `g` is a grid of `rows * cols` fresh cells in row-major order.
pub open spec fn is_created_grid(g: Seq<DartToRustElementFFI>, rows: int, cols: int) -> bool {
    &&& g.len() == rows * cols
    &&& forall|i: int| 0 <= i < g.len() ==> is_fresh_element(#[trigger] g[i], i / cols, i % cols)
}

/// The outcome of validating a storage of `len` cells declared as
/// `rows` by `cols`.
pub open spec fn dimension_check(len: nat, rows: u8, cols: u8) -> Result<(), GridError> {
    if rows * cols > CONST_MATRIX_ELEMENTS {
        Err(GridError::TooManyElements)
    } else if len != rows * cols {
        Err(GridError::SizeMismatch)
    } else {
        Ok(())
    }
}

/// The outcome of a single-cell update of cell `idx`.
pub open spec fn update_cell_check(len: nat, rows: u8, cols: u8, idx: u8) -> Result<(), GridError> {
    match dimension_check(len, rows, cols) {
        Err(e) => Err(e),
        Ok(_) => if idx >= rows * cols {
            Err(GridError::IndexOutOfRange)
        } else {
            Ok(())
        },
    }
}

/// Which cells an erase clears.
#[derive(Debug, Clone, Copy, PartialEq, Eq, Structural)]
pub enum EraseMode {
    /// Clear every cell, givens included.
    EraseGivens,
    /// Clear every cell but the value and state flags of givens.
    KeepGivens,
    /// Leave the grid as it is.
    KeepAll,
}

impl EraseMode {
    /// The mode selected by the host's byte flag: nonzero erases givens too,
    /// zero keeps them.
    pub fn from_flag(erase_givens: u8) -> (r: Self)
        ensures
            r == (if erase_givens != 0 {
                EraseMode::EraseGivens
            } else {
                EraseMode::KeepGivens
            }),
    {
        if erase_givens != 0 {
            EraseMode::EraseGivens
        } else {
            EraseMode::KeepGivens
        }
    }
}

/// `new` is `old` after an erase in `mode`: unless the mode keeps all,
/// candidates, tags and highlights are cleared, and the value and state
/// flags too, except those of a given when the mode keeps givens.
pub open spec fn is_erased(new: DartToRustElementFFI, old: DartToRustElementFFI, mode: EraseMode) -> bool {
    if mode == EraseMode::KeepAll {
        new == old
    } else {
        &&& new.row == old.row
        &&& new.col == old.col
        &&& all_equal(new.selected_cand_list@, 0)
        &&& all_equal(new.selected_pattern_list@, 0)
        &&& all_equal(new.requested_element_highlight_type@, 0)
        &&& all_equal(new.requested_cand_highlight_type@, PATTERN_LIST_OFF)
        &&& if mode == EraseMode::KeepGivens && is_given(old) {
            new.selected_num == old.selected_num && new.selected_num_state_list
                == old.selected_num_state_list
        } else {
            new.selected_num == 0 && all_equal(new.selected_num_state_list@, 0)
        }
    }
}

/// The cell's value was supplied as a fixed clue.
pub open spec fn is_given(c: DartToRustElementFFI) -> bool {
    c.selected_num_state_list@[NumStateListIndex::GIVENS as int] != 0
}

/// `new` is `old` with, when `old` has no value, every candidate flag set.
pub open spec fn has_all_candidates_set(new: DartToRustElementFFI, old: DartToRustElementFFI) -> bool {
    &&& new.row == old.row
    &&& new.col == old.col
    &&& new.selected_num == old.selected_num
    &&& new.selected_num_state_list == old.selected_num_state_list
    &&& new.selected_pattern_list == old.selected_pattern_list
    &&& new.requested_element_highlight_type == old.requested_element_highlight_type
    &&& new.requested_cand_highlight_type == old.requested_cand_highlight_type
    &&& if old.selected_num == 0 {
        all_equal(new.selected_cand_list@, 1)
    } else {
        new.selected_cand_list == old.selected_cand_list
    }
}

/// Creates a `rows` by `cols` grid of fresh cells in row-major order; only
/// the configured square size is supported.
pub fn create_matrix(rows: u8, cols: u8) -> (r: Result<Vec<DartToRustElementFFI>, GridError>)
    ensures
        r is Ok <==> rows == CONST_MATRIX_SIZE && cols == CONST_MATRIX_SIZE,
        r matches Ok(g) ==> is_created_grid(g@, rows as int, cols as int),
        r matches Err(e) ==> e == GridError::UnsupportedDimension,
{
    if rows != CONST_MATRIX_SIZE || cols != CONST_MATRIX_SIZE {
        return Err(GridError::UnsupportedDimension);
    }
    let count: usize = 81;
    let width: usize = 9;
    let mut cells: Vec<DartToRustElementFFI> = Vec::with_capacity(count);
    let mut i: usize = 0;
    while i < count
        invariant
            count == 81,
            width == 9,
            rows == 9,
            cols == 9,
            i <= count,
            cells.len() == i,
            forall|j: int| 0 <= j < i ==> is_fresh_element(#[trigger] cells@[j], j / 9, j % 9),
        decreases count - i,
    {
        let cell = DartToRustElementFFI::new((i / width) as u8, (i % width) as u8);
        cells.push(cell);
        i = i + 1;
    }
    Ok(cells)
}

/// Validates that `cells` holds a `rows` by `cols` grid within the
/// configured maximum, and returns its cell count.
fn check_dimensions(cells: &Vec<DartToRustElementFFI>, rows: u8, cols: u8) -> (r: Result<usize, GridError>)
    ensures
        match r {
            Ok(n) => dimension_check(cells@.len(), rows, cols) is Ok && n == rows * cols,
            Err(e) => dimension_check(cells@.len(), rows, cols) == Err::<(), GridError>(e),
        },
{
    let count = cell_count(rows, cols);
    if count > CONST_MATRIX_ELEMENTS as usize {
        Err(GridError::TooManyElements)
    } else if cells.len() != count {
        Err(GridError::SizeMismatch)
    } else {
        Ok(count)
    }
}

/// Recomputes the candidate highlight of cell `idx` alone.
pub fn check_one_element(cells: &mut Vec<DartToRustElementFFI>, idx: usize) -> (r: Result<(), GridError>)
    ensures
        r is Ok <==> idx < old(cells)@.len(),
        r matches Err(e) ==> e == GridError::IndexOutOfRange && final(cells)@ == old(cells)@,
        r is Ok ==> {
            &&& final(cells)@.len() == old(cells)@.len()
            &&& is_recomputed(final(cells)@[idx as int], old(cells)@[idx as int])
            &&& forall|j: int| 0 <= j < old(cells)@.len() && j != idx ==> final(cells)@[j] == old(cells)@[j]
        },
{
    if idx >= cells.len() {
        return Err(GridError::IndexOutOfRange);
    }
    check_cell_for_patterns(&mut cells[idx]);
    Ok(())
}

/// Recomputes the candidate highlight of every cell.
pub fn check_all_elements(cells: &mut Vec<DartToRustElementFFI>)
    ensures
        final(cells)@.len() == old(cells)@.len(),
        forall|j: int| 0 <= j < old(cells)@.len() ==> is_recomputed(#[trigger] final(cells)@[j], old(cells)@[j]),
{
    let mut i: usize = 0;
    while i < cells.len()
        invariant
            i <= cells@.len(),
            cells@.len() == old(cells)@.len(),
            forall|j: int| 0 <= j < i ==> is_recomputed(#[trigger] cells@[j], old(cells)@[j]),
            forall|j: int| i <= j < cells@.len() ==> #[trigger] cells@[j] == old(cells)@[j],
        decreases cells@.len() - i,
    {
        check_cell_for_patterns(&mut cells[i]);
        i = i + 1;
    }
}

/// Recomputes the candidate highlight of cell `idx` of a `rows` by `cols`
/// grid; the grid and the index are checked first.
pub fn update_cell(cells: &mut Vec<DartToRustElementFFI>, rows: u8, cols: u8, idx: u8) -> (r: Result<(), GridError>)
    ensures
        r == update_cell_check(old(cells)@.len(), rows, cols, idx),
        r is Err ==> final(cells)@ == old(cells)@,
        r is Ok ==> {
            &&& final(cells)@.len() == old(cells)@.len()
            &&& is_recomputed(final(cells)@[idx as int], old(cells)@[idx as int])
            &&& forall|j: int| 0 <= j < old(cells)@.len() && j != idx ==> final(cells)@[j] == old(cells)@[j]
        },
{
    let count = match check_dimensions(cells, rows, cols) {
        Ok(n) => n,
        Err(e) => return Err(e),
    };
    if idx as usize >= count {
        return Err(GridError::IndexOutOfRange);
    }
    check_cell_for_patterns(&mut cells[idx as usize]);
    Ok(())
}

/// Recomputes the candidate highlight of every cell of a `rows` by `cols`
/// grid, once the grid is checked.
pub fn update_matrix(cells: &mut Vec<DartToRustElementFFI>, rows: u8, cols: u8) -> (r: Result<(), GridError>)
    ensures
        r == dimension_check(old(cells)@.len(), rows, cols),
        r is Err ==> final(cells)@ == old(cells)@,
        r is Ok ==> {
            &&& final(cells)@.len() == old(cells)@.len()
            &&& forall|j: int| 0 <= j < old(cells)@.len() ==> is_recomputed(#[trigger] final(cells)@[j], old(cells)@[j])
        },
{
    match check_dimensions(cells, rows, cols) {
        Ok(_) => {},
        Err(e) => return Err(e),
    }
    check_all_elements(cells);
    Ok(())
}

/// Erases one cell in `mode`, which does not keep all.
fn erase_element(cell: &mut DartToRustElementFFI, mode: EraseMode)
    requires
        mode != EraseMode::KeepAll,
    ensures
        is_erased(*final(cell), *old(cell), mode),
{
    if mode == EraseMode::EraseGivens || cell.selected_num_state_list[NumStateListIndex::GIVENS as usize] == 0 {
        cell.selected_num = 0;
        cell.selected_num_state_list = [0u8; SELECTED_NUM_STATE_LIST_SIZE];
    }
    cell.selected_cand_list = [0u8; SELECTED_NUMBER_LIST_SIZE];
    cell.selected_pattern_list = [0u8; SELECTED_PATTERN_LIST_SIZE];
    cell.requested_element_highlight_type = [0u8; REQUESTED_ELEMENT_HIGHLIGHT_SIZE];
    cell.requested_cand_highlight_type = [PATTERN_LIST_OFF; REQUESTED_CAND_HIGHLIGHT_SIZE];
}

/// Erases every cell of a `rows` by `cols` grid in `mode`, once the grid
/// is checked.
pub fn erase_matrix(cells: &mut Vec<DartToRustElementFFI>, rows: u8, cols: u8, mode: EraseMode) -> (r: Result<(), GridError>)
    ensures
        r == dimension_check(old(cells)@.len(), rows, cols),
        r is Err ==> final(cells)@ == old(cells)@,
        r is Ok ==> {
            &&& final(cells)@.len() == old(cells)@.len()
            &&& forall|j: int| 0 <= j < old(cells)@.len() ==> is_erased(#[trigger] final(cells)@[j], old(cells)@[j], mode)
        },
{
    match check_dimensions(cells, rows, cols) {
        Ok(_) => {},
        Err(e) => return Err(e),
    }
    if mode == EraseMode::KeepAll {
        return Ok(());
    }
    let mut i: usize = 0;
    while i < cells.len()
        invariant
            mode != EraseMode::KeepAll,
            i <= cells@.len(),
            cells@.len() == old(cells)@.len(),
            forall|j: int| 0 <= j < i ==> is_erased(#[trigger] cells@[j], old(cells)@[j], mode),
            forall|j: int| i <= j < cells@.len() ==> #[trigger] cells@[j] == old(cells)@[j],
        decreases cells@.len() - i,
    {
        erase_element(&mut cells[i], mode);
        i = i + 1;
    }
    Ok(())
}

/// Sets every candidate flag of one cell that has no value.
fn set_element_candidates(cell: &mut DartToRustElementFFI)
    ensures
        has_all_candidates_set(*final(cell), *old(cell)),
{
    if cell.selected_num == 0 {
        cell.selected_cand_list = [1u8; SELECTED_NUMBER_LIST_SIZE];
    }
}

/// Sets every candidate flag of each cell without a value in a `rows` by
/// `cols` grid, once the grid is checked; cells with a value are untouched.
pub fn set_all_candidates(cells: &mut Vec<DartToRustElementFFI>, rows: u8, cols: u8) -> (r: Result<(), GridError>)
    ensures
        r == dimension_check(old(cells)@.len(), rows, cols),
        r is Err ==> final(cells)@ == old(cells)@,
        r is Ok ==> {
            &&& final(cells)@.len() == old(cells)@.len()
            &&& forall|j: int| 0 <= j < old(cells)@.len() ==> has_all_candidates_set(#[trigger] final(cells)@[j], old(cells)@[j])
        },
{
    match check_dimensions(cells, rows, cols) {
        Ok(_) => {},
        Err(e) => return Err(e),
    }
    let mut i: usize = 0;
    while i < cells.len()
        invariant
            i <= cells@.len(),
            cells@.len() == old(cells)@.len(),
            forall|j: int| 0 <= j < i ==> has_all_candidates_set(#[trigger] cells@[j], old(cells)@[j]),
            forall|j: int| i <= j < cells@.len() ==> #[trigger] cells@[j] == old(cells)@[j],
        decreases cells@.len() - i,
    {
        set_element_candidates(&mut cells[i]);
        i = i + 1;
    }
    Ok(())
}

/// Recomputing the highlights of a freshly created grid leaves every
/// candidate highlight off, since no cell has a candidate yet.
pub proof fn lemma_created_grid_recomputes_off(
    rows: u8,
    cols: u8,
    created: Seq<DartToRustElementFFI>,
    recomputed: Seq<DartToRustElementFFI>,
)
    requires
        is_created_grid(created, rows as int, cols as int),
        recomputed.len() == created.len(),
        forall|j: int| 0 <= j < created.len() ==> is_recomputed(#[trigger] recomputed[j], created[j]),
    ensures
        forall|j: int, k: int|
            0 <= j < recomputed.len() && 0 <= k < REQUESTED_CAND_HIGHLIGHT_SIZE
                ==> #[trigger] recomputed[j].requested_cand_highlight_type@[k] == PATTERN_LIST_OFF,
{
    assert forall|j: int, k: int|
        0 <= j < recomputed.len() && 0 <= k < REQUESTED_CAND_HIGHLIGHT_SIZE implies #[trigger] recomputed[j].requested_cand_highlight_type@[k]
            == PATTERN_LIST_OFF by {
        assert(is_fresh_element(created[j], j / cols as int, j % cols as int));
        assert(is_recomputed(recomputed[j], created[j]));
        assert(created[j].selected_cand_list@[k] == 0);
    }
}

/// An erase that keeps givens leaves a given cell's value and state flags
/// as they were while clearing its candidates, tags and highlights; any
/// other cell is cleared entirely but for its coordinates.
pub proof fn lemma_erase_keeps_givens(old: DartToRustElementFFI, new: DartToRustElementFFI)
    requires
        is_erased(new, old, EraseMode::KeepGivens),
    ensures
        new.row == old.row && new.col == old.col,
        all_equal(new.selected_cand_list@, 0),
        all_equal(new.selected_pattern_list@, 0),
        all_equal(new.requested_element_highlight_type@, 0),
        all_equal(new.requested_cand_highlight_type@, PATTERN_LIST_OFF),
        is_given(old) ==> new.selected_num == old.selected_num && new.selected_num_state_list
            == old.selected_num_state_list,
        !is_given(old) ==> new.selected_num == 0 && all_equal(new.selected_num_state_list@, 0),
{
}

} // verus!
