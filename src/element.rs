//! The cell record shared with the host, its sizes and its pattern codes.
use vstd::prelude::*;

verus! {

/// Largest value a byte flag can hold; used as the "off" sentinel.
pub const MAX_UINT: u8 = 255;

/// Side length of the square grid.
pub const CONST_MATRIX_SIZE: u8 = 9;

/// Number of cells in the grid.
pub const CONST_MATRIX_ELEMENTS: u8 = 81;

/// Slots of the candidate flag list: one per value 1..N.
pub const SELECTED_NUMBER_LIST_SIZE: usize = 9;

/// Slots of the per-cell state flags (given, reserved).
pub const SELECTED_NUM_STATE_LIST_SIZE: usize = 2;

/// Slots of the whole-cell pattern tags.
pub const SELECTED_PATTERN_LIST_SIZE: usize = 4;

/// Slots of the whole-cell highlight request.
pub const REQUESTED_ELEMENT_HIGHLIGHT_SIZE: usize = 5;

/// Slots of the per-candidate highlight: one per value 1..N.
pub const REQUESTED_CAND_HIGHLIGHT_SIZE: usize = 9;

/// A candidate highlight slot that carries no pattern.
pub const PATTERN_LIST_OFF: u8 = MAX_UINT;

/// Pattern codes written into candidate highlight slots.
pub struct PatternList;

impl PatternList {
    pub const HI_LIGHT_ON: u8 = 0;
    pub const PAIRS: u8 = 1;
    pub const SINGLES: u8 = 2;
    pub const GIVENS: u8 = 3;
}

/// Positions inside a cell's state flag list.
pub struct NumStateListIndex;

impl NumStateListIndex {
    pub const GIVENS: u8 = 0;
    pub const FUTUREUSE: u8 = 1;
}

/// One grid position: coordinates, chosen value, candidate flags and the
/// highlight annotations derived from them.
#[derive(Debug, Copy, Clone, PartialEq, Eq)]
pub struct DartToRustElementFFI {
    pub row: u8,
    pub col: u8,
    pub selected_num: u8,
    pub selected_num_state_list: [u8; SELECTED_NUM_STATE_LIST_SIZE],
    pub selected_cand_list: [u8; SELECTED_NUMBER_LIST_SIZE],
    pub selected_pattern_list: [u8; SELECTED_PATTERN_LIST_SIZE],
    pub requested_element_highlight_type: [u8; REQUESTED_ELEMENT_HIGHLIGHT_SIZE],
    pub requested_cand_highlight_type: [u8; REQUESTED_CAND_HIGHLIGHT_SIZE],
}

/// Every slot of `s` holds `v`.
pub open spec fn all_equal(s: Seq<u8>, v: u8) -> bool {
    forall|i: int| 0 <= i < s.len() ==> #[trigger] s[i] == v
}

/// `c` is a cell as freshly built for position (`row`, `col`): no value, all
/// flags cleared, every candidate highlight off.
pub open spec fn is_fresh_element(c: DartToRustElementFFI, row: int, col: int) -> bool {
    &&& c.row == row
    &&& c.col == col
    &&& c.selected_num == 0
    &&& all_equal(c.selected_num_state_list@, 0)
    &&& all_equal(c.selected_cand_list@, 0)
    &&& all_equal(c.selected_pattern_list@, 0)
    &&& all_equal(c.requested_element_highlight_type@, 0)
    &&& all_equal(c.requested_cand_highlight_type@, PATTERN_LIST_OFF)
}

/// The number of cells of a `rows` by `cols` grid.
pub(crate) fn cell_count(rows: u8, cols: u8) -> (n: usize)
    ensures
        n == rows * cols,
{
    assert(rows * cols <= 255 * 255) by (nonlinear_arith)
        requires
            rows <= 255,
            cols <= 255,
    ;
    rows as usize * cols as usize
}

impl DartToRustElementFFI {
    /// A fresh cell for position (`row`, `col`).
    pub fn new(row: u8, col: u8) -> (r: Self)
        ensures
            is_fresh_element(r, row as int, col as int),
    {
        DartToRustElementFFI {
            row,
            col,
            selected_num: 0,
            selected_num_state_list: [0u8; SELECTED_NUM_STATE_LIST_SIZE],
            selected_cand_list: [0u8; SELECTED_NUMBER_LIST_SIZE],
            selected_pattern_list: [0u8; SELECTED_PATTERN_LIST_SIZE],
            requested_element_highlight_type: [0u8; REQUESTED_ELEMENT_HIGHLIGHT_SIZE],
            requested_cand_highlight_type: [PATTERN_LIST_OFF; REQUESTED_CAND_HIGHLIGHT_SIZE],
        }
    }
}

} // verus!
