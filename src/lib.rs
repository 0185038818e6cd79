//! Grid store, candidate pattern engine and persistence records for a
//! Sudoku-style puzzle board.
//!
//! A grid is a row-major vector of cells. The host changes the values and
//! candidate flags of cells; the pattern engine derives, for each cell
//! without a value, which candidates form a pair or a single; the
//! persistence records carry a grid to and from its saved form.
use vstd::prelude::*;

pub mod element;
pub mod matrix;
pub mod patterns;
pub mod store;

pub use element::{
    DartToRustElementFFI, NumStateListIndex, PatternList, CONST_MATRIX_ELEMENTS,
    CONST_MATRIX_SIZE, PATTERN_LIST_OFF,
};
pub use matrix::{
    check_all_elements, check_one_element, create_matrix, erase_matrix, set_all_candidates,
    update_cell, update_matrix, EraseMode, GridError,
};
pub use patterns::check_cell_for_patterns;
pub use store::{
    flatten_matrix, unflatten_matrix, AppData, LoadError, SaveError, SerializableElement,
};
