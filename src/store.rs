//! Persistence records: the variable-length form of a grid, the
//! conversions between it and the fixed-layout cells, and the status codes
//! of saving and loading.
use vstd::prelude::*;

use crate::element::{
    all_equal, cell_count, DartToRustElementFFI, REQUESTED_CAND_HIGHLIGHT_SIZE,
    REQUESTED_ELEMENT_HIGHLIGHT_SIZE, SELECTED_NUMBER_LIST_SIZE, SELECTED_NUM_STATE_LIST_SIZE,
    SELECTED_PATTERN_LIST_SIZE,
};

verus! {

/// One cell in persisted form: every fixed-size list becomes a sequence.
#[derive(Debug, PartialEq, Eq)]
pub struct SerializableElement {
    pub row: u8,
    pub col: u8,
    pub selected_num: u8,
    pub selected_num_state_list: Vec<u8>,
    pub selected_cand_list: Vec<u8>,
    pub selected_pattern_list: Vec<u8>,
    pub requested_element_highlight_type: Vec<u8>,
    pub requested_cand_highlight_type: Vec<u8>,
}

/// The mathematical content of a [`SerializableElement`].
pub struct ElementRecord {
    pub row: u8,
    pub col: u8,
    pub selected_num: u8,
    pub selected_num_state_list: Seq<u8>,
    pub selected_cand_list: Seq<u8>,
    pub selected_pattern_list: Seq<u8>,
    pub requested_element_highlight_type: Seq<u8>,
    pub requested_cand_highlight_type: Seq<u8>,
}

impl View for SerializableElement {
    type V = ElementRecord;

    open spec fn view(&self) -> ElementRecord {
        ElementRecord {
            row: self.row,
            col: self.col,
            selected_num: self.selected_num,
            selected_num_state_list: self.selected_num_state_list@,
            selected_cand_list: self.selected_cand_list@,
            selected_pattern_list: self.selected_pattern_list@,
            requested_element_highlight_type: self.requested_element_highlight_type@,
            requested_cand_highlight_type: self.requested_cand_highlight_type@,
        }
    }
}

/// A whole grid in persisted form: its dimensions and its cells in
/// row-major order.
#[derive(Debug, PartialEq, Eq)]
pub struct AppData {
    pub rows: u8,
    pub cols: u8,
    pub elements: Vec<SerializableElement>,
}

/// The mathematical content of an [`AppData`].
pub struct AppDataView {
    pub rows: u8,
    pub cols: u8,
    pub elements: Seq<ElementRecord>,
}

impl View for AppData {
    type V = AppDataView;

    open spec fn view(&self) -> AppDataView {
        AppDataView {
            rows: self.rows,
            cols: self.cols,
            elements: Seq::new(self.elements@.len(), |i: int| self.elements@[i]@),
        }
    }
}

/// The persisted form of cell `c`: each list copied whole.
pub open spec fn flatten_element(c: DartToRustElementFFI) -> ElementRecord {
    ElementRecord {
        row: c.row,
        col: c.col,
        selected_num: c.selected_num,
        selected_num_state_list: c.selected_num_state_list@,
        selected_cand_list: c.selected_cand_list@,
        selected_pattern_list: c.selected_pattern_list@,
        requested_element_highlight_type: c.requested_element_highlight_type@,
        requested_cand_highlight_type: c.requested_cand_highlight_type@,
    }
}

/// `s` cut or zero-padded to exactly `n` slots.
pub open spec fn fitted(s: Seq<u8>, n: nat) -> Seq<u8> {
    Seq::new(n, |i: int| if i < s.len() { s[i] } else { 0u8 })
}

/// `c` is the cell rebuilt from record `e`: each list is fitted to its
/// fixed size, and the candidate highlight is not restored but zeroed.
pub open spec fn is_restored(c: DartToRustElementFFI, e: ElementRecord) -> bool {
    &&& c.row == e.row
    &&& c.col == e.col
    &&& c.selected_num == e.selected_num
    &&& c.selected_num_state_list@ == fitted(e.selected_num_state_list, SELECTED_NUM_STATE_LIST_SIZE as nat)
    &&& c.selected_cand_list@ == fitted(e.selected_cand_list, SELECTED_NUMBER_LIST_SIZE as nat)
    &&& c.selected_pattern_list@ == fitted(e.selected_pattern_list, SELECTED_PATTERN_LIST_SIZE as nat)
    &&& c.requested_element_highlight_type@ == fitted(
        e.requested_element_highlight_type,
        REQUESTED_ELEMENT_HIGHLIGHT_SIZE as nat,
    )
    &&& all_equal(c.requested_cand_highlight_type@, 0)
}

/// Copies a fixed-size list into a new vector.
fn list_to_vec<const N: usize>(a: &[u8; N]) -> (v: Vec<u8>)
    ensures
        v@ == a@,
{
    let mut v: Vec<u8> = Vec::with_capacity(N);
    let mut i: usize = 0;
    while i < N
        invariant
            i <= N,
            a@.len() == N,
            v@ == a@.subrange(0, i as int),
        decreases N - i,
    {
        v.push(a[i]);
        i = i + 1;
    }
    assert(a@.subrange(0, N as int) =~= a@);
    v
}

/// Copies as much of `src` as fits into a fixed-size list, zero-filling
/// the rest.
fn vec_to_list<const N: usize>(src: &Vec<u8>) -> (a: [u8; N])
    ensures
        a@ == fitted(src@, N as nat),
{
    let mut a: [u8; N] = [0u8; N];
    let mut i: usize = 0;
    while i < N
        invariant
            i <= N,
            a@.len() == N,
            forall|j: int| 0 <= j < i ==> a@[j] == fitted(src@, N as nat)[j],
            forall|j: int| i <= j < N ==> a@[j] == 0,
        decreases N - i,
    {
        if i < src.len() {
            a[i] = src[i];
        }
        i = i + 1;
    }
    assert(a@ =~= fitted(src@, N as nat));
    a
}

impl From<&DartToRustElementFFI> for SerializableElement {
    /// The persisted form of a cell.
    fn from(e: &DartToRustElementFFI) -> (r: Self)
        ensures
            r@ == flatten_element(*e),
    {
        SerializableElement {
            row: e.row,
            col: e.col,
            selected_num: e.selected_num,
            selected_num_state_list: list_to_vec(&e.selected_num_state_list),
            selected_cand_list: list_to_vec(&e.selected_cand_list),
            selected_pattern_list: list_to_vec(&e.selected_pattern_list),
            requested_element_highlight_type: list_to_vec(&e.requested_element_highlight_type),
            requested_cand_highlight_type: list_to_vec(&e.requested_cand_highlight_type),
        }
    }
}

impl vstd::std_specs::convert::FromSpecImpl<&DartToRustElementFFI> for SerializableElement {
    open spec fn obeys_from_spec() -> bool {
        false
    }

    open spec fn from_spec(e: &DartToRustElementFFI) -> SerializableElement {
        vstd::pervasive::arbitrary()
    }
}

impl From<&SerializableElement> for DartToRustElementFFI {
    /// The cell rebuilt from its persisted form; the candidate highlight is
    /// derived state and is left zeroed.
    fn from(e: &SerializableElement) -> (r: Self)
        ensures
            is_restored(r, e@),
    {
        let r = DartToRustElementFFI {
            row: e.row,
            col: e.col,
            selected_num: e.selected_num,
            selected_num_state_list: vec_to_list(&e.selected_num_state_list),
            selected_cand_list: vec_to_list(&e.selected_cand_list),
            selected_pattern_list: vec_to_list(&e.selected_pattern_list),
            requested_element_highlight_type: vec_to_list(&e.requested_element_highlight_type),
            requested_cand_highlight_type: [0u8; REQUESTED_CAND_HIGHLIGHT_SIZE],
        };
        r
    }
}

impl vstd::std_specs::convert::FromSpecImpl<&SerializableElement> for DartToRustElementFFI {
    open spec fn obeys_from_spec() -> bool {
        false
    }

    open spec fn from_spec(e: &SerializableElement) -> DartToRustElementFFI {
        vstd::pervasive::arbitrary()
    }
}

/// Why saving a grid failed.
#[derive(Debug, Clone, Copy, PartialEq, Eq, Structural)]
pub enum SaveError {
    /// The grid handle or the path was missing.
    NullInput,
    /// The path was not valid UTF-8.
    InvalidPath,
    /// The file could not be written.
    Write,
    /// The grid could not be encoded.
    Encode,
    /// The storage does not hold `rows * cols` cells.
    LengthMismatch,
}

/// Why loading a grid failed.
#[derive(Debug, Clone, Copy, PartialEq, Eq, Structural)]
pub enum LoadError {
    /// The grid handle or the path was missing.
    NullInput,
    /// The path was not valid UTF-8.
    InvalidPath,
    /// The file could not be read.
    Read,
    /// The file's content could not be decoded.
    Decode,
    /// The persisted dimensions differ from the target grid's.
    DimensionMismatch,
    /// The number of persisted or stored cells differs from `rows * cols`.
    LengthMismatch,
}

/// The status code that stands for a failed save.
pub open spec fn save_status(e: SaveError) -> int {
    match e {
        SaveError::NullInput => -1,
        SaveError::Write => -2,
        SaveError::Encode => -3,
        SaveError::LengthMismatch => -5,
        SaveError::InvalidPath => -6,
    }
}

/// The status code that stands for a failed load.
pub open spec fn load_status(e: LoadError) -> int {
    match e {
        LoadError::NullInput => -1,
        LoadError::Decode => -2,
        LoadError::Read => -3,
        LoadError::DimensionMismatch => -4,
        LoadError::LengthMismatch => -5,
        LoadError::InvalidPath => -6,
    }
}

impl SaveError {
    /// The negative status code reported to the host.
    pub fn code(&self) -> (r: i32)
        ensures
            r == save_status(*self),
    {
        match self {
            SaveError::NullInput => -1,
            SaveError::Write => -2,
            SaveError::Encode => -3,
            SaveError::LengthMismatch => -5,
            SaveError::InvalidPath => -6,
        }
    }
}

impl LoadError {
    /// The negative status code reported to the host.
    pub fn code(&self) -> (r: i32)
        ensures
            r == load_status(*self),
    {
        match self {
            LoadError::NullInput => -1,
            LoadError::Decode => -2,
            LoadError::Read => -3,
            LoadError::DimensionMismatch => -4,
            LoadError::LengthMismatch => -5,
            LoadError::InvalidPath => -6,
        }
    }
}

/// The persisted form of a `rows` by `cols` grid.
pub open spec fn flatten_grid(cells: Seq<DartToRustElementFFI>, rows: u8, cols: u8) -> AppDataView {
    AppDataView {
        rows,
        cols,
        elements: Seq::new(cells.len(), |i: int| flatten_element(cells[i])),
    }
}

/// The outcome of loading `data` into a storage of `len` cells declared as
/// `rows` by `cols`.
pub open spec fn unflatten_check(len: nat, rows: u8, cols: u8, data: AppDataView) -> Result<(), LoadError> {
    if data.rows != rows || data.cols != cols {
        Err(LoadError::DimensionMismatch)
    } else if data.elements.len() != rows * cols || len != rows * cols {
        Err(LoadError::LengthMismatch)
    } else {
        Ok(())
    }
}

/// The persisted form of a `rows` by `cols` grid, one record per cell in
/// row-major order; refused when the storage does not hold `rows * cols`
/// cells.
pub fn flatten_matrix(cells: &Vec<DartToRustElementFFI>, rows: u8, cols: u8) -> (r: Result<AppData, SaveError>)
    ensures
        r is Ok <==> cells@.len() == rows * cols,
        r matches Ok(d) ==> d@ == flatten_grid(cells@, rows, cols),
        r matches Err(e) ==> e == SaveError::LengthMismatch,
{
    if cells.len() != cell_count(rows, cols) {
        return Err(SaveError::LengthMismatch);
    }
    let mut elements: Vec<SerializableElement> = Vec::with_capacity(cells.len());
    let mut i: usize = 0;
    while i < cells.len()
        invariant
            i <= cells@.len(),
            elements@.len() == i,
            forall|j: int| 0 <= j < i ==> (#[trigger] elements@[j])@ == flatten_element(cells@[j]),
        decreases cells@.len() - i,
    {
        elements.push(SerializableElement::from(&cells[i]));
        i = i + 1;
    }
    let data = AppData { rows, cols, elements };
    assert(data@.elements =~= flatten_grid(cells@, rows, cols).elements);
    Ok(data)
}

/// Overwrites every cell of a `rows` by `cols` grid with its persisted
/// record. The dimensions and the counts are checked first; on a mismatch
/// the grid is left as it was.
pub fn unflatten_matrix(cells: &mut Vec<DartToRustElementFFI>, rows: u8, cols: u8, data: &AppData) -> (r: Result<(), LoadError>)
    ensures
        r == unflatten_check(old(cells)@.len(), rows, cols, data@),
        r is Err ==> final(cells)@ == old(cells)@,
        r is Ok ==> {
            &&& final(cells)@.len() == old(cells)@.len()
            &&& forall|j: int| 0 <= j < old(cells)@.len() ==> is_restored(#[trigger] final(cells)@[j], data@.elements[j])
        },
{
    if data.rows != rows || data.cols != cols {
        return Err(LoadError::DimensionMismatch);
    }
    let count = cell_count(rows, cols);
    if data.elements.len() != count || cells.len() != count {
        return Err(LoadError::LengthMismatch);
    }
    let mut i: usize = 0;
    while i < cells.len()
        invariant
            i <= cells@.len(),
            cells@.len() == old(cells)@.len(),
            data.elements@.len() == cells@.len(),
            forall|j: int| 0 <= j < i ==> is_restored(#[trigger] cells@[j], data@.elements[j]),
        decreases cells@.len() - i,
    {
        let restored = DartToRustElementFFI::from(&data.elements[i]);
        cells.set(i, restored);
        i = i + 1;
    }
    Ok(())
}

/// Rebuilding a cell from its own persisted form gives back every field
/// but the candidate highlight, which is derived state and comes back
/// zeroed.
pub proof fn lemma_element_round_trip(c: DartToRustElementFFI, restored: DartToRustElementFFI)
    requires
        is_restored(restored, flatten_element(c)),
    ensures
        restored.row == c.row,
        restored.col == c.col,
        restored.selected_num == c.selected_num,
        restored.selected_num_state_list == c.selected_num_state_list,
        restored.selected_cand_list == c.selected_cand_list,
        restored.selected_pattern_list == c.selected_pattern_list,
        restored.requested_element_highlight_type == c.requested_element_highlight_type,
        all_equal(restored.requested_cand_highlight_type@, 0),
{
    assert(restored.selected_num_state_list@ =~= c.selected_num_state_list@);
    assert(restored.selected_cand_list@ =~= c.selected_cand_list@);
    assert(restored.selected_pattern_list@ =~= c.selected_pattern_list@);
    assert(restored.requested_element_highlight_type@ =~= c.requested_element_highlight_type@);
}

/// Loading the persisted form of a `rows` by `cols` grid into any storage
/// of `rows * cols` cells is accepted, and the cells it writes give back
/// every field of the saved cells but the candidate highlight.
pub proof fn lemma_grid_round_trip(
    cells: Seq<DartToRustElementFFI>,
    rows: u8,
    cols: u8,
    target: Seq<DartToRustElementFFI>,
    restored: Seq<DartToRustElementFFI>,
)
    requires
        cells.len() == rows * cols,
        target.len() == rows * cols,
        restored.len() == target.len(),
        forall|j: int|
            0 <= j < target.len() ==> is_restored(
                #[trigger] restored[j],
                flatten_grid(cells, rows, cols).elements[j],
            ),
    ensures
        unflatten_check(target.len(), rows, cols, flatten_grid(cells, rows, cols)) is Ok,
        forall|j: int|
            0 <= j < cells.len() ==> {
                &&& (#[trigger] restored[j]).row == cells[j].row
                &&& restored[j].col == cells[j].col
                &&& restored[j].selected_num == cells[j].selected_num
                &&& restored[j].selected_num_state_list == cells[j].selected_num_state_list
                &&& restored[j].selected_cand_list == cells[j].selected_cand_list
                &&& restored[j].selected_pattern_list == cells[j].selected_pattern_list
                &&& restored[j].requested_element_highlight_type
                    == cells[j].requested_element_highlight_type
            },
{
    assert forall|j: int| 0 <= j < cells.len() implies {
        &&& (#[trigger] restored[j]).row == cells[j].row
        &&& restored[j].col == cells[j].col
        &&& restored[j].selected_num == cells[j].selected_num
        &&& restored[j].selected_num_state_list == cells[j].selected_num_state_list
        &&& restored[j].selected_cand_list == cells[j].selected_cand_list
        &&& restored[j].selected_pattern_list == cells[j].selected_pattern_list
        &&& restored[j].requested_element_highlight_type
            == cells[j].requested_element_highlight_type
    } by {
        lemma_element_round_trip(cells[j], restored[j]);
    }
}

/// Persisted data whose dimensions differ from the target grid's is refused
/// with the dimension-mismatch status, whatever the target holds.
pub proof fn lemma_mismatched_dimensions_refused(
    cells: Seq<DartToRustElementFFI>,
    rows: u8,
    cols: u8,
    target_len: nat,
    target_rows: u8,
    target_cols: u8,
)
    requires
        rows != target_rows || cols != target_cols,
    ensures
        unflatten_check(target_len, target_rows, target_cols, flatten_grid(cells, rows, cols))
            == Err::<(), LoadError>(LoadError::DimensionMismatch),
        load_status(LoadError::DimensionMismatch) == -4,
{
}

} // verus!
