use sudoku_core::{
    create_matrix, flatten_matrix, unflatten_matrix, update_matrix, AppData, DartToRustElementFFI,
    LoadError, PatternList, SaveError, SerializableElement,
};

fn sample_grid() -> Vec<DartToRustElementFFI> {
    let mut grid = create_matrix(9, 9).unwrap();
    for (i, cell) in grid.iter_mut().enumerate() {
        cell.selected_num = (i % 10) as u8;
        cell.selected_num_state_list = [(i % 2) as u8, 1];
        cell.selected_cand_list[i % 9] = 1;
        cell.selected_cand_list[(i + 4) % 9] = 1;
        cell.selected_pattern_list = [(i % 3) as u8, 0, 1, 2];
        cell.requested_element_highlight_type = [1, 2, 3, 4, (i % 5) as u8];
    }
    update_matrix(&mut grid, 9, 9).unwrap();
    grid
}

#[test]
fn flatten_copies_every_list() {
    let grid = sample_grid();
    let data = flatten_matrix(&grid, 9, 9).unwrap();
    assert_eq!(data.rows, 9);
    assert_eq!(data.cols, 9);
    assert_eq!(data.elements.len(), 81);
    for (cell, rec) in grid.iter().zip(data.elements.iter()) {
        assert_eq!(rec.row, cell.row);
        assert_eq!(rec.col, cell.col);
        assert_eq!(rec.selected_num, cell.selected_num);
        assert_eq!(rec.selected_num_state_list, cell.selected_num_state_list.to_vec());
        assert_eq!(rec.selected_cand_list, cell.selected_cand_list.to_vec());
        assert_eq!(rec.selected_pattern_list, cell.selected_pattern_list.to_vec());
        assert_eq!(rec.requested_element_highlight_type, cell.requested_element_highlight_type.to_vec());
        assert_eq!(rec.requested_cand_highlight_type, cell.requested_cand_highlight_type.to_vec());
    }
}

#[test]
fn flatten_rejects_wrong_count() {
    let grid = sample_grid();
    assert_eq!(flatten_matrix(&grid, 9, 8), Err(SaveError::LengthMismatch));
}

#[test]
fn round_trip_keeps_all_but_candidate_highlight() {
    let grid = sample_grid();
    let data = flatten_matrix(&grid, 9, 9).unwrap();
    let mut target = create_matrix(9, 9).unwrap();
    assert_eq!(unflatten_matrix(&mut target, 9, 9, &data), Ok(()));
    for (orig, back) in grid.iter().zip(target.iter()) {
        assert_eq!(back.row, orig.row);
        assert_eq!(back.col, orig.col);
        assert_eq!(back.selected_num, orig.selected_num);
        assert_eq!(back.selected_num_state_list, orig.selected_num_state_list);
        assert_eq!(back.selected_cand_list, orig.selected_cand_list);
        assert_eq!(back.selected_pattern_list, orig.selected_pattern_list);
        assert_eq!(back.requested_element_highlight_type, orig.requested_element_highlight_type);
        assert_eq!(back.requested_cand_highlight_type, [0; 9]);
    }
    assert_ne!(grid[0].requested_cand_highlight_type, [0; 9]);
}

#[test]
fn load_into_mismatched_dimensions_is_refused() {
    let grid = sample_grid();
    let data = flatten_matrix(&grid, 9, 9).unwrap();
    let mut target = create_matrix(9, 9).unwrap();
    let before = target.clone();
    let other = AppData { rows: 3, cols: 3, elements: Vec::new() };
    let r = unflatten_matrix(&mut target, 9, 9, &other);
    assert_eq!(r, Err(LoadError::DimensionMismatch));
    assert_eq!(r.unwrap_err().code(), -4);
    assert_eq!(target, before);
    let mut small = vec![DartToRustElementFFI::new(0, 0); 9];
    let small_before = small.clone();
    assert_eq!(unflatten_matrix(&mut small, 3, 3, &data), Err(LoadError::DimensionMismatch));
    assert_eq!(small, small_before);
}

#[test]
fn load_with_wrong_count_is_refused() {
    let grid = sample_grid();
    let mut data = flatten_matrix(&grid, 9, 9).unwrap();
    data.elements.pop();
    let mut target = create_matrix(9, 9).unwrap();
    let before = target.clone();
    let r = unflatten_matrix(&mut target, 9, 9, &data);
    assert_eq!(r, Err(LoadError::LengthMismatch));
    assert_eq!(r.unwrap_err().code(), -5);
    assert_eq!(target, before);
}

#[test]
fn short_and_long_records_are_fitted() {
    let rec = SerializableElement {
        row: 2,
        col: 7,
        selected_num: 6,
        selected_num_state_list: vec![1],
        selected_cand_list: vec![1, 0, 1, 1, 0, 0, 0, 0, 0, 1, 1, 1],
        selected_pattern_list: vec![],
        requested_element_highlight_type: vec![9, 8, 7, 6, 5, 4],
        requested_cand_highlight_type: vec![PatternList::PAIRS; 9],
    };
    let cell = DartToRustElementFFI::from(&rec);
    assert_eq!(cell.row, 2);
    assert_eq!(cell.col, 7);
    assert_eq!(cell.selected_num, 6);
    assert_eq!(cell.selected_num_state_list, [1, 0]);
    assert_eq!(cell.selected_cand_list, [1, 0, 1, 1, 0, 0, 0, 0, 0]);
    assert_eq!(cell.selected_pattern_list, [0; 4]);
    assert_eq!(cell.requested_element_highlight_type, [9, 8, 7, 6, 5]);
    assert_eq!(cell.requested_cand_highlight_type, [0; 9]);
}

#[test]
fn element_to_record_copies_lists() {
    let mut cell = DartToRustElementFFI::new(4, 5);
    cell.selected_cand_list[3] = 1;
    let rec = SerializableElement::from(&cell);
    assert_eq!(rec.row, 4);
    assert_eq!(rec.col, 5);
    assert_eq!(rec.selected_cand_list, vec![0, 0, 0, 1, 0, 0, 0, 0, 0]);
    assert_eq!(rec.requested_cand_highlight_type, vec![255; 9]);
    assert_eq!(rec.selected_num_state_list, vec![0, 0]);
}

#[test]
fn status_codes() {
    assert_eq!(SaveError::NullInput.code(), -1);
    assert_eq!(SaveError::Write.code(), -2);
    assert_eq!(SaveError::Encode.code(), -3);
    assert_eq!(SaveError::LengthMismatch.code(), -5);
    assert_eq!(SaveError::InvalidPath.code(), -6);
    assert_eq!(LoadError::NullInput.code(), -1);
    assert_eq!(LoadError::Decode.code(), -2);
    assert_eq!(LoadError::Read.code(), -3);
    assert_eq!(LoadError::DimensionMismatch.code(), -4);
    assert_eq!(LoadError::LengthMismatch.code(), -5);
    assert_eq!(LoadError::InvalidPath.code(), -6);
}
