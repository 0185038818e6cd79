use sudoku_core::{
    check_cell_for_patterns, check_all_elements, check_one_element, create_matrix,
    DartToRustElementFFI, GridError, PatternList, PATTERN_LIST_OFF,
};

fn cell_with_candidates(values: &[usize]) -> DartToRustElementFFI {
    let mut c = DartToRustElementFFI::new(0, 0);
    for v in values {
        c.selected_cand_list[v - 1] = 1;
    }
    c
}

#[test]
fn fresh_grid_recomputes_to_all_off() {
    let mut grid = create_matrix(9, 9).unwrap();
    check_all_elements(&mut grid);
    for cell in &grid {
        assert!(cell.requested_cand_highlight_type.iter().all(|&h| h == PATTERN_LIST_OFF));
    }
}

#[test]
fn two_candidates_are_marked_as_pair() {
    let mut c = cell_with_candidates(&[2, 5]);
    check_cell_for_patterns(&mut c);
    for k in 0..9 {
        let expected = if k == 1 || k == 4 { PatternList::PAIRS } else { PATTERN_LIST_OFF };
        assert_eq!(c.requested_cand_highlight_type[k], expected);
    }
}

#[test]
fn third_candidate_clears_pair() {
    let mut c = cell_with_candidates(&[2, 5]);
    check_cell_for_patterns(&mut c);
    c.selected_cand_list[8] = 1;
    check_cell_for_patterns(&mut c);
    assert_eq!(c.requested_cand_highlight_type, [PATTERN_LIST_OFF; 9]);
}

#[test]
fn cell_with_value_has_no_highlight() {
    let mut c = cell_with_candidates(&[4]);
    c.selected_num = 4;
    c.requested_cand_highlight_type = [PatternList::PAIRS; 9];
    check_cell_for_patterns(&mut c);
    assert_eq!(c.requested_cand_highlight_type, [PATTERN_LIST_OFF; 9]);
    let mut d = cell_with_candidates(&[1, 9]);
    d.selected_num = 1;
    check_cell_for_patterns(&mut d);
    assert_eq!(d.requested_cand_highlight_type, [PATTERN_LIST_OFF; 9]);
}

#[test]
fn no_candidates_and_many_candidates_stay_off() {
    let mut none = cell_with_candidates(&[]);
    check_cell_for_patterns(&mut none);
    assert_eq!(none.requested_cand_highlight_type, [PATTERN_LIST_OFF; 9]);
    let mut all = cell_with_candidates(&[1, 2, 3, 4, 5, 6, 7, 8, 9]);
    check_cell_for_patterns(&mut all);
    assert_eq!(all.requested_cand_highlight_type, [PATTERN_LIST_OFF; 9]);
}

#[test]
fn stale_highlight_does_not_survive_recompute() {
    let mut c = cell_with_candidates(&[3]);
    c.requested_cand_highlight_type = [0; 9];
    check_cell_for_patterns(&mut c);
    let mut expected = [PATTERN_LIST_OFF; 9];
    expected[2] = PatternList::SINGLES;
    assert_eq!(c.requested_cand_highlight_type, expected);
}

#[test]
fn recompute_keeps_other_fields() {
    let mut c = cell_with_candidates(&[6, 7]);
    c.selected_num_state_list = [1, 0];
    c.selected_pattern_list = [1, 2, 3, 4];
    c.requested_element_highlight_type = [5, 6, 7, 8, 9];
    let before = c;
    check_cell_for_patterns(&mut c);
    assert_eq!(c.row, before.row);
    assert_eq!(c.col, before.col);
    assert_eq!(c.selected_num, before.selected_num);
    assert_eq!(c.selected_num_state_list, before.selected_num_state_list);
    assert_eq!(c.selected_cand_list, before.selected_cand_list);
    assert_eq!(c.selected_pattern_list, before.selected_pattern_list);
    assert_eq!(c.requested_element_highlight_type, before.requested_element_highlight_type);
}

#[test]
fn pair_then_single_on_first_cell() {
    let mut grid = create_matrix(9, 9).unwrap();
    grid[0].selected_cand_list[2] = 1;
    grid[0].selected_cand_list[6] = 1;
    assert_eq!(sudoku_core::update_cell(&mut grid, 9, 9, 0), Ok(()));
    for k in 0..9 {
        let expected = if k == 2 || k == 6 { PatternList::PAIRS } else { PATTERN_LIST_OFF };
        assert_eq!(grid[0].requested_cand_highlight_type[k], expected);
    }
    grid[0].selected_cand_list[6] = 0;
    assert_eq!(sudoku_core::update_cell(&mut grid, 9, 9, 0), Ok(()));
    for k in 0..9 {
        let expected = if k == 2 { PatternList::SINGLES } else { PATTERN_LIST_OFF };
        assert_eq!(grid[0].requested_cand_highlight_type[k], expected);
    }
}

#[test]
fn check_one_element_rejects_index_past_end() {
    let mut grid = create_matrix(9, 9).unwrap();
    let before = grid.clone();
    assert_eq!(check_one_element(&mut grid, 81), Err(GridError::IndexOutOfRange));
    assert_eq!(grid, before);
}

#[test]
fn check_one_element_touches_one_cell() {
    let mut grid = create_matrix(9, 9).unwrap();
    grid[10].selected_cand_list[0] = 1;
    grid[11].selected_cand_list[0] = 1;
    assert_eq!(check_one_element(&mut grid, 10), Ok(()));
    assert_eq!(grid[10].requested_cand_highlight_type[0], PatternList::SINGLES);
    assert_eq!(grid[11].requested_cand_highlight_type[0], PATTERN_LIST_OFF);
}
