//! The pattern engine: per-cell candidate counting that derives the
//! candidate highlight annotations.
use vstd::prelude::*;

use crate::element::{
    DartToRustElementFFI, PatternList, PATTERN_LIST_OFF, REQUESTED_CAND_HIGHLIGHT_SIZE,
    SELECTED_NUMBER_LIST_SIZE,
};

verus! {

/// Number of nonzero flags in `s`.
pub open spec fn count_nonzero(s: Seq<u8>) -> nat
    decreases s.len(),
{
    if s.len() == 0 {
        0
    } else {
        count_nonzero(s.drop_last()) + if s.last() != 0 { 1nat } else { 0nat }
    }
}

/// The highlight code of candidate slot `i` for a cell holding value
/// `selected` and candidate flags `cands`.
pub open spec fn highlight_code(selected: u8, cands: Seq<u8>, i: int) -> u8 {
    if selected == 0 && cands[i] != 0 && count_nonzero(cands) == 2 {
        PatternList::PAIRS
    } else if selected == 0 && cands[i] != 0 && count_nonzero(cands) == 1 {
        PatternList::SINGLES
    } else {
        PATTERN_LIST_OFF
    }
}

/// The whole candidate highlight list derived from `selected` and `cands`.
pub open spec fn derived_highlight(selected: u8, cands: Seq<u8>) -> Seq<u8> {
    Seq::new(cands.len(), |i: int| highlight_code(selected, cands, i))
}

/// `new` is `old` with its candidate highlight recomputed and every other
/// field unchanged.
pub open spec fn is_recomputed(new: DartToRustElementFFI, old: DartToRustElementFFI) -> bool {
    &&& new.row == old.row
    &&& new.col == old.col
    &&& new.selected_num == old.selected_num
    &&& new.selected_num_state_list == old.selected_num_state_list
    &&& new.selected_cand_list == old.selected_cand_list
    &&& new.selected_pattern_list == old.selected_pattern_list
    &&& new.requested_element_highlight_type == old.requested_element_highlight_type
    &&& new.requested_cand_highlight_type@ == derived_highlight(
        old.selected_num,
        old.selected_cand_list@,
    )
}

/// Recomputes the candidate highlight of one cell from its own candidates:
/// every slot is reset to off; then, for a cell without a value, the
/// nonzero candidates are marked as a pair when there are exactly two and
/// as a single when there is exactly one.
pub fn check_cell_for_patterns(cell: &mut DartToRustElementFFI)
    ensures
        is_recomputed(*final(cell), *old(cell)),
{
    let ghost cands = cell.selected_cand_list@;
    let mut i: usize = 0;
    while i < REQUESTED_CAND_HIGHLIGHT_SIZE
        invariant
            i <= REQUESTED_CAND_HIGHLIGHT_SIZE,
            cell.row == old(cell).row,
            cell.col == old(cell).col,
            cell.selected_num == old(cell).selected_num,
            cell.selected_num_state_list == old(cell).selected_num_state_list,
            cell.selected_cand_list == old(cell).selected_cand_list,
            cell.selected_pattern_list == old(cell).selected_pattern_list,
            cell.requested_element_highlight_type == old(cell).requested_element_highlight_type,
            forall|j: int| 0 <= j < i ==> cell.requested_cand_highlight_type@[j] == PATTERN_LIST_OFF,
        decreases REQUESTED_CAND_HIGHLIGHT_SIZE - i,
    {
        cell.requested_cand_highlight_type[i] = PATTERN_LIST_OFF;
        i = i + 1;
    }
    if cell.selected_num == 0 {
        let count = count_candidates(&cell.selected_cand_list);
        if count == 2 || count == 1 {
            let code = if count == 2 { PatternList::PAIRS } else { PatternList::SINGLES };
            let mut k: usize = 0;
            while k < SELECTED_NUMBER_LIST_SIZE
                invariant
                    k <= SELECTED_NUMBER_LIST_SIZE,
                    count_nonzero(cands) == count as nat,
                    count == 2 || count == 1,
                    code == (if count == 2 { PatternList::PAIRS } else { PatternList::SINGLES }),
                    cands == old(cell).selected_cand_list@,
                    cell.row == old(cell).row,
                    cell.col == old(cell).col,
                    cell.selected_num == old(cell).selected_num,
                    cell.selected_num == 0,
                    cell.selected_num_state_list == old(cell).selected_num_state_list,
                    cell.selected_cand_list == old(cell).selected_cand_list,
                    cell.selected_pattern_list == old(cell).selected_pattern_list,
                    cell.requested_element_highlight_type == old(cell).requested_element_highlight_type,
                    forall|j: int| 0 <= j < k ==> cell.requested_cand_highlight_type@[j] == highlight_code(0, cands, j),
                    forall|j: int| k <= j < REQUESTED_CAND_HIGHLIGHT_SIZE ==> cell.requested_cand_highlight_type@[j] == PATTERN_LIST_OFF,
                decreases SELECTED_NUMBER_LIST_SIZE - k,
            {
                if cell.selected_cand_list[k] != 0 {
                    cell.requested_cand_highlight_type[k] = code;
                }
                k = k + 1;
            }
        }
    }
    assert(cell.requested_cand_highlight_type@ =~= derived_highlight(
        old(cell).selected_num,
        old(cell).selected_cand_list@,
    ));
}

/// Counts the nonzero candidate flags.
fn count_candidates(cands: &[u8; SELECTED_NUMBER_LIST_SIZE]) -> (n: usize)
    ensures
        n as nat == count_nonzero(cands@),
        n <= SELECTED_NUMBER_LIST_SIZE,
{
    let mut n: usize = 0;
    let mut i: usize = 0;
    while i < SELECTED_NUMBER_LIST_SIZE
        invariant
            i <= SELECTED_NUMBER_LIST_SIZE,
            n <= i,
            n as nat == count_nonzero(cands@.subrange(0, i as int)),
        decreases SELECTED_NUMBER_LIST_SIZE - i,
    {
        assert(cands@.subrange(0, i as int + 1).drop_last() =~= cands@.subrange(0, i as int));
        if cands[i] != 0 {
            n = n + 1;
        }
        i = i + 1;
    }
    assert(cands@.subrange(0, SELECTED_NUMBER_LIST_SIZE as int) =~= cands@);
    n
}

/// Setting a zero flag to a nonzero value adds one to the count.
pub proof fn lemma_count_nonzero_set(s: Seq<u8>, k: int, v: u8)
    requires
        0 <= k < s.len(),
        s[k] == 0,
        v != 0,
    ensures
        count_nonzero(s.update(k, v)) == count_nonzero(s) + 1,
    decreases s.len(),
{
    let t = s.update(k, v);
    if k == s.len() - 1 {
        assert(t.drop_last() =~= s.drop_last());
    } else {
        assert(t.drop_last() =~= s.drop_last().update(k, v));
        lemma_count_nonzero_set(s.drop_last(), k, v);
    }
}

/// A cell without a value and with exactly two candidates has exactly those
/// two highlight slots marked as a pair, and every other slot off.
pub proof fn lemma_two_candidates_form_pair(old: DartToRustElementFFI, new: DartToRustElementFFI)
    requires
        old.selected_num == 0,
        count_nonzero(old.selected_cand_list@) == 2,
        is_recomputed(new, old),
    ensures
        forall|k: int|
            0 <= k < REQUESTED_CAND_HIGHLIGHT_SIZE ==> #[trigger] new.requested_cand_highlight_type@[k]
                == if old.selected_cand_list@[k] != 0 {
                PatternList::PAIRS
            } else {
                PATTERN_LIST_OFF
            },
{
}

/// Turning on a third candidate of a cell without a value that had exactly
/// two, and recomputing, leaves every highlight slot off.
pub proof fn lemma_third_candidate_clears_pair(
    old: DartToRustElementFFI,
    changed: DartToRustElementFFI,
    new: DartToRustElementFFI,
    k: int,
    v: u8,
)
    requires
        old.selected_num == 0,
        count_nonzero(old.selected_cand_list@) == 2,
        0 <= k < SELECTED_NUMBER_LIST_SIZE,
        old.selected_cand_list@[k] == 0,
        v != 0,
        changed.selected_num == 0,
        changed.selected_cand_list@ == old.selected_cand_list@.update(k, v),
        is_recomputed(new, changed),
    ensures
        count_nonzero(changed.selected_cand_list@) == 3,
        forall|j: int|
            0 <= j < REQUESTED_CAND_HIGHLIGHT_SIZE ==> #[trigger] new.requested_cand_highlight_type@[j]
                == PATTERN_LIST_OFF,
{
    lemma_count_nonzero_set(old.selected_cand_list@, k, v);
}

/// A cell with a value gets no highlight, whatever its candidates.
pub proof fn lemma_valued_cell_has_no_highlight(old: DartToRustElementFFI, new: DartToRustElementFFI)
    requires
        old.selected_num != 0,
        is_recomputed(new, old),
    ensures
        forall|k: int|
            0 <= k < REQUESTED_CAND_HIGHLIGHT_SIZE ==> #[trigger] new.requested_cand_highlight_type@[k]
                == PATTERN_LIST_OFF,
{
}

} // verus!
