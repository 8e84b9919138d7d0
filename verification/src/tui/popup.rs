//! What the picker popup shows, apart from drawing it: the filter line and
//! the window of result rows under the scroll offset.

use vstd::prelude::*;

use crate::tui::highlight::{fuzzy_bytes_to_ranges, merged_runs};

verus! {

/// Filter prompt displayed before the user's input text.
pub const PROMPT: &'static str = "> ";

/// The filter input line: the prompt, then what the user typed.
pub fn filter_line(filter: &str) -> (s: String)
    ensures
        s@ == "> "@ + filter@,
{
    proof {
        reveal_strlit("> ");
    }
    let mut s = PROMPT.to_owned();
    s.append(filter);
    s
}

/// One visible result row.
#[derive(Debug, Clone, PartialEq, Eq)]
pub struct ResultRow {
    /// Index of the item among the filtered items.
    pub item: usize,
    /// Whether the row is the selection.
    pub selected: bool,
    /// The byte ranges of the item's label to highlight.
    pub highlights: Vec<core::ops::Range<usize>>,
}

/// Whether every matched index can be extended by one byte.
pub open spec fn indices_bounded(matches: Seq<Vec<usize>>) -> bool {
    forall|i: int, j: int|
        0 <= i < matches.len() && 0 <= j < matches[i]@.len() ==> #[trigger] matches[i]@[j]
            < usize::MAX
}

/// Whether `row` shows filtered item `item` as the popup should: selected
/// exactly when it is the selection, with the item's matches merged into
/// ranges.
pub open spec fn shows_item(row: ResultRow, item: int, selection: usize, matches: Seq<usize>) -> bool {
    &&& row.item == item
    &&& row.selected == (item == selection)
    &&& row.highlights@.len() == merged_runs(matches).len()
    &&& forall|k: int|
        0 <= k < row.highlights@.len() ==> (#[trigger] row.highlights@[k]).start == merged_runs(
            matches,
        )[k].0 && row.highlights@[k].end == merged_runs(matches)[k].1
}

/// The result rows of a popup `max_visible` rows high, scrolled by
/// `scroll_offset`: row `r` shows filtered item `scroll_offset + r` when
/// there is one, and is blank past the end of the list, so the popup keeps
/// its height. `matches` holds each filtered item's matched byte indices.
pub fn window_rows(
    matches: &Vec<Vec<usize>>,
    scroll_offset: usize,
    selection: usize,
    max_visible: usize,
) -> (rows: Vec<Option<ResultRow>>)
    requires
        indices_bounded(matches@),
    ensures
        rows@.len() == max_visible,
        forall|r: int|
            0 <= r < max_visible ==> match #[trigger] rows@[r] {
                Some(row) => scroll_offset + r < matches@.len() && shows_item(
                    row,
                    scroll_offset + r,
                    selection,
                    matches@[scroll_offset + r]@,
                ),
                None => scroll_offset + r >= matches@.len(),
            },
{
    let mut rows: Vec<Option<ResultRow>> = Vec::new();
    let mut r: usize = 0;
    while r < max_visible
        invariant
            r <= max_visible,
            rows@.len() == r,
            indices_bounded(matches@),
            forall|q: int|
                0 <= q < r ==> match #[trigger] rows@[q] {
                    Some(row) => scroll_offset + q < matches@.len() && shows_item(
                        row,
                        scroll_offset + q,
                        selection,
                        matches@[scroll_offset + q]@,
                    ),
                    None => scroll_offset + q >= matches@.len(),
                },
        decreases max_visible - r,
    {
        if scroll_offset < matches.len() && r < matches.len() - scroll_offset {
            let item = scroll_offset + r;
            let item_matches = &matches[item];
            proof {
                assert forall|j: int| 0 <= j < item_matches@.len() implies item_matches@[j]
                    < usize::MAX by {
                    assert(matches@[item as int]@[j] < usize::MAX);
                }
            }
            let highlights = fuzzy_bytes_to_ranges(item_matches.as_slice());
            rows.push(Some(ResultRow { item, selected: item == selection, highlights }));
        } else {
            rows.push(None);
        }
        r = r + 1;
    }
    rows
}

} // verus!
