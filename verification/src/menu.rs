use vstd::prelude::*;

verus! {

/// What a selection on a paginated satellite list means.
#[derive(Clone, Copy, Debug, PartialEq, Eq, Structural)]
pub enum MenuChoice {
    /// Go back one page.
    Previous,
    /// Advance one page.
    LoadMore,
    /// Leave the screen.
    Cancel,
    /// Show the satellite at this index of the current page.
    Select(usize),
}

/// Whether the list offers a way back: only past the first page.
pub open spec fn has_previous(current_page: int) -> bool {
    current_page > 1
}

/// Whether the list offers more pages ahead.
pub open spec fn has_load_more(current_page: int, total_pages: int) -> bool {
    current_page < total_pages
}

/// Interprets a selection index on a paginated list screen. The screen lays
/// its entries out as: the page's satellites first, then a back entry when
/// past the first page, then a forward entry when pages remain ahead, and
/// the leave entry last. The index must address one of those entries.
pub fn paginated_selection(
    index: usize,
    satellite_count: usize,
    current_page: i32,
    total_pages: i32,
) -> (r: MenuChoice)
    requires
        satellite_count <= usize::MAX - 2,
        index <= satellite_count + (if has_previous(current_page as int) {
            1int
        } else {
            0int
        }) + (if has_load_more(current_page as int, total_pages as int) {
            1int
        } else {
            0int
        }),
    ensures
        ({
            let n = satellite_count as int;
            let p: int = if has_previous(current_page as int) {
                1
            } else {
                0
            };
            let m: int = if has_load_more(current_page as int, total_pages as int) {
                1
            } else {
                0
            };
            &&& index < n ==> r == MenuChoice::Select(index)
            &&& p == 1 && index == n ==> r == MenuChoice::Previous
            &&& m == 1 && index == n + p ==> r == MenuChoice::LoadMore
            &&& index == n + p + m ==> r == MenuChoice::Cancel
        }),
{
    if index < satellite_count {
        return MenuChoice::Select(index);
    }
    let mut nav: usize = satellite_count;
    if current_page > 1 {
        if index == nav {
            return MenuChoice::Previous;
        }
        nav = nav + 1;
    }
    if current_page < total_pages {
        if index == nav {
            return MenuChoice::LoadMore;
        }
    }
    MenuChoice::Cancel
}

/// One step back through the pages, never before the first.
pub fn step_page_back(current_page: i32) -> (r: i32)
    ensures
        current_page > 1 ==> r == current_page - 1,
        current_page <= 1 ==> r == current_page,
{
    if current_page > 1 {
        current_page - 1
    } else {
        current_page
    }
}

/// One step forward through the pages, never past the last.
pub fn step_page_forward(current_page: i32, total_pages: i32) -> (r: i32)
    ensures
        current_page < total_pages ==> r == current_page + 1,
        current_page >= total_pages ==> r == current_page,
{
    if current_page < total_pages {
        current_page + 1
    } else {
        current_page
    }
}

} // verus!
