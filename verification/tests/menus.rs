use sat_tracker::menu::{paginated_selection, step_page_back, step_page_forward, MenuChoice};

#[test]
fn middle_page_offers_every_entry() {
    // Ten satellites on page 2 of 5: back, forward and leave entries all
    // follow the satellites.
    assert_eq!(paginated_selection(0, 10, 2, 5), MenuChoice::Select(0));
    assert_eq!(paginated_selection(9, 10, 2, 5), MenuChoice::Select(9));
    assert_eq!(paginated_selection(10, 10, 2, 5), MenuChoice::Previous);
    assert_eq!(paginated_selection(11, 10, 2, 5), MenuChoice::LoadMore);
    assert_eq!(paginated_selection(12, 10, 2, 5), MenuChoice::Cancel);
}

#[test]
fn first_page_has_no_way_back() {
    assert_eq!(paginated_selection(10, 10, 1, 5), MenuChoice::LoadMore);
    assert_eq!(paginated_selection(11, 10, 1, 5), MenuChoice::Cancel);
}

#[test]
fn last_page_has_no_way_forward() {
    assert_eq!(paginated_selection(10, 10, 5, 5), MenuChoice::Previous);
    assert_eq!(paginated_selection(11, 10, 5, 5), MenuChoice::Cancel);
}

#[test]
fn single_page_only_leaves() {
    assert_eq!(paginated_selection(3, 10, 1, 1), MenuChoice::Select(3));
    assert_eq!(paginated_selection(10, 10, 1, 1), MenuChoice::Cancel);
}

#[test]
fn page_steps_stay_in_range() {
    assert_eq!(step_page_back(3), 2);
    assert_eq!(step_page_back(1), 1);
    assert_eq!(step_page_forward(3, 5), 4);
    assert_eq!(step_page_forward(5, 5), 5);
}
