use zellinotes_recipes::pagination::Pagination;

#[test]
fn empty_request_is_fully_empty_only() {
    let p = Pagination { page: None, items: None, sorting: None };
    assert_eq!(p.is_fully_empty(), true);
    assert_eq!(p.is_fully_set(), false);
}

#[test]
fn complete_request_is_fully_set() {
    let p = Pagination { page: Some(1), items: Some(10), sorting: Some(1) };
    assert_eq!(p.is_fully_set(), true);
    assert_eq!(p.is_fully_empty(), false);

    let p = Pagination { page: Some(2), items: Some(5), sorting: Some(-1) };
    assert_eq!(p.is_fully_set(), true);
}

#[test]
fn partial_requests_satisfy_neither_predicate() {
    let partials = vec![
        Pagination { page: Some(1), items: None, sorting: None },
        Pagination { page: None, items: Some(10), sorting: None },
        Pagination { page: None, items: None, sorting: Some(1) },
        Pagination { page: Some(1), items: Some(10), sorting: None },
        Pagination { page: Some(1), items: None, sorting: Some(-1) },
        Pagination { page: None, items: Some(10), sorting: Some(1) },
    ];
    for p in partials {
        assert_eq!(p.is_fully_set(), false);
        assert_eq!(p.is_fully_empty(), false);
    }
}

#[test]
fn out_of_range_values_are_not_fully_set() {
    let p = Pagination { page: Some(0), items: Some(10), sorting: Some(1) };
    assert_eq!(p.is_fully_set(), false);

    let p = Pagination { page: Some(1), items: Some(0), sorting: Some(1) };
    assert_eq!(p.is_fully_set(), false);

    let p = Pagination { page: Some(1), items: Some(10), sorting: Some(2) };
    assert_eq!(p.is_fully_set(), false);

    let p = Pagination { page: Some(1), items: Some(10), sorting: Some(0) };
    assert_eq!(p.is_fully_set(), false);
}

#[test]
fn page_window_skips_earlier_pages() {
    let p = Pagination { page: Some(1), items: Some(20), sorting: Some(1) };
    assert_eq!(p.page_window(), (0, 20));

    let p = Pagination { page: Some(3), items: Some(20), sorting: Some(-1) };
    assert_eq!(p.page_window(), (40, 20));
}
