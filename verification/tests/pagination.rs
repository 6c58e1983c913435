use good_first_bot::pagination::Paginated;

#[test]
fn test_new_empty_items() {
    let items: Vec<i32> = vec![];
    let paginated = Paginated::new(items, 1);
    assert_eq!(paginated.page, 1);
    assert_eq!(paginated.total_items, 0);
    assert_eq!(paginated.total_pages, 1, "Empty list should have 1 total page");
    assert_eq!(paginated.get_page_items(), &[] as &[i32]);
    assert!(!paginated.has_prev());
    assert!(!paginated.has_next());
}

#[test]
fn test_new_single_full_page() {
    let items = vec![1, 2, 3, 4, 5];
    let paginated = Paginated::new(items.clone(), 1);
    assert_eq!(paginated.page, 1);
    assert_eq!(paginated.total_items, 5);
    assert_eq!(paginated.total_pages, 1);
    assert_eq!(paginated.get_page_items(), &[1, 2, 3, 4, 5]);
    assert!(!paginated.has_prev());
    assert!(!paginated.has_next());
}

#[test]
fn test_new_multiple_pages_exact_fit() {
    let items = (1..=20).collect::<Vec<i32>>(); // 20 items
    let paginated = Paginated::new(items.clone(), 1);
    assert_eq!(paginated.total_items, 20);
    assert_eq!(paginated.total_pages, 2);
    assert_eq!(paginated.page, 1);

    let paginated_p2 = Paginated::new(items.clone(), 2);
    assert_eq!(paginated_p2.page, 2);
}

#[test]
fn test_new_multiple_pages_with_leftover() {
    let items = (1..=22).collect::<Vec<i32>>(); // 22 items
    let paginated = Paginated::new(items.clone(), 1);
    assert_eq!(paginated.total_items, 22);
    assert_eq!(paginated.total_pages, 3);
}

#[test]
fn test_new_page_clamping() {
    let items = (1..=22).collect::<Vec<i32>>(); // 3 pages
    let paginated_low = Paginated::new(items.clone(), 0); // page 0
    assert_eq!(paginated_low.page, 1, "Page should be clamped to 1 if < 1");

    let paginated_high = Paginated::new(items.clone(), 5); // page 5 (out of 3)
    assert_eq!(paginated_high.page, 3, "Page should be clamped to total_pages");

    let paginated_exact_high = Paginated::new(items.clone(), 3);
    assert_eq!(paginated_exact_high.page, 3);
}

#[test]
fn test_has_prev_next_logic() {
    let items = (1..=22).collect::<Vec<i32>>(); // 3 pages

    // Page 1
    let p1 = Paginated::new(items.clone(), 1);
    assert!(!p1.has_prev());
    assert!(p1.has_next());

    // Page 2 (middle)
    let p2 = Paginated::new(items.clone(), 2);
    assert!(p2.has_prev());
    assert!(p2.has_next());

    // Page 3 (last)
    let p3 = Paginated::new(items.clone(), 3);
    assert!(p3.has_prev());
    assert!(!p3.has_next());
}

#[test]
fn test_last_page_holds_the_leftover_items() {
    let items = (1..=22).collect::<Vec<i32>>();
    let p2 = Paginated::new(items.clone(), 2);
    assert_eq!(p2.get_page_items(), &[11, 12, 13, 14, 15, 16, 17, 18, 19, 20]);
    let p3 = Paginated::new(items, 3);
    assert_eq!(p3.get_page_items(), &[21, 22]);
}

#[test]
fn test_page_beyond_items_is_empty() {
    let paginated = Paginated { items: vec![1, 2, 3], page: 4, page_size: 1, total_items: 3, total_pages: 3 };
    assert_eq!(paginated.get_page_items(), &[] as &[i32]);
}

#[test]
fn test_pages_make_up_the_list() {
    let items: Vec<u32> = (0..23).collect();
    let total = Paginated::new(items.clone(), 1).total_pages;
    assert_eq!(total, 3);
    let mut all = Vec::new();
    for k in 1..=total {
        let p = Paginated::new(items.clone(), k);
        let page = p.get_page_items();
        assert!(!page.is_empty() && page.len() <= 10);
        if k < total {
            assert_eq!(page.len(), 10);
        }
        all.extend_from_slice(page);
    }
    assert_eq!(all, items);
}
