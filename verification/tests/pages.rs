use dearrow_browser::pages::{clamp_page, detail_page, entry_count_text, next_page, page_count, page_from_input, page_number_text, parse_usize, prev_page, DetailIndex};

#[test]
fn pages_cut_the_list() {
    let items: Vec<u32> = (0..25).collect();
    assert_eq!(detail_page(&items, DetailIndex::Page { size: 10, index: 0 }), &items[0..10]);
    assert_eq!(detail_page(&items, DetailIndex::Page { size: 10, index: 1 }), &items[10..20]);
    assert_eq!(detail_page(&items, DetailIndex::Page { size: 10, index: 2 }), &items[20..25]);
    assert!(detail_page(&items, DetailIndex::Page { size: 10, index: 3 }).is_empty());
    assert_eq!(detail_page(&items, DetailIndex::All), &items[..]);
}

#[test]
fn pages_partition_the_list() {
    let items: Vec<u32> = (0..23).collect();
    let n = page_count(items.len(), 5);
    assert_eq!(n, 5);
    let mut joined = Vec::new();
    for i in 0..n {
        joined.extend_from_slice(detail_page(&items, DetailIndex::Page { size: 5, index: i }));
    }
    assert_eq!(joined, items);
}

#[test]
fn page_count_rounds_up() {
    assert_eq!(page_count(0, 50), 0);
    assert_eq!(page_count(50, 50), 1);
    assert_eq!(page_count(51, 50), 2);
    assert_eq!(page_count(usize::MAX, 2), usize::MAX / 2 + 1);
}

#[test]
fn page_selector_moves() {
    assert_eq!(prev_page(0), 0);
    assert_eq!(prev_page(3), 2);
    assert_eq!(next_page(3, 5), 4);
    assert_eq!(next_page(4, 5), 4);
    assert_eq!(next_page(9, 5), 4);
    assert_eq!(clamp_page(7, 3), 2);
    assert_eq!(clamp_page(1, 3), 1);
}

#[test]
fn parse_usize_matches_from_str() {
    for s in ["0", "12", "+7", "007", "", "+", "-1", "1a", " 1", "18446744073709551615", "18446744073709551616", "99999999999999999999999"] {
        assert_eq!(parse_usize(s), s.parse::<usize>().ok(), "input {s:?}");
    }
}

#[test]
fn typed_page_numbers_are_clamped() {
    assert_eq!(page_from_input("3", 5), Some(2));
    assert_eq!(page_from_input("0", 5), Some(0));
    assert_eq!(page_from_input("99", 5), Some(4));
    assert_eq!(page_from_input("x", 5), None);
}

#[test]
fn page_texts() {
    assert_eq!(page_number_text(0), "1");
    assert_eq!(entry_count_text(1), "1 entry");
    assert_eq!(entry_count_text(0), "0 entries");
    assert_eq!(entry_count_text(1234), "1234 entries");
}
