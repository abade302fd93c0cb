use app_configs::db::{list_response, total_pages};
use app_configs::models::{default_page, default_per_page, AppConfigQuery};

#[test]
fn forty_five_rows_at_twenty_a_page_fill_three_pages() {
    assert_eq!(total_pages(45, 20), 3);
}

#[test]
fn no_rows_fill_no_page() {
    assert_eq!(total_pages(0, 20), 0);
}

#[test]
fn exact_multiples_do_not_round_up() {
    assert_eq!(total_pages(40, 20), 2);
    assert_eq!(total_pages(41, 20), 3);
    assert_eq!(total_pages(1, 20), 1);
    assert_eq!(total_pages(20, 1), 20);
}

#[test]
fn page_count_is_capped_at_the_32_bit_range() {
    assert_eq!(total_pages(i64::MAX, 1), u32::MAX);
    assert_eq!(total_pages(4_294_967_295, 1), u32::MAX);
    assert_eq!(total_pages(4_294_967_294, 1), 4_294_967_294);
}

#[test]
fn a_negative_count_fills_no_page() {
    assert_eq!(total_pages(-3, 20), 0);
}

#[test]
fn defaults_are_first_page_of_twenty() {
    assert_eq!(default_page(), 1);
    assert_eq!(default_per_page(), 20);
    let q = AppConfigQuery::default();
    assert_eq!(q.page, 1);
    assert_eq!(q.per_page, 20);
}

#[test]
fn a_page_beyond_the_last_is_an_empty_page_and_no_error() {
    let mut q = AppConfigQuery::default();
    q.page = 99;
    let response = list_response(&q, 5, Vec::new());
    assert!(response.data.is_empty());
    assert_eq!(response.total, 5);
    assert_eq!(response.page, 99);
    assert_eq!(response.per_page, 20);
    assert_eq!(response.total_pages, 1);
}
