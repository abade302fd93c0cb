use app_configs::models::{BillableFilter, MatchType, SortOrder};
use app_configs::text::same_text;

#[test]
fn match_modes_are_read_from_their_lower_case_words() {
    assert_eq!(MatchType::from_param("exact"), Some(MatchType::Exact));
    assert_eq!(MatchType::from_param("fuzzy"), Some(MatchType::Fuzzy));
    for bad in ["", "Exact", "FUZZY", "fuzzy ", "like", "exactly"] {
        assert_eq!(MatchType::from_param(bad), None);
    }
}

#[test]
fn billable_filters_are_read_from_their_lower_case_words() {
    assert_eq!(BillableFilter::from_param("all"), Some(BillableFilter::All));
    assert_eq!(BillableFilter::from_param("review"), Some(BillableFilter::Review));
    assert_eq!(BillableFilter::from_param("true"), Some(BillableFilter::True));
    assert_eq!(BillableFilter::from_param("false"), Some(BillableFilter::False));
    for bad in ["", "All", "null", "1", "0", "yes", "TRUE", " review"] {
        assert_eq!(BillableFilter::from_param(bad), None);
    }
}

#[test]
fn sort_orders_are_read_from_their_lower_case_words() {
    assert_eq!(SortOrder::from_param("asc"), Some(SortOrder::Asc));
    assert_eq!(SortOrder::from_param("desc"), Some(SortOrder::Desc));
    for bad in ["", "ASC", "Desc", "ascending", "descending", "asc;"] {
        assert_eq!(SortOrder::from_param(bad), None);
    }
}

#[test]
fn same_text_compares_whole_strings() {
    assert!(same_text("", ""));
    assert!(same_text("id", "id"));
    assert!(!same_text("id", "ID"));
    assert!(!same_text("id", "id "));
    assert!(!same_text("id", "i"));
    assert!(same_text("caf\u{e9}", "caf\u{e9}"));
}
