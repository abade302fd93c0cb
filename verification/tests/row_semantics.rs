use app_configs::models::{AppConfig, BillableFilter, UpdateAppConfig};

fn stored() -> AppConfig {
    AppConfig {
        id: 5,
        contract: "C1".to_string(),
        url: "http://u".to_string(),
        uuid: "uuid-1".to_string(),
        name: "Alpha".to_string(),
        billable: None,
        ignore_files: false,
        created_at: 100,
        updated_at: 200,
    }
}

fn no_change() -> UpdateAppConfig {
    UpdateAppConfig {
        contract: None,
        url: None,
        uuid: None,
        name: None,
        billable: None,
        ignore_files: None,
    }
}

#[test]
fn billable_all_selects_every_row() {
    for value in [None, Some(true), Some(false)] {
        assert!(BillableFilter::All.selects(value));
    }
}

#[test]
fn billable_review_selects_only_unknown() {
    assert!(BillableFilter::Review.selects(None));
    assert!(!BillableFilter::Review.selects(Some(true)));
    assert!(!BillableFilter::Review.selects(Some(false)));
}

#[test]
fn billable_true_and_false_select_only_that_boolean() {
    assert!(BillableFilter::True.selects(Some(true)));
    assert!(!BillableFilter::True.selects(Some(false)));
    assert!(!BillableFilter::True.selects(None));
    assert!(BillableFilter::False.selects(Some(false)));
    assert!(!BillableFilter::False.selects(Some(true)));
    assert!(!BillableFilter::False.selects(None));
}

#[test]
fn updating_one_field_leaves_the_others() {
    let mut update = no_change();
    update.name = Some("Beta".to_string());
    let updated = update.apply_to(&stored(), 300);
    let mut expected = stored();
    expected.name = "Beta".to_string();
    expected.updated_at = 300;
    assert_eq!(updated, expected);
}

#[test]
fn an_empty_update_only_refreshes_the_timestamp() {
    let updated = no_change().apply_to(&stored(), 201);
    let mut expected = stored();
    expected.updated_at = 201;
    assert_eq!(updated, expected);
    assert_eq!(updated.created_at, 100);
    assert_eq!(updated.id, 5);
}

#[test]
fn updating_every_field_replaces_every_column() {
    let update = UpdateAppConfig {
        contract: Some("C2".to_string()),
        url: Some("http://v".to_string()),
        uuid: Some("uuid-2".to_string()),
        name: Some("Gamma".to_string()),
        billable: Some(false),
        ignore_files: Some(true),
    };
    let updated = update.apply_to(&stored(), 999);
    assert_eq!(
        updated,
        AppConfig {
            id: 5,
            contract: "C2".to_string(),
            url: "http://v".to_string(),
            uuid: "uuid-2".to_string(),
            name: "Gamma".to_string(),
            billable: Some(false),
            ignore_files: Some(true).unwrap(),
            created_at: 100,
            updated_at: 999,
        }
    );
}

#[test]
fn an_update_cannot_make_billable_unknown() {
    let mut row = stored();
    row.billable = Some(true);
    let updated = no_change().apply_to(&row, 300);
    assert_eq!(updated.billable, Some(true));
}
