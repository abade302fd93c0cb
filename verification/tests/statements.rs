use app_configs::bind::{copy_ids, copy_opt_string, BindValue};
use app_configs::db::{
    bulk_update_statement, create_statement, delete_statement, get_statement, update_statement,
    was_deleted, BULK_UPDATE_SQL, DELETE_SQL, INSERT_SQL, SELECT_BY_ID_SQL, UPDATE_SQL,
};
use app_configs::models::{CreateAppConfig, UpdateAppConfig};

fn no_change() -> UpdateAppConfig {
    UpdateAppConfig {
        contract: None,
        url: None,
        uuid: None,
        name: None,
        billable: None,
        ignore_files: None,
    }
}

#[test]
fn an_insert_binds_the_six_columns_in_order() {
    let input = CreateAppConfig {
        contract: "C1".to_string(),
        url: "http://u".to_string(),
        uuid: "uuid-1".to_string(),
        name: "Alpha".to_string(),
        billable: None,
        ignore_files: true,
    };
    let statement = create_statement(&input);
    assert_eq!(statement.sql, INSERT_SQL);
    assert_eq!(
        statement.sql,
        "INSERT INTO app_configs (contract, url, uuid, name, billable, ignore_files) VALUES ($1, $2, $3, $4, $5, $6) RETURNING *"
    );
    assert_eq!(
        statement.params,
        vec![
            BindValue::Text("C1".to_string()),
            BindValue::Text("http://u".to_string()),
            BindValue::Text("uuid-1".to_string()),
            BindValue::Text("Alpha".to_string()),
            BindValue::NullableBool(None),
            BindValue::Bool(true),
        ]
    );
}

#[test]
fn an_insert_binds_a_known_billable() {
    let input = CreateAppConfig {
        contract: String::new(),
        url: String::new(),
        uuid: String::new(),
        name: String::new(),
        billable: Some(false),
        ignore_files: false,
    };
    let statement = create_statement(&input);
    assert_eq!(statement.params[4], BindValue::NullableBool(Some(false)));
    assert_eq!(statement.params[5], BindValue::Bool(false));
    assert_eq!(statement.params.len(), 6);
}

#[test]
fn a_read_by_identity_binds_the_identity() {
    let statement = get_statement(42);
    assert_eq!(statement.sql, SELECT_BY_ID_SQL);
    assert_eq!(statement.sql, "SELECT * FROM app_configs WHERE id = $1");
    assert_eq!(statement.params, vec![BindValue::Int(42)]);
}

#[test]
fn an_update_of_one_field_binds_null_for_the_others() {
    let mut input = no_change();
    input.name = Some("Beta".to_string());
    let statement = update_statement(7, &input);
    assert_eq!(statement.sql, UPDATE_SQL);
    assert_eq!(
        statement.params,
        vec![
            BindValue::NullableText(None),
            BindValue::NullableText(None),
            BindValue::NullableText(None),
            BindValue::NullableText(Some("Beta".to_string())),
            BindValue::NullableBool(None),
            BindValue::NullableBool(None),
            BindValue::Int(7),
        ]
    );
}

#[test]
fn an_update_of_every_field_binds_every_value() {
    let input = UpdateAppConfig {
        contract: Some("C2".to_string()),
        url: Some("http://v".to_string()),
        uuid: Some("uuid-2".to_string()),
        name: Some("Gamma".to_string()),
        billable: Some(true),
        ignore_files: Some(false),
    };
    let statement = update_statement(-3, &input);
    assert_eq!(
        statement.params,
        vec![
            BindValue::NullableText(Some("C2".to_string())),
            BindValue::NullableText(Some("http://v".to_string())),
            BindValue::NullableText(Some("uuid-2".to_string())),
            BindValue::NullableText(Some("Gamma".to_string())),
            BindValue::NullableBool(Some(true)),
            BindValue::NullableBool(Some(false)),
            BindValue::Int(-3),
        ]
    );
}

#[test]
fn the_update_statements_merge_and_refresh_the_timestamp() {
    for sql in [UPDATE_SQL, BULK_UPDATE_SQL] {
        for (k, column) in ["contract", "url", "uuid", "name", "billable", "ignore_files"].iter().enumerate() {
            assert!(sql.contains(&format!("{} = COALESCE(${}, {})", column, k + 1, column)));
        }
        assert!(sql.contains("updated_at = NOW()"));
        assert!(!sql.contains("created_at"));
        assert!(sql.ends_with("RETURNING *"));
    }
    assert!(UPDATE_SQL.contains("WHERE id = $7"));
    assert!(BULK_UPDATE_SQL.contains("WHERE id = ANY($7)"));
}

#[test]
fn a_delete_binds_the_identity() {
    let statement = delete_statement(9);
    assert_eq!(statement.sql, DELETE_SQL);
    assert_eq!(statement.sql, "DELETE FROM app_configs WHERE id = $1");
    assert_eq!(statement.params, vec![BindValue::Int(9)]);
}

#[test]
fn a_delete_removed_a_row_when_it_affected_one() {
    assert!(!was_deleted(0));
    assert!(was_deleted(1));
    assert!(was_deleted(2));
    assert!(was_deleted(u64::MAX));
}

#[test]
fn a_bulk_update_binds_the_identities_as_one_list() {
    let mut input = no_change();
    input.billable = Some(true);
    let ids = [3, 1, 999, 1];
    let statement = bulk_update_statement(&ids, &input);
    assert_eq!(statement.sql, BULK_UPDATE_SQL);
    assert_eq!(
        statement.params,
        vec![
            BindValue::NullableText(None),
            BindValue::NullableText(None),
            BindValue::NullableText(None),
            BindValue::NullableText(None),
            BindValue::NullableBool(Some(true)),
            BindValue::NullableBool(None),
            BindValue::IntList(vec![3, 1, 999, 1]),
        ]
    );
}

#[test]
fn a_bulk_update_of_no_identity_binds_an_empty_list() {
    let statement = bulk_update_statement(&[], &no_change());
    assert_eq!(statement.params.len(), 7);
    assert_eq!(statement.params[6], BindValue::IntList(Vec::new()));
}

#[test]
fn bound_values_copy_faithfully() {
    let values = vec![
        BindValue::Text("t".to_string()),
        BindValue::Bool(true),
        BindValue::Int(-5),
        BindValue::BigInt(1 << 40),
        BindValue::IntList(vec![1, 2, 3]),
        BindValue::NullableText(None),
        BindValue::NullableText(Some("x".to_string())),
        BindValue::NullableBool(None),
        BindValue::NullableBool(Some(false)),
    ];
    for v in &values {
        assert_eq!(&v.duplicate(), v);
    }
    assert_eq!(copy_ids(&[4, 5, 6]), vec![4, 5, 6]);
    assert_eq!(copy_ids(&[]), Vec::<i32>::new());
    assert_eq!(copy_opt_string(&None), None);
    assert_eq!(copy_opt_string(&Some("s".to_string())), Some("s".to_string()));
}
