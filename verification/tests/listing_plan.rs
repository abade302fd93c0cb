use app_configs::bind::BindValue;
use app_configs::db::{
    order_clause, plan_listing, resolve_sort_column, QueryFault, SortColumn,
};
use app_configs::models::{AppConfigQuery, BillableFilter, MatchType, SortOrder};

#[test]
fn an_unfiltered_listing_has_no_where_clause() {
    let q = AppConfigQuery::default();
    let plan = plan_listing(&q).unwrap();
    assert_eq!(plan.count_sql, "SELECT COUNT(*) as count FROM app_configs ");
    assert!(plan.count_params.is_empty());
    assert_eq!(plan.data_sql, "SELECT * FROM app_configs  ORDER BY id ASC LIMIT $1 OFFSET $2");
    assert_eq!(plan.data_params, vec![BindValue::BigInt(20), BindValue::BigInt(0)]);
}

#[test]
fn limit_and_offset_follow_the_filter_parameters() {
    let mut q = AppConfigQuery::default();
    q.contract = Some("C1".to_string());
    q.app_name = Some("foo".to_string());
    q.app_name_match = MatchType::Fuzzy;
    q.billable = Some(BillableFilter::False);
    q.page = 3;
    q.per_page = 25;
    q.sort_by = Some("name".to_string());
    q.sort_order = SortOrder::Desc;
    let plan = plan_listing(&q).unwrap();
    assert_eq!(
        plan.count_sql,
        "SELECT COUNT(*) as count FROM app_configs WHERE contract = $1 AND name ILIKE $2 AND billable = false"
    );
    assert_eq!(
        plan.data_sql,
        "SELECT * FROM app_configs WHERE contract = $1 AND name ILIKE $2 AND billable = false ORDER BY name DESC LIMIT $3 OFFSET $4"
    );
    assert_eq!(
        plan.count_params,
        vec![BindValue::Text("C1".to_string()), BindValue::Text("foo".to_string())]
    );
    assert_eq!(
        plan.data_params,
        vec![
            BindValue::Text("C1".to_string()),
            BindValue::Text("foo".to_string()),
            BindValue::BigInt(25),
            BindValue::BigInt(50),
        ]
    );
}

#[test]
fn count_parameters_are_the_data_parameters_less_limit_and_offset() {
    let values = [None, Some("v".to_string())];
    let flags = [None, Some(true)];
    let billables = [None, Some(BillableFilter::All), Some(BillableFilter::Review), Some(BillableFilter::True)];
    for contract in &values {
        for url in &values {
            for uuid in &values {
                for name in &values {
                    for ignore in &flags {
                        for billable in &billables {
                            let mut q = AppConfigQuery::default();
                            q.contract = contract.clone();
                            q.url = url.clone();
                            q.uuid = uuid.clone();
                            q.app_name = name.clone();
                            q.ignore_files = *ignore;
                            q.billable = *billable;
                            q.page = 2;
                            q.per_page = 7;
                            let plan = plan_listing(&q).unwrap();
                            assert_eq!(plan.count_params.len() + 2, plan.data_params.len());
                            assert_eq!(plan.count_params[..], plan.data_params[..plan.count_params.len()]);
                            assert_eq!(
                                plan.data_params[plan.count_params.len()..],
                                [BindValue::BigInt(7), BindValue::BigInt(7)]
                            );
                            let n = plan.count_params.len();
                            assert!(plan.data_sql.ends_with(&format!(" LIMIT ${} OFFSET ${}", n + 1, n + 2)));
                            let where_of_count = plan.count_sql.strip_prefix("SELECT COUNT(*) as count FROM app_configs ").unwrap();
                            let rest = plan.data_sql.strip_prefix("SELECT * FROM app_configs ").unwrap();
                            assert!(rest.starts_with(where_of_count));
                            for k in 1..=n {
                                assert_eq!(plan.count_sql.matches(&format!("${}", k)).count(), 1);
                            }
                        }
                    }
                }
            }
        }
    }
}

#[test]
fn offset_is_pages_before_times_page_size() {
    let mut q = AppConfigQuery::default();
    for (page, per_page, offset) in [(1u32, 20u32, 0i64), (2, 20, 20), (99, 20, 1960), (5, 1, 4), (4_294_967_295, 1, 4_294_967_294), (2, 4_294_967_295, 4_294_967_295)] {
        q.page = page;
        q.per_page = per_page;
        let plan = plan_listing(&q).unwrap();
        assert_eq!(plan.data_params, vec![BindValue::BigInt(per_page as i64), BindValue::BigInt(offset)]);
    }
}

#[test]
fn page_zero_is_refused() {
    let mut q = AppConfigQuery::default();
    q.page = 0;
    assert_eq!(plan_listing(&q), Err(QueryFault::PageZero));
}

#[test]
fn page_size_zero_is_refused() {
    let mut q = AppConfigQuery::default();
    q.per_page = 0;
    assert_eq!(plan_listing(&q), Err(QueryFault::PerPageZero));
}

#[test]
fn an_unknown_sort_column_is_refused() {
    let mut q = AppConfigQuery::default();
    for bad in ["", "ID", "id ", "id; DROP TABLE app_configs", "name DESC", "password", "created"] {
        q.sort_by = Some(bad.to_string());
        assert_eq!(plan_listing(&q), Err(QueryFault::UnknownSortColumn));
    }
}

#[test]
fn an_offset_beyond_the_64_bit_range_is_refused() {
    let mut q = AppConfigQuery::default();
    q.page = u32::MAX;
    q.per_page = u32::MAX;
    assert_eq!(plan_listing(&q), Err(QueryFault::OffsetTooLarge));
    q.page = 2_147_483_650;
    q.per_page = 4_294_967_295;
    assert_eq!(plan_listing(&q), Err(QueryFault::OffsetTooLarge));
}

#[test]
fn the_largest_offset_that_fits_is_planned() {
    let mut q = AppConfigQuery::default();
    q.page = 2_147_483_649;
    q.per_page = 4_294_967_295;
    let plan = plan_listing(&q).unwrap();
    assert_eq!(
        plan.data_params,
        vec![BindValue::BigInt(4_294_967_295), BindValue::BigInt(9_223_372_034_707_292_160)]
    );
}

#[test]
fn faults_are_reported_in_a_fixed_order() {
    let mut q = AppConfigQuery::default();
    q.page = 0;
    q.per_page = 0;
    q.sort_by = Some("nope".to_string());
    assert_eq!(plan_listing(&q), Err(QueryFault::PageZero));
    q.page = 1;
    assert_eq!(plan_listing(&q), Err(QueryFault::PerPageZero));
    q.per_page = u32::MAX;
    q.page = u32::MAX;
    assert_eq!(plan_listing(&q), Err(QueryFault::UnknownSortColumn));
}

#[test]
fn every_column_of_the_table_can_be_sorted_by() {
    let columns = [
        ("id", SortColumn::Id),
        ("contract", SortColumn::Contract),
        ("url", SortColumn::Url),
        ("uuid", SortColumn::Uuid),
        ("name", SortColumn::Name),
        ("billable", SortColumn::Billable),
        ("ignore_files", SortColumn::IgnoreFiles),
        ("created_at", SortColumn::CreatedAt),
        ("updated_at", SortColumn::UpdatedAt),
    ];
    for (name, column) in columns {
        assert_eq!(resolve_sort_column(&Some(name.to_string())), Some(column));
        assert_eq!(column.name(), name);
        let mut q = AppConfigQuery::default();
        q.sort_by = Some(name.to_string());
        let plan = plan_listing(&q).unwrap();
        assert_eq!(
            plan.data_sql,
            format!("SELECT * FROM app_configs  ORDER BY {} ASC LIMIT $1 OFFSET $2", name)
        );
    }
}

#[test]
fn sorting_defaults_to_id() {
    assert_eq!(resolve_sort_column(&None), Some(SortColumn::Id));
    assert_eq!(resolve_sort_column(&Some("app_name".to_string())), None);
}

#[test]
fn order_clause_names_column_and_direction() {
    assert_eq!(order_clause(SortColumn::Id, SortOrder::Asc), "ORDER BY id ASC");
    assert_eq!(order_clause(SortColumn::UpdatedAt, SortOrder::Desc), "ORDER BY updated_at DESC");
    assert_eq!(order_clause(SortColumn::IgnoreFiles, SortOrder::Asc), "ORDER BY ignore_files ASC");
}

#[test]
fn sort_direction_defaults_to_ascending_and_match_mode_to_exact() {
    assert_eq!(SortOrder::default(), SortOrder::Asc);
    assert_eq!(MatchType::default(), MatchType::Exact);
    let q = AppConfigQuery::default();
    assert_eq!(q.sort_order, SortOrder::Asc);
    assert_eq!(q.sort_by, None);
    assert_eq!(q.url_match, MatchType::Exact);
    assert_eq!(q.uuid_match, MatchType::Exact);
    assert_eq!(q.app_name_match, MatchType::Exact);
    assert_eq!(q.billable, None);
}
