//! Statement planning: the SQL text and bound values of every statement that
//! the API sends to the store, and the pagination arithmetic of a listing.
//!
//! Nothing here talks to the store. A caller runs the planned statements,
//! binding `params` in order, and hands the rows and counts back.

use vstd::prelude::*;
use vstd::string::*;
use crate::bind::{copy_ids, copy_opt_string, BindValue, BindValueView};
use crate::models::{
    AppConfig, AppConfigListResponse, AppConfigQuery, AppConfigQueryView, CreateAppConfig,
    CreateAppConfigView, SortOrder, UpdateAppConfig, UpdateAppConfigView,
};
use crate::predicate::{
    bound_count, bound_values, compile_filters, compiled_filters, fragments, fragments_of,
    lemma_bound_values_count, placeholder, values_of, where_clause, where_text,
};
use crate::text::{push_decimal, same_text};

verus! {

/// A column that a listing may be sorted by. Only these names ever reach an
/// `ORDER BY` clause.
#[derive(Debug, Clone, Copy, PartialEq, Eq, Structural)]
pub enum SortColumn {
    Id,
    Contract,
    Url,
    Uuid,
    Name,
    Billable,
    IgnoreFiles,
    CreatedAt,
    UpdatedAt,
}

impl SortColumn {
    /// The column's name in the table.
    pub open spec fn name_text(self) -> Seq<char> {
        match self {
            SortColumn::Id => "id"@,
            SortColumn::Contract => "contract"@,
            SortColumn::Url => "url"@,
            SortColumn::Uuid => "uuid"@,
            SortColumn::Name => "name"@,
            SortColumn::Billable => "billable"@,
            SortColumn::IgnoreFiles => "ignore_files"@,
            SortColumn::CreatedAt => "created_at"@,
            SortColumn::UpdatedAt => "updated_at"@,
        }
    }

    /// The column's name in the table.
    pub fn name(self) -> (s: &'static str)
        ensures
            s@ == self.name_text(),
    {
        match self {
            SortColumn::Id => "id",
            SortColumn::Contract => "contract",
            SortColumn::Url => "url",
            SortColumn::Uuid => "uuid",
            SortColumn::Name => "name",
            SortColumn::Billable => "billable",
            SortColumn::IgnoreFiles => "ignore_files",
            SortColumn::CreatedAt => "created_at",
            SortColumn::UpdatedAt => "updated_at",
        }
    }
}

/// The column that a request sorts by: `id` when it names none, the named
/// column when it is one of the table's, and none otherwise.
pub open spec fn sort_column_of(sort_by: Option<Seq<char>>) -> Option<SortColumn> {
    match sort_by {
        None => Some(SortColumn::Id),
        Some(s) => if s == "id"@ {
            Some(SortColumn::Id)
        } else if s == "contract"@ {
            Some(SortColumn::Contract)
        } else if s == "url"@ {
            Some(SortColumn::Url)
        } else if s == "uuid"@ {
            Some(SortColumn::Uuid)
        } else if s == "name"@ {
            Some(SortColumn::Name)
        } else if s == "billable"@ {
            Some(SortColumn::Billable)
        } else if s == "ignore_files"@ {
            Some(SortColumn::IgnoreFiles)
        } else if s == "created_at"@ {
            Some(SortColumn::CreatedAt)
        } else if s == "updated_at"@ {
            Some(SortColumn::UpdatedAt)
        } else {
            None
        },
    }
}

/// Checks the requested sort column against the table's columns.
pub fn resolve_sort_column(sort_by: &Option<String>) -> (column: Option<SortColumn>)
    ensures
        column == sort_column_of(crate::models::opt_text(*sort_by)),
{
    match sort_by {
        None => Some(SortColumn::Id),
        Some(s) => {
            if same_text(s.as_str(), "id") {
                Some(SortColumn::Id)
            } else if same_text(s.as_str(), "contract") {
                Some(SortColumn::Contract)
            } else if same_text(s.as_str(), "url") {
                Some(SortColumn::Url)
            } else if same_text(s.as_str(), "uuid") {
                Some(SortColumn::Uuid)
            } else if same_text(s.as_str(), "name") {
                Some(SortColumn::Name)
            } else if same_text(s.as_str(), "billable") {
                Some(SortColumn::Billable)
            } else if same_text(s.as_str(), "ignore_files") {
                Some(SortColumn::IgnoreFiles)
            } else if same_text(s.as_str(), "created_at") {
                Some(SortColumn::CreatedAt)
            } else if same_text(s.as_str(), "updated_at") {
                Some(SortColumn::UpdatedAt)
            } else {
                None
            }
        },
    }
}

/// The keyword of a sort direction.
pub open spec fn direction_text(order: SortOrder) -> Seq<char> {
    match order {
        SortOrder::Asc => "ASC"@,
        SortOrder::Desc => "DESC"@,
    }
}

/// The `ORDER BY` clause for a column and a direction.
pub open spec fn order_text(column: SortColumn, order: SortOrder) -> Seq<char> {
    "ORDER BY "@ + column.name_text() + " "@ + direction_text(order)
}

/// The `ORDER BY` clause for a column and a direction.
pub fn order_clause(column: SortColumn, order: SortOrder) -> (out: String)
    ensures
        out@ == order_text(column, order),
{
    let mut out = String::from_str("ORDER BY ");
    out.append(column.name());
    out.append(" ");
    match order {
        SortOrder::Asc => out.append("ASC"),
        SortOrder::Desc => out.append("DESC"),
    }
    out
}

/// Why a listing request cannot be planned.
#[derive(Debug, Clone, Copy, PartialEq, Eq, Structural)]
pub enum QueryFault {
    /// `page` is zero; pages count from 1.
    PageZero,
    /// `per_page` is zero.
    PerPageZero,
    /// `sort_by` names no column of the table.
    UnknownSortColumn,
    /// The offset of the requested page does not fit a 64-bit signed integer.
    OffsetTooLarge,
}

/// The number of rows before the requested page: `(page - 1) * per_page`.
pub open spec fn offset_of(q: AppConfigQueryView) -> int {
    (q.page - 1) * q.per_page
}

/// The first fault of a request, if it has one. Faults are looked for in the
/// order page, page size, sort column, offset.
pub open spec fn query_fault(q: AppConfigQueryView) -> Option<QueryFault> {
    if q.page < 1 {
        Some(QueryFault::PageZero)
    } else if q.per_page < 1 {
        Some(QueryFault::PerPageZero)
    } else if sort_column_of(q.sort_by) is None {
        Some(QueryFault::UnknownSortColumn)
    } else if offset_of(q) > i64::MAX {
        Some(QueryFault::OffsetTooLarge)
    } else {
        None
    }
}

/// The statement that counts the rows matching a request's filters.
pub open spec fn count_sql_text(q: AppConfigQueryView) -> Seq<char> {
    "SELECT COUNT(*) as count FROM app_configs "@ + where_text(fragments(compiled_filters(q)))
}

/// The statement that fetches one page of the rows matching a request's
/// filters. Its `WHERE` clause is that of the counting statement; `LIMIT`
/// and `OFFSET` take the two parameters after those of the filters.
pub open spec fn data_sql_text(q: AppConfigQueryView) -> Seq<char> {
    let preds = compiled_filters(q);
    "SELECT * FROM app_configs "@ + where_text(fragments(preds)) + " "@ + order_text(
        sort_column_of(q.sort_by).unwrap(),
        q.sort_order,
    ) + " LIMIT "@ + placeholder(bound_values(preds).len() + 1) + " OFFSET "@ + placeholder(
        bound_values(preds).len() + 2,
    )
}

/// The values bound to `LIMIT` and `OFFSET`: the page size, then the offset.
pub open spec fn limit_offset(q: AppConfigQueryView) -> Seq<BindValueView> {
    seq![BindValueView::BigInt(q.per_page as i64), BindValueView::BigInt(offset_of(q) as i64)]
}

/// The two statements of a listing with their bound values.
#[derive(Debug, Clone, PartialEq, Eq)]
pub struct ListingPlan {
    pub count_sql: String,
    pub count_params: Vec<BindValue>,
    pub data_sql: String,
    pub data_params: Vec<BindValue>,
}

impl ListingPlan {
    /// The plan is the one that the request `q` calls for.
    pub open spec fn plans(self, q: AppConfigQueryView) -> bool {
        &&& self.count_sql@ == count_sql_text(q)
        &&& self.count_params.deep_view() == bound_values(compiled_filters(q))
        &&& self.data_sql@ == data_sql_text(q)
        &&& self.data_params.deep_view() == bound_values(compiled_filters(q)) + limit_offset(q)
    }
}

/// Plans the counting statement and the page statement of a listing.
///
/// Both statements are built from one predicate list, so their `WHERE`
/// clauses and the parameters of those clauses agree. A request with a fault
/// is refused with its first fault, and no other request is.
pub fn plan_listing(query: &AppConfigQuery) -> (plan: Result<ListingPlan, QueryFault>)
    ensures
        match plan {
            Ok(p) => query_fault(query@) is None && p.plans(query@),
            Err(fault) => query_fault(query@) == Some(fault),
        },
{
    if query.page < 1 {
        return Err(QueryFault::PageZero);
    }
    if query.per_page < 1 {
        return Err(QueryFault::PerPageZero);
    }
    let column = match resolve_sort_column(&query.sort_by) {
        Some(c) => c,
        None => {
            return Err(QueryFault::UnknownSortColumn);
        },
    };
    let pages_before: u64 = (query.page - 1) as u64;
    let page_size: u64 = query.per_page as u64;
    assert(pages_before * page_size <= 0xffff_ffff * 0xffff_ffff) by (nonlinear_arith)
        requires
            pages_before <= 0xffff_ffff,
            page_size <= 0xffff_ffff,
    ;
    let offset: u64 = pages_before * page_size;
    if offset > i64::MAX as u64 {
        return Err(QueryFault::OffsetTooLarge);
    }
    let preds = compile_filters(query);
    let conditions = fragments_of(&preds);
    let filter = where_clause(&conditions);
    let count_params = values_of(&preds);
    let mut data_params = values_of(&preds);
    proof {
        lemma_bound_values_count(preds.deep_view());
    }
    let filter_params: u64 = data_params.len() as u64;

    let mut count_sql = String::from_str("SELECT COUNT(*) as count FROM app_configs ");
    count_sql.append(filter.as_str());

    let order = order_clause(column, query.sort_order);
    let mut data_sql = String::from_str("SELECT * FROM app_configs ");
    data_sql.append(filter.as_str());
    data_sql.append(" ");
    data_sql.append(order.as_str());
    data_sql.append(" LIMIT ");
    proof {
        reveal_strlit("$");
    }
    data_sql.append("$");
    push_decimal(&mut data_sql, filter_params + 1);
    data_sql.append(" OFFSET ");
    data_sql.append("$");
    push_decimal(&mut data_sql, filter_params + 2);
    assert(data_sql@ =~= data_sql_text(query@));

    let ghost filter_values = data_params.deep_view();
    data_params.push(BindValue::BigInt(query.per_page as i64));
    data_params.push(BindValue::BigInt(offset as i64));
    assert(data_params.deep_view() =~= filter_values + limit_offset(query@));

    Ok(ListingPlan { count_sql, count_params, data_sql, data_params })
}

/// The counting statement binds what the page statement binds, less the two
/// values of `LIMIT` and `OFFSET` at its end: the parameter lists agree in
/// length but for those two, and position by position where both have one.
pub proof fn lemma_count_and_data_parameters_agree(plan: ListingPlan, q: AppConfigQueryView)
    requires
        plan.plans(q),
    ensures
        plan.count_params.deep_view().len() == plan.data_params.deep_view().len() - 2,
        forall|i: int|
            0 <= i < plan.count_params.deep_view().len()
                ==> plan.count_params.deep_view()[i] == plan.data_params.deep_view()[i],
        plan.data_params.deep_view()[plan.count_params.deep_view().len() as int]
            == BindValueView::BigInt(q.per_page as i64),
        plan.data_params.deep_view()[plan.count_params.deep_view().len() as int + 1]
            == BindValueView::BigInt(offset_of(q) as i64),
{
}

/// Both statements of a listing filter by the same `WHERE` clause, and the
/// page statement numbers `LIMIT` and `OFFSET` right after the clause's
/// parameters.
pub proof fn lemma_statements_share_the_filter(q: AppConfigQueryView)
    ensures
        count_sql_text(q) == "SELECT COUNT(*) as count FROM app_configs "@ + where_text(
            fragments(compiled_filters(q)),
        ),
        data_sql_text(q) == "SELECT * FROM app_configs "@ + where_text(
            fragments(compiled_filters(q)),
        ) + " "@ + order_text(sort_column_of(q.sort_by).unwrap(), q.sort_order) + " LIMIT "@
            + placeholder(bound_count(compiled_filters(q)) + 1) + " OFFSET "@ + placeholder(
            bound_count(compiled_filters(q)) + 2,
        ),
{
    lemma_bound_values_count(compiled_filters(q));
}

/// A request that sets no filter counts and fetches over the whole table:
/// neither statement has a `WHERE` clause, nothing but the page size and the
/// offset is bound, and these are parameters 1 and 2.
pub proof fn lemma_unfiltered_listing(plan: ListingPlan, q: AppConfigQueryView)
    requires
        q.unfiltered(),
        plan.plans(q),
    ensures
        plan.count_sql@ == "SELECT COUNT(*) as count FROM app_configs "@,
        plan.count_params.deep_view() == Seq::<BindValueView>::empty(),
        plan.data_sql@ == "SELECT * FROM app_configs "@ + " "@ + order_text(
            sort_column_of(q.sort_by).unwrap(),
            q.sort_order,
        ) + " LIMIT "@ + placeholder(1) + " OFFSET "@ + placeholder(2),
        plan.data_params.deep_view() == limit_offset(q),
{
    crate::predicate::lemma_no_filter_no_where(q);
    let empty = Seq::<char>::empty();
    assert("SELECT COUNT(*) as count FROM app_configs "@ + empty
        =~= "SELECT COUNT(*) as count FROM app_configs "@);
    assert("SELECT * FROM app_configs "@ + empty =~= "SELECT * FROM app_configs "@);
    assert(Seq::<BindValueView>::empty() + limit_offset(q) =~= limit_offset(q));
}

/// Only the table's own column names reach an `ORDER BY` clause: a name that
/// is accepted is written as the caller gave it, and every column is
/// accepted under its name.
pub proof fn lemma_sort_column_is_listed(column: SortColumn, sort_by: Seq<char>)
    ensures
        sort_column_of(Some(sort_by)) == Some(column) ==> column.name_text() == sort_by,
        sort_column_of(Some(column.name_text())) == Some(column),
{
    reveal_strlit("id");
    reveal_strlit("contract");
    reveal_strlit("url");
    reveal_strlit("uuid");
    reveal_strlit("name");
    reveal_strlit("billable");
    reveal_strlit("ignore_files");
    reveal_strlit("created_at");
    reveal_strlit("updated_at");
    assert("id"@[0] == 'i');
    assert("contract"@[0] == 'c');
    assert("url"@[1] == 'r');
    assert("uuid"@[1] == 'u');
    assert("name"@[0] == 'n');
    assert("billable"@[0] == 'b');
    assert("ignore_files"@[1] == 'g');
    assert("created_at"@[1] == 'r');
    assert("updated_at"@[1] == 'p');
}

/// `pages_needed` is the quotient rounded up: the pages hold every row, and
/// one page fewer would not.
pub proof fn lemma_pages_needed_is_ceiling(total: int, per_page: int)
    requires
        total >= 0,
        per_page > 0,
    ensures
        pages_needed(total, per_page) >= 0,
        pages_needed(total, per_page) * per_page >= total,
        (pages_needed(total, per_page) - 1) * per_page < total || total == 0,
        total == 0 <==> pages_needed(total, per_page) == 0,
{
    if total > 0 {
        let n = (total + per_page - 1) / per_page;
        assert(n * per_page >= total && (n - 1) * per_page < total && n > 0)
            by (nonlinear_arith)
            requires
                total > 0,
                per_page > 0,
                n == (total + per_page - 1) / per_page,
        ;
    }
}

/// The number of pages that `total` rows fill at `per_page` rows a page:
/// the quotient rounded up, and no page for no rows.
pub open spec fn pages_needed(total: int, per_page: int) -> int {
    if total <= 0 {
        0
    } else {
        (total + per_page - 1) / per_page
    }
}

/// The number of pages that `total` rows fill at `per_page` rows a page.
/// A count beyond the 32-bit range is reported as the largest 32-bit value.
pub fn total_pages(total: i64, per_page: u32) -> (pages: u32)
    requires
        per_page > 0,
    ensures
        pages == total_pages_of(total as int, per_page as int),
{
    if total <= 0 {
        return 0;
    }
    let rows: u64 = total as u64;
    let size: u64 = per_page as u64;
    let full: u64 = rows / size;
    let rest: u64 = rows % size;
    let pages: u64 = if rest == 0 {
        full
    } else {
        full + 1
    };
    assert(pages == (rows + size - 1) / (size as int)) by (nonlinear_arith)
        requires
            size > 0,
            full == rows / size,
            rest == rows % size,
            pages == if rest == 0 {
                full as int
            } else {
                full + 1
            },
    ;
    if pages > u32::MAX as u64 {
        u32::MAX
    } else {
        pages as u32
    }
}

/// The page envelope of a listing: the rows fetched, the filtered total, the
/// requested page and page size, and the page count that follows from them.
/// A page beyond the last one is no fault: its envelope holds no rows.
pub fn list_response(query: &AppConfigQuery, total: i64, data: Vec<AppConfig>) -> (response:
    AppConfigListResponse)
    requires
        query.per_page > 0,
    ensures
        response.data == data,
        response.total == total,
        response.page == query.page,
        response.per_page == query.per_page,
        response.total_pages == total_pages_of(total as int, query.per_page as int),
{
    let pages = total_pages(total, query.per_page);
    AppConfigListResponse {
        data,
        total,
        page: query.page,
        per_page: query.per_page,
        total_pages: pages,
    }
}

/// The page count as the envelope reports it: `pages_needed`, capped at the
/// largest 32-bit value.
pub open spec fn total_pages_of(total: int, per_page: int) -> int {
    if pages_needed(total, per_page) > u32::MAX {
        u32::MAX as int
    } else {
        pages_needed(total, per_page)
    }
}

/// Inserts one record and returns the stored row.
pub const INSERT_SQL: &'static str =
    "INSERT INTO app_configs (contract, url, uuid, name, billable, ignore_files) VALUES ($1, $2, $3, $4, $5, $6) RETURNING *";

/// Fetches the record with a given identity.
pub const SELECT_BY_ID_SQL: &'static str = "SELECT * FROM app_configs WHERE id = $1";

/// Updates the record with a given identity and returns the stored row. A
/// parameter bound to `NULL` leaves its column as it is; `updated_at` is
/// refreshed in any case.
pub const UPDATE_SQL: &'static str =
    "UPDATE app_configs SET contract = COALESCE($1, contract), url = COALESCE($2, url), uuid = COALESCE($3, uuid), name = COALESCE($4, name), billable = COALESCE($5, billable), ignore_files = COALESCE($6, ignore_files), updated_at = NOW() WHERE id = $7 RETURNING *";

/// Updates every record whose identity is in a given list, as `UPDATE_SQL`
/// does for one, and returns the stored rows.
pub const BULK_UPDATE_SQL: &'static str =
    "UPDATE app_configs SET contract = COALESCE($1, contract), url = COALESCE($2, url), uuid = COALESCE($3, uuid), name = COALESCE($4, name), billable = COALESCE($5, billable), ignore_files = COALESCE($6, ignore_files), updated_at = NOW() WHERE id = ANY($7) RETURNING *";

/// Removes the record with a given identity.
pub const DELETE_SQL: &'static str = "DELETE FROM app_configs WHERE id = $1";

/// One statement with the values bound to its parameters, in order.
#[derive(Debug, Clone, PartialEq, Eq)]
pub struct Statement {
    pub sql: String,
    pub params: Vec<BindValue>,
}

/// The values that an insert binds: the four strings, then `billable`, which
/// may be unknown, then `ignore_files`.
pub open spec fn insert_params(input: CreateAppConfigView) -> Seq<BindValueView> {
    seq![
        BindValueView::Text(input.contract),
        BindValueView::Text(input.url),
        BindValueView::Text(input.uuid),
        BindValueView::Text(input.name),
        BindValueView::NullableBool(input.billable),
        BindValueView::Bool(input.ignore_files),
    ]
}

/// The values that a partial update binds for its six columns. An absent
/// field is bound as `NULL`.
pub open spec fn update_params(input: UpdateAppConfigView) -> Seq<BindValueView> {
    seq![
        BindValueView::NullableText(input.contract),
        BindValueView::NullableText(input.url),
        BindValueView::NullableText(input.uuid),
        BindValueView::NullableText(input.name),
        BindValueView::NullableBool(input.billable),
        BindValueView::NullableBool(input.ignore_files),
    ]
}

fn update_values(input: &UpdateAppConfig) -> (params: Vec<BindValue>)
    ensures
        params.deep_view() == update_params(input@),
{
    let mut params: Vec<BindValue> = Vec::new();
    params.push(BindValue::NullableText(copy_opt_string(&input.contract)));
    params.push(BindValue::NullableText(copy_opt_string(&input.url)));
    params.push(BindValue::NullableText(copy_opt_string(&input.uuid)));
    params.push(BindValue::NullableText(copy_opt_string(&input.name)));
    params.push(BindValue::NullableBool(input.billable));
    params.push(BindValue::NullableBool(input.ignore_files));
    assert(params.deep_view() =~= update_params(input@));
    params
}

/// The statement that inserts `input`.
pub fn create_statement(input: &CreateAppConfig) -> (statement: Statement)
    ensures
        statement.sql@ == INSERT_SQL@,
        statement.params.deep_view() == insert_params(input@),
{
    let mut params: Vec<BindValue> = Vec::new();
    params.push(BindValue::Text(input.contract.clone()));
    params.push(BindValue::Text(input.url.clone()));
    params.push(BindValue::Text(input.uuid.clone()));
    params.push(BindValue::Text(input.name.clone()));
    params.push(BindValue::NullableBool(input.billable));
    params.push(BindValue::Bool(input.ignore_files));
    assert(params.deep_view() =~= insert_params(input@));
    Statement { sql: String::from_str(INSERT_SQL), params }
}

/// The statement that fetches the record `id`.
pub fn get_statement(id: i32) -> (statement: Statement)
    ensures
        statement.sql@ == SELECT_BY_ID_SQL@,
        statement.params.deep_view() == seq![BindValueView::Int(id)],
{
    let mut params: Vec<BindValue> = Vec::new();
    params.push(BindValue::Int(id));
    assert(params.deep_view() =~= seq![BindValueView::Int(id)]);
    Statement { sql: String::from_str(SELECT_BY_ID_SQL), params }
}

/// The statement that applies the partial update `input` to the record `id`:
/// the six column values, then the identity.
pub fn update_statement(id: i32, input: &UpdateAppConfig) -> (statement: Statement)
    ensures
        statement.sql@ == UPDATE_SQL@,
        statement.params.deep_view() == update_params(input@).push(BindValueView::Int(id)),
{
    let mut params = update_values(input);
    let ghost columns = params.deep_view();
    params.push(BindValue::Int(id));
    assert(params.deep_view() =~= columns.push(BindValueView::Int(id)));
    Statement { sql: String::from_str(UPDATE_SQL), params }
}

/// The statement that removes the record `id`.
pub fn delete_statement(id: i32) -> (statement: Statement)
    ensures
        statement.sql@ == DELETE_SQL@,
        statement.params.deep_view() == seq![BindValueView::Int(id)],
{
    let mut params: Vec<BindValue> = Vec::new();
    params.push(BindValue::Int(id));
    assert(params.deep_view() =~= seq![BindValueView::Int(id)]);
    Statement { sql: String::from_str(DELETE_SQL), params }
}

/// Whether a delete removed a row, from the number of rows it affected.
pub fn was_deleted(rows_affected: u64) -> (deleted: bool)
    ensures
        deleted == (rows_affected > 0),
{
    rows_affected > 0
}

/// The statement that applies the partial update `input` to every record
/// whose identity is in `ids`: the six column values, then the identities as
/// one list. Identities that the store does not hold match no row.
pub fn bulk_update_statement(ids: &[i32], input: &UpdateAppConfig) -> (statement: Statement)
    ensures
        statement.sql@ == BULK_UPDATE_SQL@,
        statement.params.deep_view() == update_params(input@).push(BindValueView::IntList(ids@)),
{
    let mut params = update_values(input);
    let ghost columns = params.deep_view();
    params.push(BindValue::IntList(copy_ids(ids)));
    assert(params.deep_view() =~= columns.push(BindValueView::IntList(ids@)));
    Statement { sql: String::from_str(BULK_UPDATE_SQL), params }
}

} // verus!
