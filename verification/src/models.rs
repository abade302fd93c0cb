//! The data model: the persisted record, the request payloads, the listing
//! request with its filters, and the page envelope.

use vstd::prelude::*;
use crate::text::same_text;

verus! {

/// The mathematical value of an optional string.
pub open spec fn opt_text(value: Option<String>) -> Option<Seq<char>> {
    match value {
        Some(s) => Some(s@),
        None => None,
    }
}

/// A persisted app-configuration record. Timestamps are microseconds since
/// the Unix epoch.
#[derive(Debug, Clone, PartialEq, Eq)]
pub struct AppConfig {
    pub id: i32,
    pub contract: String,
    pub url: String,
    pub uuid: String,
    pub name: String,
    pub billable: Option<bool>,
    pub ignore_files: bool,
    pub created_at: i64,
    pub updated_at: i64,
}

/// The mathematical value of an [`AppConfig`].
pub struct AppConfigView {
    pub id: int,
    pub contract: Seq<char>,
    pub url: Seq<char>,
    pub uuid: Seq<char>,
    pub name: Seq<char>,
    pub billable: Option<bool>,
    pub ignore_files: bool,
    pub created_at: int,
    pub updated_at: int,
}

impl View for AppConfig {
    type V = AppConfigView;

    open spec fn view(&self) -> AppConfigView {
        AppConfigView {
            id: self.id as int,
            contract: self.contract@,
            url: self.url@,
            uuid: self.uuid@,
            name: self.name@,
            billable: self.billable,
            ignore_files: self.ignore_files,
            created_at: self.created_at as int,
            updated_at: self.updated_at as int,
        }
    }
}

impl DeepView for AppConfig {
    type V = AppConfigView;

    open spec fn deep_view(&self) -> AppConfigView {
        self@
    }
}

/// A fully specified record to insert; the store assigns identity and
/// timestamps.
#[derive(Debug, Clone, PartialEq, Eq)]
pub struct CreateAppConfig {
    pub contract: String,
    pub url: String,
    pub uuid: String,
    pub name: String,
    pub billable: Option<bool>,
    pub ignore_files: bool,
}

/// The mathematical value of a [`CreateAppConfig`].
pub struct CreateAppConfigView {
    pub contract: Seq<char>,
    pub url: Seq<char>,
    pub uuid: Seq<char>,
    pub name: Seq<char>,
    pub billable: Option<bool>,
    pub ignore_files: bool,
}

impl View for CreateAppConfig {
    type V = CreateAppConfigView;

    open spec fn view(&self) -> CreateAppConfigView {
        CreateAppConfigView {
            contract: self.contract@,
            url: self.url@,
            uuid: self.uuid@,
            name: self.name@,
            billable: self.billable,
            ignore_files: self.ignore_files,
        }
    }
}

/// A partial update: an absent field leaves the stored value as it is.
#[derive(Debug, Clone, PartialEq, Eq)]
pub struct UpdateAppConfig {
    pub contract: Option<String>,
    pub url: Option<String>,
    pub uuid: Option<String>,
    pub name: Option<String>,
    pub billable: Option<bool>,
    pub ignore_files: Option<bool>,
}

/// The mathematical value of an [`UpdateAppConfig`].
pub struct UpdateAppConfigView {
    pub contract: Option<Seq<char>>,
    pub url: Option<Seq<char>>,
    pub uuid: Option<Seq<char>>,
    pub name: Option<Seq<char>>,
    pub billable: Option<bool>,
    pub ignore_files: Option<bool>,
}

impl View for UpdateAppConfig {
    type V = UpdateAppConfigView;

    open spec fn view(&self) -> UpdateAppConfigView {
        UpdateAppConfigView {
            contract: opt_text(self.contract),
            url: opt_text(self.url),
            uuid: opt_text(self.uuid),
            name: opt_text(self.name),
            billable: self.billable,
            ignore_files: self.ignore_files,
        }
    }
}

/// How a string filter compares: by equality, or as a case-insensitive
/// pattern.
#[derive(Debug, Clone, Copy, PartialEq, Eq, Structural)]
pub enum MatchType {
    Exact,
    Fuzzy,
}

impl MatchType {
    /// The match mode that a request parameter names: `exact` or `fuzzy`,
    /// in lower case, and nothing else.
    pub open spec fn of_word(word: Seq<char>) -> Option<MatchType> {
        if word == "exact"@ {
            Some(MatchType::Exact)
        } else if word == "fuzzy"@ {
            Some(MatchType::Fuzzy)
        } else {
            None
        }
    }

    /// Reads a match mode from a request parameter.
    pub fn from_param(word: &str) -> (mode: Option<MatchType>)
        ensures
            mode == MatchType::of_word(word@),
    {
        if same_text(word, "exact") {
            Some(MatchType::Exact)
        } else if same_text(word, "fuzzy") {
            Some(MatchType::Fuzzy)
        } else {
            None
        }
    }
}

impl Default for MatchType {
    fn default() -> (m: MatchType)
        ensures
            m == MatchType::Exact,
    {
        MatchType::Exact
    }
}

/// The four-way filter over the nullable `billable` column.
#[derive(Debug, Clone, Copy, PartialEq, Eq, Structural)]
pub enum BillableFilter {
    All,
    /// Rows whose value is unknown.
    Review,
    True,
    False,
}

impl BillableFilter {
    /// The filter that a request parameter names: `all`, `review`, `true`
    /// or `false`, in lower case, and nothing else.
    pub open spec fn of_word(word: Seq<char>) -> Option<BillableFilter> {
        if word == "all"@ {
            Some(BillableFilter::All)
        } else if word == "review"@ {
            Some(BillableFilter::Review)
        } else if word == "true"@ {
            Some(BillableFilter::True)
        } else if word == "false"@ {
            Some(BillableFilter::False)
        } else {
            None
        }
    }

    /// Reads a billable filter from a request parameter.
    pub fn from_param(word: &str) -> (filter: Option<BillableFilter>)
        ensures
            filter == BillableFilter::of_word(word@),
    {
        if same_text(word, "all") {
            Some(BillableFilter::All)
        } else if same_text(word, "review") {
            Some(BillableFilter::Review)
        } else if same_text(word, "true") {
            Some(BillableFilter::True)
        } else if same_text(word, "false") {
            Some(BillableFilter::False)
        } else {
            None
        }
    }
}

/// The direction of the sort.
#[derive(Debug, Clone, Copy, PartialEq, Eq, Structural)]
pub enum SortOrder {
    Asc,
    Desc,
}

impl SortOrder {
    /// The direction that a request parameter names: `asc` or `desc`, in
    /// lower case, and nothing else.
    pub open spec fn of_word(word: Seq<char>) -> Option<SortOrder> {
        if word == "asc"@ {
            Some(SortOrder::Asc)
        } else if word == "desc"@ {
            Some(SortOrder::Desc)
        } else {
            None
        }
    }

    /// Reads a sort direction from a request parameter.
    pub fn from_param(word: &str) -> (order: Option<SortOrder>)
        ensures
            order == SortOrder::of_word(word@),
    {
        if same_text(word, "asc") {
            Some(SortOrder::Asc)
        } else if same_text(word, "desc") {
            Some(SortOrder::Desc)
        } else {
            None
        }
    }
}

impl Default for SortOrder {
    fn default() -> (o: SortOrder)
        ensures
            o == SortOrder::Asc,
    {
        SortOrder::Asc
    }
}

/// The page that a listing starts on when the request names none.
pub fn default_page() -> (page: u32)
    ensures
        page == 1,
{
    1
}

/// The page size that a listing uses when the request names none.
pub fn default_per_page() -> (per_page: u32)
    ensures
        per_page == 20,
{
    20
}

/// One listing or export request: pagination, optional filters and sort.
#[derive(Debug, Clone, PartialEq, Eq)]
pub struct AppConfigQuery {
    pub page: u32,
    pub per_page: u32,
    pub contract: Option<String>,
    pub url: Option<String>,
    pub url_match: MatchType,
    pub uuid: Option<String>,
    pub uuid_match: MatchType,
    pub app_name: Option<String>,
    pub app_name_match: MatchType,
    pub billable: Option<BillableFilter>,
    pub ignore_files: Option<bool>,
    pub sort_by: Option<String>,
    pub sort_order: SortOrder,
}

/// The mathematical value of an [`AppConfigQuery`].
pub struct AppConfigQueryView {
    pub page: int,
    pub per_page: int,
    pub contract: Option<Seq<char>>,
    pub url: Option<Seq<char>>,
    pub url_match: MatchType,
    pub uuid: Option<Seq<char>>,
    pub uuid_match: MatchType,
    pub app_name: Option<Seq<char>>,
    pub app_name_match: MatchType,
    pub billable: Option<BillableFilter>,
    pub ignore_files: Option<bool>,
    pub sort_by: Option<Seq<char>>,
    pub sort_order: SortOrder,
}

impl View for AppConfigQuery {
    type V = AppConfigQueryView;

    open spec fn view(&self) -> AppConfigQueryView {
        AppConfigQueryView {
            page: self.page as int,
            per_page: self.per_page as int,
            contract: opt_text(self.contract),
            url: opt_text(self.url),
            url_match: self.url_match,
            uuid: opt_text(self.uuid),
            uuid_match: self.uuid_match,
            app_name: opt_text(self.app_name),
            app_name_match: self.app_name_match,
            billable: self.billable,
            ignore_files: self.ignore_files,
            sort_by: opt_text(self.sort_by),
            sort_order: self.sort_order,
        }
    }
}

impl AppConfigQueryView {
    /// No filter is set: every field filter is absent and the billable
    /// filter, if present, is `All`.
    pub open spec fn unfiltered(self) -> bool {
        &&& self.contract is None
        &&& self.url is None
        &&& self.uuid is None
        &&& self.app_name is None
        &&& (self.billable is None || self.billable == Some(BillableFilter::All))
        &&& self.ignore_files is None
    }
}

impl Default for AppConfigQuery {
    /// The request that names nothing: first page, twenty rows, no filter,
    /// sorted by `id` ascending.
    fn default() -> (q: AppConfigQuery)
        ensures
            q@.page == 1,
            q@.per_page == 20,
            q@.unfiltered(),
            q@.billable is None,
            q@.url_match == MatchType::Exact,
            q@.uuid_match == MatchType::Exact,
            q@.app_name_match == MatchType::Exact,
            q@.sort_by is None,
            q@.sort_order == SortOrder::Asc,
    {
        AppConfigQuery {
            page: default_page(),
            per_page: default_per_page(),
            contract: None,
            url: None,
            url_match: MatchType::Exact,
            uuid: None,
            uuid_match: MatchType::Exact,
            app_name: None,
            app_name_match: MatchType::Exact,
            billable: None,
            ignore_files: None,
            sort_by: None,
            sort_order: SortOrder::Asc,
        }
    }
}

/// One page of a listing with its pagination metadata.
#[derive(Debug, Clone, PartialEq, Eq)]
pub struct AppConfigListResponse {
    pub data: Vec<AppConfig>,
    pub total: i64,
    pub page: u32,
    pub per_page: u32,
    pub total_pages: u32,
}

/// The body of a bulk update: the identities to touch and the partial update
/// to apply to each.
#[derive(Debug, Clone, PartialEq, Eq)]
pub struct BulkUpdateRequest {
    pub ids: Vec<i32>,
    pub update: UpdateAppConfig,
}

} // verus!
