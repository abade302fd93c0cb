//! What the planned statements mean for one row: which rows the billable
//! filter selects, and what row a partial update leaves behind.
//!
//! The store evaluates the SQL. These functions state, on plain values, what
//! it computes for the fixed predicates of `predicate` and for the
//! `COALESCE` merge of `db::UPDATE_SQL`; they serve tests and in-memory
//! stand-ins for the store.

use vstd::prelude::*;
use crate::models::{AppConfig, AppConfigView, BillableFilter, UpdateAppConfig, UpdateAppConfigView};

verus! {

/// The value of a column after a partial update: the new value where one is
/// supplied, else the stored one.
pub open spec fn coalesce<T>(supplied: Option<T>, stored: T) -> T {
    match supplied {
        Some(v) => v,
        None => stored,
    }
}

/// The row that a partial update leaves behind at time `now`: each column
/// takes the supplied value or keeps its own, `updated_at` becomes `now`,
/// and identity and `created_at` stay. An update cannot make `billable`
/// unknown.
pub open spec fn merged_row(update: UpdateAppConfigView, row: AppConfigView, now: int)
    -> AppConfigView {
    AppConfigView {
        id: row.id,
        contract: coalesce(update.contract, row.contract),
        url: coalesce(update.url, row.url),
        uuid: coalesce(update.uuid, row.uuid),
        name: coalesce(update.name, row.name),
        billable: match update.billable {
            Some(b) => Some(b),
            None => row.billable,
        },
        ignore_files: coalesce(update.ignore_files, row.ignore_files),
        created_at: row.created_at,
        updated_at: now,
    }
}

fn merged_text(supplied: &Option<String>, stored: &String) -> (out: String)
    ensures
        out@ == coalesce(crate::models::opt_text(*supplied), stored@),
{
    match supplied {
        Some(s) => s.clone(),
        None => stored.clone(),
    }
}

impl BillableFilter {
    /// Whether the filter selects a row whose `billable` column holds
    /// `billable`: `All` selects every row, `Review` the rows whose value is
    /// unknown and no others, `True` and `False` the rows that hold that
    /// boolean and no others.
    pub fn selects(self, billable: Option<bool>) -> (selected: bool)
        ensures
            self is All ==> selected,
            self is Review ==> (selected <==> billable is None),
            self is True ==> (selected <==> billable == Some(true)),
            self is False ==> (selected <==> billable == Some(false)),
    {
        match self {
            BillableFilter::All => true,
            BillableFilter::Review => billable.is_none(),
            BillableFilter::True => match billable {
                Some(b) => b,
                None => false,
            },
            BillableFilter::False => match billable {
                Some(b) => !b,
                None => false,
            },
        }
    }
}

impl UpdateAppConfig {
    /// The row that this update leaves behind when applied to `row` at time
    /// `now`.
    pub fn apply_to(&self, row: &AppConfig, now: i64) -> (updated: AppConfig)
        ensures
            updated@ == merged_row(self@, row@, now as int),
    {
        AppConfig {
            id: row.id,
            contract: merged_text(&self.contract, &row.contract),
            url: merged_text(&self.url, &row.url),
            uuid: merged_text(&self.uuid, &row.uuid),
            name: merged_text(&self.name, &row.name),
            billable: match self.billable {
                Some(b) => Some(b),
                None => row.billable,
            },
            ignore_files: match self.ignore_files {
                Some(b) => b,
                None => row.ignore_files,
            },
            created_at: row.created_at,
            updated_at: now,
        }
    }
}

/// A partial update changes only what it supplies: every column whose field
/// is absent keeps its stored value, identity and `created_at` stay, and
/// `updated_at` is the time of the update, so it does not go back when the
/// clock does not.
pub proof fn lemma_update_keeps_absent_fields(
    update: UpdateAppConfigView,
    row: AppConfigView,
    now: int,
)
    ensures
        merged_row(update, row, now).id == row.id,
        merged_row(update, row, now).created_at == row.created_at,
        merged_row(update, row, now).updated_at == now,
        now >= row.updated_at ==> merged_row(update, row, now).updated_at >= row.updated_at,
        update.contract is None ==> merged_row(update, row, now).contract == row.contract,
        update.url is None ==> merged_row(update, row, now).url == row.url,
        update.uuid is None ==> merged_row(update, row, now).uuid == row.uuid,
        update.name is None ==> merged_row(update, row, now).name == row.name,
        update.billable is None ==> merged_row(update, row, now).billable == row.billable,
        update.ignore_files is None ==> merged_row(update, row, now).ignore_files
            == row.ignore_files,
        update.contract matches Some(v) ==> merged_row(update, row, now).contract == v,
        update.url matches Some(v) ==> merged_row(update, row, now).url == v,
        update.uuid matches Some(v) ==> merged_row(update, row, now).uuid == v,
        update.name matches Some(v) ==> merged_row(update, row, now).name == v,
        update.billable matches Some(v) ==> merged_row(update, row, now).billable == Some(v),
        update.ignore_files matches Some(v) ==> merged_row(update, row, now).ignore_files == v,
{
}

} // verus!
