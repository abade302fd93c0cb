//! The predicate compiler: from the filters of a listing request to an ordered
//! list of predicates, their SQL fragments with positional placeholders, and
//! the values to bind.
//!
//! Placeholders are never numbered by hand. A predicate records only whether
//! it binds a value; the fragment of the k-th binding predicate refers to
//! parameter k, so the numbering is contiguous by construction and the same
//! for every statement built from one predicate list.

use vstd::prelude::*;
use vstd::string::*;
use crate::bind::{BindValue, BindValueView};
use crate::models::{AppConfigQuery, AppConfigQueryView, BillableFilter, MatchType};
use crate::text::{decimal_text, join, join_text, push_decimal};

verus! {

/// One condition of a `WHERE` clause.
#[derive(Debug, Clone, PartialEq, Eq)]
pub enum Predicate {
    /// A comparison against a bound value: `head` is the text up to the
    /// placeholder, such as `url = `.
    Bound { head: String, value: BindValue },
    /// A condition that is fixed text and binds nothing.
    Fixed { text: String },
}

/// The mathematical value of a [`Predicate`].
pub enum PredicateView {
    Bound { head: Seq<char>, value: BindValueView },
    Fixed { text: Seq<char> },
}

impl View for Predicate {
    type V = PredicateView;

    open spec fn view(&self) -> PredicateView {
        match *self {
            Predicate::Bound { head, value } => PredicateView::Bound { head: head@, value: value@ },
            Predicate::Fixed { text } => PredicateView::Fixed { text: text@ },
        }
    }
}

impl DeepView for Predicate {
    type V = PredicateView;

    open spec fn deep_view(&self) -> PredicateView {
        self@
    }
}

/// The placeholder of the positional parameter `index`: a dollar sign and
/// the index in base ten.
pub open spec fn placeholder(index: nat) -> Seq<char> {
    seq!['$'] + decimal_text(index)
}

/// The comparison operator of a match mode, with the spaces around it.
pub open spec fn operator_text(mode: MatchType) -> Seq<char> {
    match mode {
        MatchType::Exact => " = "@,
        MatchType::Fuzzy => " ILIKE "@,
    }
}

/// The predicates of an optional string filter on `column`: none when the
/// filter is absent, else one comparison in the given mode that binds the
/// caller's value as it is.
pub open spec fn text_filter(column: Seq<char>, mode: MatchType, value: Option<Seq<char>>) -> Seq<
    PredicateView,
> {
    match value {
        None => Seq::empty(),
        Some(v) => seq![
            PredicateView::Bound { head: column + operator_text(mode), value: BindValueView::Text(v) },
        ],
    }
}

/// The predicates of the billable filter: none for `All` or an absent
/// filter, else one fixed condition that binds nothing.
pub open spec fn billable_filter(filter: Option<BillableFilter>) -> Seq<PredicateView> {
    match filter {
        None => Seq::empty(),
        Some(BillableFilter::All) => Seq::empty(),
        Some(BillableFilter::Review) => seq![PredicateView::Fixed { text: "billable IS NULL"@ }],
        Some(BillableFilter::True) => seq![PredicateView::Fixed { text: "billable = true"@ }],
        Some(BillableFilter::False) => seq![PredicateView::Fixed { text: "billable = false"@ }],
    }
}

/// The predicates of the optional `ignore_files` filter.
pub open spec fn ignore_files_filter(value: Option<bool>) -> Seq<PredicateView> {
    match value {
        None => Seq::empty(),
        Some(b) => seq![
            PredicateView::Bound { head: "ignore_files = "@, value: BindValueView::Bool(b) },
        ],
    }
}

/// The predicates of a listing request, in the fixed field order contract,
/// url, uuid, name, billable, ignore_files. The contract filter is always
/// exact.
pub open spec fn compiled_filters(q: AppConfigQueryView) -> Seq<PredicateView> {
    text_filter("contract"@, MatchType::Exact, q.contract) + text_filter(
        "url"@,
        q.url_match,
        q.url,
    ) + text_filter("uuid"@, q.uuid_match, q.uuid) + text_filter(
        "name"@,
        q.app_name_match,
        q.app_name,
    ) + billable_filter(q.billable) + ignore_files_filter(q.ignore_files)
}

/// How many of the predicates bind a value.
pub open spec fn bound_count(preds: Seq<PredicateView>) -> nat
    decreases preds.len(),
{
    if preds.len() == 0 {
        0
    } else {
        bound_count(preds.drop_last()) + if preds.last() is Bound {
            1nat
        } else {
            0nat
        }
    }
}

/// The values that the predicates bind, in predicate order.
pub open spec fn bound_values(preds: Seq<PredicateView>) -> Seq<BindValueView>
    decreases preds.len(),
{
    if preds.len() == 0 {
        Seq::empty()
    } else {
        match preds.last() {
            PredicateView::Bound { value, .. } => bound_values(preds.drop_last()).push(value),
            PredicateView::Fixed { .. } => bound_values(preds.drop_last()),
        }
    }
}

/// The SQL text of a predicate whose value, if it binds one, is parameter
/// `index`.
pub open spec fn fragment_text(pred: PredicateView, index: nat) -> Seq<char> {
    match pred {
        PredicateView::Bound { head, .. } => head + placeholder(index),
        PredicateView::Fixed { text } => text,
    }
}

/// The SQL text of each predicate. The predicate at position `i` refers to
/// the parameter after those bound by the predicates before it.
pub open spec fn fragments(preds: Seq<PredicateView>) -> Seq<Seq<char>> {
    Seq::new(preds.len(), |i: int| fragment_text(preds[i], bound_count(preds.take(i)) + 1))
}

/// The `WHERE` clause over the given conditions: empty when there are none,
/// else the keyword and the conditions joined by `AND`.
pub open spec fn where_text(conditions: Seq<Seq<char>>) -> Seq<char> {
    if conditions.len() == 0 {
        Seq::empty()
    } else {
        "WHERE "@ + join_text(conditions, " AND "@)
    }
}

fn text_predicate(column: &str, mode: MatchType, value: &String) -> (p: Predicate)
    ensures
        seq![p@] == text_filter(column@, mode, Some(value@)),
{
    let mut head = String::from_str(column);
    match mode {
        MatchType::Exact => head.append(" = "),
        MatchType::Fuzzy => head.append(" ILIKE "),
    }
    let p = Predicate::Bound { head, value: BindValue::Text(value.clone()) };
    assert(seq![p@] =~= text_filter(column@, mode, Some(value@)));
    p
}

fn push_text_filter(out: &mut Vec<Predicate>, column: &str, mode: MatchType, value: &Option<String>)
    ensures
        final(out).deep_view() == old(out).deep_view() + text_filter(
            column@,
            mode,
            crate::models::opt_text(*value),
        ),
{
    match value {
        Some(v) => {
            let p = text_predicate(column, mode, v);
            out.push(p);
            assert(out.deep_view() =~= old(out).deep_view() + seq![p@]);
        },
        None => {
            assert(out.deep_view() =~= old(out).deep_view() + Seq::<PredicateView>::empty());
        },
    }
}

/// Compiles the filters of a listing request into predicates. An absent
/// filter contributes nothing; the compiler never fails.
pub fn compile_filters(query: &AppConfigQuery) -> (preds: Vec<Predicate>)
    ensures
        preds.deep_view() == compiled_filters(query@),
{
    let mut preds: Vec<Predicate> = Vec::new();
    push_text_filter(&mut preds, "contract", MatchType::Exact, &query.contract);
    push_text_filter(&mut preds, "url", query.url_match, &query.url);
    push_text_filter(&mut preds, "uuid", query.uuid_match, &query.uuid);
    push_text_filter(&mut preds, "name", query.app_name_match, &query.app_name);
    let ghost before_billable = preds.deep_view();
    match query.billable {
        None => {},
        Some(BillableFilter::All) => {},
        Some(BillableFilter::Review) => {
            preds.push(Predicate::Fixed { text: String::from_str("billable IS NULL") });
        },
        Some(BillableFilter::True) => {
            preds.push(Predicate::Fixed { text: String::from_str("billable = true") });
        },
        Some(BillableFilter::False) => {
            preds.push(Predicate::Fixed { text: String::from_str("billable = false") });
        },
    }
    assert(preds.deep_view() =~= before_billable + billable_filter(query.billable));
    let ghost before_ignore = preds.deep_view();
    match query.ignore_files {
        Some(b) => {
            preds.push(
                Predicate::Bound {
                    head: String::from_str("ignore_files = "),
                    value: BindValue::Bool(b),
                },
            );
        },
        None => {},
    }
    assert(preds.deep_view() =~= before_ignore + ignore_files_filter(query.ignore_files));
    assert(preds.deep_view() =~= compiled_filters(query@));
    preds
}

/// The SQL text of each predicate, with placeholders numbered from 1 in
/// predicate order.
pub fn fragments_of(preds: &Vec<Predicate>) -> (out: Vec<String>)
    ensures
        out.deep_view() == fragments(preds.deep_view()),
{
    let mut out: Vec<String> = Vec::new();
    let mut bound: u64 = 0;
    let mut i: usize = 0;
    while i < preds.len()
        invariant
            i <= preds.len(),
            bound <= i,
            bound == bound_count(preds.deep_view().take(i as int)),
            out.deep_view() == fragments(preds.deep_view()).take(i as int),
        decreases preds.len() - i,
    {
        let ghost all = preds.deep_view();
        assert(all.take(i + 1).drop_last() =~= all.take(i as int));
        assert(all.take(i + 1).last() == preds[i as int]@);
        let ghost previous = out.deep_view();
        match &preds[i] {
            Predicate::Bound { head, .. } => {
                let mut s = head.clone();
                proof {
                    reveal_strlit("$");
                }
                s.append("$");
                push_decimal(&mut s, bound + 1);
                assert(s@ =~= fragment_text(all[i as int], (bound + 1) as nat));
                out.push(s);
                bound += 1;
            },
            Predicate::Fixed { text } => {
                out.push(text.clone());
            },
        }
        assert(out.deep_view() =~= previous.push(fragments(all)[i as int]));
        assert(previous.push(fragments(all)[i as int]) =~= fragments(all).take(i + 1));
        i += 1;
    }
    assert(fragments(preds.deep_view()).take(i as int) =~= fragments(preds.deep_view()));
    out
}

/// The values that the predicates bind, in predicate order: the parameters
/// of every statement built from them start with these.
pub fn values_of(preds: &Vec<Predicate>) -> (out: Vec<BindValue>)
    ensures
        out.deep_view() == bound_values(preds.deep_view()),
{
    let mut out: Vec<BindValue> = Vec::new();
    let mut i: usize = 0;
    assert(out.deep_view() =~= bound_values(preds.deep_view().take(0)));
    while i < preds.len()
        invariant
            i <= preds.len(),
            out.deep_view() == bound_values(preds.deep_view().take(i as int)),
        decreases preds.len() - i,
    {
        let ghost all = preds.deep_view();
        assert(all.take(i + 1).drop_last() =~= all.take(i as int));
        assert(all.take(i + 1).last() == preds[i as int]@);
        let ghost previous = out.deep_view();
        match &preds[i] {
            Predicate::Bound { value, .. } => {
                let v = value.duplicate();
                out.push(v);
                assert(out.deep_view() =~= previous.push(v@));
            },
            Predicate::Fixed { .. } => {},
        }
        i += 1;
    }
    assert(preds.deep_view().take(i as int) =~= preds.deep_view());
    out
}

/// The `WHERE` clause over the given conditions, empty when there are none.
pub fn where_clause(conditions: &Vec<String>) -> (out: String)
    ensures
        out@ == where_text(conditions.deep_view()),
{
    if conditions.len() == 0 {
        String::new()
    } else {
        let mut out = String::from_str("WHERE ");
        let joined = join(conditions, " AND ");
        out.append(joined.as_str());
        out
    }
}

/// As many values are bound as there are binding predicates, and no more
/// than there are predicates.
pub proof fn lemma_bound_values_count(preds: Seq<PredicateView>)
    ensures
        bound_values(preds).len() == bound_count(preds),
        bound_count(preds) <= preds.len(),
    decreases preds.len(),
{
    if preds.len() > 0 {
        lemma_bound_values_count(preds.drop_last());
    }
}

/// The values bound by the first `n` predicates are the first values bound
/// by all of them.
pub proof fn lemma_bound_values_prefix(preds: Seq<PredicateView>, n: int)
    requires
        0 <= n <= preds.len(),
    ensures
        bound_values(preds.take(n)).len() == bound_count(preds.take(n)),
        bound_count(preds.take(n)) <= bound_count(preds),
        bound_values(preds.take(n)) == bound_values(preds).take(bound_count(preds.take(n)) as int),
    decreases preds.len() - n,
{
    lemma_bound_values_count(preds.take(n));
    lemma_bound_values_count(preds);
    if n == preds.len() {
        assert(preds.take(n) =~= preds);
        assert(bound_values(preds).take(bound_values(preds).len() as int) =~= bound_values(preds));
    } else {
        let longer = preds.take(n + 1);
        lemma_bound_values_prefix(preds, n + 1);
        lemma_bound_values_count(longer);
        assert(longer.drop_last() =~= preds.take(n));
        let k = bound_count(preds.take(n)) as int;
        assert(bound_values(preds.take(n)) =~= bound_values(longer).take(k));
        assert(bound_values(longer).take(k) =~= bound_values(preds).take(k));
    }
}

/// Placeholders and values agree: the fragment of a binding predicate names
/// parameter `k + 1`, where `k` predicates before it bind a value, and the
/// value bound at that position is the predicate's own. So the indices run
/// 1, 2, 3, ... in predicate order without a gap.
pub proof fn lemma_placeholder_names_its_value(preds: Seq<PredicateView>, i: int)
    requires
        0 <= i < preds.len(),
        preds[i] is Bound,
    ensures
        bound_count(preds.take(i)) < bound_values(preds).len(),
        bound_values(preds)[bound_count(preds.take(i)) as int] == preds[i]->value,
        fragments(preds)[i] == preds[i]->head + placeholder(bound_count(preds.take(i)) + 1),
{
    let upto = preds.take(i + 1);
    lemma_bound_values_prefix(preds, i + 1);
    lemma_bound_values_count(upto);
    assert(upto.drop_last() =~= preds.take(i));
    assert(upto.last() == preds[i]);
    lemma_bound_values_count(preds);
    lemma_bound_values_count(preds.take(i));
    let k = bound_count(preds.take(i)) as int;
    assert(bound_count(upto) == k + 1);
    assert(bound_values(upto) == bound_values(preds.take(i)).push(preds[i]->value));
    assert(bound_values(upto)[k] == preds[i]->value);
    assert(bound_values(preds).take(k + 1)[k] == bound_values(preds)[k]);
}

/// A fixed predicate uses no parameter: its fragment is its own text.
pub proof fn lemma_fixed_predicate_binds_nothing(preds: Seq<PredicateView>, i: int)
    requires
        0 <= i < preds.len(),
        preds[i] is Fixed,
    ensures
        fragments(preds)[i] == preds[i]->text,
        bound_count(preds.take(i + 1)) == bound_count(preds.take(i)),
{
    assert(preds.take(i + 1).drop_last() =~= preds.take(i));
    assert(preds.take(i + 1).last() == preds[i]);
}

/// Binding is counted and collected part by part: what two lists of
/// predicates bind together is what the first binds, then what the second
/// binds.
pub proof fn lemma_bound_values_concat(first: Seq<PredicateView>, second: Seq<PredicateView>)
    ensures
        bound_count(first + second) == bound_count(first) + bound_count(second),
        bound_values(first + second) == bound_values(first) + bound_values(second),
    decreases second.len(),
{
    if second.len() == 0 {
        assert(first + second =~= first);
        assert(bound_values(first) + bound_values(second) =~= bound_values(first));
    } else {
        lemma_bound_values_concat(first, second.drop_last());
        assert((first + second).drop_last() =~= first + second.drop_last());
        assert((first + second).last() == second.last());
        assert(bound_values(first + second) =~= bound_values(first) + bound_values(second));
    }
}

/// One if the option holds a value, else zero.
pub open spec fn present<T>(value: Option<T>) -> nat {
    if value is Some {
        1
    } else {
        0
    }
}

/// An absent filter contributes no predicate and no parameter. Each string
/// filter and the `ignore_files` filter that is set contributes one predicate
/// and one parameter; a billable filter other than `All` contributes one
/// predicate and no parameter.
pub proof fn lemma_filters_contribute_what_is_set(q: AppConfigQueryView)
    ensures
        compiled_filters(q).len() == present(q.contract) + present(q.url) + present(q.uuid)
            + present(q.app_name) + (if q.billable is Some && q.billable != Some(
            BillableFilter::All,
        ) {
            1nat
        } else {
            0nat
        }) + present(q.ignore_files),
        bound_values(compiled_filters(q)).len() == present(q.contract) + present(q.url) + present(
            q.uuid,
        ) + present(q.app_name) + present(q.ignore_files),
{
    let contract = text_filter("contract"@, MatchType::Exact, q.contract);
    let url = text_filter("url"@, q.url_match, q.url);
    let uuid = text_filter("uuid"@, q.uuid_match, q.uuid);
    let name = text_filter("name"@, q.app_name_match, q.app_name);
    let billable = billable_filter(q.billable);
    let ignore = ignore_files_filter(q.ignore_files);
    lemma_bound_values_concat(contract, url);
    lemma_bound_values_concat(contract + url, uuid);
    lemma_bound_values_concat(contract + url + uuid, name);
    lemma_bound_values_concat(contract + url + uuid + name, billable);
    lemma_bound_values_concat(contract + url + uuid + name + billable, ignore);
    lemma_single_predicate_binding(contract);
    lemma_single_predicate_binding(url);
    lemma_single_predicate_binding(uuid);
    lemma_single_predicate_binding(name);
    lemma_single_predicate_binding(billable);
    lemma_single_predicate_binding(ignore);
}

/// A list of at most one predicate binds one value if it holds a binding
/// predicate, and none otherwise.
proof fn lemma_single_predicate_binding(preds: Seq<PredicateView>)
    requires
        preds.len() <= 1,
    ensures
        bound_values(preds).len() == if preds.len() == 1 && preds[0] is Bound {
            1nat
        } else {
            0nat
        },
{
    if preds.len() == 1 {
        assert(bound_values(preds.drop_last()).len() == 0);
    }
}

/// A request compiles to no predicate exactly when it sets no filter, and
/// then the `WHERE` clause is empty and nothing is bound. With any filter
/// set the clause is not empty.
pub proof fn lemma_no_filter_no_where(q: AppConfigQueryView)
    ensures
        q.unfiltered() <==> compiled_filters(q).len() == 0,
        q.unfiltered() ==> where_text(fragments(compiled_filters(q))) == Seq::<char>::empty(),
        q.unfiltered() ==> bound_values(compiled_filters(q)) == Seq::<BindValueView>::empty(),
        !q.unfiltered() ==> where_text(fragments(compiled_filters(q))).len() > 0,
{
    reveal_strlit("WHERE ");
    assert(fragments(compiled_filters(q)).len() == compiled_filters(q).len());
    if q.unfiltered() {
        assert(compiled_filters(q) =~= Seq::<PredicateView>::empty());
        assert(where_text(fragments(compiled_filters(q))) =~= Seq::<char>::empty());
    }
}

} // verus!
