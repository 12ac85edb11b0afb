//! What holds of every dispatch, stated over the relation [`dispatches`].

use vstd::prelude::*;
use crate::dispatch::{
    asks_query, blocked, cleared, decodes, dispatches, gave, handed, passed, ReportView,
    VerdictView,
};
use crate::field::{FieldKey, FieldKind};
use crate::query::decoded_query;
use crate::registry::Chain;
use crate::request::FieldsView;
use crate::text::{lookup, text_view, Pairs};

verus! {

/// A registry without validators lets every request through, whatever its fields, and
/// does not decode its query string.
pub proof fn lemma_empty_registry_forwards<T, V: Fn(&str, Option<&str>) -> Result<(), T>>(
    chains: Seq<Chain<V>>,
    fields: FieldsView,
    report: ReportView<T>,
)
    requires
        chains.len() == 0,
    ensures
        dispatches::<T, V>(chains, fields, report) <==> report == (ReportView::<T> {
            verdict: VerdictView::Forward,
            query_decodes: 0,
        }),
{
}

/// Whether `other` is `chains` up to the validator at position `j` of the chain at
/// position `i`: the chains before `i` are the same, the chain at `i` is for the same
/// field, and its validators up to and including `j` are the same.
pub open spec fn same_until<V>(chains: Seq<Chain<V>>, other: Seq<Chain<V>>, i: int, j: int) -> bool {
    &&& 0 <= i < chains.len()
    &&& i < other.len()
    &&& forall|k: int| 0 <= k < i ==> chains[k] == other[k]
    &&& chains[i].field == other[i].field
    &&& 0 <= j < chains[i].validators.len()
    &&& j < other[i].validators.len()
    &&& forall|k: int| 0 <= k <= j ==> chains[i].validators[k] == other[i].validators[k]
}

/// The first failure stops everything. Where validator `j` of the chain `i` has failed,
/// nothing that stands behind it has any part in the report: not the later validators of
/// the same field, and not the chains of other fields. A registry that differs only
/// there gives the same report.
pub proof fn lemma_first_failure_halts<T, V: Fn(&str, Option<&str>) -> Result<(), T>>(
    chains: Seq<Chain<V>>,
    other: Seq<Chain<V>>,
    fields: FieldsView,
    report: ReportView<T>,
    i: int,
    j: int,
)
    requires
        report.verdict is Invalid,
        same_until(chains, other, i, j),
        chains[i].field == report.verdict->Invalid_field,
        j == report.verdict->Invalid_index,
        forall|a: int, b: int| 0 <= a < b < chains.len() ==> chains[a].field != chains[b].field,
        dispatches::<T, V>(chains, fields, report),
    ensures
        dispatches::<T, V>(other, fields, report),
{
    let at = choose|at: int|
        {
            &&& 0 <= at < chains.len()
            &&& (#[trigger] chains[at]).field == report.verdict->Invalid_field
            &&& cleared::<T, V>(chains, fields, at)
            &&& passed::<T, V>(chains[at], fields, j)
            &&& report.query_decodes == decodes(chains, at + 1)
        };
    assert(at == i);
    assert(cleared::<T, V>(other, fields, i));
    assert(passed::<T, V>(other[i], fields, j));
    assert(asks_query(chains, i + 1) == asks_query(other, i + 1));
}

/// A query string that cannot be decoded stops the request at the first query parameter
/// that has validators, whatever these validators are and whatever stands behind them.
/// A registry that differs only there gives the same report.
pub proof fn lemma_malformed_query_halts<T, V: Fn(&str, Option<&str>) -> Result<(), T>>(
    chains: Seq<Chain<V>>,
    other: Seq<Chain<V>>,
    fields: FieldsView,
    report: ReportView<T>,
    i: int,
)
    requires
        report.verdict is MalformedQuery,
        0 <= i < chains.len(),
        i < other.len(),
        chains[i].field.kind == FieldKind::QueryParam,
        other[i].field.kind == FieldKind::QueryParam,
        forall|k: int| 0 <= k < i ==> chains[k].field.kind != FieldKind::QueryParam,
        forall|k: int| 0 <= k < i ==> chains[k] == other[k],
        dispatches::<T, V>(chains, fields, report),
    ensures
        dispatches::<T, V>(other, fields, report),
{
    let at = choose|at: int|
        {
            &&& 0 <= at < chains.len()
            &&& cleared::<T, V>(chains, fields, at)
            &&& blocked(fields, (#[trigger] chains[at]).field)
        };
    assert(at == i);
    assert(cleared::<T, V>(other, fields, i));
}

/// The query string of a request is decoded at most once, however many query parameters
/// have validators, and exactly once as soon as the dispatcher has come to the first of
/// them.
pub proof fn lemma_query_decoded_once<T, V: Fn(&str, Option<&str>) -> Result<(), T>>(
    chains: Seq<Chain<V>>,
    fields: FieldsView,
    report: ReportView<T>,
)
    requires
        dispatches::<T, V>(chains, fields, report),
    ensures
        report.query_decodes <= 1,
        report.verdict is Forward ==> (report.query_decodes == 1 <==> asks_query(
            chains,
            chains.len() as int,
        )),
        report.verdict is MalformedQuery ==> report.query_decodes == 1,
        report.verdict is Invalid && report.verdict->Invalid_field.kind == FieldKind::QueryParam
            ==> report.query_decodes == 1,
{
}

/// A name that no pair of a list has is given no value.
pub proof fn lemma_lookup_absent(pairs: Pairs, name: Seq<char>)
    requires
        forall|k: int| 0 <= k < pairs.len() ==> pairs[k].0 != name,
    ensures
        lookup(pairs, name) is None,
    decreases pairs.len(),
{
    if pairs.len() > 0 {
        lemma_lookup_absent(pairs.drop_last(), name);
    }
}

/// The pairs of the request in which a field of the kind `kind` is looked up; for a query
/// parameter, none.
pub open spec fn pairs_of(fields: FieldsView, kind: FieldKind) -> Pairs {
    match kind {
        FieldKind::Param => fields.params,
        FieldKind::QueryParam => Seq::empty(),
        FieldKind::Header => fields.headers,
        FieldKind::Cookie => fields.cookies,
    }
}

/// A path parameter, header or cookie that the request does not have is no reason to
/// stop: its validators are called, with `None` as the value.
pub proof fn lemma_absent_field_is_none(fields: FieldsView, key: FieldKey)
    requires
        key.kind != FieldKind::QueryParam,
        forall|k: int|
            0 <= k < pairs_of(fields, key.kind).len() ==> pairs_of(fields, key.kind)[k].0
                != key.name,
    ensures
        !blocked(fields, key),
        handed(fields, key) is None,
{
    lemma_lookup_absent(pairs_of(fields, key.kind), key.name);
}

/// Only a query parameter can stop a request before its validators are called: the
/// verdict is `MalformedQuery` only where a query parameter has validators and the query
/// string cannot be decoded.
pub proof fn lemma_only_query_stops<T, V: Fn(&str, Option<&str>) -> Result<(), T>>(
    chains: Seq<Chain<V>>,
    fields: FieldsView,
    report: ReportView<T>,
)
    requires
        dispatches::<T, V>(chains, fields, report),
        report.verdict is MalformedQuery,
    ensures
        decoded_query(fields.query) is None,
        asks_query(chains, chains.len() as int),
{
}

/// Whether `validator` is a function of the name and the value that it is given: called
/// twice with the same text, it cannot return two different results.
pub open spec fn deterministic<T, V: Fn(&str, Option<&str>) -> Result<(), T>>(validator: V) -> bool {
    forall|n1: &str, v1: Option<&str>, r1: Result<(), T>, n2: &str, v2: Option<&str>, r2: Result<(), T>|
        n1@ == n2@ && text_view(v1) == text_view(v2) && #[trigger] call_ensures(
            validator,
            (n1, v1),
            r1,
        ) && #[trigger] call_ensures(validator, (n2, v2), r2) ==> r1 == r2
}

/// Whether every validator of `chains` is deterministic.
pub open spec fn all_deterministic<T, V: Fn(&str, Option<&str>) -> Result<(), T>>(
    chains: Seq<Chain<V>>,
) -> bool {
    forall|i: int, j: int|
        0 <= i < chains.len() && 0 <= j < chains[i].validators.len() ==> deterministic::<T, V>(
            #[trigger] chains[i].validators[j],
        )
}

/// A deterministic validator cannot have both passed and failed on the same input.
proof fn lemma_not_both<T, V: Fn(&str, Option<&str>) -> Result<(), T>>(
    validator: V,
    name: Seq<char>,
    value: Option<Seq<char>>,
    first: Result<(), T>,
    second: Result<(), T>,
)
    requires
        deterministic::<T, V>(validator),
        gave::<T, V>(validator, name, value, first),
        gave::<T, V>(validator, name, value, second),
    ensures
        first == second,
{
}

/// With deterministic validators the report is a function of the registry and the
/// request: the first validator that fails, in the order of the chains and within a chain
/// in registration order, decides it.
pub proof fn lemma_one_report<T, V: Fn(&str, Option<&str>) -> Result<(), T>>(
    chains: Seq<Chain<V>>,
    fields: FieldsView,
    first: ReportView<T>,
    second: ReportView<T>,
)
    requires
        all_deterministic::<T, V>(chains),
        dispatches::<T, V>(chains, fields, first),
        dispatches::<T, V>(chains, fields, second),
    ensures
        first == second,
{
    match (first.verdict, second.verdict) {
        (VerdictView::Forward, VerdictView::Forward) => {},
        (VerdictView::Forward, VerdictView::Invalid { .. }) => {
            lemma_forward_excludes_invalid(chains, fields, first, second);
        },
        (VerdictView::Invalid { .. }, VerdictView::Forward) => {
            lemma_forward_excludes_invalid(chains, fields, second, first);
        },
        (VerdictView::Forward, VerdictView::MalformedQuery) => {},
        (VerdictView::MalformedQuery, VerdictView::Forward) => {},
        (VerdictView::MalformedQuery, VerdictView::MalformedQuery) => {},
        (VerdictView::MalformedQuery, VerdictView::Invalid { .. }) => {
            lemma_malformed_excludes_invalid(chains, fields, first, second);
        },
        (VerdictView::Invalid { .. }, VerdictView::MalformedQuery) => {
            lemma_malformed_excludes_invalid(chains, fields, second, first);
        },
        (VerdictView::Invalid { .. }, VerdictView::Invalid { .. }) => {
            lemma_same_failure(chains, fields, first, second);
        },
    }
}

/// The chain and the validator at which a report with the verdict `Invalid` stopped.
spec fn stopped_at<T, V: Fn(&str, Option<&str>) -> Result<(), T>>(
    chains: Seq<Chain<V>>,
    fields: FieldsView,
    report: ReportView<T>,
    i: int,
) -> bool {
    let field = report.verdict->Invalid_field;
    let index = report.verdict->Invalid_index;
    &&& 0 <= i < chains.len()
    &&& chains[i].field == field
    &&& cleared::<T, V>(chains, fields, i)
    &&& !blocked(fields, field)
    &&& 0 <= index < chains[i].validators.len()
    &&& passed::<T, V>(chains[i], fields, index)
    &&& gave::<T, V>(
        chains[i].validators[index],
        field.name,
        handed(fields, field),
        Err(report.verdict->Invalid_error),
    )
    &&& report.query_decodes == decodes(chains, i + 1)
}

proof fn lemma_stopped_somewhere<T, V: Fn(&str, Option<&str>) -> Result<(), T>>(
    chains: Seq<Chain<V>>,
    fields: FieldsView,
    report: ReportView<T>,
) -> (i: int)
    requires
        report.verdict is Invalid,
        dispatches::<T, V>(chains, fields, report),
    ensures
        stopped_at::<T, V>(chains, fields, report, i),
{
    let field = report.verdict->Invalid_field;
    let index = report.verdict->Invalid_index;
    let error = report.verdict->Invalid_error;
    choose|i: int|
        {
            &&& 0 <= i < chains.len()
            &&& (#[trigger] chains[i]).field == field
            &&& cleared::<T, V>(chains, fields, i)
            &&& !blocked(fields, field)
            &&& 0 <= index < chains[i].validators.len()
            &&& passed::<T, V>(chains[i], fields, index)
            &&& gave::<T, V>(
                chains[i].validators[index],
                field.name,
                handed(fields, field),
                Err(error),
            )
            &&& report.query_decodes == decodes(chains, i + 1)
        }
}

proof fn lemma_forward_excludes_invalid<T, V: Fn(&str, Option<&str>) -> Result<(), T>>(
    chains: Seq<Chain<V>>,
    fields: FieldsView,
    forward: ReportView<T>,
    invalid: ReportView<T>,
)
    requires
        all_deterministic::<T, V>(chains),
        forward.verdict is Forward,
        invalid.verdict is Invalid,
        dispatches::<T, V>(chains, fields, forward),
        dispatches::<T, V>(chains, fields, invalid),
    ensures
        forward == invalid,
{
    let i = lemma_stopped_somewhere(chains, fields, invalid);
    let j = invalid.verdict->Invalid_index;
    lemma_not_both::<T, V>(
        chains[i].validators[j],
        chains[i].field.name,
        handed(fields, chains[i].field),
        Ok(()),
        Err(invalid.verdict->Invalid_error),
    );
}

proof fn lemma_malformed_excludes_invalid<T, V: Fn(&str, Option<&str>) -> Result<(), T>>(
    chains: Seq<Chain<V>>,
    fields: FieldsView,
    malformed: ReportView<T>,
    invalid: ReportView<T>,
)
    requires
        all_deterministic::<T, V>(chains),
        malformed.verdict is MalformedQuery,
        invalid.verdict is Invalid,
        dispatches::<T, V>(chains, fields, malformed),
        dispatches::<T, V>(chains, fields, invalid),
    ensures
        malformed == invalid,
{
    let i = lemma_stopped_somewhere(chains, fields, invalid);
    let j = invalid.verdict->Invalid_index;
    let at = choose|at: int|
        {
            &&& 0 <= at < chains.len()
            &&& cleared::<T, V>(chains, fields, at)
            &&& blocked(fields, (#[trigger] chains[at]).field)
        };
    if i < at {
        lemma_not_both::<T, V>(
            chains[i].validators[j],
            chains[i].field.name,
            handed(fields, chains[i].field),
            Ok(()),
            Err(invalid.verdict->Invalid_error),
        );
    }
}

proof fn lemma_same_failure<T, V: Fn(&str, Option<&str>) -> Result<(), T>>(
    chains: Seq<Chain<V>>,
    fields: FieldsView,
    first: ReportView<T>,
    second: ReportView<T>,
)
    requires
        all_deterministic::<T, V>(chains),
        first.verdict is Invalid,
        second.verdict is Invalid,
        dispatches::<T, V>(chains, fields, first),
        dispatches::<T, V>(chains, fields, second),
    ensures
        first == second,
{
    let i1 = lemma_stopped_somewhere(chains, fields, first);
    let j1 = first.verdict->Invalid_index;
    let i2 = lemma_stopped_somewhere(chains, fields, second);
    let j2 = second.verdict->Invalid_index;
    if i1 < i2 || (i1 == i2 && j1 < j2) {
        lemma_not_both::<T, V>(
            chains[i1].validators[j1],
            chains[i1].field.name,
            handed(fields, chains[i1].field),
            Ok(()),
            Err(first.verdict->Invalid_error),
        );
    } else if i2 < i1 || (i1 == i2 && j2 < j1) {
        lemma_not_both::<T, V>(
            chains[i2].validators[j2],
            chains[i2].field.name,
            handed(fields, chains[i2].field),
            Ok(()),
            Err(second.verdict->Invalid_error),
        );
    } else {
        lemma_not_both::<T, V>(
            chains[i1].validators[j1],
            chains[i1].field.name,
            handed(fields, chains[i1].field),
            Err(first.verdict->Invalid_error),
            Err(second.verdict->Invalid_error),
        );
    }
}

} // verus!
