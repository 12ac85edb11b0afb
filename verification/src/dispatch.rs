//! The dispatcher: runs the validators of a registry on the fields of one request, and
//! stops at the first that fails.

use vstd::prelude::*;
use crate::field::{FieldKey, FieldKind, HttpField};
use crate::query::{decoded_query, QueryCache};
use crate::registry::{accepts_all, well_formed, Chain, ValidatorMiddleware};
use crate::request::{FieldsView, RequestFields};
use crate::text::{lookup, text_view};

verus! {

/// What the dispatcher decides for one request.
#[derive(Debug, PartialEq, Eq)]
pub enum Verdict<T> {
    /// Every validator passed: the request goes on to the next stage.
    Forward,
    /// A validator failed, and no validator ran after it.
    Invalid {
        /// The selector of the field that is invalid.
        field: HttpField<'static>,
        /// The position of the validator that failed among those of `field`.
        index: usize,
        /// The error that the validator returned.
        error: T,
    },
    /// A validator asked for a query parameter and the query string cannot be decoded.
    MalformedQuery,
}

/// A verdict, with the selector as what identifies it.
pub enum VerdictView<T> {
    Forward,
    Invalid { field: FieldKey, index: int, error: T },
    MalformedQuery,
}

impl<T> View for Verdict<T> {
    type V = VerdictView<T>;

    open spec fn view(&self) -> VerdictView<T> {
        match *self {
            Verdict::Forward => VerdictView::Forward,
            Verdict::Invalid { field, index, error } => VerdictView::Invalid {
                field: field@,
                index: index as int,
                error,
            },
            Verdict::MalformedQuery => VerdictView::MalformedQuery,
        }
    }
}

/// The verdict on one request, and how often its query string was decoded on the way.
#[derive(Debug, PartialEq, Eq)]
pub struct Report<T> {
    pub verdict: Verdict<T>,
    pub query_decodes: usize,
}

/// A report, with the verdict as its view.
pub struct ReportView<T> {
    pub verdict: VerdictView<T>,
    pub query_decodes: nat,
}

impl<T> View for Report<T> {
    type V = ReportView<T>;

    open spec fn view(&self) -> ReportView<T> {
        ReportView { verdict: self.verdict@, query_decodes: self.query_decodes as nat }
    }
}

/// The value that the validators of `key` are given: that of the named field, `None` where
/// the request does not have it.
pub open spec fn handed(fields: FieldsView, key: FieldKey) -> Option<Seq<char>> {
    match key.kind {
        FieldKind::Param => lookup(fields.params, key.name),
        FieldKind::QueryParam => match decoded_query(fields.query) {
            Some(parameters) => lookup(parameters, key.name),
            None => None,
        },
        FieldKind::Header => lookup(fields.headers, key.name),
        FieldKind::Cookie => lookup(fields.cookies, key.name),
    }
}

/// Whether the value of `key` cannot be had at all: it is a query parameter, and the query
/// string cannot be decoded.
pub open spec fn blocked(fields: FieldsView, key: FieldKey) -> bool {
    key.kind == FieldKind::QueryParam && decoded_query(fields.query) is None
}

/// Whether `validator`, called with the name `name` and the value `value`, can have
/// returned `outcome`.
pub open spec fn gave<T, V: Fn(&str, Option<&str>) -> Result<(), T>>(
    validator: V,
    name: Seq<char>,
    value: Option<Seq<char>>,
    outcome: Result<(), T>,
) -> bool {
    exists|n: &str, v: Option<&str>|
        n@ == name && text_view(v) == value && #[trigger] call_ensures(validator, (n, v), outcome)
}

/// Whether the first `count` validators of `validators` were called with the name `name`
/// and the value `value`, in their order, and each of them passed.
pub open spec fn all_passed<T, V: Fn(&str, Option<&str>) -> Result<(), T>>(
    validators: Seq<V>,
    name: Seq<char>,
    value: Option<Seq<char>>,
    count: int,
) -> bool {
    forall|j: int| 0 <= j < count ==> gave::<T, V>(#[trigger] validators[j], name, value, Ok(()))
}

/// Whether the first `count` validators of `chain` were called on the field of the chain,
/// in their order, and each of them passed.
pub open spec fn passed<T, V: Fn(&str, Option<&str>) -> Result<(), T>>(
    chain: Chain<V>,
    fields: FieldsView,
    count: int,
) -> bool {
    all_passed::<T, V>(chain.validators, chain.field.name, handed(fields, chain.field), count)
}

/// Whether the first `count` chains were gone through, in their order: the value of each
/// could be had, and all its validators passed.
pub open spec fn cleared<T, V: Fn(&str, Option<&str>) -> Result<(), T>>(
    chains: Seq<Chain<V>>,
    fields: FieldsView,
    count: int,
) -> bool {
    forall|i: int|
        0 <= i < count ==> !blocked(fields, (#[trigger] chains[i]).field) && passed::<T, V>(
            chains[i],
            fields,
            chains[i].validators.len() as int,
        )
}

/// Whether one of the first `count` chains is for a query parameter.
pub open spec fn asks_query<V>(chains: Seq<Chain<V>>, count: int) -> bool {
    exists|i: int| 0 <= i < count && (#[trigger] chains[i]).field.kind == FieldKind::QueryParam
}

/// How often the query string is decoded while the first `count` chains are gone through:
/// once if one of them is for a query parameter, else not at all.
pub open spec fn decodes<V>(chains: Seq<Chain<V>>, count: int) -> nat {
    if asks_query(chains, count) {
        1
    } else {
        0
    }
}

/// Whether `report` is what comes of running the validators of `chains` on `fields`: chain
/// after chain, and in each chain validator after validator, up to the first that fails.
pub open spec fn dispatches<T, V: Fn(&str, Option<&str>) -> Result<(), T>>(
    chains: Seq<Chain<V>>,
    fields: FieldsView,
    report: ReportView<T>,
) -> bool {
    match report.verdict {
        VerdictView::Forward => {
            &&& cleared::<T, V>(chains, fields, chains.len() as int)
            &&& report.query_decodes == decodes(chains, chains.len() as int)
        },
        VerdictView::Invalid { field, index, error } => exists|i: int|
            {
                &&& 0 <= i < chains.len()
                &&& (#[trigger] chains[i]).field == field
                &&& cleared::<T, V>(chains, fields, i)
                &&& !blocked(fields, field)
                &&& 0 <= index < chains[i].validators.len()
                &&& passed::<T, V>(chains[i], fields, index)
                &&& gave::<T, V>(
                    chains[i].validators[index],
                    field.name,
                    handed(fields, field),
                    Err(error),
                )
                &&& report.query_decodes == decodes(chains, i + 1)
            },
        VerdictView::MalformedQuery => exists|i: int|
            {
                &&& 0 <= i < chains.len()
                &&& cleared::<T, V>(chains, fields, i)
                &&& blocked(fields, (#[trigger] chains[i]).field)
                &&& report.query_decodes == 1
            },
    }
}

/// Runs `validators` on one field, in their order, up to the first that fails: the
/// position of that validator and its error, or `None` where all of them pass.
pub fn first_failure<T, V: Fn(&str, Option<&str>) -> Result<(), T>>(
    validators: &Vec<V>,
    name: &str,
    value: Option<&str>,
) -> (failure: Option<(usize, T)>)
    requires
        forall|j: int| 0 <= j < validators@.len() ==> accepts_all::<T, V>(validators@[j]),
    ensures
        match failure {
            None => all_passed::<T, V>(
                validators@,
                name@,
                text_view(value),
                validators@.len() as int,
            ),
            Some((index, error)) => {
                &&& index < validators@.len()
                &&& all_passed::<T, V>(validators@, name@, text_view(value), index as int)
                &&& gave::<T, V>(validators@[index as int], name@, text_view(value), Err(error))
            },
        },
{
    let mut j: usize = 0;
    while j < validators.len()
        invariant
            j <= validators@.len(),
            forall|k: int| 0 <= k < validators@.len() ==> accepts_all::<T, V>(validators@[k]),
            all_passed::<T, V>(validators@, name@, text_view(value), j as int),
        decreases validators@.len() - j,
    {
        let validator = &validators[j];
        match validator(name, value) {
            Ok(unit) => {
                assert(unit == ());
            },
            Err(error) => {
                return Some((j, error));
            },
        }
        j += 1;
    }
    None
}

/// The value of the field `field`: from `fields`, or for a query parameter from `cache`,
/// which has decoded the query string of `fields`.
fn value_of<'a>(fields: &'a RequestFields, cache: &'a QueryCache<'a>, field: &HttpField<'_>) -> (value:
    Option<&'a str>)
    requires
        cache.text() == fields@.query,
        field@.kind == FieldKind::QueryParam ==> cache.loaded(),
        !blocked(fields@, field@),
    ensures
        text_view(value) == handed(fields@, field@),
{
    let name = field.name();
    match field.kind() {
        FieldKind::Param => fields.param(name),
        FieldKind::QueryParam => cache.value(name),
        FieldKind::Header => fields.header(name),
        FieldKind::Cookie => fields.cookie(name),
    }
}

impl<T, V: Fn(&str, Option<&str>) -> Result<(), T>> ValidatorMiddleware<T, V> {
    /// Runs the validators on the fields of one request: selector after selector in the
    /// order in which the selectors were first registered, and for each selector its
    /// validators in registration order. A field that the request does not have is handed
    /// to the validators as `None`. Stops at the first validator that fails, or at the
    /// first query parameter if the query string cannot be decoded, which is decoded when
    /// the first query parameter is come to and not again.
    pub fn handle(&self, fields: &RequestFields) -> (report: Report<T>)
        ensures
            dispatches::<T, V>(self@, fields@, report@),
    {
        proof {
            use_type_invariant(self);
        }
        let mut cache = QueryCache::new(fields.query());
        let mut i: usize = 0;
        while i < self.len()
            invariant
                i <= self@.len(),
                well_formed::<T, V>(self@),
                cache.text() == fields@.query,
                cache.loaded() == asks_query(self@, i as int),
                cache.decoded_times() == decodes(self@, i as int),
                cleared::<T, V>(self@, fields@, i as int),
            decreases self@.len() - i,
        {
            let field = self.field_at(i);
            if field.kind() == FieldKind::QueryParam && !cache.load() {
                return Report { verdict: Verdict::MalformedQuery, query_decodes: cache.decodes() };
            }
            assert(cache.loaded() == asks_query(self@, i + 1));
            let value = value_of(fields, &cache, &field);
            match first_failure(self.validators_at(i), field.name(), value) {
                Some((index, error)) => {
                    return Report {
                        verdict: Verdict::Invalid { field, index, error },
                        query_decodes: cache.decodes(),
                    };
                },
                None => {},
            }
            i += 1;
        }
        Report { verdict: Verdict::Forward, query_decodes: cache.decodes() }
    }
}

} // verus!
