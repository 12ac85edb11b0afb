//! Reading the fields that a registry has validators for out of a `tide` request.

use vstd::prelude::*;
use vstd::string::*;
use vstd::utf8::is_ascii_chars;
use crate::dispatch::{dispatches, Report};
use crate::field::{FieldKey, FieldKind, HttpField};
use crate::registry::{Chain, ValidatorMiddleware};
use crate::request::{recorded, texts, FieldsView, RequestFields};

verus! {

/// `tide::Request`, as a value that is handed on and never looked into.
#[verifier::external_type_specification]
#[verifier::external_body]
#[verifier::reject_recursive_types(State)]
pub struct ExRequest<State>(tide::Request<State>);

/// Calls `tide::Request::param`, which looks a parameter of the route up by its name. An
/// error, which means that the route has no such parameter, becomes `None`. Nothing is
/// claimed of the value.
#[verifier::external_body]
fn route_param<State>(request: &tide::Request<State>, name: &str) -> (value: Option<String>) {
    match request.param(name) {
        Ok(value) => Some(value.to_string()),
        Err(_) => None,
    }
}

/// Calls `tide::Request::url` and `Url::query`: the query string of the request, not
/// decoded, or `None` where the URL has none. Nothing is claimed of the text.
#[verifier::external_body]
fn query_string<State>(request: &tide::Request<State>) -> (text: Option<String>) {
    match request.url().query() {
        Some(text) => Some(text.to_string()),
        None => None,
    }
}

/// Calls `tide::Request::header`, which finds a header whatever the case of the letters
/// of its name: all the values of the header, in the order in which the request holds
/// them, none where it does not have the header. The name must be ASCII, as `tide` panics
/// on any other. Nothing is claimed of the values.
#[verifier::external_body]
fn header_values<State>(request: &tide::Request<State>, name: &str) -> (values: Vec<String>)
    requires
        is_ascii(name),
{
    match request.header(name) {
        Some(values) => values.iter().map(|value| value.as_str().to_string()).collect(),
        None => Vec::new(),
    }
}

/// Calls `tide::Request::cookie`, which looks a cookie up by its name, and takes its
/// value. Nothing is claimed of the value.
#[verifier::external_body]
fn cookie_value<State>(request: &tide::Request<State>, name: &str) -> (value: Option<String>) {
    match request.cookie(name) {
        Some(cookie) => Some(cookie.value().to_string()),
        None => None,
    }
}

/// Whether a request can have answered with `values` when it was asked for the field
/// `key`: with one value at most for a path parameter or a cookie, with none for a header
/// whose name is not ASCII, which no request can hold, and with none for a query
/// parameter, which it is not asked for.
pub open spec fn answerable(key: FieldKey, values: Seq<Seq<char>>) -> bool {
    match key.kind {
        FieldKind::Param => values.len() <= 1,
        FieldKind::QueryParam => values.len() == 0,
        FieldKind::Header => is_ascii_chars(key.name) || values.len() == 0,
        FieldKind::Cookie => values.len() <= 1,
    }
}

/// The fields that are read out of a request whose query string is `query` and which
/// answers with `answers[i]` when it is asked for the field of `chains[i]`: the answers
/// written down chain after chain, in the order of the chains.
pub open spec fn captured<V>(
    chains: Seq<Chain<V>>,
    query: Seq<char>,
    answers: Seq<Seq<Seq<char>>>,
) -> FieldsView
    decreases answers.len(),
{
    if answers.len() == 0 {
        FieldsView { params: Seq::empty(), query, headers: Seq::empty(), cookies: Seq::empty() }
    } else {
        recorded(
            captured(chains, query, answers.drop_last()),
            chains[answers.len() - 1].field,
            answers.last(),
        )
    }
}

/// Whether `fields` can have been read out of a request for the selectors of `chains`:
/// the request was asked once for the field of each chain, in the order of the chains, and
/// `fields` holds its query string and what it answered, nothing else.
pub open spec fn captures<V>(chains: Seq<Chain<V>>, fields: FieldsView) -> bool {
    exists|query: Seq<char>, answers: Seq<Seq<Seq<char>>>|
        {
            &&& answers.len() == chains.len()
            &&& forall|i: int|
                0 <= i < answers.len() ==> answerable(chains[i].field, #[trigger] answers[i])
            &&& fields == #[trigger] captured(chains, query, answers)
        }
}

/// The values with which `request` answers for the field `field`: from the wrapper of
/// its kind, none where the request is not asked.
fn read<State>(request: &tide::Request<State>, field: &HttpField<'_>) -> (values: Vec<String>)
    ensures
        answerable(field@, texts(values@)),
{
    let name = field.name();
    let mut values: Vec<String> = Vec::new();
    match field.kind() {
        FieldKind::Param => {
            match route_param(request, name) {
                Some(value) => {
                    values.push(value);
                },
                None => {},
            }
        },
        FieldKind::QueryParam => {},
        FieldKind::Header => {
            if name.is_ascii() {
                values = header_values(request, name);
            }
        },
        FieldKind::Cookie => {
            match cookie_value(request, name) {
                Some(value) => {
                    values.push(value);
                },
                None => {},
            }
        },
    }
    values
}

impl<T, V: Fn(&str, Option<&str>) -> Result<(), T>> ValidatorMiddleware<T, V> {
    /// Reads out of `request` the fields that the registry has validators for. The
    /// request is asked for its query string and then, selector after selector in the
    /// order of the registry, for the path parameter, the header or the cookie that the
    /// selector names; what it answers is written down as [`RequestFields::record`] says.
    /// What the request answers is for `tide` to say.
    pub fn capture<State>(&self, request: &tide::Request<State>) -> (fields: RequestFields)
        ensures
            captures(self@, fields@),
    {
        let mut fields = RequestFields::new();
        match query_string(request) {
            Some(text) => {
                fields = fields.with_query(text.as_str());
            },
            None => {},
        }
        let ghost query = fields@.query;
        let ghost mut answers: Seq<Seq<Seq<char>>> = Seq::empty();
        let mut i: usize = 0;
        while i < self.len()
            invariant
                i <= self@.len(),
                answers.len() == i,
                forall|k: int| 0 <= k < i ==> answerable(self@[k].field, #[trigger] answers[k]),
                fields@ == captured(self@, query, answers),
            decreases self@.len() - i,
        {
            let field = self.field_at(i);
            let values = read(request, &field);
            fields = fields.record(&field, &values);
            proof {
                assert(answers.push(texts(values@)).drop_last() =~= answers);
                answers = answers.push(texts(values@));
            }
            i += 1;
        }
        fields
    }

    /// Runs the validators on a `tide` request: [`Self::handle`] on the fields that
    /// [`Self::capture`] reads out of it.
    pub fn inspect<State>(&self, request: &tide::Request<State>) -> (report: Report<T>)
        ensures
            exists|fields: FieldsView|
                captures(self@, fields) && #[trigger] dispatches::<T, V>(self@, fields, report@),
    {
        let fields = self.capture(request);
        self.handle(&fields)
    }
}

} // verus!
