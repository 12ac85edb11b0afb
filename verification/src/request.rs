//! The fields of one request, as the validators get to see them.

use vstd::prelude::*;
use crate::field::{FieldKey, FieldKind, HttpField};
use crate::text::{find, lookup, pairs_view, text_view, Pairs};

verus! {

/// The fields of a request as text. Where a list has a name more than once, the last pair
/// with that name counts: a header that was sent several times has its last value.
pub struct FieldsView {
    /// The parameters of the route's path.
    pub params: Pairs,
    /// The query string, not decoded.
    pub query: Seq<char>,
    /// The headers, one pair for each value, in the order in which they were sent.
    pub headers: Pairs,
    /// The cookies.
    pub cookies: Pairs,
}

/// The text of each string of a list.
pub open spec fn texts(values: Seq<String>) -> Seq<Seq<char>> {
    values.map_values(|value: String| value@)
}

/// The fields after `values` have been written down as the values of the field `key`, in
/// their order: as path parameters, as values of a header or as cookies of that name,
/// behind the pairs that are there. Nothing is written down for a query parameter, which
/// has its value from the query string.
pub open spec fn recorded(fields: FieldsView, key: FieldKey, values: Seq<Seq<char>>) -> FieldsView {
    let pairs = values.map_values(|value: Seq<char>| (key.name, value));
    match key.kind {
        FieldKind::Param => FieldsView { params: fields.params + pairs, ..fields },
        FieldKind::QueryParam => fields,
        FieldKind::Header => FieldsView { headers: fields.headers + pairs, ..fields },
        FieldKind::Cookie => FieldsView { cookies: fields.cookies + pairs, ..fields },
    }
}

/// The fields of one request: the parameters of its path, its query string, its headers
/// and its cookies.
pub struct RequestFields {
    params: Vec<(String, String)>,
    query: String,
    headers: Vec<(String, String)>,
    cookies: Vec<(String, String)>,
}

impl View for RequestFields {
    type V = FieldsView;

    closed spec fn view(&self) -> FieldsView {
        FieldsView {
            params: pairs_view(self.params@),
            query: self.query@,
            headers: pairs_view(self.headers@),
            cookies: pairs_view(self.cookies@),
        }
    }
}

impl RequestFields {
    /// The fields of a request that has no parameter, header or cookie, and an empty query
    /// string.
    pub fn new() -> (fields: Self)
        ensures
            fields@ == (FieldsView {
                params: Seq::empty(),
                query: Seq::empty(),
                headers: Seq::empty(),
                cookies: Seq::empty(),
            }),
    {
        let fields = RequestFields {
            params: Vec::new(),
            query: String::new(),
            headers: Vec::new(),
            cookies: Vec::new(),
        };
        assert(pairs_view(fields.params@) =~= Seq::empty());
        assert(pairs_view(fields.headers@) =~= Seq::empty());
        assert(pairs_view(fields.cookies@) =~= Seq::empty());
        fields
    }

    /// The same fields with the path parameter `name` set to `value`.
    pub fn with_param(self, name: &str, value: &str) -> (fields: Self)
        ensures
            fields@ == (FieldsView { params: self@.params.push((name@, value@)), ..self@ }),
    {
        let mut fields = self;
        fields.params.push((name.to_owned(), value.to_owned()));
        assert(pairs_view(fields.params@) =~= pairs_view(self.params@).push((name@, value@)));
        fields
    }

    /// The same fields with `text` as the query string.
    pub fn with_query(self, text: &str) -> (fields: Self)
        ensures
            fields@ == (FieldsView { query: text@, ..self@ }),
    {
        let mut fields = self;
        fields.query = text.to_owned();
        fields
    }

    /// The same fields with one more value, `value`, of the header `name`.
    pub fn with_header(self, name: &str, value: &str) -> (fields: Self)
        ensures
            fields@ == (FieldsView { headers: self@.headers.push((name@, value@)), ..self@ }),
    {
        let mut fields = self;
        fields.headers.push((name.to_owned(), value.to_owned()));
        assert(pairs_view(fields.headers@) =~= pairs_view(self.headers@).push((name@, value@)));
        fields
    }

    /// The same fields with the cookie `name` set to `value`.
    pub fn with_cookie(self, name: &str, value: &str) -> (fields: Self)
        ensures
            fields@ == (FieldsView { cookies: self@.cookies.push((name@, value@)), ..self@ }),
    {
        let mut fields = self;
        fields.cookies.push((name.to_owned(), value.to_owned()));
        assert(pairs_view(fields.cookies@) =~= pairs_view(self.cookies@).push((name@, value@)));
        fields
    }

    /// The same fields with `values` written down as the values of the field `field`, in
    /// their order. Nothing is written down for a query parameter.
    pub fn record(self, field: &HttpField<'_>, values: &Vec<String>) -> (fields: Self)
        ensures
            fields@ == recorded(self@, field@, texts(values@)),
    {
        let name = field.name();
        let kind = field.kind();
        let ghost all = texts(values@);
        let mut fields = self;
        let mut k: usize = 0;
        assert(recorded(self@, field@, all.take(0)) == self@) by {
            let none = all.take(0).map_values(|value: Seq<char>| (field@.name, value));
            assert(self@.params + none =~= self@.params);
            assert(self@.headers + none =~= self@.headers);
            assert(self@.cookies + none =~= self@.cookies);
        }
        while k < values.len()
            invariant
                k <= values@.len(),
                all == texts(values@),
                name@ == field@.name,
                kind == field@.kind,
                fields@ == recorded(self@, field@, all.take(k as int)),
            decreases values@.len() - k,
        {
            let ghost before = all.take(k as int).map_values(|value: Seq<char>| (field@.name, value));
            let ghost after = all.take(k + 1).map_values(|value: Seq<char>| (field@.name, value));
            assert(after =~= before.push((name@, values@[k as int]@)));
            match kind {
                FieldKind::Param => {
                    assert(self@.params + after =~= (self@.params + before).push(
                        (name@, values@[k as int]@),
                    ));
                    fields = fields.with_param(name, values[k].as_str());
                },
                FieldKind::QueryParam => {},
                FieldKind::Header => {
                    assert(self@.headers + after =~= (self@.headers + before).push(
                        (name@, values@[k as int]@),
                    ));
                    fields = fields.with_header(name, values[k].as_str());
                },
                FieldKind::Cookie => {
                    assert(self@.cookies + after =~= (self@.cookies + before).push(
                        (name@, values@[k as int]@),
                    ));
                    fields = fields.with_cookie(name, values[k].as_str());
                },
            }
            k += 1;
        }
        assert(all.take(values@.len() as int) =~= all);
        fields
    }

    /// The value of the path parameter `name`, if the request has it.
    pub fn param(&self, name: &str) -> (found: Option<&str>)
        ensures
            text_view(found) == lookup(self@.params, name@),
    {
        find(&self.params, name)
    }

    /// The query string, not decoded.
    pub fn query(&self) -> (text: &str)
        ensures
            text@ == self@.query,
    {
        self.query.as_str()
    }

    /// The last value of the header `name`, if the request has that header.
    pub fn header(&self, name: &str) -> (found: Option<&str>)
        ensures
            text_view(found) == lookup(self@.headers, name@),
    {
        find(&self.headers, name)
    }

    /// The value of the cookie `name`, if the request has it.
    pub fn cookie(&self, name: &str) -> (found: Option<&str>)
        ensures
            text_view(found) == lookup(self@.cookies, name@),
    {
        find(&self.cookies, name)
    }
}

} // verus!
