//! Selectors of the request fields that can be validated.

use vstd::prelude::*;
use crate::text::same_text;

verus! {

/// The four places of a request in which a named field can stand.
#[derive(Debug, Clone, Copy, PartialEq, Eq, Hash, Structural)]
pub enum FieldKind {
    /// A parameter of the route's path.
    Param,
    /// A parameter of the query string.
    QueryParam,
    /// A header.
    Header,
    /// A cookie.
    Cookie,
}

/// What identifies a selector: where the field stands, and its name.
pub struct FieldKey {
    pub kind: FieldKind,
    pub name: Seq<char>,
}

/// Enum to indicate on which HTTP field you want to make validations.
#[derive(Debug, Clone, Copy, Hash, Eq, PartialEq)]
pub enum HttpField<'a> {
    /// To validate a path parameter. In the URL `/test/:name` it is `HttpField::Param("name")`.
    Param(&'a str),
    /// To validate a query parameter. In the URL `/test?name=test` it is
    /// `HttpField::QueryParam("name")`.
    QueryParam(&'a str),
    /// To validate a header, for example `HttpField::Header("X-My-Custom-Header")`.
    Header(&'a str),
    /// To validate a cookie, for example `HttpField::Cookie("session")`.
    Cookie(&'a str),
}

impl<'a> View for HttpField<'a> {
    type V = FieldKey;

    open spec fn view(&self) -> FieldKey {
        match *self {
            HttpField::Param(name) => FieldKey { kind: FieldKind::Param, name: name@ },
            HttpField::QueryParam(name) => FieldKey { kind: FieldKind::QueryParam, name: name@ },
            HttpField::Header(name) => FieldKey { kind: FieldKind::Header, name: name@ },
            HttpField::Cookie(name) => FieldKey { kind: FieldKind::Cookie, name: name@ },
        }
    }
}

impl<'a> HttpField<'a> {
    /// Where in the request the field stands.
    pub fn kind(&self) -> (kind: FieldKind)
        ensures
            kind == self@.kind,
    {
        match *self {
            HttpField::Param(_) => FieldKind::Param,
            HttpField::QueryParam(_) => FieldKind::QueryParam,
            HttpField::Header(_) => FieldKind::Header,
            HttpField::Cookie(_) => FieldKind::Cookie,
        }
    }

    /// The name of the field.
    pub fn name(&self) -> (name: &'a str)
        ensures
            name@ == self@.name,
    {
        match *self {
            HttpField::Param(name) => name,
            HttpField::QueryParam(name) => name,
            HttpField::Header(name) => name,
            HttpField::Cookie(name) => name,
        }
    }

    /// Whether two selectors name the same field: both the place and the name agree.
    pub fn same_as(&self, other: &HttpField<'_>) -> (same: bool)
        ensures
            same == (self@ == other@),
    {
        self.kind() == other.kind() && same_text(self.name(), other.name())
    }
}

} // verus!
