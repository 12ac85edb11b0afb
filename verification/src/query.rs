//! The query string of one request, decoded when a validator first asks for a query
//! parameter and kept until the request has been handled.

use vstd::prelude::*;
use crate::text::{find, lookup, pairs_view, text_view, Pairs};

verus! {

/// What `tide::Request::query` makes of a request whose URL has `text` as its query string,
/// when it is asked for a map from `String` to `String`: the names with their values, in
/// the order of the names, or `None` where it reports an error.
pub uninterp spec fn decoded_query(text: Seq<char>) -> Option<Seq<(Seq<char>, Seq<char>)>>;

/// The text of what [`decode_query`] returns.
pub open spec fn decoded_view(decoded: Option<Vec<(String, String)>>) -> Option<Pairs> {
    match decoded {
        Some(pairs) => Some(pairs_view(pairs@)),
        None => None,
    }
}

/// Calls `tide::Request::query` on a request made for the occasion, whose URL has `text` as
/// its query string. Not proved: that the result is the one named `decoded_query`, which is
/// to say that it depends on `text` alone.
#[verifier::external_body]
fn decode_query(text: &str) -> (decoded: Option<Vec<(String, String)>>)
    ensures
        decoded_view(decoded) == decoded_query(text@),
{
    let mut url = tide::http::Url::parse("http://localhost/").ok()?;
    url.set_query(Some(text));
    let request: tide::Request<()> = tide::http::Request::new(tide::http::Method::Get, url).into();
    let map = request.query::<std::collections::BTreeMap<String, String>>().ok()?;
    Some(map.into_iter().collect())
}

enum Slot {
    Unread,
    Decoded(Vec<(String, String)>),
    Malformed,
}

/// The query parameters of one request. The query string is decoded at most once, by the
/// first [`QueryCache::load`]; what came of it, the parameters or the failure, is kept.
pub struct QueryCache<'a> {
    text: &'a str,
    slot: Slot,
    decodes: u8,
}

impl<'a> QueryCache<'a> {
    #[verifier::type_invariant]
    spec fn valid(&self) -> bool {
        match self.slot {
            Slot::Unread => self.decodes == 0,
            Slot::Decoded(pairs) => self.decodes == 1 && decoded_query(self.text@) == Some(
                pairs_view(pairs@),
            ),
            Slot::Malformed => self.decodes == 1 && decoded_query(self.text@) is None,
        }
    }

    /// The query string that the cache is for.
    pub closed spec fn text(&self) -> Seq<char> {
        self.text@
    }

    /// Whether the query string has been decoded.
    pub closed spec fn loaded(&self) -> bool {
        !(self.slot is Unread)
    }

    /// How often the query string has been decoded.
    pub closed spec fn decoded_times(&self) -> nat {
        self.decodes as nat
    }

    /// The parameters that the cache answers with: those of the query string once it has
    /// been decoded, none before that or where it cannot be decoded.
    pub open spec fn parameters(&self) -> Pairs {
        if self.loaded() && decoded_query(self.text()) is Some {
            decoded_query(self.text())->0
        } else {
            Seq::empty()
        }
    }

    /// A cache for the query string `text`, which is not decoded yet.
    pub fn new(text: &'a str) -> (cache: Self)
        ensures
            cache.text() == text@,
            !cache.loaded(),
            cache.decoded_times() == 0,
    {
        QueryCache { text, slot: Slot::Unread, decodes: 0 }
    }

    /// Decodes the query string unless that has been done, and says whether it could be
    /// decoded.
    pub fn load(&mut self) -> (readable: bool)
        ensures
            final(self).text() == old(self).text(),
            final(self).loaded(),
            final(self).decoded_times() == 1,
            old(self).loaded() ==> old(self).decoded_times() == 1,
            !old(self).loaded() ==> old(self).decoded_times() == 0,
            readable == decoded_query(old(self).text()) is Some,
    {
        proof {
            use_type_invariant(&*self);
        }
        match &self.slot {
            Slot::Unread => {
                match decode_query(self.text) {
                    Some(pairs) => {
                        *self = QueryCache { text: self.text, slot: Slot::Decoded(pairs), decodes: 1 };
                        true
                    },
                    None => {
                        *self = QueryCache { text: self.text, slot: Slot::Malformed, decodes: 1 };
                        false
                    },
                }
            },
            Slot::Decoded(_) => true,
            Slot::Malformed => false,
        }
    }

    /// How often the query string has been decoded: never more than once.
    pub fn decodes(&self) -> (times: usize)
        ensures
            times == self.decoded_times(),
            times == (if self.loaded() { 1nat } else { 0nat }),
    {
        proof {
            use_type_invariant(self);
        }
        match &self.slot {
            Slot::Unread => 0,
            _ => 1,
        }
    }

    /// The value of the query parameter `name`, from what has been decoded.
    pub fn value(&self, name: &str) -> (found: Option<&str>)
        ensures
            text_view(found) == lookup(self.parameters(), name@),
    {
        proof {
            use_type_invariant(self);
        }
        match &self.slot {
            Slot::Decoded(pairs) => find(pairs, name),
            _ => None,
        }
    }
}

} // verus!
