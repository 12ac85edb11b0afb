//! Validation of the fields of an HTTP request before it reaches its handler.
//!
//! A [`ValidatorMiddleware`] keeps validators under the [`HttpField`] that each of them
//! inspects: a path parameter, a query parameter, a header or a cookie. A validator is a
//! function of the field's name and its value, `None` where the request does not have the
//! field, that returns `Ok(())` or an error of the caller's own type.
//! [`ValidatorMiddleware::handle`] runs the validators on the fields of one request and
//! stops at the first that fails; `respond`, a method of the [`Verdict`], gives the
//! response that is then sent in place of the handler's.
//!
//! ```rust,no_run,compile_fail
//! fn is_number(field_name: &str, field_value: Option<&str>) -> Result<(), String> {
//!     if let Some(field_value) = field_value {
//!         if field_value.parse::<i64>().is_err() {
//!             return Err(format!("field '{}' = '{}' is not a valid number", field_name, field_value));
//!         }
//!     }
//!     Ok(())
//! }
//!
//! let mut validators = ValidatorMiddleware::new();
//! validators.add_validator(HttpField::QueryParam("n"), is_number);
//!
//! let report = validators.handle(&RequestFields::new().with_query("n=abc"));
//! let reply = report.verdict.respond(|error| serde_json::to_string(error).map_err(|e| e.to_string()));
//! // Some(Reply { status: 400, format: Json, body: "\"field 'n' = 'abc' is not a valid number\"" })
//! ```
//!
//! The modules: [`field`] has the selectors, [`registry`] the validators under their
//! selectors, [`request`] the fields of a request, [`query`] its query parameters,
//! [`dispatch`] the run of the validators, [`reply`] the responses, [`capture`] the
//! reading of a `tide` request, and [`laws`] what holds of every run.

pub mod capture;
pub mod dispatch;
pub mod field;
pub mod laws;
pub mod query;
pub mod registry;
pub mod reply;
pub mod request;
pub mod text;

pub use dispatch::{Report, Verdict};
pub use field::{FieldKind, HttpField};
pub use query::QueryCache;
pub use registry::ValidatorMiddleware;
pub use reply::{BodyFormat, Reply};
pub use request::RequestFields;
