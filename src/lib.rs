//! Conditional serving of a file's content over HTTP: a strong validator derived from the
//! file's metadata, the precedence rules among `If-Match`, `If-Unmodified-Since`,
//! `If-None-Match` and `If-Modified-Since`, the content type with its UTF-8 upgrade, and
//! the status and headers of the response.
use vstd::prelude::*;

pub mod conditional;
pub mod content_type;
pub mod i18n;
pub mod response;
pub mod validator;

verus! {

} // verus!
