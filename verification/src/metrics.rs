//! Prometheus exposition helpers.

use vstd::prelude::*;
use std::borrow::Cow;

verus! {

/// The media type of the Prometheus text exposition format
/// (`prometheus::TEXT_FORMAT`, which the text encoder reports).
#[verifier::external_body]
fn text_format() -> (s: &'static str)
    ensures
        s@ == "text/plain; version=0.0.4"@,
{
    prometheus::TEXT_FORMAT
}

/// The `Content-Type` of metrics responses.
pub fn metrics_content_type() -> (t: Cow<'static, str>)
    ensures
        t@ == "text/plain; version=0.0.4"@,
{
    Cow::Borrowed(text_format())
}

} // verus!
