//! The HTTP client library as the controller sees it: two opaque types and
//! the two calls that the controller makes on them. Nothing here is proved;
//! each item says what it takes on trust.

use vstd::prelude::*;

verus! {

/// `reqwest::Client`, the reusable handle through which requests are issued.
/// Its contents are hidden: the controller only stores it and hands copies on.
#[verifier::external_type_specification]
#[verifier::external_body]
pub struct ExClient(reqwest::Client);

/// `reqwest::Error`, the single kind of failure that a request can end in.
/// Its contents are hidden: the controller only turns it into text.
#[verifier::external_type_specification]
#[verifier::external_body]
pub struct ExError(reqwest::Error);

/// `Clone::clone` of `reqwest::Client`, which hands out another handle to the
/// same connection pool. Nothing is claimed of the handle returned.
pub assume_specification[ <reqwest::Client as Clone>::clone ](
    client: &reqwest::Client,
) -> (handle: reqwest::Client);

/// The type name that the `Debug` impl of `reqwest::Error` writes first.
pub open spec fn failure_name() -> Seq<char> {
    "reqwest::Error"@
}

/// Formats a `reqwest::Error` through its `Debug` impl, which writes a struct
/// under the name `reqwest::Error`, so the text starts with that name. What
/// follows it (the kind, the URL, the source) is not described.
#[verifier::external_body]
pub(crate) fn debug_text(error: &reqwest::Error) -> (text: String)
    ensures
        failure_name().is_prefix_of(text@),
{
    format!("{:?}", error)
}

} // verus!
