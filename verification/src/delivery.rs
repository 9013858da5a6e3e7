//! Handing the outcome of a check to the result handler of the test runner.

use crate::assertion::micro_assert;
use crate::cause::Cause;
use crate::error::{Error, TestResult};
use crate::metadata::Metadata;
use vstd::prelude::*;

verus! {

/// Settles a check: a failure goes to `handler`, and the value says whether
/// the test body goes on.
///
/// The handler is taken by value, so it is called at most once. All that is
/// asked of it is that it accepts the failed outcome: nothing entitles this
/// function to call it on a passed check, or on any value but `result`. On a
/// failure what the handler promises of its call holds of `result`.
pub fn report<'a, H>(result: TestResult<'a>, handler: H) -> (proceed: bool) where
    H: FnOnce(TestResult<'a>),
    requires
        result is Err ==> call_requires(handler, (result,)),
    ensures
        proceed == (result is Ok),
        result is Err ==> call_ensures(handler, (result,), ()),
{
    if result.is_ok() {
        true
    } else {
        handler(result);
        false
    }
}

/// A condition that is checked and then settled: the test body goes on
/// exactly when the condition holds, and when it does not, the handler has
/// taken the record that quotes the expression.
pub proof fn lemma_condition_settled<'a, H>(
    metadata: Metadata,
    condition: bool,
    expression: &'a str,
    handler: H,
    result: TestResult<'a>,
    proceed: bool,
) where H: FnOnce(TestResult<'a>)
    requires
        call_ensures(micro_assert, (metadata, condition, expression), result),
        call_ensures(report::<H>, (result, handler), proceed),
    ensures
        proceed == condition,
        condition ==> result == Ok::<Metadata, Error<'a>>(metadata),
        !condition ==> call_ensures(
            handler,
            (Err::<Metadata, Error<'a>>(Error { metadata, cause: Cause::Condition { expression } }),),
            (),
        ),
{
}

} // verus!
