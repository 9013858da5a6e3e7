//! The checks: a condition, and the comparison of two operands.
//!
//! Every check returns its outcome and does nothing else. On `Ok` the test
//! body goes on. On `Err` the caller owes the record to its result handler,
//! once, and then leaves the test body.

use crate::cause::{comparison_text, condition_text, Cause, Relation};
use crate::error::{Error, TestResult};
use crate::metadata::Metadata;
use core::fmt::Debug;
use vstd::prelude::*;
use vstd::std_specs::cmp::PartialEqSpec;

verus! {

/// Whether `error` records that two operands of the test `metadata` did not
/// satisfy `relation`, with the caller's message `note`. The renderings of the
/// operands are whatever their `Debug` implementations wrote.
pub open spec fn records_comparison<'a>(
    error: Error<'a>,
    metadata: Metadata,
    relation: Relation,
    note: Option<&'a str>,
) -> bool {
    &&& error.metadata == metadata
    &&& error.cause matches Cause::Comparison { relation: recorded, note: attached, .. }
    &&& recorded == relation
    &&& attached == note
}

/// The text that `Debug` writes for `value`.
///
/// Calls `Debug::fmt` of `T` through `format!` with the `{:?}` placeholder.
/// Nothing is claimed of the text: it is whatever the implementation of
/// `Debug` for `T` produces. An implementation that panics, or that reports
/// an error, makes `format!` panic; the implementations that `derive` writes
/// and those of the standard types do neither.
#[verifier::external_body]
fn debug_text<T: Debug + ?Sized>(value: &T) -> (text: String) {
    format!("{:?}", value)
}

/// Compares the operands and, where they fail `relation`, records both.
fn compare<'a, L, R>(
    metadata: Metadata,
    relation: Relation,
    left: &L,
    right: &R,
    note: Option<&'a str>,
) -> (result: TestResult<'a>) where L: PartialEq<R> + Debug + ?Sized, R: Debug + ?Sized
    ensures
        L::obeys_eq_spec() ==> (result is Ok <==> relation.holds(left, right)),
        relation == Relation::Equal ==> call_ensures(L::eq, (left, right), result is Ok),
        relation == Relation::NotEqual ==> call_ensures(L::ne, (left, right), result is Ok),
        result is Ok ==> result == Ok::<Metadata, Error<'a>>(metadata),
        result matches Err(error) ==> records_comparison(error, metadata, relation, note),
{
    let satisfied = match relation {
        Relation::Equal => *left == *right,
        Relation::NotEqual => *left != *right,
    };
    if satisfied {
        Ok(metadata)
    } else {
        let left = debug_text(left);
        let right = debug_text(right);
        Err(Error { metadata, cause: Cause::Comparison { relation, left, right, note } })
    }
}

/// Checks that `condition` holds. `expression` is the source text of the
/// condition, which the record of a failure quotes.
pub fn micro_assert<'a>(metadata: Metadata, condition: bool, expression: &'a str) -> (result:
    TestResult<'a>)
    ensures
        condition ==> result == Ok::<Metadata, Error<'a>>(metadata),
        !condition ==> result == Err::<Metadata, Error<'a>>(
            Error { metadata, cause: Cause::Condition { expression } },
        ),
        result matches Err(error) ==> error.cause@.rendering() == condition_text(expression@),
{
    if condition {
        Ok(metadata)
    } else {
        Err(Error { metadata, cause: Cause::Condition { expression } })
    }
}

/// Checks that `condition` holds. The record of a failure carries `message`
/// in place of the usual diagnostic.
pub fn micro_assert_with<'a>(metadata: Metadata, condition: bool, message: &'a str) -> (result:
    TestResult<'a>)
    ensures
        condition ==> result == Ok::<Metadata, Error<'a>>(metadata),
        !condition ==> result == Err::<Metadata, Error<'a>>(
            Error { metadata, cause: Cause::Message { text: message } },
        ),
        result matches Err(error) ==> error.cause@.rendering() == message@,
{
    if condition {
        Ok(metadata)
    } else {
        Err(Error { metadata, cause: Cause::Message { text: message } })
    }
}

/// Checks that `left` equals `right`.
///
/// Whether the check passes is the result of `left == right`: what the
/// operand types specify of that result holds of `result is Ok`, and where
/// they specify their equality, the check passes exactly on equal operands.
/// The record of a failure carries what `Debug` writes for each operand.
pub fn micro_assert_eq<L, R>(metadata: Metadata, left: &L, right: &R) -> (result: TestResult<
    'static,
>) where L: PartialEq<R> + Debug + ?Sized, R: Debug + ?Sized
    ensures
        L::obeys_eq_spec() ==> (result is Ok <==> Relation::Equal.holds(left, right)),
        call_ensures(L::eq, (left, right), result is Ok),
        result is Ok ==> result == Ok::<Metadata, Error<'static>>(metadata),
        result matches Err(error) ==> records_comparison(error, metadata, Relation::Equal, None),
        result matches Err(error) ==> error.cause@.rendering() == comparison_text(
            Relation::Equal,
            error.cause->left@,
            error.cause->right@,
        ),
{
    compare(metadata, Relation::Equal, left, right, None)
}

/// Checks that `left` equals `right`, as [`micro_assert_eq`] does. The record
/// of a failure carries `message` after the diagnostic.
pub fn micro_assert_eq_with<'a, L, R>(
    metadata: Metadata,
    left: &L,
    right: &R,
    message: &'a str,
) -> (result: TestResult<'a>) where L: PartialEq<R> + Debug + ?Sized, R: Debug + ?Sized
    ensures
        L::obeys_eq_spec() ==> (result is Ok <==> Relation::Equal.holds(left, right)),
        call_ensures(L::eq, (left, right), result is Ok),
        result is Ok ==> result == Ok::<Metadata, Error<'a>>(metadata),
        result matches Err(error) ==> records_comparison(
            error,
            metadata,
            Relation::Equal,
            Some(message),
        ),
        result matches Err(error) ==> error.cause@.rendering() == comparison_text(
            Relation::Equal,
            error.cause->left@,
            error.cause->right@,
        ) + ": "@ + message@,
{
    compare(metadata, Relation::Equal, left, right, Some(message))
}

/// Checks that `left` differs from `right`.
///
/// Whether the check passes is the result of `left != right`: what the
/// operand types specify of that result holds of `result is Ok`, and where
/// they specify their equality, the check passes exactly on operands that
/// are not equal. The record of a failure carries what `Debug` writes for
/// each operand.
pub fn micro_assert_ne<L, R>(metadata: Metadata, left: &L, right: &R) -> (result: TestResult<
    'static,
>) where L: PartialEq<R> + Debug + ?Sized, R: Debug + ?Sized
    ensures
        L::obeys_eq_spec() ==> (result is Ok <==> Relation::NotEqual.holds(left, right)),
        call_ensures(L::ne, (left, right), result is Ok),
        result is Ok ==> result == Ok::<Metadata, Error<'static>>(metadata),
        result matches Err(error) ==> records_comparison(
            error,
            metadata,
            Relation::NotEqual,
            None,
        ),
        result matches Err(error) ==> error.cause@.rendering() == comparison_text(
            Relation::NotEqual,
            error.cause->left@,
            error.cause->right@,
        ),
{
    compare(metadata, Relation::NotEqual, left, right, None)
}

/// Checks that `left` differs from `right`, as [`micro_assert_ne`] does. The
/// record of a failure carries `message` after the diagnostic.
pub fn micro_assert_ne_with<'a, L, R>(
    metadata: Metadata,
    left: &L,
    right: &R,
    message: &'a str,
) -> (result: TestResult<'a>) where L: PartialEq<R> + Debug + ?Sized, R: Debug + ?Sized
    ensures
        L::obeys_eq_spec() ==> (result is Ok <==> Relation::NotEqual.holds(left, right)),
        call_ensures(L::ne, (left, right), result is Ok),
        result is Ok ==> result == Ok::<Metadata, Error<'a>>(metadata),
        result matches Err(error) ==> records_comparison(
            error,
            metadata,
            Relation::NotEqual,
            Some(message),
        ),
        result matches Err(error) ==> error.cause@.rendering() == comparison_text(
            Relation::NotEqual,
            error.cause->left@,
            error.cause->right@,
        ) + ": "@ + message@,
{
    compare(metadata, Relation::NotEqual, left, right, Some(message))
}

/// On operands whose equality is specified, the check for equality and the
/// check for inequality are complements: whatever the two return on the same
/// operands, one fails exactly when the other passes.
pub proof fn lemma_eq_and_ne_are_complements<L, R>(
    metadata: Metadata,
    left: &L,
    right: &R,
    from_eq: TestResult<'static>,
    from_ne: TestResult<'static>,
) where L: PartialEq<R> + Debug + ?Sized, R: Debug + ?Sized
    requires
        L::obeys_eq_spec(),
        call_ensures(micro_assert_eq::<L, R>, (metadata, left, right), from_eq),
        call_ensures(micro_assert_ne::<L, R>, (metadata, left, right), from_ne),
    ensures
        from_eq is Err <==> !left.eq_spec(right),
        from_ne is Err <==> left.eq_spec(right),
        from_eq is Err <==> from_ne is Ok,
        Relation::Equal.holds(left, right) <==> !Relation::NotEqual.holds(left, right),
{
}

/// The same holds of the two checks that carry a message, whatever the
/// messages are.
pub proof fn lemma_eq_and_ne_with_message_are_complements<'a, L, R>(
    metadata: Metadata,
    left: &L,
    right: &R,
    eq_message: &'a str,
    ne_message: &'a str,
    from_eq: TestResult<'a>,
    from_ne: TestResult<'a>,
) where L: PartialEq<R> + Debug + ?Sized, R: Debug + ?Sized
    requires
        L::obeys_eq_spec(),
        call_ensures(micro_assert_eq_with::<L, R>, (metadata, left, right, eq_message), from_eq),
        call_ensures(micro_assert_ne_with::<L, R>, (metadata, left, right, ne_message), from_ne),
    ensures
        from_eq is Err <==> !left.eq_spec(right),
        from_ne is Err <==> left.eq_spec(right),
        from_eq is Err <==> from_ne is Ok,
{
}

} // verus!
