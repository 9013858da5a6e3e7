//! The failure record and the outcome of a check.

use crate::cause::{Cause, CauseView};
use crate::metadata::{Metadata, MetadataView};
use vstd::prelude::*;
use vstd::string::*;

verus! {

/// The record of one failed check: which test failed, and why.
#[derive(Debug)]
pub struct Error<'a> {
    pub metadata: Metadata,
    pub cause: Cause<'a>,
}

/// The outcome of one check: the identity of the test when the check passed,
/// the failure record when it did not.
pub type TestResult<'a> = Result<Metadata, Error<'a>>;

/// What an [`Error`] stands for.
pub struct ErrorView {
    pub metadata: MetadataView,
    pub cause: CauseView,
}

impl ErrorView {
    /// The text of the record: the test, the fixed words, and the cause
    /// between single quotes.
    pub open spec fn rendering(self) -> Seq<char> {
        self.metadata.rendering() + " test failed at '"@ + self.cause.rendering() + "'"@
    }
}

impl<'a> View for Error<'a> {
    type V = ErrorView;

    open spec fn view(&self) -> ErrorView {
        ErrorView { metadata: self.metadata@, cause: self.cause@ }
    }
}

impl<'a> Clone for Error<'a> {
    fn clone(&self) -> (copy: Self)
        ensures
            copy == *self,
    {
        Error { metadata: self.metadata, cause: self.cause.clone() }
    }
}

impl<'a> Error<'a> {
    /// Attaches the caller's `message` to the cause of the record; see
    /// [`Cause::with_message`].
    pub fn with_message(self, message: &'a str) -> (noted: Error<'a>)
        ensures
            noted == (Error { metadata: self.metadata, cause: self.cause.annotated(message) }),
    {
        Error { metadata: self.metadata, cause: self.cause.with_message(message) }
    }

    /// Renders the record as text.
    pub fn to_string(&self) -> (text: String)
        ensures
            text@ == self@.rendering(),
            text@ == self.metadata@.rendering() + " test failed at '"@ + self.cause@.rendering()
                + "'"@,
    {
        let mut text = self.metadata.to_string();
        let cause = self.cause.to_string();
        text.append(" test failed at '");
        text.append(cause.as_str());
        text.append("'");
        text
    }
}

} // verus!
