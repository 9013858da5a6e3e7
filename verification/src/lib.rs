//! A minimal assertion and failure-reporting core for lightweight test runners.
//!
//! A check takes the identity of the running test and a condition. It hands
//! back that identity when the condition holds, and a structured failure
//! record when it does not. [`report`] delivers a failure to the result
//! handler of the caller and tells the test body whether to go on; leaving
//! the body is an ordinary `return` of the caller. Nothing here unwinds or
//! aborts, and no text is put together before a record is rendered.

pub mod assertion;
pub mod cause;
pub mod delivery;
pub mod error;
pub mod metadata;

pub use assertion::{
    micro_assert, micro_assert_eq, micro_assert_eq_with, micro_assert_ne, micro_assert_ne_with,
    micro_assert_with,
};
pub use cause::{Cause, Relation};
pub use delivery::report;
pub use error::{Error, TestResult};
pub use metadata::Metadata;
