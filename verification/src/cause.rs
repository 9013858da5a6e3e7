//! Why a check failed, kept as data until somebody asks for the text.

use vstd::prelude::*;
use vstd::std_specs::cmp::PartialEqSpec;
use vstd::string::*;

verus! {

/// The comparison that a two-operand check demands of its operands.
#[derive(Copy, Clone, Debug, PartialEq, Eq, Structural)]
pub enum Relation {
    /// The operands must be equal.
    Equal,
    /// The operands must differ.
    NotEqual,
}

impl Relation {
    /// Whether `left` and `right` satisfy the relation under the equality of
    /// their types.
    pub open spec fn holds<L: PartialEq<R> + ?Sized, R: ?Sized>(self, left: &L, right: &R) -> bool {
        match self {
            Relation::Equal => left.eq_spec(right),
            Relation::NotEqual => !left.eq_spec(right),
        }
    }

    /// First line of the diagnostic of a failed comparison.
    pub open spec fn headline(self) -> Seq<char> {
        match self {
            Relation::Equal => "assertion failed: `(left == right)`"@,
            Relation::NotEqual => "assertion failed: `(left != right)`"@,
        }
    }

    /// First line of the diagnostic of a failed comparison.
    pub fn headline_text(self) -> (line: &'static str)
        ensures
            line@ == self.headline(),
    {
        match self {
            Relation::Equal => "assertion failed: `(left == right)`",
            Relation::NotEqual => "assertion failed: `(left != right)`",
        }
    }
}

/// The cause of a failure: which diagnostic applies, and the values that go
/// into it. No text is put together before the cause is rendered.
///
/// What a cause borrows belongs to the caller of the check, so a cause has to
/// be rendered or handed on before that caller returns.
#[derive(Debug)]
pub enum Cause<'a> {
    /// A condition was false; `expression` is its source text.
    Condition { expression: &'a str },
    /// A condition was false and the caller gave its own message.
    Message { text: &'a str },
    /// Two operands did not satisfy `relation`. `left` and `right` are their
    /// diagnostic renderings, `note` the caller's message if it gave one.
    Comparison { relation: Relation, left: String, right: String, note: Option<&'a str> },
}

/// What a [`Cause`] stands for: the same variants over sequences of
/// characters.
pub enum CauseView {
    Condition { expression: Seq<char> },
    Message { text: Seq<char> },
    Comparison { relation: Relation, left: Seq<char>, right: Seq<char>, note: Option<Seq<char>> },
}

/// The diagnostic of a false condition with source text `expression`.
pub open spec fn condition_text(expression: Seq<char>) -> Seq<char> {
    "assertion failed: `"@ + expression + "`"@
}

/// The diagnostic of a failed comparison: the headline, then one line for
/// each operand.
pub open spec fn comparison_text(relation: Relation, left: Seq<char>, right: Seq<char>) -> Seq<
    char,
> {
    relation.headline() + "\n left: `"@ + left + "`,\nright: `"@ + right + "`"@
}

impl CauseView {
    /// The text of the cause.
    pub open spec fn rendering(self) -> Seq<char> {
        match self {
            CauseView::Condition { expression } => condition_text(expression),
            CauseView::Message { text } => text,
            CauseView::Comparison { relation, left, right, note } => match note {
                Some(message) => comparison_text(relation, left, right) + ": "@ + message,
                None => comparison_text(relation, left, right),
            },
        }
    }
}

impl<'a> View for Cause<'a> {
    type V = CauseView;

    open spec fn view(&self) -> CauseView {
        match self {
            Cause::Condition { expression } => CauseView::Condition { expression: expression@ },
            Cause::Message { text } => CauseView::Message { text: text@ },
            Cause::Comparison { relation, left, right, note } => CauseView::Comparison {
                relation: *relation,
                left: left@,
                right: right@,
                note: match note {
                    Some(message) => Some(message@),
                    None => None,
                },
            },
        }
    }
}

impl<'a> Clone for Cause<'a> {
    fn clone(&self) -> (copy: Self)
        ensures
            copy == *self,
    {
        match self {
            Cause::Condition { expression } => Cause::Condition { expression: *expression },
            Cause::Message { text } => Cause::Message { text: *text },
            Cause::Comparison { relation, left, right, note } => Cause::Comparison {
                relation: *relation,
                left: left.clone(),
                right: right.clone(),
                note: *note,
            },
        }
    }
}

impl<'a> Cause<'a> {
    /// The cause with the caller's `message` put where its kind of check
    /// shows one: after the diagnostic of a comparison, and in place of the
    /// diagnostic of a condition.
    pub open spec fn annotated(self, message: &'a str) -> Cause<'a> {
        match self {
            Cause::Comparison { relation, left, right, note } => Cause::Comparison {
                relation,
                left,
                right,
                note: Some(message),
            },
            _ => Cause::Message { text: message },
        }
    }

    /// Attaches the caller's `message` to the cause. A caller that holds a
    /// failure before it formats its message pays for the formatting on
    /// failures alone.
    pub fn with_message(self, message: &'a str) -> (noted: Cause<'a>)
        ensures
            noted == self.annotated(message),
            self matches Cause::Comparison { relation, left, right, .. } ==> noted@.rendering()
                == comparison_text(relation, left@, right@) + ": "@ + message@,
            !(self is Comparison) ==> noted@.rendering() == message@,
    {
        match self {
            Cause::Comparison { relation, left, right, note: _ } => Cause::Comparison {
                relation,
                left,
                right,
                note: Some(message),
            },
            _ => Cause::Message { text: message },
        }
    }

    /// Renders the cause as text.
    pub fn to_string(&self) -> (text: String)
        ensures
            text@ == self@.rendering(),
    {
        match self {
            Cause::Condition { expression } => {
                let mut text = String::from_str("assertion failed: `");
                text.append(expression);
                text.append("`");
                text
            },
            Cause::Message { text } => String::from_str(text),
            Cause::Comparison { relation, left, right, note } => {
                let mut text = String::from_str(relation.headline_text());
                text.append("\n left: `");
                text.append(left.as_str());
                text.append("`,\nright: `");
                text.append(right.as_str());
                text.append("`");
                match note {
                    Some(message) => {
                        text.append(": ");
                        text.append(message);
                    },
                    None => {},
                }
                text
            },
        }
    }
}

} // verus!
