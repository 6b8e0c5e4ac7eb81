//! The errors that building an instruction set can end in.

use crate::attribute::Entry;
use crate::attribute::EntryView;
use vstd::prelude::*;

verus! {

/// Why an instruction enumeration could not be turned into an instruction
/// set. `ident` names the case at which the build stopped.
#[derive(Debug, PartialEq, Eq)]
pub enum ParseError {
    /// The entry `entry` of the `discriminant` list of the case is no
    /// integer literal, or holds no value between 0 and `max`. `position`
    /// counts the entries of the list from zero.
    MalformedDiscriminantPayload { ident: String, position: usize, entry: Entry, max: u8 },
    /// The `discriminant` annotation of the case has no parenthesized list.
    InvalidDiscriminantForm { ident: String },
    /// The `discriminant` list of the case has `count` entries, where 1 or 8
    /// are asked for.
    WrongDiscriminantArity { ident: String, count: usize },
    /// The case `ident` has no `discriminant` annotation and stands at
    /// position `discriminant`, which is not below `limit`.
    DiscriminantOverflow { ident: String, discriminant: usize, limit: usize },
    /// What the extraction of accounts or of the cases themselves reported.
    Extraction { message: String },
}

/// The mathematical value of a [`ParseError`].
pub enum ParseErrorView {
    MalformedDiscriminantPayload { ident: Seq<char>, position: nat, entry: EntryView, max: u8 },
    InvalidDiscriminantForm { ident: Seq<char> },
    WrongDiscriminantArity { ident: Seq<char>, count: nat },
    DiscriminantOverflow { ident: Seq<char>, discriminant: nat, limit: nat },
    Extraction { message: Seq<char> },
}

impl View for ParseError {
    type V = ParseErrorView;

    open spec fn view(&self) -> ParseErrorView {
        match *self {
            ParseError::MalformedDiscriminantPayload { ident, position, entry, max } => {
                ParseErrorView::MalformedDiscriminantPayload {
                    ident: ident@,
                    position: position as nat,
                    entry: entry@,
                    max,
                }
            },
            ParseError::InvalidDiscriminantForm { ident } => {
                ParseErrorView::InvalidDiscriminantForm { ident: ident@ }
            },
            ParseError::WrongDiscriminantArity { ident, count } => {
                ParseErrorView::WrongDiscriminantArity { ident: ident@, count: count as nat }
            },
            ParseError::DiscriminantOverflow { ident, discriminant, limit } => {
                ParseErrorView::DiscriminantOverflow {
                    ident: ident@,
                    discriminant: discriminant as nat,
                    limit: limit as nat,
                }
            },
            ParseError::Extraction { message } => ParseErrorView::Extraction { message: message@ },
        }
    }
}

impl DeepView for ParseError {
    type V = ParseErrorView;

    open spec fn deep_view(&self) -> ParseErrorView {
        self@
    }
}

/// The mathematical value of an outcome: that of the value on success, that
/// of the error on failure.
pub open spec fn outcome_view<T: DeepView>(outcome: Result<T, ParseError>) -> Result<
    T::V,
    ParseErrorView,
> {
    match outcome {
        Ok(value) => Ok(value.deep_view()),
        Err(error) => Err(error@),
    }
}

impl Clone for ParseError {
    fn clone(&self) -> (copy: Self)
        ensures
            copy@ == self@,
    {
        match self {
            ParseError::MalformedDiscriminantPayload { ident, position, entry, max } => {
                ParseError::MalformedDiscriminantPayload {
                    ident: ident.clone(),
                    position: *position,
                    entry: entry.clone(),
                    max: *max,
                }
            },
            ParseError::InvalidDiscriminantForm { ident } => {
                ParseError::InvalidDiscriminantForm { ident: ident.clone() }
            },
            ParseError::WrongDiscriminantArity { ident, count } => {
                ParseError::WrongDiscriminantArity { ident: ident.clone(), count: *count }
            },
            ParseError::DiscriminantOverflow { ident, discriminant, limit } => {
                ParseError::DiscriminantOverflow {
                    ident: ident.clone(),
                    discriminant: *discriminant,
                    limit: *limit,
                }
            },
            ParseError::Extraction { message } => ParseError::Extraction { message: message.clone() },
        }
    }
}

} // verus!
