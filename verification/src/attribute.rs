//! Annotations as the instruction builder reads them.
//!
//! An annotation is a tag and a payload. Of an integer literal in a payload the
//! model keeps the digits in base 10; of everything else it keeps the kind.

use vstd::prelude::*;

verus! {

/// One entry of a parenthesized payload.
#[derive(Debug, PartialEq, Eq)]
pub enum Entry {
    /// An integer literal, held by its digits in base 10.
    Int(String),
    /// A literal of another kind: a string, a character, a float, a boolean.
    OtherLiteral,
    /// Anything that is no literal: a word, a nested list, a `key = value` pair.
    NonLiteral,
}

/// The mathematical value of an [`Entry`].
pub enum EntryView {
    Int(Seq<char>),
    OtherLiteral,
    NonLiteral,
}

impl View for Entry {
    type V = EntryView;

    open spec fn view(&self) -> EntryView {
        match *self {
            Entry::Int(digits) => EntryView::Int(digits@),
            Entry::OtherLiteral => EntryView::OtherLiteral,
            Entry::NonLiteral => EntryView::NonLiteral,
        }
    }
}

impl DeepView for Entry {
    type V = EntryView;

    open spec fn deep_view(&self) -> EntryView {
        self@
    }
}

impl Clone for Entry {
    fn clone(&self) -> (copy: Self)
        ensures
            copy@ == self@,
    {
        match self {
            Entry::Int(digits) => Entry::Int(digits.clone()),
            Entry::OtherLiteral => Entry::OtherLiteral,
            Entry::NonLiteral => Entry::NonLiteral,
        }
    }
}

/// What follows the tag of an annotation.
#[derive(Debug, PartialEq, Eq)]
pub enum Payload {
    /// Nothing: the annotation is a bare flag.
    Absent,
    /// A single value that is neither a list nor a `key = value` pair.
    Value,
    /// A `key = value` pair.
    KeyValue,
    /// A parenthesized, comma-separated list.
    List(Vec<Entry>),
}

/// The mathematical value of a [`Payload`].
pub enum PayloadView {
    Absent,
    Value,
    KeyValue,
    List(Seq<EntryView>),
}

impl View for Payload {
    type V = PayloadView;

    open spec fn view(&self) -> PayloadView {
        match *self {
            Payload::Absent => PayloadView::Absent,
            Payload::Value => PayloadView::Value,
            Payload::KeyValue => PayloadView::KeyValue,
            Payload::List(entries) => PayloadView::List(entries.deep_view()),
        }
    }
}

/// An annotation attached to an enumeration or to one of its cases.
#[derive(Debug, PartialEq, Eq)]
pub struct Attribute {
    /// The tag, such as `discriminant` or `account`.
    pub name: String,
    pub payload: Payload,
}

/// The mathematical value of an [`Attribute`].
pub struct AttributeView {
    pub name: Seq<char>,
    pub payload: PayloadView,
}

impl View for Attribute {
    type V = AttributeView;

    open spec fn view(&self) -> AttributeView {
        AttributeView { name: self.name@, payload: self.payload@ }
    }
}

impl DeepView for Attribute {
    type V = AttributeView;

    open spec fn deep_view(&self) -> AttributeView {
        self@
    }
}

} // verus!
