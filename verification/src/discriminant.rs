//! The wire discriminant of an instruction, and how annotations give it.

use crate::attribute::Attribute;
use crate::attribute::AttributeView;
use crate::attribute::Entry;
use crate::attribute::EntryView;
use crate::attribute::Payload;
use crate::attribute::PayloadView;
use crate::error::outcome_view;
use crate::error::ParseError;
use crate::error::ParseErrorView;
use vstd::prelude::*;
use vstd::string::StrSliceExecFns;

verus! {

/// The tag of the annotation that gives a case its discriminant.
pub const IX_DISCRIMINANT: &'static str = "discriminant";

/// The largest position that still gives a discriminant is one below this.
pub const MAX_DISCRIMINANT: usize = 255;

/// The largest value that an entry of a `discriminant` list may hold.
pub const MAX_BYTE: u8 = 255;

/// The tag that identifies an instruction on the wire.
#[allow(inconsistent_fields)]
#[derive(Debug, PartialEq, Eq)]
pub enum InstructionDiscriminant {
    /// A single byte, given by an annotation or taken from the position of
    /// the case.
    IncrementDiscriminant { discriminant: u8 },
    /// Exactly eight bytes, given by an annotation.
    ArrayDiscriminant { discriminant: [u8; 8] },
    /// No annotation gives a discriminant. No finished variant holds this.
    NoDiscriminant,
}

/// The mathematical value of an [`InstructionDiscriminant`].
pub enum DiscriminantView {
    Increment(u8),
    Array(Seq<u8>),
    Unset,
}

impl View for InstructionDiscriminant {
    type V = DiscriminantView;

    open spec fn view(&self) -> DiscriminantView {
        match *self {
            InstructionDiscriminant::IncrementDiscriminant { discriminant } => {
                DiscriminantView::Increment(discriminant)
            },
            InstructionDiscriminant::ArrayDiscriminant { discriminant } => {
                DiscriminantView::Array(discriminant@)
            },
            InstructionDiscriminant::NoDiscriminant => DiscriminantView::Unset,
        }
    }
}

impl DeepView for InstructionDiscriminant {
    type V = DiscriminantView;

    open spec fn deep_view(&self) -> DiscriminantView {
        self@
    }
}

/// The discriminant that the list of numbers of the case `ident` stands
/// for: one number is a single byte, eight numbers are the eight bytes in
/// the order given, and every other count is refused.
pub open spec fn discriminant_of_numbers(numbers: Seq<u8>, ident: Seq<char>) -> Result<
    DiscriminantView,
    ParseErrorView,
> {
    if numbers.len() == 1 {
        Ok(DiscriminantView::Increment(numbers[0]))
    } else if numbers.len() == 8 {
        Ok(DiscriminantView::Array(numbers))
    } else {
        Err(ParseErrorView::WrongDiscriminantArity { ident, count: numbers.len() })
    }
}

/// Whether `c` is one of the ten digits.
pub open spec fn is_digit(c: char) -> bool {
    '0' <= c && c <= '9'
}

/// Whether `digits` is a number written in base 10: at least one character,
/// and digits only.
pub open spec fn is_decimal(digits: Seq<char>) -> bool {
    &&& digits.len() > 0
    &&& forall|i: int| 0 <= i < digits.len() ==> is_digit(#[trigger] digits[i])
}

/// The number that `digits` writes in base 10.
pub open spec fn decimal_value(digits: Seq<char>) -> nat
    decreases digits.len(),
{
    if digits.len() == 0 {
        0
    } else {
        (10 * decimal_value(digits.drop_last()) + (digits.last() as nat - '0' as nat)) as nat
    }
}

/// The byte that an integer literal with these digits holds, if it holds one:
/// the digits are a number in base 10 and that number is at most 255.
pub open spec fn literal_u8(digits: Seq<char>) -> Option<u8> {
    if is_decimal(digits) && decimal_value(digits) <= MAX_BYTE {
        Some(decimal_value(digits) as u8)
    } else {
        None
    }
}

/// The byte that an entry of a `discriminant` list gives: only an integer
/// literal gives one.
pub open spec fn entry_u8(entry: EntryView) -> Option<u8> {
    match entry {
        EntryView::Int(digits) => literal_u8(digits),
        _ => None,
    }
}

/// Whether the entry at `i` is the first that gives no byte.
pub open spec fn first_malformed(entries: Seq<EntryView>, i: int) -> bool {
    &&& 0 <= i < entries.len()
    &&& entry_u8(entries[i]) is None
    &&& forall|j: int| 0 <= j < i ==> entry_u8(#[trigger] entries[j]) is Some
}

/// The bytes of the `discriminant` list of the case `ident` in the order
/// given, or the first entry that gives none, with its position.
pub open spec fn numbers_of(entries: Seq<EntryView>, ident: Seq<char>) -> Result<
    Seq<u8>,
    ParseErrorView,
> {
    if exists|i: int| first_malformed(entries, i) {
        let first = choose|i: int| first_malformed(entries, i);
        Err(
            ParseErrorView::MalformedDiscriminantPayload {
                ident,
                position: first as nat,
                entry: entries[first],
                max: MAX_BYTE,
            },
        )
    } else {
        Ok(Seq::new(entries.len(), |i: int| entry_u8(entries[i])->Some_0))
    }
}

/// The first entry that gives no byte decides the outcome: the error holds
/// this entry and its position.
pub proof fn lemma_numbers_of_malformed(entries: Seq<EntryView>, ident: Seq<char>, i: int)
    requires
        first_malformed(entries, i),
    ensures
        numbers_of(entries, ident) == Err::<Seq<u8>, ParseErrorView>(
            ParseErrorView::MalformedDiscriminantPayload {
                ident,
                position: i as nat,
                entry: entries[i],
                max: MAX_BYTE,
            },
        ),
{
    let k = choose|k: int| first_malformed(entries, k);
    assert(first_malformed(entries, k));
    if k < i {
        assert(entry_u8(entries[k]) is Some);
    }
    if i < k {
        assert(entry_u8(entries[i]) is Some);
    }
}

/// Where every entry gives a byte, the outcome is those bytes in the order of
/// the entries.
pub proof fn lemma_numbers_of_bytes(
    entries: Seq<EntryView>,
    ident: Seq<char>,
    numbers: Seq<u8>,
)
    requires
        numbers.len() == entries.len(),
        forall|j: int|
            0 <= j < entries.len() ==> entry_u8(#[trigger] entries[j]) == Some(numbers[j]),
    ensures
        numbers_of(entries, ident) == Ok::<Seq<u8>, ParseErrorView>(numbers),
{
    assert forall|k: int| !first_malformed(entries, k) by {
        if 0 <= k < entries.len() {
            assert(entry_u8(entries[k]) is Some);
        }
    }
    assert(numbers =~= Seq::new(entries.len(), |k: int| entry_u8(entries[k])->Some_0));
}

/// The discriminant that the payload of a `discriminant` annotation of the
/// case `ident` gives.
pub open spec fn discriminant_of_payload(payload: PayloadView, ident: Seq<char>) -> Result<
    DiscriminantView,
    ParseErrorView,
> {
    match payload {
        PayloadView::List(entries) => match numbers_of(entries, ident) {
            Ok(numbers) => discriminant_of_numbers(numbers, ident),
            Err(error) => Err(error),
        },
        _ => Err(ParseErrorView::InvalidDiscriminantForm { ident }),
    }
}

/// Whether an annotation is the one that gives a discriminant.
pub open spec fn is_discriminant(attr: AttributeView) -> bool {
    attr.name == IX_DISCRIMINANT@
}

/// Whether the annotation at `i` is the first `discriminant` annotation.
pub open spec fn first_discriminant(attrs: Seq<AttributeView>, i: int) -> bool {
    &&& 0 <= i < attrs.len()
    &&& is_discriminant(attrs[i])
    &&& forall|j: int| 0 <= j < i ==> !is_discriminant(#[trigger] attrs[j])
}

/// The discriminant that the annotations of the case `ident` give: that of
/// the first `discriminant` annotation, whatever follows it, and `Unset`
/// where there is none.
pub open spec fn resolve(attrs: Seq<AttributeView>, ident: Seq<char>) -> Result<
    DiscriminantView,
    ParseErrorView,
> {
    if exists|i: int| first_discriminant(attrs, i) {
        discriminant_of_payload(
            attrs[choose|i: int| first_discriminant(attrs, i)].payload,
            ident,
        )
    } else {
        Ok(DiscriminantView::Unset)
    }
}

/// The first `discriminant` annotation decides the outcome, whatever the
/// annotations after it hold.
pub proof fn lemma_resolve_first(attrs: Seq<AttributeView>, ident: Seq<char>, i: int)
    requires
        first_discriminant(attrs, i),
    ensures
        resolve(attrs, ident) == discriminant_of_payload(attrs[i].payload, ident),
{
    let k = choose|k: int| first_discriminant(attrs, k);
    assert(first_discriminant(attrs, k));
    if k < i {
        assert(!is_discriminant(attrs[k]));
    }
    if i < k {
        assert(!is_discriminant(attrs[i]));
    }
}

/// Without a `discriminant` annotation the outcome is `Unset`, and no error.
pub proof fn lemma_resolve_unset(attrs: Seq<AttributeView>, ident: Seq<char>)
    requires
        forall|j: int| 0 <= j < attrs.len() ==> !is_discriminant(#[trigger] attrs[j]),
    ensures
        resolve(attrs, ident) == Ok::<DiscriminantView, ParseErrorView>(DiscriminantView::Unset),
{
    assert forall|k: int| !first_discriminant(attrs, k) by {
        if 0 <= k < attrs.len() {
            assert(!is_discriminant(attrs[k]));
        }
    }
}

/// The discriminant of a case that no annotation gives one: its position
/// among the cases, which has to be below 255. Positions never wrap.
pub open spec fn default_discriminant(ordinal: nat, ident: Seq<char>) -> Result<
    DiscriminantView,
    ParseErrorView,
> {
    if ordinal >= MAX_DISCRIMINANT {
        Err(
            ParseErrorView::DiscriminantOverflow {
                ident,
                discriminant: ordinal,
                limit: MAX_DISCRIMINANT as nat,
            },
        )
    } else {
        Ok(DiscriminantView::Increment(ordinal as u8))
    }
}

/// The discriminant of a finished variant: what the annotations give, and
/// the position of the case only where they give nothing.
pub open spec fn final_discriminant(
    explicit: DiscriminantView,
    ordinal: nat,
    ident: Seq<char>,
) -> Result<DiscriminantView, ParseErrorView> {
    match explicit {
        DiscriminantView::Unset => default_discriminant(ordinal, ident),
        _ => Ok(explicit),
    }
}

/// Whether every character of `digits` is a digit, and there is one.
fn is_decimal_digits(digits: &str) -> (decimal: bool)
    ensures
        decimal == is_decimal(digits@),
{
    let len: usize = digits.unicode_len();
    if len == 0 {
        return false;
    }
    let mut i: usize = 0;
    while i < len
        invariant
            len == digits@.len(),
            i <= len,
            forall|j: int| 0 <= j < i ==> is_digit(#[trigger] digits@[j]),
        decreases len - i,
    {
        let c: char = digits.get_char(i);
        if !('0' <= c && c <= '9') {
            return false;
        }
        i = i + 1;
    }
    true
}

/// Calls `syn::LitInt::base10_parse::<u8>` on the literal that
/// `syn::LitInt::new` makes of `digits`.
///
/// `LitInt::new` panics on text that is no integer literal, so only numbers
/// in base 10 are handed to it. On those `base10_parse` reads the digits as
/// `u8::from_str` does: it gives the number where it is at most 255, and an
/// error, here `None`, where it is larger.
#[verifier::external_body]
fn base10_parse_u8(digits: &str) -> (value: Option<u8>)
    requires
        is_decimal(digits@),
    ensures
        value == literal_u8(digits@),
{
    syn::LitInt::new(digits, proc_macro2::Span::call_site()).base10_parse::<u8>().ok()
}

impl InstructionDiscriminant {
    /// Reads the byte of an integer literal from its digits in base 10.
    pub fn parse_u8(digits: &str) -> (value: Option<u8>)
        ensures
            value == literal_u8(digits@),
    {
        if is_decimal_digits(digits) {
            base10_parse_u8(digits)
        } else {
            None
        }
    }

    /// Hands back `attr` if it is a `discriminant` annotation.
    pub fn is_discriminant_attr(attr: &Attribute) -> (found: Option<&Attribute>)
        ensures
            found == if is_discriminant(attr@) {
                Some(attr)
            } else {
                None
            },
    {
        let tag: String = IX_DISCRIMINANT.to_owned();
        if attr.name == tag {
            Some(attr)
        } else {
            None
        }
    }

    /// Reads the discriminant that one `discriminant` annotation of the
    /// case `ident` gives.
    ///
    /// The payload has to be a parenthesized list of integer literals, each
    /// at most 255. The first entry that is not is handed back in the error,
    /// with its position. One number gives a single byte, eight give an
    /// array. Every error names the case.
    pub fn from_discriminant_attr(attr: &Attribute, ident: &String) -> (outcome: Result<
        InstructionDiscriminant,
        ParseError,
    >)
        ensures
            outcome_view(outcome) == discriminant_of_payload(attr@.payload, ident@),
    {
        match &attr.payload {
            Payload::List(entries) => {
                let ghost model = entries.deep_view();
                let mut numbers: Vec<u8> = Vec::new();
                let mut i: usize = 0;
                while i < entries.len()
                    invariant
                        model == entries.deep_view(),
                        attr@.payload == PayloadView::List(model),
                        i <= entries.len(),
                        numbers@.len() == i,
                        forall|j: int|
                            0 <= j < i ==> entry_u8(#[trigger] model[j]) == Some(numbers@[j]),
                    decreases entries.len() - i,
                {
                    let parsed: Option<u8> = match &entries[i] {
                        Entry::Int(digits) => Self::parse_u8(digits.as_str()),
                        _ => None,
                    };
                    assert(parsed == entry_u8(model[i as int]));
                    match parsed {
                        Some(number) => {
                            numbers.push(number);
                        },
                        None => {
                            proof {
                                lemma_numbers_of_malformed(model, ident@, i as int);
                            }
                            return Err(
                                ParseError::MalformedDiscriminantPayload {
                                    ident: ident.clone(),
                                    position: i,
                                    entry: entries[i].clone(),
                                    max: MAX_BYTE,
                                },
                            );
                        },
                    }
                    i = i + 1;
                }
                proof {
                    lemma_numbers_of_bytes(model, ident@, numbers@);
                }
                Self::from_numbers(&numbers, ident)
            },
            _ => Err(ParseError::InvalidDiscriminantForm { ident: ident.clone() }),
        }
    }

    /// Reads the discriminant that the annotations of the case `ident`
    /// give.
    ///
    /// Only the first `discriminant` annotation is read; later ones are
    /// ignored. Without one the outcome is `NoDiscriminant`.
    pub fn try_from(attrs: &Vec<Attribute>, ident: &String) -> (outcome: Result<
        InstructionDiscriminant,
        ParseError,
    >)
        ensures
            outcome_view(outcome) == resolve(attrs.deep_view(), ident@),
    {
        let ghost model = attrs.deep_view();
        let mut i: usize = 0;
        while i < attrs.len()
            invariant
                model == attrs.deep_view(),
                i <= attrs.len(),
                forall|j: int| 0 <= j < i ==> !is_discriminant(#[trigger] model[j]),
            decreases attrs.len() - i,
        {
            match Self::is_discriminant_attr(&attrs[i]) {
                Some(attr) => {
                    proof {
                        lemma_resolve_first(model, ident@, i as int);
                    }
                    return Self::from_discriminant_attr(attr, ident);
                },
                None => {},
            }
            i = i + 1;
        }
        proof {
            lemma_resolve_unset(model, ident@);
        }
        Ok(InstructionDiscriminant::NoDiscriminant)
    }

    /// The discriminant of the case `ident` at position `ordinal`, for a
    /// case without a `discriminant` annotation.
    pub fn default_for(ordinal: usize, ident: &String) -> (outcome: Result<
        InstructionDiscriminant,
        ParseError,
    >)
        ensures
            outcome_view(outcome) == default_discriminant(ordinal as nat, ident@),
    {
        if ordinal >= MAX_DISCRIMINANT {
            Err(
                ParseError::DiscriminantOverflow {
                    ident: ident.clone(),
                    discriminant: ordinal,
                    limit: MAX_DISCRIMINANT,
                },
            )
        } else {
            Ok(InstructionDiscriminant::IncrementDiscriminant { discriminant: ordinal as u8 })
        }
    }

    /// Turns the numbers of the `discriminant` list of the case `ident`
    /// into a discriminant.
    pub fn from_numbers(numbers: &Vec<u8>, ident: &String) -> (outcome: Result<
        InstructionDiscriminant,
        ParseError,
    >)
        ensures
            outcome_view(outcome) == discriminant_of_numbers(numbers@, ident@),
    {
        if numbers.len() == 1 {
            Ok(InstructionDiscriminant::IncrementDiscriminant { discriminant: numbers[0] })
        } else if numbers.len() == 8 {
            let bytes: [u8; 8] = [
                numbers[0],
                numbers[1],
                numbers[2],
                numbers[3],
                numbers[4],
                numbers[5],
                numbers[6],
                numbers[7],
            ];
            assert(bytes@ =~= numbers@);
            Ok(InstructionDiscriminant::ArrayDiscriminant { discriminant: bytes })
        } else {
            Err(ParseError::WrongDiscriminantArity { ident: ident.clone(), count: numbers.len() })
        }
    }
}

} // verus!
