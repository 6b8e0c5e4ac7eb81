//! An enumeration as the instruction builder receives it: its cases in the
//! order of declaration, each with its payload fields, its annotations, and
//! what the extraction of accounts and strategies gave for it.

use crate::account::InstructionAccount;
use crate::account::InstructionAccountView;
use crate::account::InstructionStrategy;
use crate::attribute::Attribute;
use crate::attribute::AttributeView;
use crate::error::ParseError;
use crate::error::ParseErrorView;
use vstd::prelude::*;

verus! {

/// The type of a payload field, by its name.
#[derive(Debug, PartialEq, Eq)]
pub struct RustType {
    pub ident: String,
}

/// The mathematical value of a [`RustType`].
pub struct RustTypeView {
    pub ident: Seq<char>,
}

impl View for RustType {
    type V = RustTypeView;

    open spec fn view(&self) -> RustTypeView {
        RustTypeView { ident: self.ident@ }
    }
}

impl DeepView for RustType {
    type V = RustTypeView;

    open spec fn deep_view(&self) -> RustTypeView {
        self@
    }
}

impl Clone for RustType {
    fn clone(&self) -> (copy: Self)
        ensures
            copy@ == self@,
    {
        RustType { ident: self.ident.clone() }
    }
}

/// One field of the payload of a case.
#[derive(Debug, PartialEq, Eq)]
pub struct ParsedStructField {
    /// The label of the field; a field of a tuple-like case has none.
    pub ident: Option<String>,
    pub rust_type: RustType,
}

/// The mathematical value of a [`ParsedStructField`].
pub struct ParsedStructFieldView {
    pub ident: Option<Seq<char>>,
    pub rust_type: RustTypeView,
}

impl View for ParsedStructField {
    type V = ParsedStructFieldView;

    open spec fn view(&self) -> ParsedStructFieldView {
        ParsedStructFieldView { ident: self.ident.deep_view(), rust_type: self.rust_type@ }
    }
}

impl DeepView for ParsedStructField {
    type V = ParsedStructFieldView;

    open spec fn deep_view(&self) -> ParsedStructFieldView {
        self@
    }
}

/// The mathematical value of what the extraction of accounts gave.
pub open spec fn accounts_view(accounts: Result<Vec<InstructionAccount>, ParseError>) -> Result<
    Seq<InstructionAccountView>,
    ParseErrorView,
> {
    match accounts {
        Ok(list) => Ok(list.deep_view()),
        Err(error) => Err(error@),
    }
}

/// One case of an enumeration.
#[derive(Debug, PartialEq, Eq)]
pub struct ParsedEnumVariant {
    pub ident: String,
    /// The payload fields in the order of declaration.
    pub fields: Vec<ParsedStructField>,
    /// The annotations in the order of the source.
    pub attrs: Vec<Attribute>,
    /// What the extraction of accounts gave for the annotations: the
    /// accounts in their order, or its error.
    pub accounts: Result<Vec<InstructionAccount>, ParseError>,
    /// What the extraction of strategies gave for the annotations. The list
    /// stands for a set: no strategy occurs twice.
    pub strategies: Vec<InstructionStrategy>,
}

/// The mathematical value of a [`ParsedEnumVariant`].
pub struct ParsedEnumVariantView {
    pub ident: Seq<char>,
    pub fields: Seq<ParsedStructFieldView>,
    pub attrs: Seq<AttributeView>,
    pub accounts: Result<Seq<InstructionAccountView>, ParseErrorView>,
    pub strategies: Seq<InstructionStrategy>,
}

impl View for ParsedEnumVariant {
    type V = ParsedEnumVariantView;

    open spec fn view(&self) -> ParsedEnumVariantView {
        ParsedEnumVariantView {
            ident: self.ident@,
            fields: self.fields.deep_view(),
            attrs: self.attrs.deep_view(),
            accounts: accounts_view(self.accounts),
            strategies: self.strategies@,
        }
    }
}

impl DeepView for ParsedEnumVariant {
    type V = ParsedEnumVariantView;

    open spec fn deep_view(&self) -> ParsedEnumVariantView {
        self@
    }
}

/// Whether the labels of the fields agree with the first field: where the
/// first field has a label, every field has one. The fields of a case that
/// was read from source agree; the builders do not ask for it.
pub open spec fn labels_agree(fields: Seq<ParsedStructFieldView>) -> bool {
    fields.len() > 0 && fields[0].ident is Some ==> forall|i: int|
        0 <= i < fields.len() ==> (#[trigger] fields[i]).ident is Some
}

impl ParsedEnumVariantView {
    /// What the builders ask of a case: its list of strategies stands for a
    /// set, so no strategy occurs twice.
    pub open spec fn valid(self) -> bool {
        self.strategies.no_duplicates()
    }

    /// What holds of a case as a source file gives it: it is valid, and the
    /// labels of its fields agree.
    pub open spec fn wf(self) -> bool {
        &&& self.valid()
        &&& labels_agree(self.fields)
    }
}

/// Whether the labels of `fields` agree with the first field.
fn check_labels(fields: &Vec<ParsedStructField>) -> (agree: bool)
    ensures
        agree == labels_agree(fields.deep_view()),
{
    if fields.len() == 0 || fields[0].ident.is_none() {
        return true;
    }
    let ghost model = fields.deep_view();
    let mut i: usize = 0;
    while i < fields.len()
        invariant
            model == fields.deep_view(),
            model.len() > 0,
            model[0].ident is Some,
            i <= fields.len(),
            forall|j: int| 0 <= j < i ==> (#[trigger] model[j]).ident is Some,
        decreases fields.len() - i,
    {
        if fields[i].ident.is_none() {
            assert(model[i as int].ident is None);
            return false;
        }
        i = i + 1;
    }
    true
}

/// Whether no strategy occurs twice in `strategies`.
fn check_strategies(strategies: &Vec<InstructionStrategy>) -> (distinct: bool)
    ensures
        distinct == strategies@.no_duplicates(),
{
    let mut i: usize = 0;
    while i < strategies.len()
        invariant
            i <= strategies.len(),
            forall|a: int, b: int| 0 <= a < b < i ==> strategies@[a] != strategies@[b],
        decreases strategies.len() - i,
    {
        let mut j: usize = 0;
        while j < i
            invariant
                i < strategies.len(),
                j <= i,
                forall|a: int| 0 <= a < j ==> strategies@[a] != strategies@[i as int],
            decreases i - j,
        {
            if strategies[j] == strategies[i] {
                return false;
            }
            j = j + 1;
        }
        i = i + 1;
    }
    true
}

impl ParsedEnumVariant {
    /// Whether the builders take this case.
    pub fn is_valid(&self) -> (ok: bool)
        ensures
            ok == self@.valid(),
    {
        check_strategies(&self.strategies)
    }

    /// Whether this case is as a source file gives it.
    pub fn is_well_formed(&self) -> (ok: bool)
        ensures
            ok == self@.wf(),
    {
        check_strategies(&self.strategies) && check_labels(&self.fields)
    }
}

/// An enumeration with its cases.
#[derive(Debug, PartialEq, Eq)]
pub struct ParsedEnum {
    pub ident: String,
    /// Whether the enumeration carries the marker that asks for an
    /// instruction set.
    pub derive_instruction: bool,
    /// The cases in the order of declaration.
    pub variants: Vec<ParsedEnumVariant>,
}

/// The mathematical value of a [`ParsedEnum`].
pub struct ParsedEnumView {
    pub ident: Seq<char>,
    pub derive_instruction: bool,
    pub variants: Seq<ParsedEnumVariantView>,
}

impl View for ParsedEnum {
    type V = ParsedEnumView;

    open spec fn view(&self) -> ParsedEnumView {
        ParsedEnumView {
            ident: self.ident@,
            derive_instruction: self.derive_instruction,
            variants: self.variants.deep_view(),
        }
    }
}

impl ParsedEnumView {
    /// What the builders ask of an enumeration: each of its cases is valid.
    pub open spec fn valid(self) -> bool {
        forall|i: int| 0 <= i < self.variants.len() ==> (#[trigger] self.variants[i]).valid()
    }

    /// What holds of an enumeration as a source file gives it: each of its
    /// cases is well formed.
    pub open spec fn wf(self) -> bool {
        forall|i: int| 0 <= i < self.variants.len() ==> (#[trigger] self.variants[i]).wf()
    }
}

impl ParsedEnum {
    /// Whether the builders take this enumeration.
    pub fn is_valid(&self) -> (ok: bool)
        ensures
            ok == self@.valid(),
    {
        let ghost cases = self.variants.deep_view();
        let mut i: usize = 0;
        while i < self.variants.len()
            invariant
                cases == self.variants.deep_view(),
                cases == self@.variants,
                i <= self.variants.len(),
                forall|j: int| 0 <= j < i ==> (#[trigger] cases[j]).valid(),
            decreases self.variants.len() - i,
        {
            if !self.variants[i].is_valid() {
                assert(!cases[i as int].valid());
                return false;
            }
            i = i + 1;
        }
        true
    }

    /// Whether this enumeration is as a source file gives it.
    pub fn is_well_formed(&self) -> (ok: bool)
        ensures
            ok == self@.wf(),
    {
        let ghost cases = self.variants.deep_view();
        let mut i: usize = 0;
        while i < self.variants.len()
            invariant
                cases == self.variants.deep_view(),
                cases == self@.variants,
                i <= self.variants.len(),
                forall|j: int| 0 <= j < i ==> (#[trigger] cases[j]).wf(),
            decreases self.variants.len() - i,
        {
            if !self.variants[i].is_well_formed() {
                assert(!cases[i as int].wf());
                return false;
            }
            i = i + 1;
        }
        true
    }
}

/// An enumeration item before its cases are known to be readable.
#[derive(Debug, PartialEq, Eq)]
pub struct ItemEnum {
    /// Whether the item carries the marker that asks for an instruction set.
    pub derive_instruction: bool,
    /// What reading the item gave: the enumeration, or the error of the
    /// first case that could not be read.
    pub parsed: Result<ParsedEnum, ParseError>,
}

/// The mathematical value of an [`ItemEnum`].
pub struct ItemEnumView {
    pub derive_instruction: bool,
    pub parsed: Result<ParsedEnumView, ParseErrorView>,
}

impl View for ItemEnum {
    type V = ItemEnumView;

    open spec fn view(&self) -> ItemEnumView {
        ItemEnumView {
            derive_instruction: self.derive_instruction,
            parsed: match self.parsed {
                Ok(parsed) => Ok(parsed@),
                Err(error) => Err(error@),
            },
        }
    }
}

impl ItemEnumView {
    /// What the builders ask of an item: the enumeration read from it, if
    /// there is one, is valid.
    pub open spec fn valid(self) -> bool {
        self.parsed matches Ok(parsed) ==> parsed.valid()
    }

    /// What holds of an item as a source file gives it: the enumeration read
    /// from it, if there is one, is well formed.
    pub open spec fn wf(self) -> bool {
        self.parsed matches Ok(parsed) ==> parsed.wf()
    }
}

impl ItemEnum {
    /// Whether the builders take this item.
    pub fn is_valid(&self) -> (ok: bool)
        ensures
            ok == self@.valid(),
    {
        match &self.parsed {
            Ok(parsed) => parsed.is_valid(),
            Err(_) => true,
        }
    }

    /// Whether this item is as a source file gives it.
    pub fn is_well_formed(&self) -> (ok: bool)
        ensures
            ok == self@.wf(),
    {
        match &self.parsed {
            Ok(parsed) => parsed.is_well_formed(),
            Err(_) => true,
        }
    }
}

} // verus!
