//! Instruction variants and the instruction set: how one case becomes a
//! variant, and how the cases of an enumeration become the set.

use crate::account::clone_accounts;
use crate::account::clone_strategies;
use crate::account::InstructionAccount;
use crate::account::InstructionAccountView;
use crate::account::InstructionStrategy;
use crate::discriminant::final_discriminant;
use crate::discriminant::resolve;
use crate::discriminant::DiscriminantView;
use crate::discriminant::InstructionDiscriminant;
use crate::error::outcome_view;
use crate::error::ParseError;
use crate::error::ParseErrorView;
use crate::parsed_enum::ItemEnum;
use crate::parsed_enum::ItemEnumView;
use crate::parsed_enum::ParsedEnum;
use crate::parsed_enum::ParsedEnumVariant;
use crate::parsed_enum::ParsedEnumVariantView;
use crate::parsed_enum::ParsedEnumView;
use crate::parsed_enum::ParsedStructField;
use crate::parsed_enum::ParsedStructFieldView;
use crate::parsed_enum::RustType;
use crate::parsed_enum::RustTypeView;
use vstd::prelude::*;

verus! {

/// The payload of a variant: unlabelled types in order, or labelled ones.
#[derive(Debug, PartialEq, Eq)]
pub enum InstructionVariantFields {
    Unnamed(Vec<RustType>),
    Named(Vec<(String, RustType)>),
}

/// The mathematical value of an [`InstructionVariantFields`].
pub enum FieldsView {
    Unnamed(Seq<RustTypeView>),
    Named(Seq<(Seq<char>, RustTypeView)>),
}

impl View for InstructionVariantFields {
    type V = FieldsView;

    open spec fn view(&self) -> FieldsView {
        match *self {
            InstructionVariantFields::Unnamed(types) => FieldsView::Unnamed(types.deep_view()),
            InstructionVariantFields::Named(fields) => FieldsView::Named(fields.deep_view()),
        }
    }
}

/// The label under which a field stands in a labelled payload: its own
/// label, and the empty label where it has none.
pub open spec fn label_of(field: ParsedStructFieldView) -> Seq<char> {
    match field.ident {
        Some(label) => label,
        None => Seq::empty(),
    }
}

/// The shape of a payload. The first field decides for all: where it has a
/// label, every field is taken with its label, one entry for each field in
/// the order of the fields, and a later field without a label is taken with
/// the empty label. Where the first field has none, or where there is no
/// field, the types are taken without labels.
pub open spec fn field_shape(fields: Seq<ParsedStructFieldView>) -> FieldsView {
    if fields.len() > 0 && fields[0].ident is Some {
        FieldsView::Named(
            Seq::new(fields.len(), |i: int| (label_of(fields[i]), fields[i].rust_type)),
        )
    } else {
        FieldsView::Unnamed(Seq::new(fields.len(), |i: int| fields[i].rust_type))
    }
}

impl InstructionVariantFields {
    /// Classifies the payload fields of a case. It never fails: a case that
    /// mixes fields with and without labels goes by its first field.
    pub fn from_fields(fields: &Vec<ParsedStructField>) -> (shape: InstructionVariantFields)
        ensures
            shape@ == field_shape(fields.deep_view()),
    {
        let ghost model = fields.deep_view();
        if fields.len() > 0 && fields[0].ident.is_some() {
            let mut named: Vec<(String, RustType)> = Vec::new();
            let mut i: usize = 0;
            while i < fields.len()
                invariant
                    model == fields.deep_view(),
                    i <= fields.len(),
                    named@.len() == i,
                    forall|j: int|
                        0 <= j < i ==> (#[trigger] named@[j]).deep_view() == (
                            label_of(model[j]),
                            model[j].rust_type,
                        ),
                decreases fields.len() - i,
            {
                let label: String = match &fields[i].ident {
                    Some(label) => label.clone(),
                    None => String::new(),
                };
                named.push((label, fields[i].rust_type.clone()));
                i = i + 1;
            }
            assert(named.deep_view() =~= Seq::new(
                model.len(),
                |i: int| (label_of(model[i]), model[i].rust_type),
            ));
            InstructionVariantFields::Named(named)
        } else {
            let mut types: Vec<RustType> = Vec::new();
            let mut i: usize = 0;
            while i < fields.len()
                invariant
                    model == fields.deep_view(),
                    i <= fields.len(),
                    types@.len() == i,
                    forall|j: int| 0 <= j < i ==> (#[trigger] types@[j])@ == model[j].rust_type,
                decreases fields.len() - i,
            {
                types.push(fields[i].rust_type.clone());
                i = i + 1;
            }
            assert(types.deep_view() =~= Seq::new(model.len(), |i: int| model[i].rust_type));
            InstructionVariantFields::Unnamed(types)
        }
    }
}

/// One instruction: a case of the enumeration with its discriminant decided.
#[derive(Debug, PartialEq, Eq)]
pub struct InstructionVariant {
    pub ident: String,
    pub field_tys: InstructionVariantFields,
    /// The required accounts, in the order in which they were extracted.
    pub accounts: Vec<InstructionAccount>,
    /// The strategies. The list stands for a set: no strategy occurs twice.
    pub strategies: Vec<InstructionStrategy>,
    /// Never `NoDiscriminant`.
    pub discriminant: InstructionDiscriminant,
}

/// The mathematical value of an [`InstructionVariant`].
pub struct InstructionVariantView {
    pub ident: Seq<char>,
    pub field_tys: FieldsView,
    pub accounts: Seq<InstructionAccountView>,
    pub strategies: Seq<InstructionStrategy>,
    pub discriminant: DiscriminantView,
}

impl View for InstructionVariant {
    type V = InstructionVariantView;

    open spec fn view(&self) -> InstructionVariantView {
        InstructionVariantView {
            ident: self.ident@,
            field_tys: self.field_tys@,
            accounts: self.accounts.deep_view(),
            strategies: self.strategies@,
            discriminant: self.discriminant@,
        }
    }
}

impl DeepView for InstructionVariant {
    type V = InstructionVariantView;

    open spec fn deep_view(&self) -> InstructionVariantView {
        self@
    }
}

impl InstructionVariantView {
    /// What holds of every finished variant: its discriminant is decided, an
    /// array discriminant has eight bytes, and no strategy occurs twice.
    pub open spec fn wf(self) -> bool {
        &&& self.discriminant !is Unset
        &&& self.discriminant matches DiscriminantView::Array(bytes) ==> bytes.len() == 8
        &&& self.strategies.no_duplicates()
    }
}

/// The variant that the case at position `ordinal` becomes.
///
/// The shape of the payload never fails. An error of the account extraction
/// comes first, then one of the
/// `discriminant` annotation, then that of a position that is too large.
/// Accounts and strategies are carried over as they are, and the
/// discriminant is that of the annotation wherever there is one.
pub open spec fn assemble(case: ParsedEnumVariantView, ordinal: nat) -> Result<
    InstructionVariantView,
    ParseErrorView,
> {
    match case.accounts {
        Err(error) => Err(error),
        Ok(accounts) => match resolve(case.attrs, case.ident) {
            Err(error) => Err(error),
            Ok(explicit) => match final_discriminant(explicit, ordinal, case.ident) {
                Err(error) => Err(error),
                Ok(discriminant) => Ok(
                    InstructionVariantView {
                        ident: case.ident,
                        field_tys: field_shape(case.fields),
                        accounts,
                        strategies: case.strategies,
                        discriminant,
                    },
                ),
            },
        },
    }
}

impl InstructionVariant {
    /// Assembles the variant of one case. `ordinal` is the position of the
    /// case among all cases of its enumeration, counted from zero.
    pub fn try_from(variant: &ParsedEnumVariant, ordinal: usize) -> (outcome: Result<
        InstructionVariant,
        ParseError,
    >)
        requires
            variant@.valid(),
        ensures
            outcome_view(outcome) == assemble(variant@, ordinal as nat),
            outcome matches Ok(assembled) ==> assembled@.wf(),
    {
        let field_tys: InstructionVariantFields = InstructionVariantFields::from_fields(
            &variant.fields,
        );
        let accounts: Vec<InstructionAccount> = match &variant.accounts {
            Ok(accounts) => clone_accounts(accounts),
            Err(error) => {
                return Err(error.clone());
            },
        };
        let strategies: Vec<InstructionStrategy> = clone_strategies(&variant.strategies);
        let explicit: InstructionDiscriminant = match InstructionDiscriminant::try_from(
            &variant.attrs,
            &variant.ident,
        ) {
            Ok(explicit) => explicit,
            Err(error) => {
                return Err(error);
            },
        };
        let discriminant: InstructionDiscriminant = match explicit {
            InstructionDiscriminant::NoDiscriminant => {
                match InstructionDiscriminant::default_for(ordinal, &variant.ident) {
                    Ok(default) => default,
                    Err(error) => {
                        return Err(error);
                    },
                }
            },
            _ => explicit,
        };
        Ok(
            InstructionVariant {
                ident: variant.ident.clone(),
                field_tys,
                accounts,
                strategies,
                discriminant,
            },
        )
    }
}

/// The instruction set of an enumeration.
#[derive(Debug, PartialEq, Eq)]
pub struct Instruction {
    pub ident: String,
    /// The variants in the order in which the cases were declared.
    pub variants: Vec<InstructionVariant>,
}

/// The mathematical value of an [`Instruction`].
pub struct InstructionView {
    pub ident: Seq<char>,
    pub variants: Seq<InstructionVariantView>,
}

impl View for Instruction {
    type V = InstructionView;

    open spec fn view(&self) -> InstructionView {
        InstructionView { ident: self.ident@, variants: self.variants.deep_view() }
    }
}

impl DeepView for Instruction {
    type V = InstructionView;

    open spec fn deep_view(&self) -> InstructionView {
        self@
    }
}

impl InstructionView {
    /// What holds of every instruction set: each of its variants is well
    /// formed.
    pub open spec fn wf(self) -> bool {
        forall|i: int| 0 <= i < self.variants.len() ==> (#[trigger] self.variants[i]).wf()
    }
}

/// Whether the case at `i` is the first that cannot be assembled. The
/// ordinal of a case is its position among all cases.
pub open spec fn first_failure(cases: Seq<ParsedEnumVariantView>, i: int) -> bool {
    &&& 0 <= i < cases.len()
    &&& assemble(cases[i], i as nat) is Err
    &&& forall|j: int| 0 <= j < i ==> assemble(#[trigger] cases[j], j as nat) is Ok
}

/// The variants of all cases in the order of the cases, or the error of the
/// first case that cannot be assembled.
pub open spec fn build_variants(cases: Seq<ParsedEnumVariantView>) -> Result<
    Seq<InstructionVariantView>,
    ParseErrorView,
> {
    if exists|i: int| first_failure(cases, i) {
        let first = choose|i: int| first_failure(cases, i);
        Err(assemble(cases[first], first as nat)->Err_0)
    } else {
        Ok(Seq::new(cases.len(), |i: int| assemble(cases[i], i as nat)->Ok_0))
    }
}

/// The instruction set of an enumeration: its name and the variants of its
/// cases, or the error of the first case that fails.
pub open spec fn build(parsed: ParsedEnumView) -> Result<InstructionView, ParseErrorView> {
    match build_variants(parsed.variants) {
        Ok(variants) => Ok(InstructionView { ident: parsed.ident, variants }),
        Err(error) => Err(error),
    }
}

/// The outcome of a build that is made only on request: where none is made
/// there is no instruction set, and no error either.
pub open spec fn on_request(requested: bool, built: Result<InstructionView, ParseErrorView>) -> Result<
    Option<InstructionView>,
    ParseErrorView,
> {
    if requested {
        match built {
            Ok(instruction) => Ok(Some(instruction)),
            Err(error) => Err(error),
        }
    } else {
        Ok(None)
    }
}

/// The instruction set of an enumeration, only if the enumeration carries
/// the marker.
pub open spec fn build_marked(parsed: ParsedEnumView) -> Result<
    Option<InstructionView>,
    ParseErrorView,
> {
    on_request(parsed.derive_instruction, build(parsed))
}

/// The instruction set of an item. It is built where the item carries the
/// marker or `skip_derive_attr_check` is set. An item that is to be built and
/// could not be read gives its error.
pub open spec fn build_item(item: ItemEnumView, skip_derive_attr_check: bool) -> Result<
    Option<InstructionView>,
    ParseErrorView,
> {
    on_request(
        skip_derive_attr_check || item.derive_instruction,
        match item.parsed {
            Ok(parsed) => build(parsed),
            Err(error) => Err(error),
        },
    )
}

/// The first case that cannot be assembled decides the outcome of the
/// build: its error is the error of the whole.
pub proof fn lemma_build_failure(cases: Seq<ParsedEnumVariantView>, i: int)
    requires
        first_failure(cases, i),
    ensures
        build_variants(cases) == Err::<Seq<InstructionVariantView>, ParseErrorView>(
            assemble(cases[i], i as nat)->Err_0,
        ),
{
    let k = choose|k: int| first_failure(cases, k);
    assert(first_failure(cases, k));
    if k < i {
        assert(assemble(cases[k], k as nat) is Ok);
    }
    if i < k {
        assert(assemble(cases[i], i as nat) is Ok);
    }
}

/// Where every case can be assembled, the build gives the variants of the
/// cases in their order.
pub proof fn lemma_build_success(
    cases: Seq<ParsedEnumVariantView>,
    variants: Seq<InstructionVariantView>,
)
    requires
        variants.len() == cases.len(),
        forall|j: int|
            0 <= j < cases.len() ==> assemble(#[trigger] cases[j], j as nat) == Ok::<
                InstructionVariantView,
                ParseErrorView,
            >(variants[j]),
    ensures
        build_variants(cases) == Ok::<Seq<InstructionVariantView>, ParseErrorView>(variants),
{
    assert forall|k: int| !first_failure(cases, k) by {
        if 0 <= k < cases.len() {
            assert(assemble(cases[k], k as nat) is Ok);
        }
    }
    assert(variants =~= Seq::new(cases.len(), |i: int| assemble(cases[i], i as nat)->Ok_0));
}

/// Before a case that cannot be assembled there is a first such case.
pub proof fn lemma_first_failure_exists(cases: Seq<ParsedEnumVariantView>, i: int)
    requires
        0 <= i < cases.len(),
        assemble(cases[i], i as nat) is Err,
    ensures
        exists|k: int| 0 <= k <= i && first_failure(cases, k),
    decreases i,
{
    if exists|j: int| 0 <= j < i && assemble(#[trigger] cases[j], j as nat) is Err {
        let j = choose|j: int| 0 <= j < i && assemble(#[trigger] cases[j], j as nat) is Err;
        lemma_first_failure_exists(cases, j);
    } else {
        assert(first_failure(cases, i));
    }
}

/// A build succeeds exactly where every case can be assembled, and then it
/// holds one variant for each case, at the position of the case.
pub proof fn lemma_build_variants_ok(cases: Seq<ParsedEnumVariantView>)
    ensures
        build_variants(cases) is Ok <==> forall|i: int|
            0 <= i < cases.len() ==> assemble(#[trigger] cases[i], i as nat) is Ok,
        build_variants(cases) matches Ok(variants) ==> {
            &&& variants.len() == cases.len()
            &&& forall|i: int|
                0 <= i < cases.len() ==> assemble(#[trigger] cases[i], i as nat) == Ok::<
                    InstructionVariantView,
                    ParseErrorView,
                >(variants[i])
        },
{
    if build_variants(cases) is Ok {
        assert forall|i: int| 0 <= i < cases.len() implies assemble(
            #[trigger] cases[i],
            i as nat,
        ) is Ok by {
            if assemble(cases[i], i as nat) is Err {
                lemma_first_failure_exists(cases, i);
            }
        }
    } else {
        let k = choose|k: int| first_failure(cases, k);
        assert(first_failure(cases, k));
        assert(assemble(cases[k], k as nat) is Err);
    }
}

impl Instruction {
    /// Builds the instruction set of an item.
    ///
    /// An item without the marker gives `None` unless
    /// `skip_derive_attr_check` is set. Otherwise the item has to be
    /// readable, and its enumeration is built.
    pub fn try_from_item_enum(item_enum: &ItemEnum, skip_derive_attr_check: bool) -> (outcome:
        Result<Option<Instruction>, ParseError>)
        requires
            item_enum@.valid(),
        ensures
            outcome_view(outcome) == build_item(item_enum@, skip_derive_attr_check),
            outcome matches Ok(Some(instruction)) ==> instruction@.wf(),
    {
        if skip_derive_attr_check || item_enum.derive_instruction {
            match &item_enum.parsed {
                Ok(parsed_enum) => match Instruction::try_from(parsed_enum) {
                    Ok(instruction) => Ok(Some(instruction)),
                    Err(error) => Err(error),
                },
                Err(error) => Err(error.clone()),
            }
        } else {
            Ok(None)
        }
    }

    /// Builds the instruction set of an enumeration that carries the marker,
    /// and `None` for one that does not.
    pub fn try_from_marked(parsed_enum: &ParsedEnum) -> (outcome: Result<
        Option<Instruction>,
        ParseError,
    >)
        requires
            parsed_enum@.valid(),
        ensures
            outcome_view(outcome) == build_marked(parsed_enum@),
            outcome matches Ok(Some(instruction)) ==> instruction@.wf(),
    {
        if parsed_enum.derive_instruction {
            match Instruction::try_from(parsed_enum) {
                Ok(instruction) => Ok(Some(instruction)),
                Err(error) => Err(error),
            }
        } else {
            Ok(None)
        }
    }

    /// Builds the instruction set of an enumeration.
    ///
    /// The cases are assembled in the order of declaration, each with its
    /// position among all cases as its ordinal. The first case that fails
    /// ends the build with its error.
    pub fn try_from(parsed_enum: &ParsedEnum) -> (outcome: Result<Instruction, ParseError>)
        requires
            parsed_enum@.valid(),
        ensures
            outcome_view(outcome) == build(parsed_enum@),
            outcome matches Ok(instruction) ==> instruction@.wf(),
    {
        let ghost cases = parsed_enum.variants.deep_view();
        let mut variants: Vec<InstructionVariant> = Vec::new();
        let mut i: usize = 0;
        while i < parsed_enum.variants.len()
            invariant
                cases == parsed_enum.variants.deep_view(),
                cases == parsed_enum@.variants,
                parsed_enum@.valid(),
                i <= parsed_enum.variants.len(),
                variants@.len() == i,
                forall|j: int|
                    0 <= j < i ==> assemble(#[trigger] cases[j], j as nat) == Ok::<
                        InstructionVariantView,
                        ParseErrorView,
                    >(variants@[j]@),
                forall|j: int| 0 <= j < i ==> (#[trigger] variants@[j])@.wf(),
            decreases parsed_enum.variants.len() - i,
        {
            assert(cases[i as int].valid());
            match InstructionVariant::try_from(&parsed_enum.variants[i], i) {
                Ok(variant) => {
                    variants.push(variant);
                },
                Err(error) => {
                    proof {
                        lemma_build_failure(cases, i as int);
                    }
                    return Err(error);
                },
            }
            i = i + 1;
        }
        proof {
            lemma_build_success(cases, variants.deep_view());
        }
        Ok(Instruction { ident: parsed_enum.ident.clone(), variants })
    }
}

} // verus!
