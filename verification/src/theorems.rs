//! What holds of every build, proved from the definitions of the outcome.

use crate::attribute::AttributeView;
use crate::attribute::PayloadView;
use crate::discriminant::discriminant_of_payload;
use crate::discriminant::entry_u8;
use crate::discriminant::first_discriminant;
use crate::discriminant::first_malformed;
use crate::discriminant::is_discriminant;
use crate::discriminant::lemma_numbers_of_bytes;
use crate::discriminant::lemma_resolve_first;
use crate::discriminant::lemma_resolve_unset;
use crate::discriminant::numbers_of;
use crate::discriminant::resolve;
use crate::discriminant::DiscriminantView;
use crate::discriminant::MAX_DISCRIMINANT;
use crate::error::outcome_view;
use crate::error::ParseError;
use crate::error::ParseErrorView;
use crate::instruction::assemble;
use crate::instruction::build;
use crate::instruction::field_shape;
use crate::instruction::label_of;
use crate::instruction::FieldsView;
use crate::instruction::first_failure;
use crate::instruction::lemma_build_failure;
use crate::instruction::lemma_build_variants_ok;
use crate::instruction::Instruction;
use crate::instruction::InstructionView;
use crate::parsed_enum::ParsedEnum;
use crate::parsed_enum::ParsedEnumVariantView;
use crate::parsed_enum::ParsedEnumView;
use crate::parsed_enum::ParsedStructFieldView;
use vstd::prelude::*;

verus! {

/// Whether no annotation in `attrs` is a `discriminant` annotation.
pub open spec fn unannotated(attrs: Seq<AttributeView>) -> bool {
    forall|j: int| 0 <= j < attrs.len() ==> !is_discriminant(#[trigger] attrs[j])
}

/// Whether the annotation at `k` is the only `discriminant` annotation in
/// `attrs`, and its payload is a list of one entry.
pub open spec fn sole_single(attrs: Seq<AttributeView>, k: int) -> bool {
    &&& 0 <= k < attrs.len()
    &&& is_discriminant(attrs[k])
    &&& forall|j: int| 0 <= j < attrs.len() && j != k ==> !is_discriminant(#[trigger] attrs[j])
    &&& attrs[k].payload matches PayloadView::List(entries) && entries.len() == 1
}

/// Whether the first `discriminant` annotation in `attrs` stands at `k` and
/// its payload is a list of `count` entries.
pub open spec fn first_lists(attrs: Seq<AttributeView>, k: int, count: nat) -> bool {
    &&& first_discriminant(attrs, k)
    &&& attrs[k].payload matches PayloadView::List(entries) && entries.len() == count
}

/// A payload whose first field has a label is labelled as a whole, also
/// where a later field has none: there is one entry for each field, in the
/// order of the fields, with the type of the field, under the label of the
/// field where it has one and under the empty label where it has none.
pub proof fn theorem_first_field_decides(fields: Seq<ParsedStructFieldView>)
    requires
        fields.len() > 0,
        fields[0].ident is Some,
    ensures
        field_shape(fields) is Named,
        field_shape(fields)->Named_0.len() == fields.len(),
        forall|i: int|
            0 <= i < fields.len() ==> {
                let entry = #[trigger] field_shape(fields)->Named_0[i];
                &&& entry.1 == fields[i].rust_type
                &&& entry.0 == label_of(fields[i])
                &&& fields[i].ident matches Some(label) ==> entry.0 == label
                &&& fields[i].ident is None ==> entry.0 == Seq::<char>::empty()
            },
{
}

/// No payload makes a case fail: whether a case is assembled does not depend
/// on its fields, and an assembled case has the shape of its payload.
pub proof fn theorem_fields_never_fail(
    case: ParsedEnumVariantView,
    fields: Seq<ParsedStructFieldView>,
    ordinal: nat,
)
    ensures
        assemble(ParsedEnumVariantView { fields, ..case }, ordinal) is Ok <==> assemble(
            case,
            ordinal,
        ) is Ok,
        assemble(case, ordinal) matches Ok(variant) ==> variant.field_tys == field_shape(
            case.fields,
        ),
{
}

/// In an enumeration whose cases have no `discriminant` annotation, or a
/// single one with a single entry, a built variant has the position of its
/// case as its discriminant, unless the case has the annotation: then the
/// discriminant is the byte of the entry, whatever the position.
pub proof fn theorem_ordinal_unless_explicit(parsed: ParsedEnumView, instruction: InstructionView)
    requires
        build(parsed) == Ok::<InstructionView, ParseErrorView>(instruction),
        forall|i: int|
            0 <= i < parsed.variants.len() ==> unannotated((#[trigger] parsed.variants[i]).attrs)
                || exists|k: int| sole_single(parsed.variants[i].attrs, k),
    ensures
        instruction.variants.len() == parsed.variants.len(),
        forall|i: int|
            0 <= i < parsed.variants.len() && unannotated((#[trigger] parsed.variants[i]).attrs)
                ==> i < MAX_DISCRIMINANT && instruction.variants[i].discriminant
                == DiscriminantView::Increment(i as u8),
        forall|i: int, k: int|
            0 <= i < parsed.variants.len() && #[trigger] sole_single(parsed.variants[i].attrs, k)
                ==> {
                let entry = parsed.variants[i].attrs[k].payload->List_0[0];
                &&& entry_u8(entry) is Some
                &&& instruction.variants[i].discriminant == DiscriminantView::Increment(
                    entry_u8(entry)->Some_0,
                )
            },
{
    let cases = parsed.variants;
    lemma_build_variants_ok(cases);
    assert forall|i: int| 0 <= i < cases.len() && unannotated((#[trigger] cases[i]).attrs) implies i
        < MAX_DISCRIMINANT && instruction.variants[i].discriminant == DiscriminantView::Increment(
        i as u8,
    ) by {
        lemma_resolve_unset(cases[i].attrs, cases[i].ident);
        assert(assemble(cases[i], i as nat) is Ok);
    }
    assert forall|i: int, k: int|
        0 <= i < cases.len() && #[trigger] sole_single(cases[i].attrs, k) implies {
        let entry = cases[i].attrs[k].payload->List_0[0];
        &&& entry_u8(entry) is Some
        &&& instruction.variants[i].discriminant == DiscriminantView::Increment(
            entry_u8(entry)->Some_0,
        )
    } by {
        let attrs = cases[i].attrs;
        let entries = attrs[k].payload->List_0;
        assert(first_discriminant(attrs, k));
        lemma_resolve_first(attrs, cases[i].ident, k);
        assert(assemble(cases[i], i as nat) is Ok);
        assert(numbers_of(entries, cases[i].ident) is Ok);
        if entry_u8(entries[0]) is None {
            assert(first_malformed(entries, 0));
        }
    }
}

/// A case whose first `discriminant` annotation lists eight bytes gets
/// exactly these bytes, in the order of the list, at every position.
pub proof fn theorem_eight_entries_give_array(case: ParsedEnumVariantView, ordinal: nat, k: int)
    requires
        first_lists(case.attrs, k, 8),
        forall|j: int|
            0 <= j < 8 ==> entry_u8(#[trigger] case.attrs[k].payload->List_0[j]) is Some,
    ensures
        resolve(case.attrs, case.ident) == Ok::<DiscriminantView, ParseErrorView>(
            DiscriminantView::Array(
                Seq::new(8, |j: int| entry_u8(case.attrs[k].payload->List_0[j])->Some_0),
            ),
        ),
        case.accounts is Ok ==> assemble(case, ordinal) is Ok && assemble(
            case,
            ordinal,
        )->Ok_0.discriminant == DiscriminantView::Array(
            Seq::new(8, |j: int| entry_u8(case.attrs[k].payload->List_0[j])->Some_0),
        ),
{
    let entries = case.attrs[k].payload->List_0;
    lemma_resolve_first(case.attrs, case.ident, k);
    lemma_numbers_of_bytes(
        entries,
        case.ident,
        Seq::new(8, |j: int| entry_u8(entries[j])->Some_0),
    );
}

/// An enumeration with a case whose first `discriminant` annotation lists
/// neither one entry nor eight is not built: no variant comes out of it.
pub proof fn theorem_wrong_arity_fails(parsed: ParsedEnumView, i: int, k: int, count: nat)
    requires
        0 <= i < parsed.variants.len(),
        first_lists(parsed.variants[i].attrs, k, count),
        count != 1,
        count != 8,
    ensures
        build(parsed) is Err,
{
    let cases = parsed.variants;
    lemma_resolve_first(cases[i].attrs, cases[i].ident, k);
    assert(assemble(cases[i], i as nat) is Err);
    lemma_build_variants_ok(cases);
}

/// Where the case of the wrong count is the first that fails, its accounts
/// were extracted and each of its entries is a byte, the error of the build
/// names the case and the count.
pub proof fn theorem_wrong_arity_error(parsed: ParsedEnumView, i: int, k: int, count: nat)
    requires
        0 <= i < parsed.variants.len(),
        first_lists(parsed.variants[i].attrs, k, count),
        count != 1,
        count != 8,
        forall|j: int| 0 <= j < i ==> assemble(#[trigger] parsed.variants[j], j as nat) is Ok,
        parsed.variants[i].accounts is Ok,
        forall|j: int|
            0 <= j < count ==> entry_u8(
                #[trigger] parsed.variants[i].attrs[k].payload->List_0[j],
            ) is Some,
    ensures
        build(parsed) == Err::<InstructionView, ParseErrorView>(
            ParseErrorView::WrongDiscriminantArity { ident: parsed.variants[i].ident, count },
        ),
{
    let cases = parsed.variants;
    let entries = cases[i].attrs[k].payload->List_0;
    lemma_resolve_first(cases[i].attrs, cases[i].ident, k);
    lemma_numbers_of_bytes(
        entries,
        cases[i].ident,
        Seq::new(count, |j: int| entry_u8(entries[j])->Some_0),
    );
    assert(first_failure(cases, i));
    lemma_build_failure(cases, i);
}

/// An enumeration without any `discriminant` annotation, whose accounts
/// were all extracted, is built if it has at most 255 cases, each variant
/// with its position as discriminant. With more cases the build fails at
/// the case at position 255, and names it.
pub proof fn theorem_positional_limit(parsed: ParsedEnumView)
    requires
        forall|i: int|
            0 <= i < parsed.variants.len() ==> unannotated((#[trigger] parsed.variants[i]).attrs),
        forall|i: int|
            0 <= i < parsed.variants.len() ==> (#[trigger] parsed.variants[i]).accounts is Ok,
    ensures
        parsed.variants.len() <= MAX_DISCRIMINANT ==> {
            &&& build(parsed) is Ok
            &&& build(parsed)->Ok_0.variants.len() == parsed.variants.len()
            &&& forall|i: int|
                0 <= i < parsed.variants.len() ==> (#[trigger] build(
                    parsed,
                )->Ok_0.variants[i]).discriminant == DiscriminantView::Increment(i as u8)
        },
        parsed.variants.len() > MAX_DISCRIMINANT ==> build(parsed) == Err::<
            InstructionView,
            ParseErrorView,
        >(
            ParseErrorView::DiscriminantOverflow {
                ident: parsed.variants[MAX_DISCRIMINANT as int].ident,
                discriminant: MAX_DISCRIMINANT as nat,
                limit: MAX_DISCRIMINANT as nat,
            },
        ),
{
    let cases = parsed.variants;
    assert forall|i: int| 0 <= i < cases.len() implies resolve(
        (#[trigger] cases[i]).attrs,
        cases[i].ident,
    ) == Ok::<DiscriminantView, ParseErrorView>(DiscriminantView::Unset) by {
        lemma_resolve_unset(cases[i].attrs, cases[i].ident);
    }
    lemma_build_variants_ok(cases);
    if cases.len() > MAX_DISCRIMINANT {
        let limit = MAX_DISCRIMINANT as int;
        assert(assemble(cases[limit], limit as nat) is Err);
        assert forall|j: int| 0 <= j < limit implies assemble(
            #[trigger] cases[j],
            j as nat,
        ) is Ok by {}
        assert(first_failure(cases, limit));
        lemma_build_failure(cases, limit);
    } else {
        assert forall|i: int| 0 <= i < cases.len() implies assemble(
            #[trigger] cases[i],
            i as nat,
        ) is Ok by {}
    }
}

/// A discriminant that an annotation gives does not depend on where the
/// case stands: at any two positions the case becomes the same variant.
pub proof fn theorem_explicit_beats_ordinal(case: ParsedEnumVariantView, first: nat, second: nat)
    requires
        resolve(case.attrs, case.ident) matches Ok(explicit) && explicit !is Unset,
    ensures
        assemble(case, first) == assemble(case, second),
        assemble(case, first) matches Ok(variant) ==> Ok::<DiscriminantView, ParseErrorView>(
            variant.discriminant,
        ) == resolve(case.attrs, case.ident),
{
}

/// Two builds of one enumeration end alike: with equal instruction sets, or
/// with equal errors.
pub proof fn theorem_build_is_repeatable(
    parsed: ParsedEnum,
    first: Result<Instruction, ParseError>,
    second: Result<Instruction, ParseError>,
)
    requires
        outcome_view(first) == build(parsed@),
        outcome_view(second) == build(parsed@),
    ensures
        outcome_view(first) == outcome_view(second),
{
}

/// Of several `discriminant` annotations only the first is read: whatever
/// stands after it, the outcome is that of the first alone.
pub proof fn theorem_first_annotation_wins(
    before: Seq<AttributeView>,
    first: AttributeView,
    after: Seq<AttributeView>,
    ident: Seq<char>,
)
    requires
        unannotated(before),
        is_discriminant(first),
    ensures
        resolve(before.push(first) + after, ident) == discriminant_of_payload(
            first.payload,
            ident,
        ),
        resolve(before.push(first) + after, ident) == resolve(before.push(first), ident),
{
    let short = before.push(first);
    let long = short + after;
    let k = before.len() as int;
    assert(short[k] == first);
    assert(long[k] == first);
    assert forall|j: int| 0 <= j < k implies !is_discriminant(#[trigger] long[j]) by {
        assert(long[j] == before[j]);
    }
    assert forall|j: int| 0 <= j < k implies !is_discriminant(#[trigger] short[j]) by {
        assert(short[j] == before[j]);
    }
    lemma_resolve_first(short, ident, k);
    lemma_resolve_first(long, ident, k);
}

} // verus!
