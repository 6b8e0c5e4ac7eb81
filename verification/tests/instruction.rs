use shank_instruction::Attribute;
use shank_instruction::Entry;
use shank_instruction::Instruction;
use shank_instruction::InstructionAccount;
use shank_instruction::InstructionDiscriminant;
use shank_instruction::InstructionVariant;
use shank_instruction::InstructionVariantFields;
use shank_instruction::ItemEnum;
use shank_instruction::ParseError;
use shank_instruction::ParsedEnum;
use shank_instruction::ParsedEnumVariant;
use shank_instruction::ParsedStructField;
use shank_instruction::Payload;
use shank_instruction::RustType;

fn entries(values: &[u16]) -> Vec<Entry> {
    values.iter().map(|value| Entry::Int(value.to_string())).collect()
}

fn discriminant(values: &[u16]) -> Attribute {
    Attribute { name: "discriminant".to_string(), payload: Payload::List(entries(values)) }
}

fn account_attr(index: u16) -> Attribute {
    Attribute {
        name: "account".to_string(),
        payload: Payload::List(vec![
            Entry::Int(index.to_string()),
            Entry::NonLiteral,
            Entry::NonLiteral,
        ]),
    }
}

fn signer(index: Option<u32>, name: &str) -> InstructionAccount {
    InstructionAccount { index, name: name.to_string(), writable: false, signer: true }
}

fn writable(index: Option<u32>, name: &str) -> InstructionAccount {
    InstructionAccount { index, name: name.to_string(), writable: true, signer: false }
}

fn case(ident: &str, attrs: Vec<Attribute>) -> ParsedEnumVariant {
    ParsedEnumVariant {
        ident: ident.to_string(),
        fields: vec![],
        attrs,
        accounts: Ok(vec![]),
        strategies: vec![],
    }
}

fn enumeration(variants: Vec<ParsedEnumVariant>) -> ParsedEnum {
    ParsedEnum { ident: "Instruction".to_string(), derive_instruction: true, variants }
}

fn plain_cases(count: usize) -> Vec<ParsedEnumVariant> {
    (0..count).map(|position| case(&format!("Case{}", position), vec![])).collect()
}

fn increment(discriminant: u8) -> InstructionDiscriminant {
    InstructionDiscriminant::IncrementDiscriminant { discriminant }
}

fn discriminants(instruction: &Instruction) -> Vec<&InstructionDiscriminant> {
    instruction.variants.iter().map(|variant| &variant.discriminant).collect()
}

fn things() -> ParsedEnum {
    enumeration(vec![
        ParsedEnumVariant {
            ident: "CreateThing".to_string(),
            fields: vec![],
            attrs: vec![account_attr(0), account_attr(1), discriminant(&[10])],
            accounts: Ok(vec![signer(Some(0), "creator"), writable(Some(1), "thing")]),
            strategies: vec![],
        },
        ParsedEnumVariant {
            ident: "CloseThing".to_string(),
            fields: vec![],
            attrs: vec![
                Attribute {
                    name: "account".to_string(),
                    payload: Payload::List(vec![Entry::NonLiteral, Entry::NonLiteral]),
                },
                discriminant(&[10, 20, 30, 40, 50, 60, 70, 80]),
            ],
            accounts: Ok(vec![signer(None, "first_creator")]),
            strategies: vec![],
        },
    ])
}

#[test]
fn explicit_discriminants_of_both_shapes() {
    let instruction = Instruction::try_from(&things()).unwrap();
    assert_eq!(
        instruction,
        Instruction {
            ident: "Instruction".to_string(),
            variants: vec![
                InstructionVariant {
                    ident: "CreateThing".to_string(),
                    field_tys: InstructionVariantFields::Unnamed(vec![]),
                    accounts: vec![signer(Some(0), "creator"), writable(Some(1), "thing")],
                    strategies: vec![],
                    discriminant: increment(10),
                },
                InstructionVariant {
                    ident: "CloseThing".to_string(),
                    field_tys: InstructionVariantFields::Unnamed(vec![]),
                    accounts: vec![signer(None, "first_creator")],
                    strategies: vec![],
                    discriminant: InstructionDiscriminant::ArrayDiscriminant {
                        discriminant: [10, 20, 30, 40, 50, 60, 70, 80],
                    },
                },
            ],
        }
    );
}

#[test]
fn an_enumeration_without_cases_gives_an_empty_set() {
    assert_eq!(
        Instruction::try_from(&enumeration(vec![])),
        Ok(Instruction { ident: "Instruction".to_string(), variants: vec![] })
    );
}

#[test]
fn positions_count_every_case() {
    let parsed = enumeration(vec![
        case("First", vec![]),
        case("Second", vec![discriminant(&[42])]),
        case("Third", vec![]),
        case("Fourth", vec![discriminant(&[1, 2, 3, 4, 5, 6, 7, 8])]),
        case("Fifth", vec![]),
    ]);
    let instruction = Instruction::try_from(&parsed).unwrap();
    assert_eq!(
        discriminants(&instruction),
        vec![
            &increment(0),
            &increment(42),
            &increment(2),
            &InstructionDiscriminant::ArrayDiscriminant { discriminant: [1, 2, 3, 4, 5, 6, 7, 8] },
            &increment(4),
        ]
    );
}

#[test]
fn variants_keep_the_order_of_the_cases() {
    let parsed = enumeration(vec![case("Zulu", vec![]), case("Alpha", vec![]), case("Mike", vec![])]);
    let instruction = Instruction::try_from(&parsed).unwrap();
    let idents: Vec<&str> = instruction.variants.iter().map(|v| v.ident.as_str()).collect();
    assert_eq!(idents, vec!["Zulu", "Alpha", "Mike"]);
}

#[test]
fn an_annotated_byte_equal_to_another_position_is_kept() {
    let parsed = enumeration(vec![case("First", vec![discriminant(&[1])]), case("Second", vec![])]);
    let instruction = Instruction::try_from(&parsed).unwrap();
    assert_eq!(discriminants(&instruction), vec![&increment(1), &increment(1)]);
}

#[test]
fn enumeration_with_255_cases_is_built() {
    let instruction = Instruction::try_from(&enumeration(plain_cases(255))).unwrap();
    assert_eq!(instruction.variants.len(), 255);
    assert_eq!(instruction.variants[0].discriminant, increment(0));
    assert_eq!(instruction.variants[254].discriminant, increment(254));
    for (position, variant) in instruction.variants.iter().enumerate() {
        assert_eq!(variant.discriminant, increment(position as u8));
        assert_eq!(variant.ident, format!("Case{}", position));
    }
}

#[test]
fn enumeration_with_256_cases_overflows() {
    assert_eq!(
        Instruction::try_from(&enumeration(plain_cases(256))),
        Err(ParseError::DiscriminantOverflow {
            ident: "Case255".to_string(),
            discriminant: 255,
            limit: 255
        })
    );
}

#[test]
fn a_case_at_255_with_an_annotation_is_built() {
    let mut cases = plain_cases(255);
    cases.push(case("Annotated", vec![discriminant(&[9])]));
    let instruction = Instruction::try_from(&enumeration(cases)).unwrap();
    assert_eq!(instruction.variants.len(), 256);
    assert_eq!(instruction.variants[254].discriminant, increment(254));
    assert_eq!(instruction.variants[255].discriminant, increment(9));
}

#[test]
fn a_wrong_arity_fails_the_whole_build() {
    for count in [0usize, 2, 3, 4, 5, 6, 7, 9, 12] {
        let values: Vec<u16> = (0..count as u16).collect();
        let parsed = enumeration(vec![
            case("Good", vec![discriminant(&[1])]),
            case("Odd", vec![discriminant(&values)]),
            case("Later", vec![]),
        ]);
        assert_eq!(
            Instruction::try_from(&parsed),
            Err(ParseError::WrongDiscriminantArity { ident: "Odd".to_string(), count })
        );
    }
}

#[test]
fn the_first_failing_case_gives_the_error() {
    let parsed = enumeration(vec![
        case("Good", vec![]),
        case("Large", vec![discriminant(&[256])]),
        case("Odd", vec![discriminant(&[1, 2])]),
    ]);
    assert_eq!(
        Instruction::try_from(&parsed),
        Err(ParseError::MalformedDiscriminantPayload {
            ident: "Large".to_string(),
            position: 0,
            entry: Entry::Int("256".to_string()),
            max: 255,
        })
    );
    let swapped = enumeration(vec![
        case("Good", vec![]),
        case("Odd", vec![discriminant(&[1, 2])]),
        case("Large", vec![discriminant(&[256])]),
    ]);
    assert_eq!(
        Instruction::try_from(&swapped),
        Err(ParseError::WrongDiscriminantArity { ident: "Odd".to_string(), count: 2 })
    );
}

#[test]
fn an_account_error_of_a_case_fails_the_build() {
    let mut broken = case("Broken", vec![]);
    broken.accounts = Err(ParseError::Extraction { message: "unknown flag".to_string() });
    let parsed = enumeration(vec![case("Good", vec![]), broken, case("Later", vec![])]);
    assert_eq!(
        Instruction::try_from(&parsed),
        Err(ParseError::Extraction { message: "unknown flag".to_string() })
    );
}

#[test]
fn building_twice_gives_the_same_set() {
    let parsed = things();
    assert_eq!(Instruction::try_from(&parsed), Instruction::try_from(&parsed));
    let failing = enumeration(plain_cases(300));
    assert_eq!(Instruction::try_from(&failing), Instruction::try_from(&failing));
    assert_eq!(parsed, things());
}

#[test]
fn an_enumeration_with_the_marker_is_built() {
    let parsed = things();
    assert_eq!(
        Instruction::try_from_marked(&parsed),
        Ok(Some(Instruction::try_from(&parsed).unwrap()))
    );
}

#[test]
fn an_enumeration_without_the_marker_gives_nothing() {
    let mut parsed = things();
    parsed.derive_instruction = false;
    assert_eq!(Instruction::try_from_marked(&parsed), Ok(None));
    let mut failing = enumeration(plain_cases(256));
    failing.derive_instruction = false;
    assert_eq!(Instruction::try_from_marked(&failing), Ok(None));
}

#[test]
fn an_error_behind_the_marker_is_reported() {
    assert_eq!(
        Instruction::try_from_marked(&enumeration(plain_cases(256))),
        Err(ParseError::DiscriminantOverflow {
            ident: "Case255".to_string(),
            discriminant: 255,
            limit: 255
        })
    );
}

#[test]
fn an_item_with_the_marker_is_built() {
    let item = ItemEnum { derive_instruction: true, parsed: Ok(things()) };
    let expected = Instruction::try_from(&things()).unwrap();
    assert_eq!(Instruction::try_from_item_enum(&item, false), Ok(Some(expected)));
    let expected = Instruction::try_from(&things()).unwrap();
    assert_eq!(Instruction::try_from_item_enum(&item, true), Ok(Some(expected)));
}

#[test]
fn an_item_without_the_marker_is_built_only_on_demand() {
    let item = ItemEnum { derive_instruction: false, parsed: Ok(things()) };
    assert_eq!(Instruction::try_from_item_enum(&item, false), Ok(None));
    let expected = Instruction::try_from(&things()).unwrap();
    assert_eq!(Instruction::try_from_item_enum(&item, true), Ok(Some(expected)));
}

#[test]
fn an_unreadable_item_fails_only_where_it_is_built() {
    let unreadable = || Err(ParseError::Extraction { message: "unknown type".to_string() });
    let unmarked = ItemEnum { derive_instruction: false, parsed: unreadable() };
    assert_eq!(Instruction::try_from_item_enum(&unmarked, false), Ok(None));
    assert_eq!(
        Instruction::try_from_item_enum(&unmarked, true),
        Err(ParseError::Extraction { message: "unknown type".to_string() })
    );
    let marked = ItemEnum { derive_instruction: true, parsed: unreadable() };
    assert_eq!(
        Instruction::try_from_item_enum(&marked, false),
        Err(ParseError::Extraction { message: "unknown type".to_string() })
    );
}

#[test]
fn an_item_whose_build_fails_reports_the_error() {
    let item = ItemEnum { derive_instruction: true, parsed: Ok(enumeration(plain_cases(256))) };
    assert_eq!(
        Instruction::try_from_item_enum(&item, false),
        Err(ParseError::DiscriminantOverflow {
            ident: "Case255".to_string(),
            discriminant: 255,
            limit: 255
        })
    );
}

#[test]
fn an_enumeration_with_a_mixed_case_is_built() {
    let mut mixed = things();
    mixed.variants[1].fields = vec![
        ParsedStructField {
            ident: Some("a".to_string()),
            rust_type: RustType { ident: "u8".to_string() },
        },
        ParsedStructField { ident: None, rust_type: RustType { ident: "u16".to_string() } },
    ];
    assert!(mixed.is_valid());
    let instruction = Instruction::try_from(&mixed).unwrap();
    assert_eq!(instruction.variants.len(), 2);
    assert_eq!(
        instruction.variants[1].field_tys,
        InstructionVariantFields::Named(vec![
            ("a".to_string(), RustType { ident: "u8".to_string() }),
            (String::new(), RustType { ident: "u16".to_string() }),
        ])
    );
    let item = ItemEnum { derive_instruction: true, parsed: Ok(mixed) };
    assert!(item.is_valid());
    assert!(Instruction::try_from_item_enum(&item, false).unwrap().is_some());
}

#[test]
fn well_formed_enumerations_are_known_as_such() {
    assert!(things().is_well_formed());
    assert!(enumeration(vec![]).is_well_formed());
    let mut mixed = things();
    mixed.variants[1].fields = vec![
        ParsedStructField {
            ident: Some("a".to_string()),
            rust_type: RustType { ident: "u8".to_string() },
        },
        ParsedStructField { ident: None, rust_type: RustType { ident: "u8".to_string() } },
    ];
    assert!(!mixed.is_well_formed());
    assert!(!ItemEnum { derive_instruction: true, parsed: Ok(mixed) }.is_well_formed());
    assert!(ItemEnum { derive_instruction: true, parsed: Ok(things()) }.is_well_formed());
    let unreadable = Err(ParseError::Extraction { message: "unknown type".to_string() });
    assert!(ItemEnum { derive_instruction: true, parsed: unreadable }.is_well_formed());
}
