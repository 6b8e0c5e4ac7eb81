use shank_instruction::Attribute;
use shank_instruction::Entry;
use shank_instruction::InstructionAccount;
use shank_instruction::InstructionDiscriminant;
use shank_instruction::InstructionStrategy;
use shank_instruction::InstructionVariant;
use shank_instruction::InstructionVariantFields;
use shank_instruction::ParseError;
use shank_instruction::ParsedEnumVariant;
use shank_instruction::ParsedStructField;
use shank_instruction::Payload;
use shank_instruction::RustType;

fn ty(ident: &str) -> RustType {
    RustType { ident: ident.to_string() }
}

fn labelled(label: &str, ident: &str) -> ParsedStructField {
    ParsedStructField { ident: Some(label.to_string()), rust_type: ty(ident) }
}

fn unlabelled(ident: &str) -> ParsedStructField {
    ParsedStructField { ident: None, rust_type: ty(ident) }
}

fn account(index: Option<u32>, name: &str, writable: bool, signer: bool) -> InstructionAccount {
    InstructionAccount { index, name: name.to_string(), writable, signer }
}

fn discriminant(values: &[u8]) -> Attribute {
    Attribute {
        name: "discriminant".to_string(),
        payload: Payload::List(values.iter().map(|value| Entry::Int(value.to_string())).collect()),
    }
}

fn account_attr() -> Attribute {
    Attribute {
        name: "account".to_string(),
        payload: Payload::List(vec![Entry::Int("0".to_string()), Entry::NonLiteral]),
    }
}

fn case(ident: &str, attrs: Vec<Attribute>) -> ParsedEnumVariant {
    ParsedEnumVariant {
        ident: ident.to_string(),
        fields: vec![],
        attrs,
        accounts: Ok(vec![]),
        strategies: vec![],
    }
}

#[test]
fn no_fields_are_an_empty_unnamed_shape() {
    assert_eq!(
        InstructionVariantFields::from_fields(&vec![]),
        InstructionVariantFields::Unnamed(vec![])
    );
}

#[test]
fn unlabelled_fields_keep_their_types_in_order() {
    let fields = vec![unlabelled("u64"), unlabelled("Pubkey"), unlabelled("u8")];
    assert_eq!(
        InstructionVariantFields::from_fields(&fields),
        InstructionVariantFields::Unnamed(vec![ty("u64"), ty("Pubkey"), ty("u8")])
    );
}

#[test]
fn labelled_fields_keep_labels_and_types_in_order() {
    let fields = vec![labelled("amount", "u64"), labelled("owner", "Pubkey")];
    assert_eq!(
        InstructionVariantFields::from_fields(&fields),
        InstructionVariantFields::Named(vec![
            ("amount".to_string(), ty("u64")),
            ("owner".to_string(), ty("Pubkey")),
        ])
    );
}

#[test]
fn the_first_field_decides_the_shape() {
    let fields = vec![unlabelled("u64"), labelled("owner", "Pubkey")];
    assert_eq!(
        InstructionVariantFields::from_fields(&fields),
        InstructionVariantFields::Unnamed(vec![ty("u64"), ty("Pubkey")])
    );
}

#[test]
fn a_field_without_label_after_a_label_gets_the_empty_label() {
    let fields = vec![labelled("a", "u8"), unlabelled("u16")];
    assert_eq!(
        InstructionVariantFields::from_fields(&fields),
        InstructionVariantFields::Named(vec![("a".to_string(), ty("u8")), (String::new(), ty("u16"))])
    );
    let longer = vec![
        labelled("amount", "u64"),
        unlabelled("Pubkey"),
        labelled("bump", "u8"),
        unlabelled("bool"),
    ];
    assert_eq!(
        InstructionVariantFields::from_fields(&longer),
        InstructionVariantFields::Named(vec![
            ("amount".to_string(), ty("u64")),
            (String::new(), ty("Pubkey")),
            ("bump".to_string(), ty("u8")),
            (String::new(), ty("bool")),
        ])
    );
}

#[test]
fn a_case_with_mixed_labels_is_assembled_as_labelled() {
    let mut raw = case("Mixed", vec![discriminant(&[7])]);
    raw.fields = vec![labelled("a", "u8"), unlabelled("u16")];
    assert!(raw.is_valid());
    assert!(!raw.is_well_formed());
    assert_eq!(
        InstructionVariant::try_from(&raw, 3),
        Ok(InstructionVariant {
            ident: "Mixed".to_string(),
            field_tys: InstructionVariantFields::Named(vec![
                ("a".to_string(), ty("u8")),
                (String::new(), ty("u16")),
            ]),
            accounts: vec![],
            strategies: vec![],
            discriminant: InstructionDiscriminant::IncrementDiscriminant { discriminant: 7 },
        })
    );
}

#[test]
fn a_case_without_annotation_takes_its_position() {
    for ordinal in [0usize, 1, 17, 254] {
        let variant = InstructionVariant::try_from(&case("Plain", vec![]), ordinal).unwrap();
        assert_eq!(
            variant.discriminant,
            InstructionDiscriminant::IncrementDiscriminant { discriminant: ordinal as u8 }
        );
    }
}

#[test]
fn a_case_without_annotation_at_255_overflows() {
    assert_eq!(
        InstructionVariant::try_from(&case("Last", vec![account_attr()]), 255),
        Err(ParseError::DiscriminantOverflow {
            ident: "Last".to_string(),
            discriminant: 255,
            limit: 255
        })
    );
    assert_eq!(
        InstructionVariant::try_from(&case("Beyond", vec![]), 1000),
        Err(ParseError::DiscriminantOverflow {
            ident: "Beyond".to_string(),
            discriminant: 1000,
            limit: 255
        })
    );
}

#[test]
fn an_annotated_byte_beats_every_position() {
    for ordinal in [0usize, 3, 10, 254, 255, 256, usize::MAX] {
        let variant =
            InstructionVariant::try_from(&case("CreateThing", vec![discriminant(&[10])]), ordinal)
                .unwrap();
        assert_eq!(
            variant.discriminant,
            InstructionDiscriminant::IncrementDiscriminant { discriminant: 10 }
        );
    }
}

#[test]
fn an_annotated_array_beats_every_position() {
    for ordinal in [0usize, 1, 255, 100_000] {
        let variant = InstructionVariant::try_from(
            &case("CloseThing", vec![discriminant(&[10, 20, 30, 40, 50, 60, 70, 80])]),
            ordinal,
        )
        .unwrap();
        assert_eq!(
            variant.discriminant,
            InstructionDiscriminant::ArrayDiscriminant {
                discriminant: [10, 20, 30, 40, 50, 60, 70, 80]
            }
        );
    }
}

#[test]
fn the_variant_carries_everything_over() {
    let raw = ParsedEnumVariant {
        ident: "CreateThing".to_string(),
        fields: vec![labelled("amount", "u64"), labelled("bump", "u8")],
        attrs: vec![account_attr(), account_attr(), discriminant(&[10])],
        accounts: Ok(vec![
            account(Some(0), "creator", false, true),
            account(Some(1), "thing", true, false),
        ]),
        strategies: vec![InstructionStrategy::LegacyOptionalAccounts],
    };
    assert_eq!(
        InstructionVariant::try_from(&raw, 4),
        Ok(InstructionVariant {
            ident: "CreateThing".to_string(),
            field_tys: InstructionVariantFields::Named(vec![
                ("amount".to_string(), ty("u64")),
                ("bump".to_string(), ty("u8")),
            ]),
            accounts: vec![
                account(Some(0), "creator", false, true),
                account(Some(1), "thing", true, false),
            ],
            strategies: vec![InstructionStrategy::LegacyOptionalAccounts],
            discriminant: InstructionDiscriminant::IncrementDiscriminant { discriminant: 10 },
        })
    );
}

#[test]
fn accounts_keep_their_order() {
    let raw = ParsedEnumVariant {
        ident: "Swap".to_string(),
        fields: vec![],
        attrs: vec![],
        accounts: Ok(vec![
            account(None, "zeta", true, true),
            account(None, "alpha", false, false),
            account(Some(7), "mid", true, false),
        ]),
        strategies: vec![],
    };
    let variant = InstructionVariant::try_from(&raw, 2).unwrap();
    assert_eq!(
        variant.accounts,
        vec![
            account(None, "zeta", true, true),
            account(None, "alpha", false, false),
            account(Some(7), "mid", true, false),
        ]
    );
}

#[test]
fn an_account_error_is_handed_on_unchanged() {
    let raw = ParsedEnumVariant {
        ident: "Broken".to_string(),
        fields: vec![],
        attrs: vec![],
        accounts: Err(ParseError::Extraction { message: "account needs a name".to_string() }),
        strategies: vec![],
    };
    assert_eq!(
        InstructionVariant::try_from(&raw, 0),
        Err(ParseError::Extraction { message: "account needs a name".to_string() })
    );
}

#[test]
fn an_account_error_comes_before_a_discriminant_error() {
    let raw = ParsedEnumVariant {
        ident: "Broken".to_string(),
        fields: vec![],
        attrs: vec![discriminant(&[1, 2])],
        accounts: Err(ParseError::Extraction { message: "duplicate account".to_string() }),
        strategies: vec![],
    };
    assert_eq!(
        InstructionVariant::try_from(&raw, 300),
        Err(ParseError::Extraction { message: "duplicate account".to_string() })
    );
}

#[test]
fn a_discriminant_error_comes_before_the_position() {
    assert_eq!(
        InstructionVariant::try_from(&case("Odd", vec![discriminant(&[1, 2, 3])]), 300),
        Err(ParseError::WrongDiscriminantArity { ident: "Odd".to_string(), count: 3 })
    );
    let bare = Attribute { name: "discriminant".to_string(), payload: Payload::Absent };
    assert_eq!(
        InstructionVariant::try_from(&case("Bare", vec![bare]), 0),
        Err(ParseError::InvalidDiscriminantForm { ident: "Bare".to_string() })
    );
}

#[test]
fn a_well_formed_case_is_known_as_such() {
    let mut raw = case("Fine", vec![]);
    raw.fields = vec![labelled("a", "u8"), labelled("b", "u8")];
    raw.strategies = vec![InstructionStrategy::LegacyOptionalAccounts];
    assert!(raw.is_well_formed());
    raw.fields = vec![unlabelled("u8"), labelled("b", "u8")];
    assert!(raw.is_well_formed());
    raw.fields = vec![];
    assert!(raw.is_well_formed());
}

#[test]
fn a_missing_label_after_a_label_is_not_well_formed() {
    let mut raw = case("Mixed", vec![]);
    raw.fields = vec![labelled("a", "u8"), unlabelled("u8")];
    assert!(!raw.is_well_formed());
    raw.fields = vec![labelled("a", "u8"), labelled("b", "u8"), unlabelled("u8")];
    assert!(!raw.is_well_formed());
}

#[test]
fn a_strategy_that_occurs_twice_is_not_well_formed() {
    let mut raw = case("Twice", vec![]);
    raw.strategies = vec![
        InstructionStrategy::LegacyOptionalAccounts,
        InstructionStrategy::LegacyOptionalAccounts,
    ];
    assert!(!raw.is_well_formed());
    assert!(!raw.is_valid());
    raw.strategies = vec![InstructionStrategy::LegacyOptionalAccounts];
    assert!(raw.is_valid());
}
