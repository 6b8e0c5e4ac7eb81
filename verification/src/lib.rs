//! Instruction-set models built from annotated enumerations.
//!
//! Every case of an instruction enumeration carries annotations. This crate
//! decides the wire discriminant of each case from them, and assembles the
//! validated description of the whole instruction set.

pub mod account;
pub mod attribute;
pub mod discriminant;
pub mod error;
pub mod instruction;
pub mod parsed_enum;
pub mod theorems;

pub use crate::account::InstructionAccount;
pub use crate::account::InstructionStrategy;
pub use crate::attribute::Attribute;
pub use crate::attribute::Entry;
pub use crate::attribute::Payload;
pub use crate::discriminant::InstructionDiscriminant;
pub use crate::discriminant::IX_DISCRIMINANT;
pub use crate::discriminant::MAX_BYTE;
pub use crate::discriminant::MAX_DISCRIMINANT;
pub use crate::error::ParseError;
pub use crate::instruction::Instruction;
pub use crate::instruction::InstructionVariant;
pub use crate::instruction::InstructionVariantFields;
pub use crate::parsed_enum::ItemEnum;
pub use crate::parsed_enum::ParsedEnum;
pub use crate::parsed_enum::ParsedEnumVariant;
pub use crate::parsed_enum::ParsedStructField;
pub use crate::parsed_enum::RustType;
