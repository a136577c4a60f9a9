//! The data model of the engine: a declarative description of a type
//! declaration, reduced to the facts the shape checks and the synthesizers
//! read.

use vstd::prelude::*;

verus! {

/// The shape of the payload of one variant: either no fields at all (a unit
/// variant) or any number of named or unnamed fields.
#[derive(Clone, Copy, Debug, PartialEq, Eq, Structural)]
pub enum FieldKind {
    /// The variant carries no fields.
    Unit,
    /// The variant carries one or more fields, named or unnamed.
    NonUnit,
}

/// The description of one enum variant: its name, its explicit discriminant
/// if it has one, the shape of its payload, and whether it carries the
/// default marker.
#[derive(Debug)]
pub struct VariantRecord {
    /// The variant's identifier.
    pub name: String,
    /// The explicit discriminant value, if the declaration carries one.
    pub discriminant: Option<i128>,
    /// The shape of the variant's payload.
    pub fields: FieldKind,
    /// Whether the variant is marked as the default variant.
    pub default_marker: bool,
}

impl VariantRecord {
    /// Whether the variant carries no fields.
    pub open spec fn is_unit(&self) -> bool {
        self.fields is Unit
    }

    /// Whether the variant's ordinal equals its natural enumeration position,
    /// i.e. no explicit discriminant overrides it.
    pub open spec fn is_linear(&self) -> bool {
        self.discriminant is None
    }
}

/// The description of an enum declaration: its variants in declared order.
/// The position of a variant in this sequence is its **ordinal**, the single
/// source of truth for all cyclic arithmetic.
#[derive(Debug)]
pub struct EnumDescriptor {
    /// The variants, in declaration order.
    pub variants: Vec<VariantRecord>,
}

impl EnumDescriptor {
    /// Whether the enum has at least one variant.
    pub open spec fn is_populated(&self) -> bool {
        self.variants@.len() > 0
    }

    /// Whether no variant carries an explicit discriminant, so that ordinals
    /// equal the natural enumeration.
    pub open spec fn is_linear(&self) -> bool {
        forall|i: int| 0 <= i < self.variants@.len() ==> #[trigger] self.variants@[i].is_linear()
    }
}

/// The description of a type declaration, as far as the engine reads it.
/// Only enum declarations carry a payload; every other kind of declaration
/// is rejected by the shape checks.
#[derive(Debug)]
pub enum TypeData {
    /// An enum declaration and its variants.
    Enum(EnumDescriptor),
    /// A struct declaration.
    Struct,
    /// A union declaration.
    Union,
}

} // verus!
