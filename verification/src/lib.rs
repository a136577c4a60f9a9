//! Analysis and synthesis of small capability contracts for enumerated types.
//!
//! The engine takes a declarative description of a type ([`TypeData`]) and,
//! after classifying its shape, synthesizes three capability bundles: the
//! variant count ([`SizeCapability`]), a default variant selection
//! ([`DefaultCapability`]), and cyclic navigation of variants by ordinal
//! position ([`CycleCapability`]).

use vstd::prelude::*;

mod cycle;
mod descriptor;
mod helpers;
mod synth;

pub use cycle::CycleCapability;
pub use cycle::cycle_index;
pub use cycle::lemma_cycle_by_compose;
pub use cycle::lemma_cycle_by_step_mod;
pub use cycle::lemma_cycle_by_zero;
pub use cycle::lemma_cycle_index_in_range;
pub use cycle::lemma_next_prev_inverse;
pub use descriptor::EnumDescriptor;
pub use descriptor::FieldKind;
pub use descriptor::TypeData;
pub use descriptor::VariantRecord;
pub use helpers::DeriveError;
pub use helpers::lemma_ordinal_width_minimal;
pub use helpers::ordinal_width;
pub use helpers::primitive_bit_req;
pub use helpers::unwrap_enum;
pub use helpers::unwrap_linear_enum;
pub use helpers::unwrap_linear_populated_enum;
pub use helpers::unwrap_populated_enum;
pub use helpers::unwrap_unit_variant;
pub use helpers::unwrap_variant;
pub use synth::DefaultCapability;
pub use synth::SizeCapability;
pub use synth::default_choice;
pub use synth::derive_cycle;
pub use synth::derive_default;
pub use synth::derive_sized_enum;
pub use synth::first_marked;
pub use synth::lemma_first_marked;

verus! {

/// A trait for enums with public variant quantities, useful to determine
/// their bit size or ensure valid indexes. It is the stable surface the size
/// synthesizer targets: an implementation generated from a
/// [`SizeCapability`] reports that bundle's variant count.
pub trait SizedEnum: Sized {
    /// The number of variants the enum has.
    const VARIANTS: usize;
}

/// A trait for cyclic linear populated enums: enums whose variants can be
/// iterated through bidirectionally, wrapping around at each boundary. It is
/// the stable surface the cycle synthesizer targets: an implementation
/// generated from a [`CycleCapability`] realizes each operation over variant
/// ordinals exactly as the bundle's methods do.
pub trait Cycle: SizedEnum {
    /// The ordinal of this variant: its zero-based position in the declared
    /// order.
    spec fn ordinal(self) -> nat;

    /// Returns the variant at the absolute position `idx`, or a
    /// [`CycleError::OutOfBounds`] if `idx` is not a valid ordinal. The
    /// variant this is called on supplies only type information, never a
    /// position: despite the name, the operation is absolute, not relative.
    fn try_cycle_to(self, idx: usize) -> (r: Result<Self, CycleError>)
        ensures
            idx < Self::VARIANTS ==> r is Ok && r->Ok_0.ordinal() == idx,
            idx >= Self::VARIANTS ==> r == Err::<Self, CycleError>(CycleError::OutOfBounds),
    ;

    /// Returns the variant at the absolute position `idx`, which must be a
    /// valid ordinal.
    fn cycle_to(self, idx: usize) -> (r: Self)
        requires
            idx < Self::VARIANTS,
        ensures
            r.ordinal() == idx,
    ;

    /// Returns the variant `step` variants ahead if `step` is positive, or
    /// `step` variants behind if `step` is negative, wrapping at the first
    /// and last variant. This is the sole operation genuinely relative to the
    /// variant it is called on.
    fn cycle_by(self, step: isize) -> (r: Self)
        requires
            self.ordinal() < Self::VARIANTS,
        ensures
            r.ordinal() == cycle_index(self.ordinal() as int, step as int, Self::VARIANTS as int),
    ;

    /// Returns the next variant, wrapping at the last variant.
    fn next(self) -> (r: Self)
        requires
            self.ordinal() < Self::VARIANTS,
        ensures
            r.ordinal() == cycle_index(self.ordinal() as int, 1, Self::VARIANTS as int),
    ;

    /// Returns the previous variant, wrapping at the first variant.
    fn prev(self) -> (r: Self)
        requires
            self.ordinal() < Self::VARIANTS,
        ensures
            r.ordinal() == cycle_index(self.ordinal() as int, -1, Self::VARIANTS as int),
    ;
}

/// A marker trait for populated enums that have default variants. It is the
/// stable surface the default synthesizer targets: an implementation
/// generated from a [`DefaultCapability`] returns the variant at that
/// bundle's chosen ordinal.
pub trait DefaultEnum: Default {
}

/// A list specifying categories of errors produced by cyclic navigation.
#[derive(Clone, Copy, Debug, PartialEq, Eq, PartialOrd, Ord, Structural)]
pub enum CycleError {
    /// The provided index was out of bounds, i.e. outside of `0..n` where `n`
    /// is the variant count of the enum.
    OutOfBounds,
}

impl CycleError {
    /// A human-readable description of the error.
    pub fn message(&self) -> (r: String)
        ensures
            r@ == "enum failed to cycle"@,
    {
        proof {
            reveal_strlit("enum failed to cycle");
        }
        "enum failed to cycle".to_string()
    }
}

} // verus!
