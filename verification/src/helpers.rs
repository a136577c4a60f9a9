//! The shape checks: total classifications of a type description against the
//! structural predicates the synthesizers rely on, and the selection of a
//! minimal binary width for ordinal representation.

use vstd::arithmetic::power2::lemma2_to64;
use vstd::arithmetic::power2::pow2;
use vstd::prelude::*;

use crate::descriptor::EnumDescriptor;
use crate::descriptor::FieldKind;
use crate::descriptor::TypeData;
use crate::descriptor::VariantRecord;

verus! {

/// An error raised while classifying a type description, fatal to the
/// derivation that raised it.
#[derive(Clone, Copy, Debug, PartialEq, Eq, Structural)]
pub enum DeriveError {
    /// The description does not denote an enum.
    NotAnEnum,
    /// The enum has zero variants where at least one is required.
    EmptyEnum,
    /// A variant carries an explicit discriminant where none is allowed.
    NonLinearEnum,
    /// The combined populated-and-linear check failed; the specific cause is
    /// deliberately collapsed into this single kind.
    NonLinearPopulatedEnum,
    /// No variant could be resolved where one was required.
    NoValidVariant,
    /// A resolved variant carries fields where only unit variants are valid.
    NonUnitVariant,
}

/// Classifies a description as an enum, or rejects it.
pub fn unwrap_enum(data: &TypeData) -> (r: Result<&EnumDescriptor, DeriveError>)
    ensures
        data is Enum ==> r is Ok && *r->Ok_0 == data->Enum_0,
        !(data is Enum) ==> r == Err::<&EnumDescriptor, DeriveError>(DeriveError::NotAnEnum),
{
    match data {
        TypeData::Enum(d) => Ok(d),
        _ => Err(DeriveError::NotAnEnum),
    }
}

/// Classifies a description as a populated enum: an enum with at least one
/// variant.
pub fn unwrap_populated_enum(data: &TypeData) -> (r: Result<&EnumDescriptor, DeriveError>)
    ensures
        data is Enum && data->Enum_0.is_populated() ==> r is Ok && *r->Ok_0 == data->Enum_0,
        !(data is Enum) ==> r == Err::<&EnumDescriptor, DeriveError>(DeriveError::NotAnEnum),
        data is Enum && !data->Enum_0.is_populated() ==> r == Err::<&EnumDescriptor, DeriveError>(
            DeriveError::EmptyEnum,
        ),
{
    let d = unwrap_enum(data)?;
    if d.variants.len() > 0 {
        Ok(d)
    } else {
        Err(DeriveError::EmptyEnum)
    }
}

/// Classifies a description as a linear enum: an enum none of whose variants
/// carries an explicit discriminant, so that every ordinal equals the natural
/// enumeration position.
pub fn unwrap_linear_enum(data: &TypeData) -> (r: Result<&EnumDescriptor, DeriveError>)
    ensures
        data is Enum && data->Enum_0.is_linear() ==> r is Ok && *r->Ok_0 == data->Enum_0,
        !(data is Enum) ==> r == Err::<&EnumDescriptor, DeriveError>(DeriveError::NotAnEnum),
        data is Enum && !data->Enum_0.is_linear() ==> r == Err::<&EnumDescriptor, DeriveError>(
            DeriveError::NonLinearEnum,
        ),
{
    let d = unwrap_enum(data)?;
    proof {
        assert(data is Enum && *d == data->Enum_0);
    }
    let n = d.variants.len();
    let mut i: usize = 0;
    while i < n
        invariant
            data is Enum && *d == data->Enum_0,
            n == d.variants@.len(),
            0 <= i <= n,
            forall|j: int| 0 <= j < i ==> #[trigger] d.variants@[j].is_linear(),
        decreases n - i,
    {
        if d.variants[i].discriminant.is_some() {
            proof {
                assert(!d.variants@[i as int].is_linear());
            }
            return Err(DeriveError::NonLinearEnum);
        }
        i = i + 1;
    }
    Ok(d)
}

/// Classifies a description as a linear populated enum, composing the
/// populated check with the linear check. Either failure, including a
/// description that is not an enum at all, is reported as the single combined
/// kind [`DeriveError::NonLinearPopulatedEnum`].
pub fn unwrap_linear_populated_enum(data: &TypeData) -> (r: Result<&EnumDescriptor, DeriveError>)
    ensures
        data is Enum && data->Enum_0.is_populated() && data->Enum_0.is_linear() ==> r is Ok
            && *r->Ok_0 == data->Enum_0,
        !(data is Enum && data->Enum_0.is_populated() && data->Enum_0.is_linear()) ==> r == Err::<
            &EnumDescriptor,
            DeriveError,
        >(DeriveError::NonLinearPopulatedEnum),
{
    let populated = unwrap_populated_enum(data);
    let r = match populated {
        Ok(_) => unwrap_linear_enum(data),
        Err(e) => Err(e),
    };
    match r {
        Ok(d) => Ok(d),
        Err(_) => Err(DeriveError::NonLinearPopulatedEnum),
    }
}

/// Resolves an optional variant reference to a concrete variant, or rejects
/// the lookup.
pub fn unwrap_variant<'a>(variant: Option<&'a VariantRecord>) -> (r: Result<
    &'a VariantRecord,
    DeriveError,
>)
    ensures
        variant is Some ==> r == Ok::<&'a VariantRecord, DeriveError>(variant->Some_0),
        variant is None ==> r == Err::<&'a VariantRecord, DeriveError>(DeriveError::NoValidVariant),
{
    match variant {
        Some(v) => Ok(v),
        None => Err(DeriveError::NoValidVariant),
    }
}

/// Resolves an optional variant reference to a concrete unit variant: the
/// variant must exist and must carry no fields.
pub fn unwrap_unit_variant<'a>(variant: Option<&'a VariantRecord>) -> (r: Result<
    &'a VariantRecord,
    DeriveError,
>)
    ensures
        variant is Some && variant->Some_0.is_unit() ==> r == Ok::<&'a VariantRecord, DeriveError>(
            variant->Some_0,
        ),
        variant is None ==> r == Err::<&'a VariantRecord, DeriveError>(DeriveError::NoValidVariant),
        variant is Some && !variant->Some_0.is_unit() ==> r == Err::<&'a VariantRecord, DeriveError>(
            DeriveError::NonUnitVariant,
        ),
{
    let v = unwrap_variant(variant)?;
    match v.fields {
        FieldKind::Unit => Ok(v),
        _ => Err(DeriveError::NonUnitVariant),
    }
}

/// The minimal standard binary width able to represent the integer `n`: the
/// number of bits up to the highest set bit of `n`, rounded up to a power of
/// two and clamped below at eight.
pub open spec fn ordinal_width(n: nat) -> nat {
    if n < pow2(8) {
        8
    } else if n < pow2(16) {
        16
    } else if n < pow2(32) {
        32
    } else {
        64
    }
}

/// The width selected for a count is one of the standard power-of-two widths,
/// is wide enough to represent the count itself, and is minimal: the next
/// narrower power of two is never enough, except at the lower clamp of eight.
pub proof fn lemma_ordinal_width_minimal(n: nat)
    requires
        n < pow2(64),
    ensures
        ordinal_width(n) == 8 || ordinal_width(n) == 16 || ordinal_width(n) == 32 || ordinal_width(
            n,
        ) == 64,
        n < pow2(ordinal_width(n)),
        ordinal_width(n) > 8 ==> pow2(ordinal_width(n) / 2) <= n,
{
    lemma2_to64();
}

/// Selects the binary width used to reinterpret an ordinal as the underlying
/// representation of an enum with `n` variants: the bit length of `n` itself,
/// rounded up to the next power of two and clamped to the standard widths.
pub fn primitive_bit_req(n: usize) -> (w: usize)
    ensures
        w as nat == ordinal_width(n as nat),
{
    proof {
        lemma2_to64();
    }
    if n <= 0xFF {
        8
    } else if n <= 0xFFFF {
        16
    } else if n <= 0xFFFF_FFFF {
        32
    } else {
        64
    }
}

} // verus!
