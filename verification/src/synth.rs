//! The three synthesizers: each classifies a type description and emits a
//! capability bundle, deriving only the facts it needs from the description.

use vstd::prelude::*;

use crate::cycle::CycleCapability;
use crate::descriptor::TypeData;
use crate::descriptor::VariantRecord;
use crate::helpers::DeriveError;
use crate::helpers::ordinal_width;
use crate::helpers::primitive_bit_req;
use crate::helpers::unwrap_enum;
use crate::helpers::unwrap_linear_populated_enum;
use crate::helpers::unwrap_populated_enum;
use crate::helpers::unwrap_unit_variant;

verus! {

/// The variant-count capability synthesized for one enum.
#[derive(Clone, Copy, Debug, PartialEq, Eq, Structural)]
pub struct SizeCapability {
    /// The number of variants the enum has.
    pub variants: usize,
}

/// The default-selection capability synthesized for one enum: the ordinal of
/// the variant a zero-argument constructor returns.
#[derive(Clone, Copy, Debug, PartialEq, Eq, Structural)]
pub struct DefaultCapability {
    /// The ordinal of the chosen default variant.
    pub ordinal: usize,
}

/// The index of the first variant carrying the default marker, or the length
/// of the sequence when no variant carries it.
pub open spec fn first_marked(s: Seq<VariantRecord>) -> int
    decreases s.len(),
{
    if s.len() == 0 {
        0
    } else if s[0].default_marker {
        0
    } else {
        1 + first_marked(s.drop_first())
    }
}

/// The ordinal the default synthesizer selects: the first variant carrying
/// the default marker in declaration order, or the first declared variant
/// when none is marked.
pub open spec fn default_choice(s: Seq<VariantRecord>) -> int {
    if first_marked(s) < s.len() {
        first_marked(s)
    } else {
        0
    }
}

/// The first marked index lies in `[0, len]`; when it is in `[0, len)` it is
/// the least index of a marked variant, and it is `len` exactly when no
/// variant is marked.
pub proof fn lemma_first_marked(s: Seq<VariantRecord>)
    ensures
        0 <= first_marked(s) <= s.len(),
        first_marked(s) < s.len() ==> s[first_marked(s)].default_marker,
        forall|j: int| 0 <= j < first_marked(s) ==> !(#[trigger] s[j].default_marker),
    decreases s.len(),
{
    if s.len() > 0 && !s[0].default_marker {
        lemma_first_marked(s.drop_first());
        assert forall|j: int| 0 <= j < first_marked(s) implies !(#[trigger] s[j].default_marker) by {
            if j > 0 {
                assert(s.drop_first()[j - 1] == s[j]);
            }
        }
    }
}

/// Emits the variant-count capability for any enum, populated or not.
pub fn derive_sized_enum(data: &TypeData) -> (r: Result<SizeCapability, DeriveError>)
    ensures
        data is Enum ==> r == Ok::<SizeCapability, DeriveError>(
            (SizeCapability { variants: data->Enum_0.variants@.len() as usize }),
        ),
        !(data is Enum) ==> r == Err::<SizeCapability, DeriveError>(DeriveError::NotAnEnum),
{
    let d = unwrap_enum(data)?;
    Ok(SizeCapability { variants: d.variants.len() })
}

/// Emits the default-selection capability: the enum must be populated, and
/// the chosen variant — the first carrying the default marker, or the first
/// declared when none is marked — must be a unit variant.
pub fn derive_default(data: &TypeData) -> (r: Result<DefaultCapability, DeriveError>)
    ensures
        !(data is Enum) ==> r == Err::<DefaultCapability, DeriveError>(DeriveError::NotAnEnum),
        data is Enum && !data->Enum_0.is_populated() ==> r == Err::<DefaultCapability, DeriveError>(
            DeriveError::EmptyEnum,
        ),
        data is Enum && data->Enum_0.is_populated() && data->Enum_0.variants@[default_choice(
            data->Enum_0.variants@,
        )].is_unit() ==> r == Ok::<DefaultCapability, DeriveError>(
            (DefaultCapability { ordinal: default_choice(data->Enum_0.variants@) as usize }),
        ),
        data is Enum && data->Enum_0.is_populated() && !data->Enum_0.variants@[default_choice(
            data->Enum_0.variants@,
        )].is_unit() ==> r == Err::<DefaultCapability, DeriveError>(DeriveError::NonUnitVariant),
{
    let d = unwrap_populated_enum(data)?;
    let ghost s = d.variants@;
    proof {
        lemma_first_marked(s);
    }
    let n = d.variants.len();
    let mut i: usize = 0;
    let mut found: Option<usize> = None;
    while i < n && found.is_none()
        invariant
            *d == data->Enum_0,
            n == s.len(),
            s == d.variants@,
            0 <= i <= n,
            match found {
                Some(k) => k == i - 1 && k == first_marked(s),
                None => forall|j: int| 0 <= j < i ==> !(#[trigger] s[j].default_marker),
            },
        decreases n - i,
    {
        if d.variants[i].default_marker {
            proof {
                lemma_first_marked(s);
            }
            found = Some(i);
        }
        i = i + 1;
    }
    let idx: usize = match found {
        Some(k) => k,
        None => 0,
    };
    proof {
        assert(idx == default_choice(s));
    }
    unwrap_unit_variant(Some(&d.variants[idx]))?;
    Ok(DefaultCapability { ordinal: idx })
}

/// Emits the cyclic-navigation capability: the enum must be linear and
/// populated; the bundle carries the variant count and the binary width the
/// ordinal width selector picks for it.
pub fn derive_cycle(data: &TypeData) -> (r: Result<CycleCapability, DeriveError>)
    ensures
        data is Enum && data->Enum_0.is_populated() && data->Enum_0.is_linear() ==> r == Ok::<
            CycleCapability,
            DeriveError,
        >(
            (CycleCapability {
                count: data->Enum_0.variants@.len() as usize,
                width: ordinal_width(data->Enum_0.variants@.len()) as usize,
            }),
        ),
        !(data is Enum && data->Enum_0.is_populated() && data->Enum_0.is_linear()) ==> r == Err::<
            CycleCapability,
            DeriveError,
        >(DeriveError::NonLinearPopulatedEnum),
{
    let d = unwrap_linear_populated_enum(data)?;
    proof {
        assert(data is Enum && data->Enum_0.is_populated() && data->Enum_0.is_linear());
        assert(*d == data->Enum_0);
    }
    let size = derive_sized_enum(data)?;
    let n = d.variants.len();
    proof {
        assert(n == size.variants);
    }
    let width = primitive_bit_req(n);
    Ok(CycleCapability { count: n, width })
}

} // verus!
