//! The type classifier and the parameter normalizer: every declared type
//! falls into one of a fixed set of semantic shapes, and every parameter
//! position is either exact or convertible.

use vstd::prelude::*;

use crate::schema::TypeDesc;

verus! {

/// The semantic shape of a declared type. A type that matches none of the
/// recognized container shapes is a scalar: classification is total and
/// unrecognized shapes degrade safely.
#[derive(Debug, PartialEq, Eq, Clone, Copy)]
pub enum TypeCategory {
    Scalar,
    Reference,
    OptionShape,
    SequenceShape,
    MapShape,
    SetShape,
}

/// How a generated method or constructor accepts a parameter of a given
/// type: exactly that type, or anything convertible to it.
#[derive(Debug, PartialEq, Eq, Clone, Copy)]
pub enum ParameterMode {
    Exact,
    Convertible,
}

/// Whether a single-segment name with the given argument count matches
/// the optional-container shape.
pub open spec fn is_option_name(n: Seq<char>) -> bool {
    n == "Option"@
}

/// Whether the name is the sequence container.
pub open spec fn is_sequence_name(n: Seq<char>) -> bool {
    n == "Vec"@
}

/// Whether the name is one of the keyed-map containers, ordered or not.
pub open spec fn is_map_name(n: Seq<char>) -> bool {
    n == "HashMap"@ || n == "BTreeMap"@
}

/// Whether the name is one of the set containers, ordered or not.
pub open spec fn is_set_name(n: Seq<char>) -> bool {
    n == "HashSet"@ || n == "BTreeSet"@
}

/// The classification of a declared type: references are never containers;
/// a container shape is a single unqualified name from the closed set with
/// matching argument arity; everything else is a scalar.
pub open spec fn spec_classify(t: TypeDesc) -> TypeCategory {
    match t {
        TypeDesc::Reference => TypeCategory::Reference,
        TypeDesc::Path { segments, args } => {
            if segments@.len() == 1 {
                let n = segments@[0]@;
                if is_option_name(n) && args@.len() == 1 {
                    TypeCategory::OptionShape
                } else if is_sequence_name(n) && args@.len() == 1 {
                    TypeCategory::SequenceShape
                } else if is_map_name(n) && args@.len() == 2 {
                    TypeCategory::MapShape
                } else if is_set_name(n) && args@.len() == 1 {
                    TypeCategory::SetShape
                } else {
                    TypeCategory::Scalar
                }
            } else {
                TypeCategory::Scalar
            }
        },
    }
}

/// Whether the name is one of the fixed-width or pointer-sized integer
/// scalars, for which conversion of numeric literals would be ambiguous.
pub open spec fn spec_is_integer_name(n: Seq<char>) -> bool {
    ||| n == "i8"@
    ||| n == "i16"@
    ||| n == "i32"@
    ||| n == "i64"@
    ||| n == "i128"@
    ||| n == "isize"@
    ||| n == "u8"@
    ||| n == "u16"@
    ||| n == "u32"@
    ||| n == "u64"@
    ||| n == "u128"@
    ||| n == "usize"@
}

/// The parameter mode of a declared type: references and the fixed-width
/// integer scalars are taken exactly; every other type accepts anything
/// convertible to it. The name examined is the last path segment.
pub open spec fn spec_mode(t: TypeDesc) -> ParameterMode {
    match t {
        TypeDesc::Reference => ParameterMode::Exact,
        TypeDesc::Path { segments, args } => {
            if segments@.len() >= 1 && spec_is_integer_name(
                segments@[segments@.len() - 1]@,
            ) {
                ParameterMode::Exact
            } else {
                ParameterMode::Convertible
            }
        },
    }
}

/// Decides whether a string equals a literal name.
pub(crate) fn name_is(s: &String, lit: &str) -> (r: bool)
    ensures
        r == (s@ == lit@),
{
    s.eq(&lit.to_owned())
}

/// Decides whether a name is one of the fixed-width or pointer-sized
/// integer scalar names.
pub(crate) fn is_integer_name(s: &String) -> (r: bool)
    ensures
        r == spec_is_integer_name(s@),
{
    name_is(s, "i8") || name_is(s, "i16") || name_is(s, "i32") || name_is(s, "i64") || name_is(
        s,
        "i128",
    ) || name_is(s, "isize") || name_is(s, "u8") || name_is(s, "u16") || name_is(s, "u32")
        || name_is(s, "u64") || name_is(s, "u128") || name_is(s, "usize")
}

/// Classifies one declared type into its semantic shape.
pub fn classify(t: &TypeDesc) -> (c: TypeCategory)
    ensures
        c == spec_classify(*t),
{
    match t {
        TypeDesc::Reference => TypeCategory::Reference,
        TypeDesc::Path { segments, args } => {
            if segments.len() != 1 {
                return TypeCategory::Scalar;
            }
            let n = &segments[0];
            if name_is(n, "Option") && args.len() == 1 {
                TypeCategory::OptionShape
            } else if name_is(n, "Vec") && args.len() == 1 {
                TypeCategory::SequenceShape
            } else if (name_is(n, "HashMap") || name_is(n, "BTreeMap")) && args.len() == 2 {
                TypeCategory::MapShape
            } else if (name_is(n, "HashSet") || name_is(n, "BTreeSet")) && args.len() == 1 {
                TypeCategory::SetShape
            } else {
                TypeCategory::Scalar
            }
        },
    }
}

/// Decides the parameter mode for one declared type.
pub fn normalize(t: &TypeDesc) -> (m: ParameterMode)
    ensures
        m == spec_mode(*t),
{
    match t {
        TypeDesc::Reference => ParameterMode::Exact,
        TypeDesc::Path { segments, args } => {
            if segments.len() == 0 {
                return ParameterMode::Convertible;
            }
            let n = &segments[segments.len() - 1];
            if is_integer_name(n) {
                ParameterMode::Exact
            } else {
                ParameterMode::Convertible
            }
        },
    }
}

} // verus!
