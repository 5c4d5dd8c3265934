//! Generates conversion constructors for user-declared composite types.
//!
//! Given the structural definition of a record (positional or named
//! fields) or of a tagged union, the library emits source text that
//! implements `From` conversions: from a field value, from a tuple of
//! field values, or from a single-field variant's payload into the
//! defined type. Classification of the definition's shape, emission of
//! each conversion, and the ambiguity resolution for unions are pure
//! functions of the structural data; their output is pinned down
//! exactly by their contracts.

use vstd::prelude::*;

pub mod classify;
pub mod emit;
pub mod model;
pub mod resolve;
pub mod text;

use crate::classify::{classify, spec_supported, Shape};
use crate::emit::{
    newtype_from, newtype_struct_from, spec_newtype_from, spec_newtype_struct_from,
    spec_struct_from, spec_tuple_from, struct_from, tuple_from,
};
use crate::model::{DeriveError, FieldList, TypeBody, TypeDefinition};
use crate::resolve::{enum_from, spec_enum_from};

verus! {

/// The full text block a supported type definition expands to: the
/// conversion of its record shape, or the concatenated conversions of
/// its union's unambiguous variants.
pub open spec fn spec_expand(td: TypeDefinition) -> Seq<char> {
    match td.body {
        TypeBody::Record(FieldList::NoFields) => Seq::<char>::empty(),
        TypeBody::Record(FieldList::Positional(tys)) => if tys@.len() == 1 {
            spec_newtype_from(td.name@, tys@[0]@)
        } else {
            spec_tuple_from(td.name@, tys.deep_view())
        },
        TypeBody::Record(FieldList::Named(fs)) => if fs@.len() == 1 {
            spec_newtype_struct_from(td.name@, fs@[0].name@, fs@[0].ty@)
        } else {
            spec_struct_from(td.name@, fs@)
        },
        TypeBody::Union(vs) => spec_enum_from(td.name@, vs@),
    }
}

/// Expands one type definition into its generated conversions: the
/// single implementation of its record shape, or one implementation per
/// unambiguous single-field union variant, concatenated in declaration
/// order. Fails exactly on the unsupported shapes: a record without
/// fields, a union without variants, or a body with no fields at all.
/// The second argument is reserved for derive options and is unused.
pub fn expand(input: &TypeDefinition, _derive_options: &str) -> (r: Result<String, DeriveError>)
    ensures
        r is Ok <==> spec_supported(*input),
        r matches Ok(text) ==> text@ == spec_expand(*input),
        r matches Err(e) ==> e == (DeriveError::UnsupportedShape { offending_type: input.name }),
{
    match classify(input) {
        Ok(Shape::NewtypeWrap(original_type)) => Ok(
            newtype_from(input.name.as_str(), original_type.as_str()),
        ),
        Ok(Shape::PositionalGroup(types)) => Ok(tuple_from(input.name.as_str(), types)),
        Ok(Shape::NewtypeNamed(field)) => Ok(newtype_struct_from(input.name.as_str(), field)),
        Ok(Shape::NamedGroup(fields)) => Ok(struct_from(input.name.as_str(), fields)),
        Ok(Shape::UnionVariants(variants)) => Ok(enum_from(input.name.as_str(), variants)),
        Err(e) => Err(e),
    }
}

} // verus!
