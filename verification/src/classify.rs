//! Shape classification: which of the five supported shapes a type
//! definition has. Everything downstream — which emitter runs, and on
//! which data — is decided here.

use vstd::prelude::*;

use crate::model::{DeriveError, FieldList, NamedField, TypeBody, TypeDefinition, Variant};

verus! {

/// The structural classification of a supported type definition. A
/// shape borrows the definition's data; it is derived, never stored.
pub enum Shape<'a> {
    /// A record with exactly one positional field, wrapping that type.
    NewtypeWrap(&'a String),
    /// A record with two or more positional fields.
    PositionalGroup(&'a Vec<String>),
    /// A record with exactly one named field.
    NewtypeNamed(&'a NamedField),
    /// A record with two or more named fields.
    NamedGroup(&'a Vec<NamedField>),
    /// A tagged union with its variants in declaration order.
    UnionVariants(&'a Vec<Variant>),
}

/// Whether conversion generation is defined for the type: its record
/// has at least one field, or its union at least one variant. A body
/// with no fields at all is never supported.
pub open spec fn spec_supported(td: TypeDefinition) -> bool {
    match td.body {
        TypeBody::Record(FieldList::NoFields) => false,
        TypeBody::Record(FieldList::Positional(tys)) => tys@.len() >= 1,
        TypeBody::Record(FieldList::Named(fs)) => fs@.len() >= 1,
        TypeBody::Union(vs) => vs@.len() >= 1,
    }
}

/// The shape a supported type definition classifies to: single
/// positional field to a newtype wrap, several to a positional group,
/// single named field to a named newtype, several to a named group, a
/// union to its variant list.
pub open spec fn spec_shape_matches<'a>(td: TypeDefinition, shape: Shape<'a>) -> bool {
    match td.body {
        TypeBody::Record(FieldList::NoFields) => false,
        TypeBody::Record(FieldList::Positional(tys)) => if tys@.len() == 1 {
            shape matches Shape::NewtypeWrap(t) && *t == tys@[0]
        } else {
            shape matches Shape::PositionalGroup(ts) && ts@ == tys@
        },
        TypeBody::Record(FieldList::Named(fs)) => if fs@.len() == 1 {
            shape matches Shape::NewtypeNamed(f) && *f == fs@[0]
        } else {
            shape matches Shape::NamedGroup(gs) && gs@ == fs@
        },
        TypeBody::Union(vs) => shape matches Shape::UnionVariants(ws) && ws@ == vs@,
    }
}

/// Determines which of the five supported shapes the definition has,
/// or that none fits.
pub fn classify<'a>(td: &'a TypeDefinition) -> (r: Result<Shape<'a>, DeriveError>)
    ensures
        r is Ok <==> spec_supported(*td),
        r matches Ok(shape) ==> spec_shape_matches(*td, shape),
        r matches Err(e) ==> e == (DeriveError::UnsupportedShape { offending_type: td.name }),
{
    match &td.body {
        TypeBody::Record(FieldList::Positional(tys)) => {
            if tys.len() == 1 {
                Ok(Shape::NewtypeWrap(&tys[0]))
            } else if tys.len() > 1 {
                Ok(Shape::PositionalGroup(tys))
            } else {
                Err(DeriveError::UnsupportedShape { offending_type: td.name.clone() })
            }
        },
        TypeBody::Record(FieldList::Named(fs)) => {
            if fs.len() == 1 {
                Ok(Shape::NewtypeNamed(&fs[0]))
            } else if fs.len() > 1 {
                Ok(Shape::NamedGroup(fs))
            } else {
                Err(DeriveError::UnsupportedShape { offending_type: td.name.clone() })
            }
        },
        TypeBody::Record(FieldList::NoFields) => Err(
            DeriveError::UnsupportedShape { offending_type: td.name.clone() },
        ),
        TypeBody::Union(vs) => {
            if vs.len() > 0 {
                Ok(Shape::UnionVariants(vs))
            } else {
                Err(DeriveError::UnsupportedShape { offending_type: td.name.clone() })
            }
        },
    }
}

} // verus!
