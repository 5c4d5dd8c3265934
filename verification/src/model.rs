//! Structural model of a user-declared composite type.
//!
//! A type definition is a name together with a body: either a record
//! (a struct with positional or named fields) or a tagged union (an enum
//! of variants). Field types are carried as canonical source text and are
//! compared only by that text.

use vstd::prelude::*;
use vstd::string::StringExecFns;

verus! {

/// A named record field: its identifier and the canonical text of its type.
pub struct NamedField {
    pub name: String,
    pub ty: String,
}

/// The fields carried by a record body or by a union variant.
pub enum FieldList {
    /// No fields at all (a unit struct, or a variant without data).
    NoFields,
    /// Positional fields, given by the canonical text of each type, in
    /// declaration order.
    Positional(Vec<String>),
    /// Named fields, in declaration order.
    Named(Vec<NamedField>),
}

/// A union variant: its identifier and the fields it carries.
pub struct Variant {
    pub name: String,
    pub fields: FieldList,
}

/// The body of a type definition. A declaration that is neither a
/// record nor a tagged union (an opaque alias, say) carries no fields
/// to convert from; it is represented as a record without fields, which
/// classification rejects.
pub enum TypeBody {
    /// A record: a struct with one list of fields.
    Record(FieldList),
    /// A tagged union: an enum with its variants in declaration order.
    Union(Vec<Variant>),
}

/// A user-declared composite type: its identifier and its body.
pub struct TypeDefinition {
    pub name: String,
    pub body: TypeBody,
}

/// The one failure of conversion generation. It is fatal: the
/// surrounding build step is expected to abort with the diagnostic.
#[derive(Debug)]
pub enum DeriveError {
    /// The definition admits no conversion: a record without fields, a
    /// union without variants, or a body that is neither record nor
    /// union. Carries the name of the offending type.
    UnsupportedShape { offending_type: String },
}

/// The diagnostic text of an error, naming the offending type.
pub open spec fn spec_error_message(e: DeriveError) -> Seq<char> {
    match e {
        DeriveError::UnsupportedShape { offending_type } =>
            "Only structs with fields and enums with variants can derive From: "@ + offending_type@,
    }
}

impl DeriveError {
    /// Writes the build diagnostic, naming the offending type.
    pub fn message(&self) -> (m: String)
        ensures
            m@ == spec_error_message(*self),
    {
        match self {
            DeriveError::UnsupportedShape { offending_type } => {
                let mut m = String::from_str(
                    "Only structs with fields and enums with variants can derive From: ",
                );
                m.append(offending_type.as_str());
                m
            },
        }
    }
}

} // verus!
