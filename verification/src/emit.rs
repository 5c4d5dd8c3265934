//! Emission of conversion implementations for record shapes: a
//! positional newtype, a named newtype, a positional group, and a named
//! group. Each emitter is a pure function from the type's structural
//! data to one block of source text.

use vstd::prelude::*;
use vstd::string::StringExecFns;

use crate::model::NamedField;
use crate::text::{
    conversion_impl, decimal_string, join_parts, spec_conversion_impl, spec_decimal, spec_join,
};

verus! {

/// The text converting a value of the wrapped type into a positional
/// newtype: the value fills the sole slot.
pub open spec fn spec_newtype_from(input_type: Seq<char>, original_type: Seq<char>) -> Seq<char> {
    spec_conversion_impl(original_type, input_type, input_type + "(original)"@)
}

/// The text converting a value of the field's type into a single-field
/// named record: the value is assigned to that field.
pub open spec fn spec_newtype_struct_from(
    input_type: Seq<char>,
    field_name: Seq<char>,
    field_ty: Seq<char>,
) -> Seq<char> {
    spec_conversion_impl(
        field_ty,
        input_type,
        input_type + " { "@ + field_name + ": original }"@,
    )
}

/// The written form of the source tuple type: the given types,
/// comma-separated, in parentheses, in declaration order.
pub open spec fn spec_tuple_ty(tys: Seq<Seq<char>>) -> Seq<char> {
    "("@ + spec_join(tys, ", "@) + ")"@
}

/// The accessor texts of the first `n` tuple elements, in order.
pub open spec fn spec_tuple_args(n: nat) -> Seq<Seq<char>> {
    Seq::new(n, |i: int| "original."@ + spec_decimal(i as nat))
}

/// The text converting an ordered tuple of the given types into a
/// positional group: tuple element `i` fills positional slot `i`.
pub open spec fn spec_tuple_from(input_type: Seq<char>, tys: Seq<Seq<char>>) -> Seq<char> {
    spec_conversion_impl(
        spec_tuple_ty(tys),
        input_type,
        input_type + "("@ + spec_join(spec_tuple_args(tys.len()), ", "@) + ")"@,
    )
}

/// The declared types of the fields, in declaration order.
pub open spec fn spec_field_tys(fields: Seq<NamedField>) -> Seq<Seq<char>> {
    Seq::new(fields.len(), |i: int| fields[i].ty@)
}

/// The field initialiser texts: the field at declaration position `i`
/// is assigned tuple element `i`.
pub open spec fn spec_field_inits(fields: Seq<NamedField>) -> Seq<Seq<char>> {
    Seq::new(fields.len(), |i: int| fields[i].name@ + ": original."@ + spec_decimal(i as nat))
}

/// The text converting an ordered tuple of the fields' declared types
/// into a named group: mapping is purely positional, names play no role
/// in it.
pub open spec fn spec_struct_from(input_type: Seq<char>, fields: Seq<NamedField>) -> Seq<char> {
    spec_conversion_impl(
        spec_tuple_ty(spec_field_tys(fields)),
        input_type,
        input_type + " { "@ + spec_join(spec_field_inits(fields), ", "@) + " }"@,
    )
}

/// Law of the positional emitter, written out for a group of three:
/// the conversion converts from the tuple of exactly the three declared
/// types, in declaration order, and the constructor reads tuple
/// elements `0`, `1`, `2` in that order — no reordering.
pub proof fn lemma_positional_triple_maps_in_order(input_type: Seq<char>, tys: Seq<Seq<char>>)
    requires
        tys.len() == 3,
    ensures
        spec_tuple_from(input_type, tys) == spec_conversion_impl(
            "("@ + tys[0] + ", "@ + tys[1] + ", "@ + tys[2] + ")"@,
            input_type,
            input_type + "("@ + "original."@ + spec_decimal(0) + ", "@ + "original."@
                + spec_decimal(1) + ", "@ + "original."@ + spec_decimal(2) + ")"@,
        ),
{
    reveal_with_fuel(spec_join, 4);
    assert(tys.drop_last() =~= seq![tys[0], tys[1]]);
    assert(tys.drop_last().drop_last() =~= seq![tys[0]]);
    assert(spec_join(tys, ", "@) == tys[0] + ", "@ + tys[1] + ", "@ + tys[2]);
    let args = spec_tuple_args(3);
    assert(args.drop_last() =~= seq![args[0], args[1]]);
    assert(args.drop_last().drop_last() =~= seq![args[0]]);
    assert(spec_join(args, ", "@) == args[0] + ", "@ + args[1] + ", "@ + args[2]);
    assert(spec_tuple_from(input_type, tys) =~= spec_conversion_impl(
        "("@ + tys[0] + ", "@ + tys[1] + ", "@ + tys[2] + ")"@,
        input_type,
        input_type + "("@ + "original."@ + spec_decimal(0) + ", "@ + "original."@ + spec_decimal(
            1,
        ) + ", "@ + "original."@ + spec_decimal(2) + ")"@,
    ));
}

/// Law of the named emitter, written out for a group of two: the
/// conversion converts from the tuple of the two declared types, and
/// assigns tuple element `0` to the first-declared field and element
/// `1` to the second — whatever the field names are, they play no role
/// in the mapping.
pub proof fn lemma_named_pair_assigns_by_position(input_type: Seq<char>, fields: Seq<NamedField>)
    requires
        fields.len() == 2,
    ensures
        spec_struct_from(input_type, fields) == spec_conversion_impl(
            "("@ + fields[0].ty@ + ", "@ + fields[1].ty@ + ")"@,
            input_type,
            input_type + " { "@ + fields[0].name@ + ": original."@ + spec_decimal(0) + ", "@
                + fields[1].name@ + ": original."@ + spec_decimal(1) + " }"@,
        ),
{
    reveal_with_fuel(spec_join, 3);
    let tys = spec_field_tys(fields);
    assert(tys.drop_last() =~= seq![fields[0].ty@]);
    assert(spec_join(tys, ", "@) == fields[0].ty@ + ", "@ + fields[1].ty@);
    let inits = spec_field_inits(fields);
    assert(inits.drop_last() =~= seq![inits[0]]);
    assert(spec_join(inits, ", "@) == inits[0] + ", "@ + inits[1]);
    assert(spec_struct_from(input_type, fields) =~= spec_conversion_impl(
        "("@ + fields[0].ty@ + ", "@ + fields[1].ty@ + ")"@,
        input_type,
        input_type + " { "@ + fields[0].name@ + ": original."@ + spec_decimal(0) + ", "@
            + fields[1].name@ + ": original."@ + spec_decimal(1) + " }"@,
    ));
}

/// Emits the conversion for a positional newtype.
pub fn newtype_from(input_type: &str, original_type: &str) -> (s: String)
    ensures
        s@ == spec_newtype_from(input_type@, original_type@),
{
    let mut body = String::from_str(input_type);
    body.append("(original)");
    conversion_impl(original_type, input_type, body.as_str())
}

/// Emits the conversion for a single-field named record.
pub fn newtype_struct_from(input_type: &str, field: &NamedField) -> (s: String)
    ensures
        s@ == spec_newtype_struct_from(input_type@, field.name@, field.ty@),
{
    let mut body = String::from_str(input_type);
    body.append(" { ");
    body.append(field.name.as_str());
    body.append(": original }");
    proof {
        assert(body@ =~= input_type@ + " { "@ + field.name@ + ": original }"@);
    }
    conversion_impl(field.ty.as_str(), input_type, body.as_str())
}

/// Writes the source tuple type for the given field types.
fn tuple_ty(types: &Vec<String>) -> (s: String)
    ensures
        s@ == spec_tuple_ty(types.deep_view()),
{
    let mut s = String::from_str("(");
    let joined = join_parts(types, ", ");
    s.append(joined.as_str());
    s.append(")");
    proof {
        assert(s@ =~= spec_tuple_ty(types.deep_view()));
    }
    s
}

/// Writes the accessors of the first `n` tuple elements.
fn tuple_args(n: usize) -> (args: Vec<String>)
    ensures
        args.deep_view() == spec_tuple_args(n as nat),
{
    let mut args: Vec<String> = Vec::new();
    let mut i: usize = 0;
    while i < n
        invariant
            i <= n,
            args.len() == i,
            forall|j: int|
                #![trigger args@[j]]
                0 <= j < i ==> args@[j]@ == "original."@ + spec_decimal(j as nat),
        decreases n - i,
    {
        let mut part = String::from_str("original.");
        let index_text = decimal_string(i);
        part.append(index_text.as_str());
        args.push(part);
        i += 1;
    }
    proof {
        assert forall|j: int| 0 <= j < n implies args.deep_view()[j] == spec_tuple_args(
            n as nat,
        )[j] by {
            assert(args.deep_view()[j] == args@[j]@);
        }
        assert(args.deep_view() =~= spec_tuple_args(n as nat));
    }
    args
}

/// Emits the conversion for a positional group of two or more fields.
pub fn tuple_from(input_type: &str, types: &Vec<String>) -> (s: String)
    ensures
        s@ == spec_tuple_from(input_type@, types.deep_view()),
{
    let src = tuple_ty(types);
    let args = tuple_args(types.len());
    let mut body = String::from_str(input_type);
    body.append("(");
    let joined = join_parts(&args, ", ");
    body.append(joined.as_str());
    body.append(")");
    proof {
        assert(body@ =~= input_type@ + "("@ + spec_join(
            spec_tuple_args(types.deep_view().len()),
            ", "@,
        ) + ")"@);
    }
    conversion_impl(src.as_str(), input_type, body.as_str())
}

/// Writes the field initialiser list for a named group.
fn field_inits(fields: &Vec<NamedField>) -> (parts: Vec<String>)
    ensures
        parts.deep_view() == spec_field_inits(fields@),
{
    let mut parts: Vec<String> = Vec::new();
    let mut i: usize = 0;
    while i < fields.len()
        invariant
            i <= fields.len(),
            parts.len() == i,
            forall|j: int|
                #![trigger parts@[j]]
                0 <= j < i ==> parts@[j]@ == fields@[j].name@ + ": original."@ + spec_decimal(
                    j as nat,
                ),
        decreases fields.len() - i,
    {
        let field = &fields[i];
        let mut part = String::from_str(field.name.as_str());
        part.append(": original.");
        let index_text = decimal_string(i);
        part.append(index_text.as_str());
        parts.push(part);
        i += 1;
    }
    proof {
        assert forall|j: int| 0 <= j < fields@.len() implies parts.deep_view()[j]
            == spec_field_inits(fields@)[j] by {
            assert(parts.deep_view()[j] == parts@[j]@);
        }
        assert(parts.deep_view() =~= spec_field_inits(fields@));
    }
    parts
}

/// Collects the declared types of the fields, in order.
fn field_tys(fields: &Vec<NamedField>) -> (tys: Vec<String>)
    ensures
        tys.deep_view() == spec_field_tys(fields@),
{
    let mut tys: Vec<String> = Vec::new();
    let mut i: usize = 0;
    while i < fields.len()
        invariant
            i <= fields.len(),
            tys.len() == i,
            forall|j: int| #![trigger tys@[j]] 0 <= j < i ==> tys@[j]@ == fields@[j].ty@,
        decreases fields.len() - i,
    {
        let field = &fields[i];
        tys.push(field.ty.clone());
        i += 1;
    }
    proof {
        assert forall|j: int| 0 <= j < fields@.len() implies tys.deep_view()[j] == spec_field_tys(
            fields@,
        )[j] by {
            assert(tys.deep_view()[j] == tys@[j]@);
        }
        assert(tys.deep_view() =~= spec_field_tys(fields@));
    }
    tys
}

/// Emits the conversion for a named group of two or more fields.
pub fn struct_from(input_type: &str, fields: &Vec<NamedField>) -> (s: String)
    ensures
        s@ == spec_struct_from(input_type@, fields@),
{
    let tys = field_tys(fields);
    let src = tuple_ty(&tys);
    let inits = field_inits(fields);
    let mut body = String::from_str(input_type);
    body.append(" { ");
    let joined = join_parts(&inits, ", ");
    body.append(joined.as_str());
    body.append(" }");
    proof {
        assert(body@ =~= input_type@ + " { "@ + spec_join(spec_field_inits(fields@), ", "@)
            + " }"@);
    }
    conversion_impl(src.as_str(), input_type, body.as_str())
}

} // verus!
