//! Ambiguity resolution for tagged unions: which variants receive an
//! automatically generated "wrap a single value as this variant"
//! conversion.
//!
//! Only a variant carrying exactly one positional field is a candidate.
//! A candidate receives a conversion exactly when its field type, read
//! as canonical text, occurs in no other candidate: a type that could
//! fill more than one variant is ambiguous and is skipped.

use vstd::prelude::*;
use vstd::string::StringExecFns;

use crate::model::{FieldList, Variant};
use crate::text::{conversion_impl, spec_conversion_impl};

verus! {

/// A variant is a candidate for a generated conversion when it carries
/// exactly one positional field. Variants without data, with several
/// positional fields, or with named fields never receive one.
pub open spec fn spec_candidate(v: Variant) -> bool {
    match v.fields {
        FieldList::Positional(tys) => tys@.len() == 1,
        _ => false,
    }
}

/// The canonical text of a candidate variant's single field type.
pub open spec fn spec_candidate_ty(v: Variant) -> Seq<char> {
    match v.fields {
        FieldList::Positional(tys) => tys@[0]@,
        _ => Seq::empty(),
    }
}

/// How many of the first `n` variants are candidates whose field type
/// reads `ty`.
pub open spec fn spec_ty_count_upto(vs: Seq<Variant>, ty: Seq<char>, n: int) -> nat
    decreases n,
{
    if n <= 0 {
        0
    } else {
        spec_ty_count_upto(vs, ty, n - 1) + (if spec_candidate(vs[n - 1]) && spec_candidate_ty(
            vs[n - 1],
        ) == ty {
            1nat
        } else {
            0nat
        })
    }
}

/// How many candidate variants of the union carry the field type `ty`.
pub open spec fn spec_ty_count(vs: Seq<Variant>, ty: Seq<char>) -> nat {
    spec_ty_count_upto(vs, ty, vs.len() as int)
}

/// The text one variant contributes: one conversion implementation when
/// the variant is an unambiguous candidate, nothing otherwise.
pub open spec fn spec_variant_conversion(
    enum_name: Seq<char>,
    vs: Seq<Variant>,
    v: Variant,
) -> Seq<char> {
    if spec_candidate(v) && spec_ty_count(vs, spec_candidate_ty(v)) == 1 {
        spec_conversion_impl(
            spec_candidate_ty(v),
            enum_name,
            enum_name + "::"@ + v.name@ + "(original)"@,
        )
    } else {
        Seq::empty()
    }
}

/// The conversions contributed by the first `n` variants, concatenated
/// in declaration order.
pub open spec fn spec_enum_from_upto(enum_name: Seq<char>, vs: Seq<Variant>, n: int) -> Seq<char>
    decreases n,
{
    if n <= 0 {
        Seq::empty()
    } else {
        spec_enum_from_upto(enum_name, vs, n - 1) + spec_variant_conversion(
            enum_name,
            vs,
            vs[n - 1],
        )
    }
}

/// Everything the union receives: the conversions of its unambiguous
/// candidate variants, concatenated in declaration order.
pub open spec fn spec_enum_from(enum_name: Seq<char>, vs: Seq<Variant>) -> Seq<char> {
    spec_enum_from_upto(enum_name, vs, vs.len() as int)
}

proof fn lemma_count_at_least_one(vs: Seq<Variant>, ty: Seq<char>, i: int, n: int)
    requires
        0 <= i < n <= vs.len(),
        spec_candidate(vs[i]),
        spec_candidate_ty(vs[i]) == ty,
    ensures
        spec_ty_count_upto(vs, ty, n) >= 1,
    decreases n,
{
    if i < n - 1 {
        lemma_count_at_least_one(vs, ty, i, n - 1);
    }
}

proof fn lemma_count_at_least_two(vs: Seq<Variant>, ty: Seq<char>, i: int, j: int, n: int)
    requires
        0 <= i < j < n <= vs.len(),
        spec_candidate(vs[i]) && spec_candidate_ty(vs[i]) == ty,
        spec_candidate(vs[j]) && spec_candidate_ty(vs[j]) == ty,
    ensures
        spec_ty_count_upto(vs, ty, n) >= 2,
    decreases n,
{
    if j < n - 1 {
        lemma_count_at_least_two(vs, ty, i, j, n - 1);
    } else {
        lemma_count_at_least_one(vs, ty, i, n - 1);
    }
}

proof fn lemma_count_of_unique(vs: Seq<Variant>, ty: Seq<char>, i: int, n: int)
    requires
        0 <= i < vs.len(),
        0 <= n <= vs.len(),
        spec_candidate(vs[i]),
        spec_candidate_ty(vs[i]) == ty,
        forall|j: int|
            0 <= j < vs.len() && j != i && spec_candidate(vs[j]) ==> spec_candidate_ty(vs[j])
                != ty,
    ensures
        spec_ty_count_upto(vs, ty, n) == if i < n {
            1nat
        } else {
            0nat
        },
    decreases n,
{
    if n > 0 {
        lemma_count_of_unique(vs, ty, i, n - 1);
    }
}

/// Law of the resolver: a candidate variant's field type occurs exactly
/// once among the candidates if and only if no other candidate variant
/// carries the same field type. With the contract of `enum_from`, this
/// says precisely when a variant receives a generated conversion.
pub proof fn lemma_conversion_iff_unambiguous(vs: Seq<Variant>, i: int)
    requires
        0 <= i < vs.len(),
        spec_candidate(vs[i]),
    ensures
        spec_ty_count(vs, spec_candidate_ty(vs[i])) == 1 <==> (forall|j: int|
            0 <= j < vs.len() && j != i && spec_candidate(vs[j]) ==> spec_candidate_ty(vs[j])
                != spec_candidate_ty(vs[i])),
{
    let ty = spec_candidate_ty(vs[i]);
    if forall|j: int|
        0 <= j < vs.len() && j != i && spec_candidate(vs[j]) ==> spec_candidate_ty(vs[j]) != ty {
        lemma_count_of_unique(vs, ty, i, vs.len() as int);
    } else {
        let j = choose|j: int|
            0 <= j < vs.len() && j != i && spec_candidate(vs[j]) && spec_candidate_ty(vs[j]) == ty;
        if i < j {
            lemma_count_at_least_two(vs, ty, i, j, vs.len() as int);
        } else {
            lemma_count_at_least_two(vs, ty, j, i, vs.len() as int);
        }
    }
}

/// Law of the resolver: a variant that is no candidate — one without
/// data, with several positional fields, or with named fields —
/// contributes no conversion, however unambiguous its types are.
pub proof fn lemma_non_candidate_contributes_nothing(
    enum_name: Seq<char>,
    vs: Seq<Variant>,
    v: Variant,
)
    requires
        !spec_candidate(v),
    ensures
        spec_variant_conversion(enum_name, vs, v) == Seq::<char>::empty(),
{
}

proof fn lemma_no_candidates_upto(enum_name: Seq<char>, vs: Seq<Variant>, n: int)
    requires
        n <= vs.len(),
        forall|i: int| 0 <= i < vs.len() ==> !spec_candidate(vs[i]),
    ensures
        spec_enum_from_upto(enum_name, vs, n) == Seq::<char>::empty(),
    decreases n,
{
    if n > 0 {
        lemma_no_candidates_upto(enum_name, vs, n - 1);
        assert(spec_enum_from_upto(enum_name, vs, n) =~= Seq::<char>::empty());
    }
}

/// Law of the resolver: a union none of whose variants carries exactly
/// one positional field receives the empty text block.
pub proof fn lemma_no_candidates_no_conversions(enum_name: Seq<char>, vs: Seq<Variant>)
    requires
        forall|i: int| 0 <= i < vs.len() ==> !spec_candidate(vs[i]),
    ensures
        spec_enum_from(enum_name, vs) == Seq::<char>::empty(),
{
    lemma_no_candidates_upto(enum_name, vs, vs.len() as int);
}

/// Counts the candidate variants whose field type reads `ty`.
fn count_ty(variants: &Vec<Variant>, ty: &String) -> (c: usize)
    ensures
        c == spec_ty_count(variants@, ty@),
{
    let mut c: usize = 0;
    let mut j: usize = 0;
    while j < variants.len()
        invariant
            j <= variants@.len(),
            c <= j,
            c == spec_ty_count_upto(variants@, ty@, j as int),
        decreases variants@.len() - j,
    {
        match &variants[j].fields {
            FieldList::Positional(tys) => {
                if tys.len() == 1 {
                    let candidate_ty = &tys[0];
                    if *candidate_ty == *ty {
                        c += 1;
                    }
                }
            },
            _ => {},
        }
        j += 1;
    }
    c
}

/// Emits the conversions a tagged union receives, in variant
/// declaration order: one per single-field positional variant whose
/// field type occurs in no other such variant.
pub fn enum_from(enum_ident: &str, variants: &Vec<Variant>) -> (s: String)
    ensures
        s@ == spec_enum_from(enum_ident@, variants@),
{
    let mut tokens = String::new();
    let mut i: usize = 0;
    while i < variants.len()
        invariant
            i <= variants@.len(),
            tokens@ == spec_enum_from_upto(enum_ident@, variants@, i as int),
        decreases variants@.len() - i,
    {
        match &variants[i].fields {
            FieldList::Positional(tys) => {
                if tys.len() == 1 {
                    let occurrences = count_ty(variants, &tys[0]);
                    if occurrences == 1 {
                        let mut body = String::from_str(enum_ident);
                        body.append("::");
                        body.append(variants[i].name.as_str());
                        body.append("(original)");
                        let snippet = conversion_impl(tys[0].as_str(), enum_ident, body.as_str());
                        tokens.append(snippet.as_str());
                    }
                }
            },
            _ => {},
        }
        proof {
            assert(tokens@ =~= spec_enum_from_upto(enum_ident@, variants@, i + 1));
        }
        i += 1;
    }
    tokens
}

} // verus!
