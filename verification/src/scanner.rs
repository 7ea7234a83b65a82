//! The annotation scanner: walk a type definition's fields in declaration
//! order and report the name of the first field that carries the identity
//! marker, or the single fatal error when none does or the shape admits no
//! scan.

use vstd::prelude::*;

use crate::model::{
    field_is_identity, has_identity_field, identity_field_name, identity_of, is_identity_annotation,
    Annotation, FieldDefinition, GenerateError, TypeBody, TypeDefinition,
};

verus! {

/// When a field at index `i` carries the marker and none before it does, the
/// scan of the whole sequence names exactly that field.
pub proof fn lemma_first_identity_name(fields: Seq<FieldDefinition>, i: int)
    requires
        0 <= i < fields.len(),
        field_is_identity(fields[i]),
        forall|j: int| 0 <= j < i ==> !field_is_identity(fields[j]),
    ensures
        has_identity_field(fields),
        identity_field_name(fields) == fields[i].name@,
    decreases fields.len(),
{
    assert(has_identity_field(fields)) by {
        assert(field_is_identity(fields[i]));
    }
    if i > 0 {
        let rest = fields.drop_first();
        assert forall|j: int| 0 <= j < i - 1 implies !field_is_identity(rest[j]) by {
            assert(rest[j] == fields[j + 1]);
        }
        assert(rest[i - 1] == fields[i]);
        lemma_first_identity_name(rest, i - 1);
        assert(!field_is_identity(fields[0]));
    }
}

/// Whether one annotation is the identity marker: the reserved tag applied
/// with the reserved argument.
pub fn annotation_is_identity(a: &Annotation) -> (r: bool)
    ensures
        r == is_identity_annotation(*a),
{
    let marker: String = "dervy".to_owned();
    if a.tag == marker {
        match &a.argument {
            Some(arg) => {
                let id_token: String = "id".to_owned();
                *arg == id_token
            },
            None => false,
        }
    } else {
        false
    }
}

/// Whether any annotation of the field is the identity marker.
pub fn field_has_identity_marker(f: &FieldDefinition) -> (r: bool)
    ensures
        r == field_is_identity(*f),
{
    let n = f.annotations.len();
    let mut i: usize = 0;
    while i < n
        invariant
            n == f.annotations@.len(),
            i <= n,
            forall|j: int| 0 <= j < i ==> !is_identity_annotation(f.annotations@[j]),
        decreases n - i,
    {
        if annotation_is_identity(&f.annotations[i]) {
            proof {
                assert(is_identity_annotation(f.annotations@[i as int]));
            }
            return true;
        }
        i += 1;
    }
    false
}

/// Scan the type definition for its identity field. Succeeds with the name of
/// the earliest marked field of a named-field product type; fails with the
/// single fatal error when no field is marked or the shape admits no scan.
#[verifier::loop_isolation(false)]
pub fn find_identity_field(ty: &TypeDefinition) -> (r: Result<String, GenerateError>)
    ensures
        (r is Ok) == (identity_of(*ty) is Some),
        r matches Ok(name) ==> Some(name@) == identity_of(*ty),
        r matches Err(e) ==> e == GenerateError::MissingIdentityField,
{
    match &ty.body {
        TypeBody::Named(fields) => {
            let n = fields.len();
            let mut i: usize = 0;
            while i < n
                invariant
                    n == fields@.len(),
                    i <= n,
                    forall|j: int| 0 <= j < i ==> !field_is_identity(fields@[j]),
                decreases n - i,
            {
                if field_has_identity_marker(&fields[i]) {
                    proof {
                        lemma_first_identity_name(fields@, i as int);
                        assert(identity_of(*ty) == Some(fields@[i as int].name@));
                    }
                    return Ok(fields[i].name.clone());
                }
                i += 1;
            }
            assert(!has_identity_field(fields@));
            Err(GenerateError::MissingIdentityField)
        },
        _ => Err(GenerateError::MissingIdentityField),
    }
}

} // verus!
