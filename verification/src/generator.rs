//! One whole generation invocation: scan a type definition for its identity
//! field and, on success, emit the derived implementations. The pass is
//! strictly linear — scan, then fail fast or emit — and carries no state
//! between invocations.

use vstd::prelude::*;

use crate::emitter::{emit_entity_impls, emitted_source};
use crate::model::{
    field_is_identity, identity_of, FieldDefinition, GenerateError, TypeBody, TypeDefinition,
};
use crate::scanner::{find_identity_field, lemma_first_identity_name};

verus! {

/// What one generation invocation produces for a type definition: the emitted
/// source when the scan names an identity field, nothing otherwise.
pub open spec fn generated_source(ty: TypeDefinition) -> Option<Seq<char>> {
    match identity_of(ty) {
        Some(id_name) => Some(emitted_source(ty.name@, id_name)),
        None => None,
    }
}

/// Run one generation invocation over the type definition. Succeeds with the
/// emitted source exactly when the scan names an identity field; otherwise
/// fails with the single fatal error and emits nothing.
pub fn derive_entity(ty: &TypeDefinition) -> (r: Result<String, GenerateError>)
    ensures
        (r is Ok) == (generated_source(*ty) is Some),
        r matches Ok(src) ==> Some(src@) == generated_source(*ty),
        r matches Err(e) ==> e == GenerateError::MissingIdentityField,
{
    match find_identity_field(ty) {
        Ok(id_name) => Ok(emit_entity_impls(ty.name.as_str(), id_name.as_str())),
        Err(e) => Err(e),
    }
}

/// When no field of a type definition carries the identity marker — or its
/// shape admits no scan at all — generation yields nothing, whatever the
/// number and arrangement of unmarked fields; by `derive_entity`'s contract
/// every invocation on such a definition reports the missing-marker failure.
pub proof fn law_missing_marker_rejected(ty: TypeDefinition)
    requires
        ty.body matches TypeBody::Named(fields) ==> forall|j: int|
            0 <= j < fields@.len() ==> !field_is_identity(#[trigger] fields@[j]),
    ensures
        identity_of(ty) is None,
        generated_source(ty) is None,
{
}

/// When a field at index `i` carries the identity marker and no earlier field
/// does — in particular when several fields carry it — generation succeeds
/// and binds to that earliest field.
pub proof fn law_first_marked_field_selected(ty: TypeDefinition, fields: Seq<FieldDefinition>, i: int)
    requires
        ty.body matches TypeBody::Named(v) && v@ == fields,
        0 <= i < fields.len(),
        field_is_identity(fields[i]),
        forall|j: int| 0 <= j < i ==> !field_is_identity(fields[j]),
    ensures
        identity_of(ty) == Some(fields[i].name@),
        generated_source(ty) == Some(emitted_source(ty.name@, fields[i].name@)),
{
    lemma_first_identity_name(fields, i);
}

/// Emission is deterministic: two generation passes over an unchanged type
/// definition yield identical source, byte for byte.
pub proof fn law_generation_idempotent(ty: TypeDefinition, first: Seq<char>, second: Seq<char>)
    requires
        generated_source(ty) == Some(first),
        generated_source(ty) == Some(second),
    ensures
        first == second,
{
}

} // verus!
