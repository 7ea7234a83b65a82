//! The data model a generation invocation works on: a type definition made of
//! named fields, each carrying a set of annotations, and the single error the
//! generator can report.

use vstd::prelude::*;

verus! {

/// One piece of metadata attached to a field: a namespace tag together with an
/// optional single argument token. Order among a field's annotations carries
/// no meaning.
pub struct Annotation {
    pub tag: String,
    pub argument: Option<String>,
}

/// A named field: its name, a descriptor of its type, and the annotations
/// attached to it. Order among a type's fields is significant.
pub struct FieldDefinition {
    pub name: String,
    pub descriptor: String,
    pub annotations: Vec<Annotation>,
}

/// The shape of a type declaration. Only a product type with named fields can
/// be scanned for an identity field; every other shape is rejected through the
/// same failure path as a fruitless scan.
pub enum TypeBody {
    /// A product type with named fields.
    Named(Vec<FieldDefinition>),
    /// A product type with positional (unnamed) fields.
    Positional(Vec<FieldDefinition>),
    /// A product type with no field list at all.
    Unit,
    /// A sum type of several variants.
    Sum,
    /// An untagged overlay of several fields.
    Untagged,
}

/// A type definition as handed to one generation invocation: a name plus the
/// declared body.
pub struct TypeDefinition {
    pub name: String,
    pub body: TypeBody,
}

/// The single failure a generation invocation can report. Raised when no field
/// carries the identity marker, and equally when the type's shape admits no
/// scan at all.
#[derive(Clone, Copy, Debug, PartialEq, Eq, Structural)]
pub enum GenerateError {
    MissingIdentityField,
}

impl GenerateError {
    /// The fixed diagnostic surfaced to the host pipeline.
    pub fn message(&self) -> (r: &'static str)
        ensures
            r@ == "No field with #[dervy(id)] attribute found"@,
    {
        "No field with #[dervy(id)] attribute found"
    }
}

/// The reserved marker namespace an annotation must carry.
pub open spec fn marker_tag() -> Seq<char> {
    "dervy"@
}

/// The reserved argument token that designates the identity field.
pub open spec fn identity_argument() -> Seq<char> {
    "id"@
}

/// An annotation designates its field as the identity field when its tag is
/// the reserved marker and its single argument is the reserved identifier.
pub open spec fn is_identity_annotation(a: Annotation) -> bool {
    &&& a.tag@ == marker_tag()
    &&& a.argument matches Some(arg)
    &&& arg@ == identity_argument()
}

/// A field carries the identity marker when at least one of its annotations
/// matches.
pub open spec fn field_is_identity(f: FieldDefinition) -> bool {
    exists|i: int| 0 <= i < f.annotations@.len() && is_identity_annotation(#[trigger] f.annotations@[i])
}

/// Some field of the sequence carries the identity marker.
pub open spec fn has_identity_field(fields: Seq<FieldDefinition>) -> bool {
    exists|i: int| 0 <= i < fields.len() && field_is_identity(#[trigger] fields[i])
}

/// The name of the earliest field, in declaration order, that carries the
/// identity marker.
pub open spec fn identity_field_name(fields: Seq<FieldDefinition>) -> Seq<char>
    recommends
        has_identity_field(fields),
    decreases fields.len(),
{
    if fields.len() == 0 {
        Seq::empty()
    } else if field_is_identity(fields[0]) {
        fields[0].name@
    } else {
        identity_field_name(fields.drop_first())
    }
}

/// What scanning a whole type definition yields: the identity field's name for
/// a named-field product type with a marked field, nothing for every other
/// input.
pub open spec fn identity_of(ty: TypeDefinition) -> Option<Seq<char>> {
    match ty.body {
        TypeBody::Named(fields) => if has_identity_field(fields@) {
            Some(identity_field_name(fields@))
        } else {
            None
        },
        _ => None,
    }
}

} // verus!
