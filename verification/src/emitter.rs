//! The code emitter: given a type's name and its identity field's name,
//! synthesize the source of the three derived behaviors — value comparison on
//! the identity field alone, the declaration that this comparison is a total
//! equality, and hashing that folds the identity field alone into the caller's
//! accumulator.

use vstd::prelude::*;
use vstd::string::StringExecFns;

verus! {

/// The exact source text emitted for a type of the given name whose identity
/// field carries the given name. Emission is a pure function of these two
/// names: nothing else influences the output.
pub open spec fn emitted_source(ty_name: Seq<char>, id_name: Seq<char>) -> Seq<char> {
    "impl PartialEq for "@ + ty_name
        + " {\n    fn eq(&self, other: &Self) -> bool {\n        self."@ + id_name
        + " == other."@ + id_name
        + "\n    }\n}\n\nimpl Eq for "@ + ty_name
        + " {}\n\nimpl std::hash::Hash for "@ + ty_name
        + " {\n    fn hash<H: std::hash::Hasher>(&self, state: &mut H) {\n        self."@
        + id_name + ".hash(state);\n    }\n}\n"@
}

/// Emit the three derived implementations for the named type and its named
/// identity field, exactly as `emitted_source` describes them.
pub fn emit_entity_impls(ty_name: &str, id_name: &str) -> (r: String)
    ensures
        r@ == emitted_source(ty_name@, id_name@),
{
    let mut out: String = String::new();
    out.append("impl PartialEq for ");
    out.append(ty_name);
    out.append(" {\n    fn eq(&self, other: &Self) -> bool {\n        self.");
    out.append(id_name);
    out.append(" == other.");
    out.append(id_name);
    out.append("\n    }\n}\n\nimpl Eq for ");
    out.append(ty_name);
    out.append(" {}\n\nimpl std::hash::Hash for ");
    out.append(ty_name);
    out.append(" {\n    fn hash<H: std::hash::Hasher>(&self, state: &mut H) {\n        self.");
    out.append(id_name);
    out.append(".hash(state);\n    }\n}\n");
    proof {
        assert(out@ =~= emitted_source(ty_name@, id_name@));
    }
    out
}

} // verus!
