//! Builder-pattern synthesizer: given the schema of a record type (named,
//! typed fields, each optionally carrying one `each = "..."` annotation),
//! classify every field, plan a companion builder type, and emit the
//! declarations for it, together with the runtime semantics of the builder
//! that the emitted declarations describe.

use vstd::prelude::*;

pub mod annot;
pub mod classify;
pub mod dynamics;
pub mod emit;
pub mod laws;
pub mod model;
pub mod schema;

use crate::classify::{classify_all, lemma_classify_all_len, spec_classify_all};
use crate::emit::{emit, spec_emit, Artifact, ArtifactView};
use crate::model::{build_model, spec_build_model};
use crate::schema::{
    fields_view, parse_schema, spec_parse_schema, ClassificationError, ClassificationErrorView,
    RawDecl, RawView,
};

verus! {

/// The recognized head name of the optional wrapper type.
pub const OPTIONAL_HEAD: &'static str = "Option";

/// The recognized head name of the collection wrapper type.
pub const COLLECTION_HEAD: &'static str = "Vec";

/// The model of a whole-transformation outcome.
pub open spec fn artifact_result_view(r: Result<Artifact, ClassificationError>) -> Result<
    ArtifactView,
    ClassificationErrorView,
> {
    match r {
        Ok(a) => Ok(a@),
        Err(e) => Err(e@),
    }
}

/// What the whole transformation returns: the emitted artifact of the
/// parsed, classified and planned schema, or the first diagnostic raised
/// along the way — in which case no artifact is produced at all.
pub open spec fn spec_derive(r: RawView) -> Result<ArtifactView, ClassificationErrorView> {
    match spec_parse_schema(r) {
        Err(e) => Err(e),
        Ok(s) => match spec_classify_all(s.fields) {
            Err(e) => Err(e),
            Ok(ss) => Ok(spec_emit(spec_build_model(s, ss))),
        },
    }
}

/// The whole transformation, one schema in, one artifact out: check the raw
/// declaration's shape, classify every field in order, build the emission
/// plan, and emit the declarations. The first diagnostic aborts the
/// transformation for the schema; nothing partial is produced.
pub fn derive(raw: RawDecl) -> (r: Result<Artifact, ClassificationError>)
    ensures
        artifact_result_view(r) == spec_derive(raw@),
{
    let ghost rv = raw@;
    let schema = match parse_schema(raw) {
        Ok(s) => s,
        Err(e) => {
            return Err(e);
        },
    };
    let strategies = match classify_all(&schema.fields) {
        Ok(ss) => ss,
        Err(e) => {
            return Err(e);
        },
    };
    proof {
        lemma_classify_all_len(fields_view(schema.fields@));
    }
    let m = build_model(&schema, &strategies);
    let a = emit(&m);
    Ok(a)
}

} // verus!
