//! Builders and consumers for plain records, gated per field.
//!
//! For a record with named fields this library generates the source of two
//! companion holder types: a builder, whose `set_<field>` operations may be
//! called in any order and whose `complete` is only reachable once every field
//! was set, and a consumer, whose `consume_<field>` operations move each field
//! out exactly once. The gating is expressed as one boolean flag per field.
//!
//! Besides the source generator the library holds a runtime holder of the same
//! protocol, whose gates are preconditions checked by the verifier.
use vstd::prelude::*;
use crate::render::{Gate, artifact, generate};
use crate::shape::{RecordShape, ShapeError, extract_fields, extracted, named_up_to, named_views};

pub mod holder;
pub mod protocol;
pub mod render;
pub mod shape;

verus! {

/// A declaration can receive a holder: it is a struct with a braced field
/// list, every field of which has a name.
pub open spec fn accepted(shape: RecordShape) -> bool {
    shape.body is Fields && named_up_to(shape.body->Fields_0@, shape.body->Fields_0@.len() as int)
}

/// What generating a holder of kind `g` for `shape` returns: the generated
/// source over the declared fields, or the error that extracting them gives.
pub open spec fn derived(g: Gate, shape: RecordShape, r: Result<String, ShapeError>) -> bool {
    &&& r is Ok <==> accepted(shape)
    &&& r matches Ok(text) ==> text@ == artifact(g, shape.name@, named_views(shape.body->Fields_0@))
    &&& r matches Err(e) ==> extracted(shape.body, Err(e))
}

/// Generates the holder of kind `g` for a declaration.
pub fn derive_holder(g: Gate, shape: &RecordShape) -> (r: Result<String, ShapeError>)
    ensures
        derived(g, *shape, r),
{
    match extract_fields(shape) {
        Ok(fs) => Ok(generate(g, &shape.name, &fs)),
        Err(e) => Err(e),
    }
}

/// Generates the builder of a record: `<Record>Builder` with `set_<field>`
/// for each field, `new`, `<Record>::builder` and `complete`.
pub fn builder(shape: &RecordShape) -> (r: Result<String, ShapeError>)
    ensures
        derived(Gate::Builder, *shape, r),
{
    derive_holder(Gate::Builder, shape)
}

/// Generates the consumer of a record: `<Record>Consumer` with
/// `consume_<field>` for each field, `<Record>::consumer` and `consume`.
pub fn consumer(shape: &RecordShape) -> (r: Result<String, ShapeError>)
    ensures
        derived(Gate::Consumer, *shape, r),
{
    derive_holder(Gate::Consumer, shape)
}

} // verus!
