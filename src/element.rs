//! The elements a session holds, and how each kind is read where another is expected.

use vstd::prelude::*;

use crate::error::SchemaError;
use crate::schema::{DataType, StructField, StructType};

verus! {

/// What a handle can stand for.
pub enum SchemaElement {
    /// A named field.
    Field(StructField),
    /// A bare data type.
    DataType(DataType),
    /// A finished schema.
    Schema(StructType),
}

/// An element read as a data type: a field gives its type, a schema the struct of its fields.
pub open spec fn type_of(e: SchemaElement) -> DataType {
    match e {
        SchemaElement::Field(f) => f.data_type,
        SchemaElement::DataType(t) => t,
        SchemaElement::Schema(s) => DataType::Struct(Box::new(s)),
    }
}

/// The struct that a variant may wrap: a schema, or a struct data type; nothing else.
pub open spec fn struct_payload(e: SchemaElement) -> Option<StructType> {
    match e {
        SchemaElement::Schema(s) => Some(s),
        SchemaElement::DataType(DataType::Struct(s)) => Some(*s),
        _ => None,
    }
}

/// The fields of the schema that an element yields when extracted: a schema its own,
/// a lone field a schema of that one field, a struct data type its fields.
pub open spec fn schema_fields(e: SchemaElement) -> Option<Seq<StructField>> {
    match e {
        SchemaElement::Schema(s) => Some(s.fields@),
        SchemaElement::Field(f) => Some(seq![f]),
        SchemaElement::DataType(DataType::Struct(s)) => Some(s.fields@),
        _ => None,
    }
}

/// Taking the handles of `ids` from `m` one after the other, position `i` fails:
/// its handle is not live, was taken earlier in the list, or holds no field.
pub open spec fn field_fails_at(m: Map<usize, SchemaElement>, ids: Seq<usize>, i: int) -> bool {
    ||| !m.contains_key(ids[i])
    ||| ids.take(i).contains(ids[i])
    ||| !(m[ids[i]] is Field)
}

/// The error reported for a failure at position `i` of `ids`.
pub open spec fn field_error_at(m: Map<usize, SchemaElement>, ids: Seq<usize>, i: int) -> SchemaError {
    if !m.contains_key(ids[i]) || ids.take(i).contains(ids[i]) {
        SchemaError::UnknownHandle(ids[i])
    } else {
        SchemaError::WrongKind(ids[i])
    }
}

/// Every handle of `ids` resolves, in order, to a field of `m`.
pub open spec fn fields_resolve(m: Map<usize, SchemaElement>, ids: Seq<usize>) -> bool {
    forall|i: int| 0 <= i < ids.len() ==> !#[trigger] field_fails_at(m, ids, i)
}

/// Position `i` is the first of `ids` that fails to resolve to a field.
pub open spec fn first_field_failure(m: Map<usize, SchemaElement>, ids: Seq<usize>, i: int) -> bool {
    &&& 0 <= i < ids.len()
    &&& field_fails_at(m, ids, i)
    &&& forall|j: int| 0 <= j < i ==> !#[trigger] field_fails_at(m, ids, j)
}

/// The fields that the handles of `ids` hold in `m`, in the order of `ids`.
pub open spec fn resolved_fields(m: Map<usize, SchemaElement>, ids: Seq<usize>) -> Seq<StructField> {
    ids.map_values(|h: usize| m[h]->Field_0)
}

} // verus!
