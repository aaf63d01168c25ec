//! Columnar batches and schemas.
//!
//! The driver does not look inside a batch: it carries batches from the
//! decoder to the caller. What it needs to know of one (how many rows it has,
//! and of which types its columns are) it asks of Arrow, through the few
//! functions at the end of this file.

use vstd::prelude::*;
use vstd::string::*;

verus! {

/// An Arrow schema.
#[verifier::external_type_specification]
#[verifier::external_body]
pub struct ExSchema(arrow_schema::Schema);

/// One columnar batch: an Arrow record batch, carried as it is.
#[verifier::external_body]
#[derive(Debug)]
pub struct Batch {
    pub record: arrow_array::RecordBatch,
}

/// The number of rows that a batch holds.
pub uninterp spec fn batch_rows(batch: Batch) -> nat;

/// The types of a batch's columns, in column order, each by the name under
/// which Arrow displays it (`Int32`, `Utf8`, `List(Int32)`, ...).
pub uninterp spec fn batch_column_types(batch: Batch) -> Seq<Seq<char>>;

/// The types of a schema's fields, in field order, each by the name under
/// which Arrow displays it.
pub uninterp spec fn schema_field_types(schema: arrow_schema::Schema) -> Seq<Seq<char>>;

/// Whether a batch has the columns that a schema with these field types
/// announces: as many, and of the same types in the same order.
pub open spec fn batch_conforms(batch: Batch, types: Seq<Seq<char>>) -> bool {
    batch_column_types(batch) == types
}

/// Whether every batch of `batches` conforms to `types`.
pub open spec fn all_conform(batches: Seq<Batch>, types: Seq<Seq<char>>) -> bool {
    forall|i: int| 0 <= i < batches.len() ==> batch_conforms(#[trigger] batches[i], types)
}

/// The rows of all of `batches` together.
pub open spec fn total_rows(batches: Seq<Batch>) -> nat
    decreases batches.len(),
{
    if batches.len() == 0 {
        0
    } else {
        total_rows(batches.drop_last()) + batch_rows(batches.last())
    }
}

/// `RecordBatch::num_rows`: the row count that the batch was built with.
#[verifier::external_body]
pub(crate) fn batch_row_count(batch: &Batch) -> (rows: usize)
    ensures
        rows == batch_rows(*batch),
{
    batch.record.num_rows()
}

/// The length of `RecordBatch::schema_ref().fields()`: the number of columns
/// that the batch's own schema declares.
#[verifier::external_body]
pub(crate) fn batch_column_count(batch: &Batch) -> (count: usize)
    ensures
        count == batch_column_types(*batch).len(),
{
    batch.record.schema_ref().fields().len()
}

/// `Schema::field(i).data_type()` of the batch's own schema, displayed.
/// `Schema::field` panics past the last field, which `requires` leaves out.
#[verifier::external_body]
pub(crate) fn batch_column_type(batch: &Batch, i: usize) -> (name: String)
    requires
        i < batch_column_types(*batch).len(),
    ensures
        name@ == batch_column_types(*batch)[i as int],
{
    batch.record.schema_ref().field(i).data_type().to_string()
}

/// The length of `Schema::fields()`.
#[verifier::external_body]
pub(crate) fn schema_field_count(schema: &arrow_schema::Schema) -> (count: usize)
    ensures
        count == schema_field_types(*schema).len(),
{
    schema.fields().len()
}

/// `Schema::field(i).data_type()`, displayed. `Schema::field` panics past the
/// last field, which `requires` leaves out.
#[verifier::external_body]
pub(crate) fn schema_field_type(schema: &arrow_schema::Schema, i: usize) -> (name: String)
    requires
        i < schema_field_types(*schema).len(),
    ensures
        name@ == schema_field_types(*schema)[i as int],
{
    schema.field(i).data_type().to_string()
}

/// The field types of a schema, by name.
pub fn field_types(schema: &arrow_schema::Schema) -> (types: Vec<String>)
    ensures
        types@.len() == schema_field_types(*schema).len(),
        forall|i: int| 0 <= i < types@.len() ==> types@[i]@ == schema_field_types(*schema)[i],
{
    let count = schema_field_count(schema);
    let mut types: Vec<String> = Vec::new();
    let mut i: usize = 0;
    while i < count
        invariant
            i <= count,
            count == schema_field_types(*schema).len(),
            types@.len() == i,
            forall|j: int| 0 <= j < i ==> types@[j]@ == schema_field_types(*schema)[j],
        decreases count - i,
    {
        types.push(schema_field_type(schema, i));
        i = i + 1;
    }
    types
}

/// The texts of `types`, as mathematical values.
pub open spec fn type_names(types: Seq<String>) -> Seq<Seq<char>> {
    types.map_values(|t: String| t@)
}

/// Whether `batch` has exactly the columns that `types` announces.
pub fn conforms(batch: &Batch, types: &Vec<String>) -> (ok: bool)
    ensures
        ok == batch_conforms(*batch, type_names(types@)),
{
    let count = batch_column_count(batch);
    if count != types.len() {
        return false;
    }
    let mut i: usize = 0;
    while i < count
        invariant
            i <= count,
            count == types@.len(),
            count == batch_column_types(*batch).len(),
            forall|j: int| 0 <= j < i ==> batch_column_types(*batch)[j] == types@[j]@,
        decreases count - i,
    {
        let name = batch_column_type(batch, i);
        if name != types[i] {
            assert(batch_column_types(*batch)[i as int] != type_names(types@)[i as int]);
            return false;
        }
        i = i + 1;
    }
    assert(batch_column_types(*batch) =~= type_names(types@));
    true
}

/// Whether every batch of `batches` has exactly the columns that `types`
/// announces.
pub fn all_batches_conform(batches: &Vec<Batch>, types: &Vec<String>) -> (ok: bool)
    ensures
        ok == all_conform(batches@, type_names(types@)),
{
    let mut i: usize = 0;
    while i < batches.len()
        invariant
            i <= batches@.len(),
            forall|j: int| 0 <= j < i ==> batch_conforms(#[trigger] batches@[j], type_names(types@)),
        decreases batches@.len() - i,
    {
        if !conforms(&batches[i], types) {
            return false;
        }
        i = i + 1;
    }
    true
}

} // verus!
