//! Bottom-up construction of nested schemas through opaque integer handles.

pub mod arena;
pub mod element;
pub mod error;
pub mod kernel;
pub mod laws;
pub mod schema;
pub mod visitor;

pub use arena::HandleArena;
pub use error::SchemaError;
pub use schema::{ArrayType, DataType, DecimalType, FieldMetadata, MapType, PrimitiveType, StructField, StructType};
pub use element::SchemaElement;
pub use visitor::KernelSchemaVisitorState;
pub use visitor::{
    build_kernel_schema, create_decimal_type, create_primitive_type, handle_or_zero, unwrap_kernel_schema,
    visit_schema_array, visit_schema_binary, visit_schema_boolean, visit_schema_boolean_simple, visit_schema_byte,
    visit_schema_date, visit_schema_decimal, visit_schema_double, visit_schema_float, visit_schema_integer,
    visit_schema_long, visit_schema_long_simple, visit_schema_map, visit_schema_short, visit_schema_string,
    visit_schema_string_simple, visit_schema_struct, visit_schema_timestamp, visit_schema_timestamp_ntz,
    visit_schema_variant,
};
