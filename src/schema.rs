//! The schema model: fields, data types and finished struct schemas.

use std::collections::HashMap;
use vstd::prelude::*;

use crate::error::SchemaError;
use crate::kernel::kernel_decimal;
use delta_kernel::schema::MetadataValue;

verus! {

/// The metadata of a field, as delta_kernel represents it.
pub type FieldMetadata = HashMap<String, MetadataValue>;

/// The largest precision of a decimal type.
pub const MAX_DECIMAL_PRECISION: u8 = 38;

/// A precision and scale that form a legal decimal type: at most
/// `MAX_DECIMAL_PRECISION` digits, at least one, and no more after the point
/// than in all.
pub open spec fn decimal_ok(precision: int, scale: int) -> bool {
    1 <= precision <= MAX_DECIMAL_PRECISION && 0 <= scale <= precision
}

/// A fixed-point decimal type; its precision and scale are always legal.
#[derive(Debug, Clone, Copy, PartialEq, Eq)]
pub struct DecimalType {
    precision: u8,
    scale: u8,
}

impl DecimalType {
    #[verifier::type_invariant]
    closed spec fn inv(self) -> bool {
        decimal_ok(self.precision as int, self.scale as int)
    }

    pub closed spec fn spec_precision(&self) -> u8 {
        self.precision
    }

    pub closed spec fn spec_scale(&self) -> u8 {
        self.scale
    }

    /// The decimal type of `precision` digits, `scale` of them after the point,
    /// or `InvalidDecimal` where delta_kernel refuses the pair.
    pub fn try_new(precision: u8, scale: i8) -> (r: Result<DecimalType, SchemaError>)
        ensures
            r is Ok <==> decimal_ok(precision as int, scale as int),
            r matches Ok(d) ==> d.spec_precision() == precision && d.spec_scale() as int == scale as int,
            r matches Err(e) ==> e == (SchemaError::InvalidDecimal { precision, scale }),
    {
        let bits: u8 = #[verifier::truncate] (scale as u8);
        assert(scale >= 0 ==> bits == scale) by (bit_vector)
            requires
                bits == #[verifier::truncate] (scale as u8),
        ;
        assert(scale < 0 ==> bits >= 128) by (bit_vector)
            requires
                bits == #[verifier::truncate] (scale as u8),
        ;
        match kernel_decimal(precision, bits) {
            Ok((p, s)) => Ok(DecimalType { precision: p, scale: s }),
            Err(_) => Err(SchemaError::InvalidDecimal { precision, scale }),
        }
    }

    #[verifier::when_used_as_spec(spec_precision)]
    pub fn precision(&self) -> (r: u8)
        ensures
            r == self.spec_precision(),
            decimal_ok(r as int, self.spec_scale() as int),
    {
        proof {
            use_type_invariant(self);
        }
        self.precision
    }

    #[verifier::when_used_as_spec(spec_scale)]
    pub fn scale(&self) -> (r: u8)
        ensures
            r == self.spec_scale(),
            decimal_ok(self.spec_precision() as int, r as int),
    {
        proof {
            use_type_invariant(self);
        }
        self.scale
    }
}

/// The primitive types.
#[derive(Debug, Clone, Copy, PartialEq, Eq)]
pub enum PrimitiveType {
    String,
    Long,
    Integer,
    Short,
    Byte,
    Float,
    Double,
    Boolean,
    Binary,
    Date,
    Timestamp,
    TimestampNtz,
    Decimal(DecimalType),
}

/// An array of `element_type`; `contains_null` says whether elements may be null.
#[derive(Debug, PartialEq)]
pub struct ArrayType {
    pub element_type: DataType,
    pub contains_null: bool,
}

/// A map from `key_type` to `value_type`; `value_contains_null` says whether values may be null.
#[derive(Debug, PartialEq)]
pub struct MapType {
    pub key_type: DataType,
    pub value_type: DataType,
    pub value_contains_null: bool,
}

/// A data type.
#[derive(Debug, PartialEq)]
pub enum DataType {
    Primitive(PrimitiveType),
    Array(Box<ArrayType>),
    Mapping(Box<MapType>),
    Struct(Box<StructType>),
    Variant(Box<StructType>),
}

/// A named, typed member of a struct or schema.
#[derive(Debug, PartialEq)]
pub struct StructField {
    pub name: String,
    pub data_type: DataType,
    pub nullable: bool,
    pub metadata: FieldMetadata,
}

/// An ordered sequence of fields: a struct type, or a finished schema.
#[derive(Debug, PartialEq)]
pub struct StructType {
    pub fields: Vec<StructField>,
}

/// The metadata that an optional metadata argument stands for: none is empty.
pub open spec fn metadata_of(metadata: Option<FieldMetadata>) -> Map<String, MetadataValue> {
    match metadata {
        Some(m) => m@,
        None => Map::empty(),
    }
}

impl StructField {
    /// A field `name: data_type` with the given nullability and metadata.
    pub fn new(name: &str, data_type: DataType, nullable: bool, metadata: Option<FieldMetadata>) -> (f: StructField)
        ensures
            f.name@ == name@,
            f.data_type == data_type,
            f.nullable == nullable,
            f.metadata@ == metadata_of(metadata),
    {
        let metadata = match metadata {
            Some(m) => m,
            None => HashMap::new(),
        };
        StructField { name: name.to_owned(), data_type, nullable, metadata }
    }

    pub fn name(&self) -> (r: &String)
        ensures
            r == &self.name,
    {
        &self.name
    }

    pub fn data_type(&self) -> (r: &DataType)
        ensures
            r == &self.data_type,
    {
        &self.data_type
    }

    pub fn is_nullable(&self) -> (r: bool)
        ensures
            r == self.nullable,
    {
        self.nullable
    }
}

impl StructType {
    /// The fields, in order.
    pub fn fields(&self) -> (r: &[StructField])
        ensures
            r@ == self.fields@,
    {
        self.fields.as_slice()
    }
}

} // verus!
