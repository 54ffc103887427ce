//! What this library takes from delta_kernel.

use vstd::prelude::*;

verus! {

/// delta_kernel's value of one metadata entry of a field; carried, never read.
#[verifier::external_type_specification]
#[verifier::external_body]
pub struct ExMetadataValue(delta_kernel::schema::MetadataValue);

/// delta_kernel's error type.
#[verifier::external_type_specification]
#[verifier::external_body]
pub struct ExKernelError(delta_kernel::Error);

/// Relies on delta_kernel's `DecimalType::try_new`: it accepts a precision in
/// `1..=38` with a scale no larger than the precision, keeps both as given, and
/// refuses every other pair.
#[verifier::external_body]
pub(crate) fn kernel_decimal(precision: u8, scale: u8) -> (r: Result<(u8, u8), delta_kernel::Error>)
    ensures
        r is Ok <==> (1 <= precision <= 38 && scale <= precision),
        r matches Ok(ps) ==> ps == (precision, scale),
{
    delta_kernel::schema::DecimalType::try_new(precision, scale).map(|d| (d.precision(), d.scale()))
}

} // verus!
