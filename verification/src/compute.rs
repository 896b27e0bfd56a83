//! The array computations, which the `vortex` crates perform.
use crate::array::PVector;
use crate::mask::Mask;
use num_traits::AsPrimitive;
use std::sync::Arc;
use vortex::array::Array;
use vortex::array::IntoArray;
use vortex::array::ToCanonical;
use vortex::array::VectorExecutor;
use vortex::array::arrays::PrimitiveArray;
use vortex::array::builtins::ArrayBuiltins;
use vortex::array::mask::MaskExecutor;
use vortex::array::vectors::VectorIntoArray;
use vortex::compute2::take::Take;
use vortex::dtype::DType;
use vortex::dtype::Nullability;
use vortex::dtype::PTypeDowncastExt;
use vortex::session::VortexSession;
use vortex_error::VortexError;
use vortex_vector::Vector;
use vortex_vector::VectorMutOps;
use vortex_vector::primitive::PVectorMut;
use vortex_vector::primitive::PrimitiveVector;
use vstd::prelude::*;

verus! {

/// The error of the `vortex` crates. Nothing is claimed of what it holds.
#[verifier::external_type_specification]
#[verifier::external_body]
pub struct ExVortexError(VortexError);

/// The session that `vortex` executes arrays in. Nothing is claimed of what it holds.
#[verifier::external_type_specification]
#[verifier::external_body]
pub struct ExVortexSession(VortexSession);

/// Calls `Array::validity_mask` on the primitive array that holds `rows`.
///
/// Claims that the mask is all-true where no row is null, all-false where there are rows and each
/// is null, and otherwise has the bit of each row that is not null.
#[verifier::external_body]
pub(crate) fn array_validity_mask(rows: &Vec<Option<u64>>) -> (mask: Mask)
    ensures
        mask@ == crate::mask::validity_mask(crate::array::validity(rows@)),
{
    match PrimitiveArray::from_option_iter(rows.iter().copied()).validity_mask() {
        vortex::mask::Mask::AllTrue(len) => Mask::AllTrue(len),
        vortex::mask::Mask::AllFalse(len) => Mask::AllFalse(len),
        vortex::mask::Mask::Values(values) => Mask::Values(values.bit_buffer().iter().collect()),
    }
}

/// Calls `ArrayBuiltins::is_null`, `ArrayBuiltins::not` and `MaskExecutor::execute_mask` in turn,
/// from the primitive array that holds `rows`.
///
/// Claims that on a primitive array none of them reports an error, whatever the session, and that
/// the mask has the bit of each row that is not null: all-false where there is none, all-true where
/// there are rows and none is null.
#[verifier::external_body]
pub(crate) fn not_null_mask(
    rows: &Vec<Option<u64>>,
    session: &VortexSession,
) -> (result: Result<Mask, VortexError>)
    ensures
        result is Ok,
        result->Ok_0@ == crate::mask::computed_mask(crate::array::validity(rows@)),
{
    let array = PrimitiveArray::from_option_iter(rows.iter().copied()).into_array();
    Ok(
        match array.is_null()?.not()?.execute_mask(session)? {
            vortex::mask::Mask::AllTrue(len) => Mask::AllTrue(len),
            vortex::mask::Mask::AllFalse(len) => Mask::AllFalse(len),
            vortex::mask::Mask::Values(bits) => Mask::Values(bits.bit_buffer().iter().collect()),
        },
    )
}

/// Calls `VectorExecutor::execute_vector` on the primitive array that holds `rows`.
///
/// Claims that on a primitive array it reports no error, whatever the session, and that the vector
/// holds the elements of the array, zero in the place of a null, under the array's validity mask.
#[verifier::external_body]
pub(crate) fn execute_vector(
    rows: &Vec<Option<u64>>,
    session: &VortexSession,
) -> (result: Result<PVector, VortexError>)
    ensures
        result is Ok,
        result->Ok_0@ == crate::array::executed(rows@),
{
    let array = PrimitiveArray::from_option_iter(rows.iter().copied()).into_array();
    let vector = array.execute_vector(session)?.into_primitive().downcast::<u64>();
    let (elements, validity) = vector.into_parts();
    let validity = match validity {
        vortex::mask::Mask::AllTrue(len) => Mask::AllTrue(len),
        vortex::mask::Mask::AllFalse(len) => Mask::AllFalse(len),
        vortex::mask::Mask::Values(values) => Mask::Values(values.bit_buffer().iter().collect()),
    };
    Ok(PVector { elements: elements.to_vec(), validity })
}

/// Calls `Array::to_canonical` on the primitive array that holds `rows`. The result is the
/// elements of the canonical array and, for each, whether it is valid.
///
/// Claims that canonicalizing keeps the rows.
#[verifier::external_body]
pub(crate) fn to_canonical(rows: &Vec<Option<u64>>) -> (canonical: (Vec<u64>, Vec<bool>))
    ensures
        canonical.0@.len() == canonical.1@.len(),
        crate::array::masked(canonical.0@, canonical.1@) == rows@,
{
    let array = PrimitiveArray::from_option_iter(rows.iter().copied());
    let canonical = array.to_canonical().into_primitive();
    let valid = canonical.validity_mask().to_bit_buffer().iter().collect();
    (canonical.as_slice::<u64>().to_vec(), valid)
}

/// Calls `vortex::compute::take` on the primitive arrays that hold `values` and `codes`. The result
/// is the elements of the array that was taken and, for each, whether it is valid.
///
/// Claims that, with every code in range, it reports no error and takes the value at each code, and
/// null where the code is null.
#[verifier::external_body]
pub(crate) fn take(
    values: &Vec<Option<u64>>,
    codes: &Vec<Option<u64>>,
) -> (result: Result<(Vec<u64>, Vec<bool>), VortexError>)
    requires
        crate::array::in_range(codes@, values@.len()),
        codes@.len() > 0 ==> values@.len() > 0,
    ensures
        result is Ok,
        result->Ok_0.0@.len() == result->Ok_0.1@.len(),
        crate::array::masked(result->Ok_0.0@, result->Ok_0.1@) == crate::array::taken(
            values@,
            codes@,
        ),
{
    let values = PrimitiveArray::from_option_iter(values.iter().copied());
    let codes = PrimitiveArray::from_option_iter(codes.iter().copied());
    let rows = vortex::compute::take(values.as_ref(), codes.as_ref())?.to_primitive();
    let valid = rows.validity_mask().to_bit_buffer().iter().collect();
    Ok((rows.as_slice::<u64>().to_vec(), valid))
}

/// Calls `Take::take` on the vectors that hold `values` and `codes`, and turns the vector that was
/// taken into an array with `VectorIntoArray::into_array`. The result is the elements of that array
/// and, for each, whether it is valid.
///
/// Claims that, with every code in range, it takes the value at each code, and null where the code
/// is null.
#[verifier::external_body]
pub(crate) fn take_vector(
    values: &Vec<Option<u64>>,
    codes: &Vec<Option<u64>>,
) -> (rows: (Vec<u64>, Vec<bool>))
    requires
        crate::array::in_range(codes@, values@.len()),
        codes@.len() > 0 ==> values@.len() > 0,
    ensures
        rows.0@.len() == rows.1@.len(),
        crate::array::masked(rows.0@, rows.1@) == crate::array::taken(values@, codes@),
{
    let values = values.iter().copied().collect::<PVectorMut<u64>>().freeze();
    let codes = codes.iter().copied().collect::<PVectorMut<u64>>().freeze();
    let taken = Take::take(Vector::from(values), &PrimitiveVector::from(codes));
    let dtype = DType::Primitive(vortex::dtype::PType::U64, Nullability::Nullable);
    let rows = taken.into_array(&dtype).to_primitive();
    let valid = rows.validity_mask().to_bit_buffer().iter().collect();
    (rows.as_slice::<u64>().to_vec(), valid)
}

/// Calls `num_traits::AsPrimitive::as_`.
///
/// Claims that it keeps the low 32 bits.
#[verifier::external_body]
pub(crate) fn as_u32(code: u64) -> (low: u32)
    ensures
        low == code % 0x1_0000_0000,
{
    code.as_()
}

/// Calls `Arc::clone`.
///
/// Claims that the clone shares the value that it was made from.
#[verifier::external_body]
pub(crate) fn share<T>(value: &Arc<T>) -> (shared: Arc<T>)
    ensures
        shared == *value,
{
    Arc::clone(value)
}

} // verus!
