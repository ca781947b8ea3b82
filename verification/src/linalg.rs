//! Trusted bridge to `nalgebra`: type declarations that let matrix and
//! vector values flow through verified code, and thin wrappers around the
//! arithmetic the filter needs. The matrix contents are opaque to the
//! verifier; every numerical claim of this module is assumed, not proved,
//! so each wrapper states no more than what its doc comment relies on.

use vstd::prelude::*;

verus! {

#[verifier::external_type_specification]
#[verifier::external_body]
#[verifier::reject_recursive_types(T)]
#[verifier::reject_recursive_types(R)]
#[verifier::reject_recursive_types(C)]
#[verifier::reject_recursive_types(S)]
pub struct ExMatrix<T, R, C, S>(nalgebra::Matrix<T, R, C, S>);

#[verifier::external_type_specification]
#[verifier::external_body]
pub struct ExConst<const R: usize>(nalgebra::Const<R>);

#[verifier::external_type_specification]
#[verifier::external_body]
#[verifier::reject_recursive_types(T)]
pub struct ExArrayStorage<T, const R: usize, const C: usize>(nalgebra::ArrayStorage<T, R, C>);

/// Relies on `nalgebra::Matrix`'s derived `Clone`: it clones the storage
/// elementwise, and scalars are assumed to clone to an equal value, as
/// `nalgebra` itself assumes of every `Scalar`.
pub assume_specification<T: Clone, R: Clone, C: Clone, S: Clone>[
    <nalgebra::Matrix<T, R, C, S> as Clone>::clone
](m: &nalgebra::Matrix<T, R, C, S>) -> (r: nalgebra::Matrix<T, R, C, S>)
    ensures
        r == *m,
;

/// Relies on the scalar's `Clone` through `nalgebra::RealField`; assumed to
/// return a value equal to the original, as `nalgebra` assumes of every
/// `Scalar`.
#[verifier::external_body]
pub(crate) fn s_clone<T: nalgebra::RealField>(x: &T) -> (r: T)
    ensures
        r == *x,
{
    x.clone()
}

/// Relies on the scalar's field addition through `nalgebra::RealField`,
/// total for real scalar types.
#[verifier::external_body]
pub(crate) fn s_add<T: nalgebra::RealField>(a: &T, b: &T) -> T {
    a.clone() + b.clone()
}

/// Relies on the scalar's field subtraction through `nalgebra::RealField`,
/// total for real scalar types.
#[verifier::external_body]
pub(crate) fn s_sub<T: nalgebra::RealField>(a: &T, b: &T) -> T {
    a.clone() - b.clone()
}

/// Relies on the scalar's field multiplication through `nalgebra::RealField`,
/// total for real scalar types.
#[verifier::external_body]
pub(crate) fn s_mul<T: nalgebra::RealField>(a: &T, b: &T) -> T {
    a.clone() * b.clone()
}

/// Relies on the scalar's field division through `nalgebra::RealField`,
/// total for real scalar types (a zero divisor gives the scalar's own
/// non-finite value, it does not panic).
#[verifier::external_body]
pub(crate) fn s_div<T: nalgebra::RealField>(a: &T, b: &T) -> T {
    a.clone() / b.clone()
}

/// Relies on `ComplexField::sqrt` through `nalgebra::RealField`, total for
/// real scalar types (a negative argument gives the scalar's own
/// not-a-number value, it does not panic).
#[verifier::external_body]
pub(crate) fn s_sqrt<T: nalgebra::RealField>(a: &T) -> T {
    a.clone().sqrt()
}

/// Relies on `num_traits::Zero::zero` through `nalgebra::RealField`.
#[verifier::external_body]
pub(crate) fn s_zero<T: nalgebra::RealField>() -> T {
    T::zero()
}

/// Relies on `num_traits::One::one` through `nalgebra::RealField`.
#[verifier::external_body]
pub(crate) fn s_one<T: nalgebra::RealField>() -> T {
    T::one()
}

/// Relies on `nalgebra`'s matrix product (`Mul` on matrix references).
#[verifier::external_body]
pub(crate) fn mat_mul<T: nalgebra::RealField, const R: usize, const K: usize, const C: usize>(
    a: &nalgebra::SMatrix<T, R, K>,
    b: &nalgebra::SMatrix<T, K, C>,
) -> nalgebra::SMatrix<T, R, C> {
    a * b
}

/// Relies on `nalgebra`'s elementwise matrix sum (`Add` on matrix references).
#[verifier::external_body]
pub(crate) fn mat_add<T: nalgebra::RealField, const R: usize, const C: usize>(
    a: &nalgebra::SMatrix<T, R, C>,
    b: &nalgebra::SMatrix<T, R, C>,
) -> nalgebra::SMatrix<T, R, C> {
    a + b
}

/// Relies on `nalgebra`'s elementwise matrix difference (`Sub` on matrix
/// references).
#[verifier::external_body]
pub(crate) fn mat_sub<T: nalgebra::RealField, const R: usize, const C: usize>(
    a: &nalgebra::SMatrix<T, R, C>,
    b: &nalgebra::SMatrix<T, R, C>,
) -> nalgebra::SMatrix<T, R, C> {
    a - b
}

/// Relies on `nalgebra::Matrix::transpose`.
#[verifier::external_body]
pub(crate) fn mat_transpose<T: nalgebra::RealField, const R: usize, const C: usize>(
    m: &nalgebra::SMatrix<T, R, C>,
) -> nalgebra::SMatrix<T, C, R> {
    m.transpose()
}

/// Relies on `nalgebra::Matrix::try_inverse`: `None` exactly when the matrix
/// is not invertible. It panics only on non-square matrices, which the
/// signature rules out.
#[verifier::external_body]
pub(crate) fn mat_try_inverse<T: nalgebra::RealField, const D: usize>(
    m: &nalgebra::SMatrix<T, D, D>,
) -> Option<nalgebra::SMatrix<T, D, D>> {
    m.clone().try_inverse()
}

/// Relies on `nalgebra::Matrix::identity`.
#[verifier::external_body]
pub(crate) fn mat_identity<T: nalgebra::RealField, const D: usize>() -> nalgebra::SMatrix<T, D, D> {
    nalgebra::SMatrix::identity()
}

/// Relies on `nalgebra::Matrix::zeros`.
#[verifier::external_body]
pub(crate) fn vec_zeros<T: nalgebra::RealField, const D: usize>() -> nalgebra::SVector<T, D> {
    nalgebra::SVector::zeros()
}

} // verus!
