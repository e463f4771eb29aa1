//! The identity capability: a token naming the concrete type of a value.

use vstd::prelude::*;

verus! {

#[verifier::external_type_specification]
#[verifier::external_body]
pub struct ExTypeId(core::any::TypeId);

/// Relies on `TypeId`'s `==`: two tokens compare equal exactly when they are the same token.
pub assume_specification[ <core::any::TypeId as core::cmp::PartialEq>::eq ](
    a: &core::any::TypeId,
    b: &core::any::TypeId,
) -> (r: bool)
    ensures
        r == (*a == *b),
;

/// The token of the type `T`: one value for each type, fixed for the whole process.
///
/// It is left unknown beyond that, so proofs can use only that a type always yields the
/// same token.
pub closed spec fn type_token<T: 'static>() -> core::any::TypeId {
    vstd::pervasive::arbitrary::<(T, core::any::TypeId)>().1
}

/// Relies on `core::any::TypeId::of`: its result depends on the type `T` alone.
#[verifier::external_body]
pub(crate) fn type_id_of<T: 'static>() -> (r: core::any::TypeId)
    ensures
        r == type_token::<T>(),
{
    core::any::TypeId::of::<T>()
}

/// A value whose concrete type can be asked for at run time.
///
/// Every `'static` type has it, through the blanket impl below; a trait that extends it
/// (`trait Person: Any { .. }`) passes it on to its trait objects, where the call reaches
/// the concrete type behind the handle.
pub trait Any: 'static {
    /// The token of the concrete type of `self`; behind a trait object, that of the
    /// value it points to.
    spec fn spec_type_token(&self) -> core::any::TypeId;

    /// The token of the concrete type of `self`.
    fn __get_type_id(&self) -> (r: core::any::TypeId)
        ensures
            r == self.spec_type_token(),
    ;
}

impl<T: 'static> Any for T {
    open spec fn spec_type_token(&self) -> core::any::TypeId {
        type_token::<T>()
    }

    fn __get_type_id(&self) -> (r: core::any::TypeId) {
        type_id_of::<T>()
    }
}

/// A value of a sized type carries that type's token, whatever the value.
pub proof fn lemma_token_of_value<T: 'static>(x: &T)
    ensures
        x.spec_type_token() == type_token::<T>(),
{
}

/// Two values of one type yield the same token: the token depends on the type alone.
pub proof fn lemma_token_depends_on_type_alone<T: 'static>(x: &T, y: &T)
    ensures
        x.spec_type_token() == y.spec_type_token(),
{
}

} // verus!
