//! Checked downcasts for every handle discipline.

use crate::identity::{type_id_of, type_token, Any};
use std::sync::Arc;
use vstd::prelude::*;

verus! {

/// Relies on `<dyn core::any::Any>::downcast_ref`: a reference to the same value, retyped,
/// exactly when the value's type id, that of `S`, is the type id of `T`.
#[verifier::external_body]
fn std_downcast_ref<S: 'static, T: 'static>(x: &S) -> (r: Option<&T>)
    ensures
        r is Some <==> type_token::<T>() == type_token::<S>(),
{
    (x as &dyn core::any::Any).downcast_ref::<T>()
}

/// Relies on `<dyn core::any::Any>::downcast_mut`: an exclusive reference to the same
/// value, retyped, exactly when the value's type id, that of `S`, is the type id of `T`.
#[verifier::external_body]
fn std_downcast_mut<S: 'static, T: 'static>(x: &mut S) -> (r: Option<&mut T>)
    ensures
        r is Some <==> type_token::<T>() == type_token::<S>(),
        r is None ==> *final(x) == *old(x),
{
    (x as &mut dyn core::any::Any).downcast_mut::<T>()
}

/// Relies on `Box<dyn core::any::Any>::downcast`: `Ok`, holding the same allocation
/// retyped, exactly when the type id of the payload, that of `S`, is the type id of `T`;
/// otherwise `Err` hands the box itself back. The box in `Err` holds an `S`, so the same function
/// at `S` returns it to its own type.
#[verifier::external_body]
fn std_downcast_box<S: 'static, T: 'static>(b: Box<S>) -> (r: Result<Box<T>, Box<S>>)
    ensures
        r is Ok <==> type_token::<T>() == type_token::<S>(),
        r matches Err(e) ==> e == b,
{
    let erased: Box<dyn core::any::Any> = b;
    match erased.downcast::<T>() {
        Ok(t) => Ok(t),
        Err(e) => Err(e.downcast::<S>().unwrap()),
    }
}

/// Relies on `Arc<dyn core::any::Any + Send + Sync>::downcast`: `Ok`, holding the same
/// allocation and count retyped, exactly when the type id of the payload, that of `S`, is
/// the type id of `T`; otherwise `Err` hands the handle itself back. The handle in `Err`
/// points to an `S`, so the same function at `S` returns it to its own type.
#[verifier::external_body]
fn std_downcast_arc<S: Send + Sync + 'static, T: Send + Sync + 'static>(a: Arc<S>) -> (r: Result<Arc<T>, Arc<S>>)
    ensures
        r is Ok <==> type_token::<T>() == type_token::<S>(),
        r matches Err(e) ==> e == a,
{
    let erased: Arc<dyn core::any::Any + Send + Sync> = a;
    match erased.downcast::<T>() {
        Ok(t) => Ok(t),
        Err(e) => Err(e.downcast::<S>().unwrap()),
    }
}

/// The downcasts, for every value that has [`Any`].
///
/// [`Downcast::is`] works through any handle, trait objects included. The retyping
/// operations ask for a sized handle type. Call them on the value, not on a reference
/// or box to it (`(*b).is::<T>()`): a reference or a box with no borrowed lifetime is a
/// `'static` value of its own and would answer for its own type.
///
/// Each operation succeeds exactly when the token of `T` is the token of the concrete
/// type behind the handle. A failed exclusive downcast leaves the value as it was, and a
/// failed owned or shared downcast gives back the very handle it was given.
pub trait Downcast: Any {
    /// Whether the concrete type of `self` is `T`.
    fn is<T: 'static>(&self) -> (r: bool)
        ensures
            r == (type_token::<T>() == self.spec_type_token()),
    ;

    /// `self` as a `T`, when its concrete type is `T`.
    fn downcast_ref<T: 'static>(&self) -> (r: Option<&T>)
        where Self: Sized
        ensures
            r is Some <==> type_token::<T>() == type_token::<Self>(),
    ;

    /// `self` as an exclusive `T`, when its concrete type is `T`.
    fn downcast_mut<T: 'static>(&mut self) -> (r: Option<&mut T>)
        where Self: Sized
        ensures
            r is Some <==> type_token::<T>() == type_token::<Self>(),
            r is None ==> *final(self) == *old(self),
    ;

    /// The box retyped as `Box<T>` when its payload's type is `T`; otherwise the same box,
    /// untouched.
    fn downcast_box<T: 'static>(b: Box<Self>) -> (r: Result<Box<T>, Box<Self>>)
        where Self: Sized
        ensures
            r is Ok <==> type_token::<T>() == type_token::<Self>(),
            r matches Err(e) ==> e == b,
    ;

    /// The shared handle retyped as `Arc<T>`, on the same allocation and count, when its
    /// payload's type is `T`; otherwise the same handle, untouched. Both types are
    /// `Send + Sync`, as std's safe retyping of a shared handle asks.
    fn downcast_arc<T: Send + Sync + 'static>(a: Arc<Self>) -> (r: Result<Arc<T>, Arc<Self>>)
        where Self: Sized + Send + Sync
        ensures
            r is Ok <==> type_token::<T>() == type_token::<Self>(),
            r matches Err(e) ==> e == a,
    ;
}

impl<S: Any + ?Sized> Downcast for S {
    fn is<T: 'static>(&self) -> (r: bool)
        ensures
            r == (type_token::<T>() == self.spec_type_token()),
    {
        let wanted = type_id_of::<T>();
        let found = self.__get_type_id();
        wanted == found
    }

    fn downcast_ref<T: 'static>(&self) -> (r: Option<&T>)
        where Self: Sized
        ensures
            r is Some <==> type_token::<T>() == type_token::<Self>(),
    {
        if <S as Downcast>::is::<T>(self) {
            std_downcast_ref::<S, T>(self)
        } else {
            None
        }
    }

    fn downcast_mut<T: 'static>(&mut self) -> (r: Option<&mut T>)
        where Self: Sized
        ensures
            r is Some <==> type_token::<T>() == type_token::<Self>(),
            r is None ==> *final(self) == *old(self),
    {
        if <S as Downcast>::is::<T>(self) {
            std_downcast_mut::<S, T>(self)
        } else {
            None
        }
    }

    fn downcast_box<T: 'static>(b: Box<Self>) -> (r: Result<Box<T>, Box<Self>>)
        where Self: Sized
        ensures
            r is Ok <==> type_token::<T>() == type_token::<Self>(),
            r matches Err(e) ==> e == b,
    {
        if <S as Downcast>::is::<T>(&*b) {
            std_downcast_box::<S, T>(b)
        } else {
            Err(b)
        }
    }

    fn downcast_arc<T: Send + Sync + 'static>(a: Arc<Self>) -> (r: Result<Arc<T>, Arc<Self>>)
        where Self: Sized + Send + Sync
        ensures
            r is Ok <==> type_token::<T>() == type_token::<Self>(),
            r matches Err(e) ==> e == a,
    {
        if <S as Downcast>::is::<T>(&*a) {
            std_downcast_arc::<S, T>(a)
        } else {
            Err(a)
        }
    }
}

} // verus!
