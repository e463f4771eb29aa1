//! Runtime type identity for values behind handles, and checked downcasts back to the
//! concrete type.
//!
//! Every `'static` type has [`Any`], which yields the [`core::any::TypeId`] of the value's
//! concrete type. A trait that extends [`Any`] keeps that ability through `&dyn Trait`, so
//! [`Downcast::is`] answers for trait objects too. The checked downcasts of [`Downcast`]
//! retype shared references, exclusive references, boxes and `Arc`s; the owned and shared
//! ones hand the original handle back untouched when the type does not match.
//!
//! In the contracts, [`type_token`]`::<T>()` stands for the token of the type `T`. Every
//! operation succeeds exactly when the requested type's token is the payload's.

mod downcast;
mod identity;

pub use downcast::Downcast;
pub use identity::{lemma_token_depends_on_type_alone, lemma_token_of_value, type_token, Any};
