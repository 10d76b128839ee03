//! Typed bindings to the routines of a dynamically loaded library, and the
//! discipline that keeps every binding from outliving the library it came
//! from.
//!
//! A function bound from a library is only good while the library is open.
//! Holding both in one value is what makes this hard: the functions refer to
//! the library, and the value should still be free to move. Here a function
//! refers to its library by the handle that the platform gave out, which
//! stays what it is wherever the values go, and the platform's books say at
//! every moment which libraries are open and how many of their entry points
//! are held.
//!
//! * [`platform`]: the dynamic loader and its books.
//! * [`loading`]: [`loading::Library`] and [`loading::Function`].
//! * [`bundle`]: [`bundle::Bundle`], a library and its functions as one
//!   movable value, built and taken apart in a fixed order.
//! * [`factory`]: the same split in two values, where a borrow keeps the
//!   order.
//! * [`error`]: what can go wrong.
//! * [`first`]: first occurrences in sequences, by which lookups are stated.

pub mod bundle;
pub mod error;
pub mod factory;
pub mod first;
pub mod loading;
pub mod platform;
