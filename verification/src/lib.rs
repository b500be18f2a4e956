//! Lokerro: a small error-context library.
//!
//! A fallible operation's outcome is passed, at each stack frame that wants
//! to record provenance, through one of the propagation contracts. On the
//! failure path each contract allocates one new [`error::Error`] node that
//! captures the call site (and an optional message) and wraps the previous
//! failure as its cause, building a singly-linked chain from the outermost
//! annotation down to the original failure. [`error::Error::render`] turns
//! the whole chain into a deterministic multi-line text.
//!
//! Call sites pass their source position explicitly as a [`error::Location`]
//! value; the library never walks the stack.

pub mod error;
pub mod ext;
pub mod foreign;
pub mod laws;
pub mod render;

pub use error::Error;
pub use error::ErrorImpl;
pub use error::Location;
pub use error::LokerroResult;
pub use error::Node;
pub use ext::ErrorExt;
pub use ext::ErrorExtCompat;
pub use ext::ErrorExtTrait;
pub use foreign::ForeignError;
