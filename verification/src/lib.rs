//! A safe bridge between a host program and an embedded BQN interpreter.
//!
//! The interpreter is reached through a [`Backend`], which forwards each
//! call to it and knows nothing else. A [`Runtime`] puts a backend behind a
//! reentrant lock and starts the interpreter on first use. A [`BQNValue`]
//! owns one reference to a value of the interpreter, and its methods move
//! data in and out: they check the type of a value before they read it,
//! look at every element of an array whose storage settles nothing, and
//! release what they made on the way. Source text is evaluated by
//! [`eval`], and host functions are bound to values that the interpreter
//! can call through a registry, [`BoundFns`].
//!
//! Nothing is assumed of the interpreter. The contract of an operation says
//! which questions the operation puts to the backend, with which arguments
//! and in which order, and that its result is what [`decide`] makes of the
//! answers that the backend gave. What follows from that for every
//! interpreter, and what follows for an interpreter that keeps what it is
//! given, is proved in [`laws`].
//!
//! Numbers cross the bridge as the bits of IEEE 754 doubles.

pub mod array;
pub mod backend;
pub mod bqntype;
pub mod conversions;
pub mod decide;
pub mod error;
pub mod eval;
pub mod laws;
pub mod namespace;
pub mod registry;
pub mod runtime;
pub mod sandbox;
pub mod text;
pub mod typecheck;
pub mod value;

pub use backend::Backend;
pub use bqntype::BQNType;
pub use error::{Error, Fault};
pub use eval::{backend_eval, eval, eval_call1, eval_call2};
pub use registry::BoundFns;
pub use runtime::{init, Runtime};
pub use value::BQNValue;
