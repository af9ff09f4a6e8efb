//! A verified client-side interface to the libmodsecurity inspection engine.
//!
//! Callers submit the pieces of an HTTP transaction (connection endpoints, URI,
//! headers, bodies) in phase order and ask for the engine's decision. The engine is
//! reached through [`RawBindings`]; every string handed to it is checked for NUL
//! bytes first, and every native answer is interpreted by a verified function.

use vstd::prelude::*;

pub mod bindings;
pub mod cstr;
pub mod error;
pub mod intervention;
pub mod msc;
pub mod rules;
pub mod transaction;

pub use bindings::{Bindings, RawBindings};
pub use error::ModSecurityError;
pub use intervention::{Intervention, RawIntervention};
pub use msc::{ModSecurity, ModSecurityBuilder};
pub use rules::Rules;
pub use transaction::{Transaction, TransactionBuilder, TransactionBuilderWithoutRules};

verus! {

/// Common result for a ModSecurity operation.
pub type ModSecurityResult<T> = Result<T, error::ModSecurityError>;

} // verus!
