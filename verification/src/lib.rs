//! Singleton-cell identity validation for a UTXO-style ledger.
//!
//! A "type ID" cell is a stateful object of which at most one logical
//! instance may exist: it is minted with a freshly derived 32-byte identity,
//! may be updated while carrying that identity forward, and may never be
//! destroyed by a transition this validator accepts.  The validator is a
//! pure predicate over a read-only view of a proposed state transition; it
//! either accepts or rejects with a stable numeric code.

pub mod error;
pub mod hashing;
pub mod laws;
pub mod transition;
pub mod validator;

pub use error::Error;
pub use transition::{InputCell, OutputCell, Transition};
pub use validator::{
    load_always_success_from_script_args, load_type_id_from_script_args,
    locate_first_type_id_output_index, program_entry, validate_type_id,
};
