//! A set backed by a slot table, with an entry API: one lookup yields a
//! handle that is either occupied (an equivalent value is stored) or vacant
//! (the queried value is held, ready to be stored without another search).
mod equiv;
mod laws;
mod set;

pub use equiv::{after_or_insert, eq_laws, holds, unique};
pub use laws::{
    lemma_insert_new_value, lemma_insert_then_remove, lemma_or_insert_idempotent,
    lemma_or_insert_present, lemma_replace_equivalent,
};
pub use set::{HashSet, RustcEntry, RustcOccupiedEntry, RustcVacantEntry};
