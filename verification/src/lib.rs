//! `[H]` state-history layer: the vocabulary that lifts each base navigation
//! primitive (disk, memory, log, query) to a time-indexed variant.
//!
//! - `identity`: multi-facet artifact identity, identity disciplines, the
//!   `[P]` persistent address and its versioned canonical binary key.
//! - `clock`: the four orthogonal axes of timestamp provenance.
//! - `epoch`: epoch tags, ordering keys, cohort topology, materialization safety.
//! - `cohort`: temporal states and cohorts, with time-indexed lookup.
//! - `source`: the traits that concrete history sources implement.

pub mod clock;
pub mod cohort;
pub mod cohort_laws;
pub mod epoch;
pub mod identity;
pub mod source;
pub mod text;
