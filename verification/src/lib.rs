//! A contention benchmark for seat reservations: many clients race to insert
//! conflicting rows under a chosen SQL isolation level, and the library
//! decides what each attempt does next, tallies the outcomes and renders the
//! summary record.

pub mod attempt;
pub mod driver;
pub mod laws;
pub mod outcome;
pub mod outside;
pub mod resultados;
pub mod summary;
