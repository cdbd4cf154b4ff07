//! A hash-chained substrate ledger and the decision core of a homeostatic
//! economic actor.

pub mod actor;
pub mod combiner;
pub mod digest;
pub mod guard;
pub mod mesh;
pub mod text;
