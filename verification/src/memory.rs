//! The tables of the schema in memory, and the operations of the engine as
//! they run on them.
//!
//! [`model`] says what each statement does to the tables, [`tables`] does
//! it, [`session`] adds the cursor of a search, and [`run`] drives an
//! operation to its end. [`effects`], [`writes`], [`wallets`] and [`scan`]
//! say what each operation does as a whole; [`backend`] offers them.
//! [`constraints`] and [`isolation`] hold what the schema keeps true.

pub mod backend;
pub mod constraints;
pub mod effects;
pub mod isolation;
pub mod lookup;
pub mod model;
pub mod run;
pub mod scan;
pub mod sequences;
pub mod session;
pub mod tables;
pub mod wallets;
pub mod writes;
