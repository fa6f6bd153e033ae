//! A small Rust course: a text printer that collects output, a set of demo
//! functions that write into it, two sorting demos that trace every pass,
//! and the decision logic of a todo list kept in SQLite.
use vstd::prelude::*;

pub mod text;
pub mod myrust;
pub mod mysorting;
pub mod mysqlite;

verus! {

} // verus!
