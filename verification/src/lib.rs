//! A verified planner for a three-stage manufacturing line.
//!
//! Three machine categories (assembly, soldering, quality checking) each have
//! a capacity range and a linear cost. The library solves two inverse
//! problems: picking the smallest set of machines of one category that covers
//! a target capacity, and searching for the pipeline whose total price comes
//! closest to a target price without exceeding it.

pub mod machines;
pub mod pipeline;
