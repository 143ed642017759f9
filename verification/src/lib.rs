//! A travel-planning backend as a verified library: users own travel plans,
//! a plan owns generated route options, a route option owns points of
//! interest, and every operation on a plan or on what hangs under it first
//! proves that the caller owns the plan.
//!
//! The store is spoken to through [`db::statement::Store`], which keeps the
//! trail of what was handed to the store and of what came back. The
//! contracts of the operations are stated over that trail: which statements
//! an operation makes, in which order, and what it returns for every answer
//! that the store may give.

pub mod db;
pub mod middleware;
pub mod models;
pub mod random;
pub mod routes;
pub mod services;
pub mod text;
pub mod views;
