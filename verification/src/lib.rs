//! Query planning, pagination and export for the app-configuration records API.
//!
//! The crate turns a listing request into parameterised SQL with its bound
//! values, computes pagination metadata, renders result sets as CSV, and maps
//! failures to replies. Running statements against the store and speaking HTTP
//! are left to the caller.

pub mod auth;
pub mod bind;
pub mod db;
pub mod export;
pub mod handlers;
pub mod models;
pub mod predicate;
pub mod semantics;
pub mod text;
