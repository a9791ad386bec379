//! The top of exchange order books: which prices are taken from a venue's
//! message, what can go wrong on the way, and how the result is served.
//!
//! Prices pass through as the venue wrote them. Reading them as numbers and
//! averaging them is left to the caller.

pub mod cli;
pub mod collect;
pub mod config;
pub mod exchanges;
pub mod json;
pub mod rest;
