//! A three-outcome price wager: polls are created by an authority, stakes are
//! placed on pump, dump or stagnate, and the authority settles the poll against
//! a reported end price.

pub mod address;
pub mod state;
pub mod ops;
pub mod laws;
