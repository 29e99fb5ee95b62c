//! What the commands do, said of their inputs and outcomes alone.
pub mod airdrops;
pub mod amounts;
pub mod answers;
pub mod bytes;
pub mod contracts;
pub mod costs;
pub mod dates;
pub mod delegation;
pub mod deployments;
pub mod grammars;
pub mod identities;
pub mod lookups;
pub mod numbers;
pub mod payments;
pub mod readings;
pub mod reports;
pub mod routes;
pub mod sending;
pub mod steps;
pub mod transfers;
