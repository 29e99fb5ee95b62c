//! The wallet's command line: what a command line asks for, which transactions carry it out, and
//! in which order the cluster is asked about them.
//!
//! Nothing here reaches for the network, the file system or the clock.  A command that needs one
//! of them stops at a step that names what it needs and goes on when it is given the answer.
pub mod account;
pub mod admission;
pub mod airdrop;
pub mod amount;
pub mod authority;
pub mod command;
pub mod compose;
pub mod delegate;
pub mod deploy;
pub mod errors;
pub mod fees;
pub mod grammar;
pub mod handover;
pub mod instruction;
pub mod keys;
pub mod laws;
pub mod matches;
pub mod parse;
pub mod pay;
pub mod process;
pub mod progress;
pub mod route;
pub mod signing;
pub mod submit;
pub mod text;
pub mod time;
pub mod transaction;
