//! Verified core of an Internet Computer canister that etches and mints
//! Bitcoin runes and converts between BTC and ckBTC.
pub mod bytes;
pub mod der;
pub mod foreign;
pub mod runes;
pub mod text;
pub mod types;
pub mod txplan;
pub mod mint;
pub mod etching;
pub mod state;
pub mod upgrade;
pub mod canister;
pub mod schnorr;
pub mod script;
pub mod etch_flow;
pub mod signing;
