//! Application side of a counter ledger driven by a BFT consensus engine:
//! transaction admission, deterministic application, state commitment and
//! the genesis validator roster.

pub mod encoding;
pub mod genesis;
pub mod laws;
pub mod node;
pub mod shell;
pub mod transaction;
