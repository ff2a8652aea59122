//! Settlement core of a collateralized lending pool: lendable funds, posted
//! collateral, debt, and the collateral valuation that gates borrowing.
//!
//! Every action is a pure transition from the records it reads to the records
//! it writes, plus the declarative instructions the host carries out.

pub mod decimal;
pub mod error;
pub mod state;
pub mod response;
pub mod contract;
pub mod denom;
pub mod valuation;
pub mod laws;
