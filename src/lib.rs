//! Orchestration logic for a two-wallet regtest transfer: wallet setup
//! decisions, the funding rule, typed transaction records, the extraction of
//! a transfer report from them, and the rendering of that report as text.
pub mod funding;
pub mod laws;
pub mod report;
pub mod session;
pub mod text;
pub mod tx;
