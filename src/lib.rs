//! Keeps a single on-chain riddle populated: each cycle generates a riddle,
//! commits to its answer and publishes both, driven by an explicit state machine.
pub mod chain;
pub mod commitment;
pub mod driver;
pub mod generator;
pub mod riddle;
