//! The rule catalog and its shared machinery.
//!
//! Each `rule<N>` module exposes one `check` entry point over the program
//! model; `report` defines the outcome types and the aggregator that runs
//! the whole catalog; `engine` holds the taint/guard analysis that the
//! flow-sensitive rules are instances of.

pub mod engine;
pub mod policy;
pub mod registry;
pub mod report;
pub mod rule1;
pub mod rule10;
pub mod rule11_12;
pub mod rule15;
pub mod rule16;
pub mod rule17;
pub mod rule18;
pub mod rule19;
pub mod rule2;
pub mod rule20;
pub mod rule4;
pub mod rule5;
pub mod rule6;
pub mod rule7;
pub mod rule8;
pub mod rule9;
pub mod utils;
