//! Static safety/security checker for PLC control-logic sources.
//!
//! The crate models PLC routines as a small abstract syntax tree, and runs a
//! catalog of coding-rule checks over it: taint tracking from operator-facing
//! inputs into actuator outputs, guard and annotation recognition, structural
//! size limits, startup/diagnostic routine requirements, and policy-driven
//! checks for exclusive output pairs and read-only memory regions.

pub mod ast;
pub mod parser;
pub mod rules;
pub mod text;
