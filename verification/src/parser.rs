//! Text-to-AST front ends.
//!
//! Only the line-oriented instruction-list dialect is parsed here, with a
//! contract that pins its whole translation; other dialects are external
//! collaborators of the analysis core that hand it a finished program.

pub mod il;
