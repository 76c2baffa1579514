//! Exercise runner core: the mode model, the completion detector and the
//! pipeline orchestrator, stated over plain values and verified.

pub mod exercise;
pub mod manifest;
pub mod marker;
pub mod noir;
pub mod run;
pub mod text;
pub mod utils;
