//! Verification core for matching deployed smart-contract bytecode against
//! submitted source files: candidate construction, metadata-variant search,
//! deployed-code resolution and the orchestrating search loop.

pub mod candidate;
pub mod content;
pub mod evm;
pub mod metadata;
pub mod orchestrator;
pub mod outcome;
pub mod resolver;
pub mod hex;
pub mod text;
pub mod version;
