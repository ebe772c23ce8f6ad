//! Owned, verified snapshots of a disassembled DEX / APK unit.
//!
//! An analysis engine parses a binary package, disassembles it and builds
//! cross-references. This crate takes the engine's records (`native`), lifts
//! them into immutable values (`parser`, `disassembler`, `analysis`), decodes
//! access flags (`dvm_access_flags`), remembers which engine object each name
//! was fetched under (`cache`) and sequences the engine session (`session`).
pub mod dvm_access_flags;
pub mod native;
pub mod parser;
pub mod disassembler;
pub mod analysis;
pub mod cache;
pub mod session;
mod text;

pub use session::{ApkContext, DexContext};
