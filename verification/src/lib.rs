//! Translator from engine-native document mutation events to path-addressed
//! patches.
//!
//! A replicated, tree-structured document (maps, ordered sequences, text and
//! rich-text marks) is mutated by an external CRDT engine. During one
//! transaction the engine emits a stream of native mutation events; this crate
//! accrues them in an [`observer::Observer`] and, at commit, translates each
//! event into one public [`Patch`]: a fully resolved path from the document
//! root plus a [`PatchAction`] describing the mutation. Translation is a pure,
//! stateless re-tagging; its only failure modes are contract violations at the
//! engine boundary (a negative index, length or range bound, or an inverted
//! mark range), which abort the whole sequence.

pub mod engine;
pub mod ids;
pub mod laws;
pub mod native;
pub mod observer;
pub mod patch;
pub mod translate;
pub mod values;

pub use patch::Patch;
pub use patch::PatchAction;
