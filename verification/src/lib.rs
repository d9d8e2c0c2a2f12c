//! Core logic of a sticker-pack assistant: a per-session conversation state
//! machine, a registry of the packs created for each owner, an image
//! normalizer that fits arbitrary bitmaps into the sticker bounds, and the
//! naming utility that derives platform-legal pack identifiers.

pub mod engine;
pub mod imaging;
pub mod naming;
pub mod registry;
