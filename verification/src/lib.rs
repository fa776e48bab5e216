//! MomoLite core: the vocabulary, review, scene-generation and sync rules of
//! the MomoLite English learning app, with their contracts.

pub mod text;
pub mod vocab;
pub mod clock;
pub mod db;
pub mod json;
pub mod llm;
pub mod links;
pub mod sync;
pub mod tts;
