//! Road-sign scene compiler: reads a small vector-markup template into draw
//! intents, builds a tagged scene from them, and patches that scene in place
//! when the sign's live parameters change.

pub mod error;
pub mod color;
pub mod text;
pub mod markup;
pub mod scene;
