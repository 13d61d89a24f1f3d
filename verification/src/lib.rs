//! Struct-to-struct field mapping: from an annotated target struct and the
//! name of a source type, produce the cleaned struct declaration and the
//! `From` conversion that builds the target from the source, field by field.
//!
//! * [`token`] turns annotation text into classified tokens;
//! * [`parse`] reads the two annotation grammars from those tokens;
//! * [`model`] holds the plain description of a target struct;
//! * [`synth`] resolves every field's strategy and strips the overrides;
//! * [`render`] writes the result out as source text;
//! * [`laws`] states what holds of synthesis for every struct.

pub mod token;
pub mod parse;
pub mod model;
pub mod synth;
pub mod render;
pub mod laws;

pub use crate::render::{morph, morph_field, morph_field_text, morph_text};
