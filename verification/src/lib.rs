//! Encoder for the report frames that configure a keyboard's lighting and key
//! assignment, together with the catalogue of lighting modes it depends on.
//!
//! `models` holds the plain data that describes a keyboard and the chosen
//! configuration, `modes` the lighting-mode catalogue of the two keyboard
//! families, `protocol` the frame encoders with their byte-level contracts,
//! and `lemmas` what is proved of the encoding for every input.

pub mod lemmas;
pub mod models;
pub mod modes;
pub mod protocol;
