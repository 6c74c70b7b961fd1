//! Conversions between the client's data model and the provider wire formats.

pub mod anthropic;
pub mod fields;
pub mod framing;
pub mod gemini;
