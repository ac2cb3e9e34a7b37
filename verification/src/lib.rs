//! Synthesis of safe-to-call wrappers around native platform functions.
//!
//! A [`descriptor::MethodDescriptor`] describes one native function. The
//! library assigns it a calling-and-error convention ([`classify`]), decides
//! how it is linked and gated ([`linkage`]), maps its native parameters to
//! caller-facing parameters and raw arguments ([`mapper`]), and writes the
//! wrapper definition as source text ([`emit`]).

pub mod classify;
pub mod descriptor;
pub mod emit;
pub mod linkage;
pub mod mapper;
pub mod text;
