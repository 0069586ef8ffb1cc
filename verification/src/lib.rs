//! A single static-analysis rule that finds the idiom "byte size of an
//! integer type, multiplied by eight" and suggests the type's bit-width
//! constant instead.
//!
//! The host that owns parsing, symbol resolution and diagnostic rendering
//! hands this library one expression node at a time (see [`ast`]); the
//! library decides, with no side effect, whether the node is an instance of
//! the idiom ([`matcher`]), what replacement to propose ([`suggestion`]),
//! and whether the rule is enabled at all for the configured minimum
//! supported version ([`version`]). The lint pass itself, with its
//! registration metadata, lives in [`pass`].

pub mod ast;
pub mod matcher;
pub mod pass;
pub mod suggestion;
pub mod version;
