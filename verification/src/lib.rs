//! A verified core for a foreign-function-interface calling library.
//!
//! The library models the middle layer of such a binding: type
//! descriptors for native values, the engine-facing descriptor records
//! built from them, prepared call interfaces (CIFs), closure state, and
//! the byte-order-aware handling of narrow return values.  The
//! machine-level calling engine itself — the component that performs the
//! actual invocation and generates trampolines — is an outside
//! collaborator; this crate specifies and checks everything handed to it
//! and everything interpreted from it.

pub mod builder;
pub mod cif;
pub mod closure;
pub mod high;
pub mod low;
pub mod record;
pub mod type_tag;
pub mod types;
