//! A single profile record with owner-gated editing, a vouching workflow, an
//! open inbox and a tip counter.
//!
//! - `identity`: the opaque caller identity.
//! - `record`: the record's types and their abstract views.
//! - `machine`: what each operation does to the abstract record.
//! - `instructions`: the executable operations, proved against `machine`.
//! - `laws`: properties that hold across operations.
use vstd::prelude::*;

pub mod identity;
pub mod instructions;
pub mod laws;
pub mod machine;
pub mod record;

verus! {

} // verus!
