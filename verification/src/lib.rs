//! Typed access to a host kernel's per-task metrics records.
//!
//! Each supported record type ("flavor") mirrors a fixed-layout native
//! structure that the host query call fills in. The library binds every
//! record type to its numeric flavor code and diagnostic name, decodes the
//! packed native byte layout into typed fields, and checks the whole set of
//! bindings against host-reported ground truth.

pub mod bytes;
pub mod flavor;
pub mod records;
pub mod registry;
pub mod validate;
