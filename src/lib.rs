//! A typed, capability-checked view over a script engine's raw value handles:
//! mapping of host status codes, value-kind validation, typed conversion, the
//! decisions of object access, and the registry that releases native closure
//! data when the engine finalizes the object it was attached to.

pub mod finalizer;
pub mod handle;
pub mod kind;
pub mod laws;
pub mod object;
pub mod property;
pub mod status;
pub mod value_type;
