//! Host-side logic of a shader-binding-table (SBT) diagnostic probe.
//!
//! The probe dispatches one ray through a ray-tracing pipeline whose SBT is
//! laid out at a configurable base offset, and then inspects a result buffer
//! to decide which shaders ran and whether the record bytes survived the
//! round trip through the driver.  Everything that can be checked on the
//! host — the record layout arithmetic, the table bytes, the result words,
//! the memory-type selection — lives here; the driver calls themselves do
//! not.

pub mod layout;
pub mod memory;
pub mod results;
pub mod table;
pub mod words;
