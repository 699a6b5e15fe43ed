//! A small GPU resource-management core: procedural mesh geometry, shader
//! stages and programs, typed uniform upload, driver diagnostics and context
//! metadata. Every operation is a function from plain values to the calls
//! that the caller issues on the graphics context.
pub mod error;
pub mod geometry;
pub mod gl;
pub mod logging;
pub mod metadata;
pub mod program;
pub mod shader;
pub mod table;
pub mod text;
pub mod torus;
