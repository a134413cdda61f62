//! A verified model of the shader-compilation and program-linking core of a
//! small OpenGL renderer.
//!
//! The driver itself (an OpenGL implementation reached through FFI) cannot be
//! called from verified code, so the library is organised around plain values:
//! the functions here take the driver's replies (handles, status flags, raw
//! log bytes) as arguments and decide, with proved contracts, what the caller
//! gets back. A thin unverified shell performs the actual driver calls and
//! feeds the replies in, keeping a `ContextModel` beside the real context so
//! that handle ownership and release-exactly-once are checked facts.

pub mod context;
pub mod diagnostic;
pub mod program;
pub mod resources;
pub mod shader;

pub use program::Program;
pub use shader::Shader;
pub use shader::ShaderStageKind;
