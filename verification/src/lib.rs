//! Orchestration of a Sierra-to-MLIR compilation pipeline.
//!
//! The library models the part of the compiler that is worth getting exactly
//! right: the ordered pass pipeline that lowers a freshly built module down to
//! the LLVM dialect, the verifier gate that decides whether an artifact may be
//! emitted at all, and the facade decisions that drive one compilation from
//! module construction to a textual dump or a JIT executable unit.
//!
//! The MLIR toolchain itself (pass execution, structural verification,
//! serialization, JIT construction) and the Sierra-to-MLIR module builder are
//! external collaborators: an embedding runner performs each [`driver::Action`]
//! this library decides on and reports the outcome back as a
//! [`driver::Event`].

pub mod driver;
pub mod emit;
pub mod passes;
