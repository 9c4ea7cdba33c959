//! Artifacts, emission modes, and the error taxonomy of the pipeline.

use vstd::prelude::*;

verus! {

/// The numeric optimization level handed to the JIT backend.
///
/// This is a fixed, moderate code-generation level; it is distinct from the
/// `optimized` boolean that governs which pipeline passes run.
pub const JIT_OPT_LEVEL: u32 = 2;

/// The two runtime shared objects an executable unit is linked against:
/// exactly these two, never more or fewer.
#[derive(Debug, Clone, PartialEq, Eq)]
pub struct RuntimeLibraries {
    /// The shared runtime-utility library, resolved from the toolchain
    /// installation at a fixed relative path.
    pub runner_utils: String,
    /// The support library whose location is fixed when the embedding
    /// project is built.
    pub support: String,
}

/// How a verified module leaves the pipeline.
///
/// Emission mode is selected by the entry point, not by configuration inside
/// the pipeline: text emission serves ahead-of-time output, executable
/// emission serves the JIT path.
#[derive(Debug, Clone, PartialEq, Eq)]
pub enum EmissionMode {
    /// Serialize the verified module to UTF-8 text; `debug_info` adds
    /// source-location annotations to the otherwise canonical form.
    Text { debug_info: bool },
    /// Construct a JIT-backed executable unit at `opt_level`, linked against
    /// exactly the two runtime libraries.
    Executable { opt_level: u32, libraries: RuntimeLibraries },
}

/// The error taxonomy of the pipeline.
///
/// Every failure is surfaced to the caller exactly once; nothing is retried
/// and no partial artifact accompanies an error.
#[derive(Debug, Clone, PartialEq, Eq)]
pub enum CompileError {
    /// Module construction failed; the pipeline never ran.
    Construction(String),
    /// A transformation pass failed; no partially transformed module is
    /// surfaced.
    Pipeline(String),
    /// The verifier gate rejected the fully lowered module. Deliberately
    /// generic: the failure is not itemized per offending operation.
    Verification,
    /// Runtime-library resolution or JIT construction failed.
    Emission(String),
}

/// A finished artifact. An entry point returns exactly one of a full
/// artifact or a single error, never both and never a partial module.
#[derive(Debug, Clone, PartialEq, Eq)]
pub enum Artifact {
    /// The textual form of the verified module.
    Text(String),
    /// A JIT executable unit was constructed. The unit itself stays with the
    /// embedding runner, whose toolchain context must outlive it.
    Executable,
}

} // verus!
