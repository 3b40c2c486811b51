//! The backend-independent interfaces: what a virtual machine, a proof,
//! a guest program and a guest compiler look like to the rest of the
//! toolkit.  Concrete backends implement these against their vendor SDKs
//! in the unverified host glue.

use vstd::prelude::*;

verus! {

/// Methods every virtual machine exposes regardless of backend.
pub trait ZkvmMethods {
    /// The backend's name, as reported to diagnostics and logs.
    fn name(&self) -> &'static str;
}

/// A proof produced by some backend.
pub trait Proof {}

/// A report describing one guest execution.
pub trait ExecutionReport {}

/// A zero-knowledge virtual machine backend.
pub trait Zkvm: ZkvmMethods {
    type Proof: Proof;

    type ExecutionReport: ExecutionReport;
}

/// A guest program compiled for the backend `T`.
pub trait GuestProgram<T: Zkvm> {
    type Input;

    type Output;

    /// Runs the guest without proving, returning its output and an
    /// execution report.
    fn execute(&self, zkvm: &T, input: Self::Input) -> Result<
        (Self::Output, T::ExecutionReport),
        (),
    >;

    /// Runs the guest and produces a proof of the execution.
    fn prove(&self, zkvm: &T, input: Self::Input) -> Result<
        (Self::Output, T::Proof, T::ExecutionReport),
        (),
    >;

    /// Checks a proof against this program.
    fn verify(&self, zkvm: &T, proof: &T::Proof) -> bool;
}

/// Builds the guest program for the backend `T`.
pub trait GuestProgramBuilder<T: Zkvm> {
    type Program: GuestProgram<T>;

    fn init() -> Self::Program;
}

/// What compiling a guest crate for one backend hands back: the code
/// fragments that the build step stitches into the generated dispatch
/// source.
pub struct CompilationResult {
    pub vm_name: String,
    /// Fully qualified zkvm name.
    pub vm_full_name: String,
    /// Fully qualified program struct name.
    pub program_name: String,
    pub program_impl: String,
}

/// Compiles a guest crate for one backend.
pub trait Compiler {
    /// Whether this compiler may be invoked at all.  Backends are; the
    /// stub is not.
    open spec fn compilable(&self) -> bool {
        true
    }

    fn compile(&self, crate_path: &str, target_path: &str) -> Result<CompilationResult, ()>
        requires
            self.compilable(),
    ;
}

/// A compiler that must never run: it stands in on targets where the
/// guest is the running program and nothing is compiled.
pub struct StubCompiler;

impl Compiler for StubCompiler {
    open spec fn compilable(&self) -> bool {
        false
    }

    fn compile(&self, _crate_path: &str, _target_path: &str) -> Result<CompilationResult, ()> {
        Err(())
    }
}

} // verus!
