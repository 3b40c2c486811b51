//! Build-time options: which backend compilers a guest build runs.
//!
//! The build itself - compiling each guest crate and writing the
//! generated dispatch source - reads the build environment and the file
//! system, so it happens in the unverified host glue.  The options
//! collected here say exactly which compilers it will run, in order.

use vstd::prelude::*;

use crate::interface::Compiler;

verus! {

/// The ordered collection of backend compilers a build should run.
pub struct BuildOptions<C: Compiler> {
    compilers: Vec<C>,
}

impl<C: Compiler> View for BuildOptions<C> {
    type V = Seq<C>;

    closed spec fn view(&self) -> Seq<C> {
        self.compilers@
    }
}

impl<C: Compiler> BuildOptions<C> {
    /// No compilers installed yet.
    pub fn new() -> (r: Self)
        ensures
            r@ == Seq::<C>::empty(),
    {
        BuildOptions { compilers: Vec::new() }
    }

    /// Installs one more compiler; the build runs them in insertion
    /// order.
    pub fn add(self, compiler: C) -> (r: Self)
        ensures
            r@ == self@.push(compiler),
    {
        let mut compilers = self.compilers;
        compilers.push(compiler);
        BuildOptions { compilers }
    }

    /// How many compilers are installed.
    pub fn len(&self) -> (r: usize)
        ensures
            r == self@.len(),
    {
        self.compilers.len()
    }
}

/// Fresh build options with no compilers installed.
pub fn new<C: Compiler>() -> (r: BuildOptions<C>)
    ensures
        r@ == Seq::<C>::empty(),
{
    BuildOptions::new()
}

/// Options for the backend-driven build path that compiles the guest
/// with the risc0 toolchain alone.
pub struct Risc0BuildOptions {}

impl Risc0BuildOptions {
    pub fn new() -> (r: Self) {
        Self {  }
    }
}

} // verus!
