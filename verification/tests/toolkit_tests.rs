use univm::build_options::{BuildOptions, Risc0BuildOptions, new};
use univm::interface::{Compiler, CompilationResult, StubCompiler};
use univm::io::{Io, RawIo};
use univm::platform::read;

struct CountingCompiler {
    label: u32,
}

impl Compiler for CountingCompiler {
    fn compile(&self, _crate_path: &str, _target_path: &str) -> Result<CompilationResult, ()> {
        Ok(CompilationResult {
            vm_name: format!("vm{}", self.label),
            vm_full_name: format!("backend::Vm{}", self.label),
            program_name: format!("Program{}", self.label),
            program_impl: String::new(),
        })
    }
}

#[test]
fn build_options_count_installed_compilers() {
    let options: BuildOptions<CountingCompiler> = new();
    assert_eq!(options.len(), 0);
    let options = options
        .add(CountingCompiler { label: 1 })
        .add(CountingCompiler { label: 2 });
    assert_eq!(options.len(), 2);
}

#[test]
fn build_options_start_empty() {
    let options: BuildOptions<StubCompiler> = BuildOptions::new();
    assert_eq!(options.len(), 0);
    let _risc0 = Risc0BuildOptions::new();
}

#[test]
fn raw_io_writes_no_bytes_and_accepts_anything() {
    let io = RawIo;
    let bytes = io.serialize(()).unwrap();
    assert!(bytes.is_empty());
    let value: () = io.deserialize(&[1, 2, 3]).unwrap();
    assert_eq!(value, ());
}

#[test]
fn read_decodes_platform_bytes() {
    let value: () = read(RawIo, &[9, 9]);
    assert_eq!(value, ());
}
