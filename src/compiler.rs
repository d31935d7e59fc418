use vstd::prelude::*;

verus! {

/// What wasmparser, with its default features, finds wrong with `b` as a
/// WebAssembly module or component: `None` where nothing, else the message of
/// the first error.
pub uninterp spec fn validation_error_of(b: Seq<u8>) -> Option<Seq<char>>;

/// Whether wasmparser accepts `b` as a module.
pub open spec fn is_valid_module(b: Seq<u8>) -> bool {
    validation_error_of(b) is None
}

/// Relies on `wasmparser::validate`: it accepts or rejects the bytes alone,
/// with a message that depends on them alone, and rejects input shorter than
/// the eight-byte header, or whose first four bytes are not the magic `\0asm`.
#[verifier::external_body]
fn check_module(b: &[u8]) -> (r: Result<(), String>)
    ensures
        (r is Ok) == (validation_error_of(b@) is None),
        r matches Err(m) ==> validation_error_of(b@) == Some(m@),
        b@.len() < 8 ==> r is Err,
        b@.len() >= 4 && b@.subrange(0, 4) != seq![0u8, 0x61u8, 0x73u8, 0x6du8] ==> r is Err,
{
    match wasmparser::validate(b) {
        Ok(_) => Ok(()),
        Err(e) => Err(e.message().to_string()),
    }
}

/// Why a module could not be compiled.
#[derive(Debug)]
pub enum CompileError {
    /// The bytes are not a valid module; the message says why.
    ValidationError { msg: String },
}

/// Checks that `bytes` hold a valid WebAssembly module; where they do not,
/// the error carries wasmparser's message.
pub fn validate(bytes: &[u8]) -> (r: Result<(), CompileError>)
    ensures
        (r is Ok) == is_valid_module(bytes@),
        r matches Err(CompileError::ValidationError { msg }) ==> validation_error_of(bytes@) == Some(msg@),
        bytes@.len() < 8 ==> r is Err,
{
    match check_module(bytes) {
        Ok(()) => Ok(()),
        Err(msg) => Err(CompileError::ValidationError { msg }),
    }
}

/// The compiler backend that turns guest modules into native code.
pub struct LLVMCompiler {
    _private: (),
}

impl LLVMCompiler {
    pub fn new() -> (r: Self) {
        LLVMCompiler { _private: () }
    }

    /// Validates `wasm` before it is compiled.
    pub fn check(&self, wasm: &[u8]) -> (r: Result<(), CompileError>)
        ensures
            (r is Ok) == is_valid_module(wasm@),
    {
        validate(wasm)
    }
}

} // verus!
