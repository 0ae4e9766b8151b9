use vstd::prelude::*;
use vstd::string::StringExecFns;

verus! {

/// Error type for virtual machine operations.
#[derive(Debug, PartialEq, Eq, Clone, Copy, Structural)]
pub enum Error {
    /// The instruction cache could not be invalidated after installing code.
    ClearCacheFailed,
    /// The code handed to `set_native_code` exceeds the configured ceiling.
    InvalidCodeSize,
    /// A module and a memory from different engine allocations were combined.
    InvalidEngine,
    /// An instruction that is not valid or not supported was encountered.
    InvalidInstruction,
    /// The code arena mapping could not be obtained.
    MemoryAllocationFailed,
    /// A permission transition on the code arena failed.
    MemoryProtectionFailed,
    /// The machine ran out of gas.
    OutOfGas,
}

/// The short human-readable description of each error.
pub open spec fn spec_description(e: Error) -> Seq<char> {
    match e {
        Error::ClearCacheFailed => "clear cache failed"@,
        Error::InvalidCodeSize => "invalid code size"@,
        Error::InvalidEngine => "invalid engine"@,
        Error::InvalidInstruction => "invalid or unsupported instruction"@,
        Error::MemoryAllocationFailed => "memory allocation failed"@,
        Error::MemoryProtectionFailed => "memory protection failed"@,
        Error::OutOfGas => "out of gas"@,
    }
}

impl Error {
    /// A short human-readable description of the error.
    pub fn description(&self) -> (r: String)
        ensures
            r@ == spec_description(*self),
    {
        match self {
            Error::ClearCacheFailed => String::from_str("clear cache failed"),
            Error::InvalidCodeSize => String::from_str("invalid code size"),
            Error::InvalidEngine => String::from_str("invalid engine"),
            Error::InvalidInstruction => String::from_str("invalid or unsupported instruction"),
            Error::MemoryAllocationFailed => String::from_str("memory allocation failed"),
            Error::MemoryProtectionFailed => String::from_str("memory protection failed"),
            Error::OutOfGas => String::from_str("out of gas"),
        }
    }
}

} // verus!
