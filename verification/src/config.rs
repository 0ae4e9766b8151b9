use vstd::prelude::*;

verus! {

/// The multiplier for the maximum native code size over the guest code size.
///
/// One guest instruction may expand to several host instructions when it is
/// lowered; four host words per guest word is the worst-case budget the
/// arena is sized for.
pub const NATIVE_CODE_MULTIPLIER: usize = 4;

/// Configuration for the virtual machine.
///
/// A `Config` is an immutable value object. It bounds the guest memory a
/// `Memory` allocates and the guest code a `Module` accepts.
pub struct Config {
    /// The maximum amount of memory available to an instance, in bytes.
    pub max_instance_memory: u32,
    /// The maximum size of guest code, in bytes.
    pub max_code_size: usize,
}

impl Config {
    /// The derived ceiling on installed native code: `max_code_size` times
    /// the expansion budget.
    pub fn max_native_code_size(&self) -> (r: usize)
        requires
            self.max_code_size * NATIVE_CODE_MULTIPLIER <= usize::MAX,
        ensures
            r == self.max_code_size * NATIVE_CODE_MULTIPLIER,
    {
        self.max_code_size * NATIVE_CODE_MULTIPLIER
    }
}

} // verus!
