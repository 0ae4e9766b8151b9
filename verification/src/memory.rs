use vstd::prelude::*;
use std::rc::Rc;
use crate::config::Config;
use crate::engine::Engine;

verus! {

/// The memory of an instance: an owned, zero-initialised byte buffer sized
/// by the engine's configuration.
pub struct Memory {
    engine: Rc<Engine>,
    bytes: Vec<u8>,
}

/// The mathematical value of a `Memory`: the configuration it was sized by
/// and the bytes it holds.
pub struct MemoryView {
    pub config: Config,
    pub bytes: Seq<u8>,
}

impl View for Memory {
    type V = MemoryView;

    closed spec fn view(&self) -> MemoryView {
        MemoryView { config: self.engine@, bytes: self.bytes@ }
    }
}

/// Builds a vector of `n` zero bytes.
fn zero_vec(n: usize) -> (r: Vec<u8>)
    ensures
        r@.len() == n,
        forall|i: int| 0 <= i < n ==> r@[i] == 0u8,
{
    let mut v: Vec<u8> = Vec::new();
    let mut k: usize = 0;
    while k < n
        invariant
            k <= n,
            v@.len() == k,
            forall|i: int| 0 <= i < k ==> v@[i] == 0u8,
        decreases n - k,
    {
        v.push(0u8);
        k = k + 1;
    }
    v
}

impl Memory {
    /// The engine handle the memory was built from.
    pub(crate) fn engine_rc(&self) -> (r: &Rc<Engine>)
        ensures
            r@ == self@.config,
    {
        &self.engine
    }

    /// Constructs a new `Memory` with the given engine. The buffer holds
    /// exactly `max_instance_memory` bytes, all zero.
    pub fn new(engine: Rc<Engine>) -> (r: Box<Memory>)
        ensures
            r@.config == engine@,
            r@.bytes.len() == engine@.max_instance_memory,
            forall|i: int| 0 <= i < r@.bytes.len() ==> r@.bytes[i] == 0u8,
    {
        let n = engine.config().max_instance_memory;
        let bytes = zero_vec(n as usize);
        Box::new(Memory { engine, bytes })
    }
}

} // verus!
