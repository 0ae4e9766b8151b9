use vstd::prelude::*;
use crate::engine::same_engine;
use crate::error::Error;
use crate::memory::{Memory, MemoryView};
use crate::module::{Module, ModuleView};

verus! {

/// An instance pairs one module with one memory, both produced from the
/// same engine allocation, and is the unit that dispatches calls into the
/// module's code arena.
pub struct Instance {
    module: Box<Module>,
    memory: Box<Memory>,
}

/// The mathematical value of an `Instance`: the values of the module and
/// the memory it owns.
pub struct InstanceView {
    pub module: ModuleView,
    pub memory: MemoryView,
}

impl View for Instance {
    type V = InstanceView;

    closed spec fn view(&self) -> InstanceView {
        InstanceView { module: self.module@, memory: self.memory@ }
    }
}

impl Instance {
    /// The admission rule for combining a module and a memory, given
    /// whether their engine handles share one allocation: with one engine
    /// the instance is built from exactly the given parts, with two it is
    /// refused with `InvalidEngine` — never anything else.
    pub fn assemble(module: Box<Module>, memory: Box<Memory>, same: bool) -> (r: Result<
        Instance,
        Error,
    >)
        ensures
            same ==> (r matches Ok(i) && i@.module == module@ && i@.memory == memory@),
            !same ==> r == Err::<Instance, Error>(Error::InvalidEngine),
    {
        if !same {
            return Err(Error::InvalidEngine);
        }
        Ok(Instance { module, memory })
    }

    /// Constructs a new `Instance` with the given module and memory.
    ///
    /// The module and memory are admitted exactly when their engine handles
    /// share one allocation; engines of equal configuration but distinct
    /// allocation are refused with `InvalidEngine`.
    pub fn new(module: Box<Module>, memory: Box<Memory>) -> (r: Result<Instance, Error>)
        ensures
            r matches Ok(i) ==> i@.module == module@ && i@.memory == memory@,
            r matches Err(e) ==> e == Error::InvalidEngine,
    {
        let same = same_engine(module.engine_rc(), memory.engine_rc());
        Instance::assemble(module, memory, same)
    }

    /// Decomposes the instance back into its module and memory.
    pub fn decompose(self) -> (r: (Box<Module>, Box<Memory>))
        ensures
            r.0@ == self@.module,
            r.1@ == self@.memory,
    {
        (self.module, self.memory)
    }
}

} // verus!
