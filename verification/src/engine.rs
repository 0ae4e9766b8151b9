use vstd::prelude::*;
use std::rc::Rc;
use crate::config::Config;

verus! {

/// The engine is a single configuration of the virtual machine.
///
/// An engine is shared, by reference count, among the modules and memories
/// built from it, and is never mutated after construction. Two engines built
/// from equal configurations are still distinct: an `Instance` admits a
/// module and a memory only when their engine handles share one allocation.
pub struct Engine {
    config: Config,
}

impl View for Engine {
    type V = Config;

    closed spec fn view(&self) -> Config {
        self.config
    }
}

impl Engine {
    /// Constructs a new `Engine` with the given configuration.
    pub fn new(config: Config) -> (r: Rc<Engine>)
        ensures
            r@ == config,
    {
        Rc::new(Engine { config })
    }

    /// Returns a reference to the configuration of the engine.
    pub fn config(&self) -> (r: &Config)
        ensures
            *r == self@,
    {
        &self.config
    }
}

/// Relies on `Rc::ptr_eq`: it returns true exactly when the two handles
/// share one allocation. Allocation identity is outside the specification
/// model, so the contract records only what holds of either outcome: handles
/// to one allocation hold one engine value.
#[verifier::external_body]
pub(crate) fn same_engine(a: &Rc<Engine>, b: &Rc<Engine>) -> (r: bool)
    ensures
        r ==> a == b,
{
    Rc::ptr_eq(a, b)
}

} // verus!
