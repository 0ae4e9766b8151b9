use vstd::prelude::*;
use vstd::slice::slice_subrange;
use std::rc::Rc;
use crate::config::{Config, NATIVE_CODE_MULTIPLIER};
use crate::engine::Engine;
use crate::error::Error;

verus! {

/// Permission state of the code arena.
///
/// The arena is either writable or executable, never both at once: staged
/// transitions between the two states are the only permitted operations.
#[derive(Debug, Clone, Copy, PartialEq, Eq, Structural)]
pub enum ArenaProtection {
    /// Readable and writable: the state for staging new code.
    ReadWrite,
    /// Readable and executable: the state for dispatching into the code.
    ReadExec,
}

/// A module owns one code arena: a region sized once, at construction, to
/// the engine's native code ceiling, and filled by `set_native_code`.
pub struct Module {
    engine: Rc<Engine>,
    code: Vec<u8>,
    code_len: usize,
    protection: ArenaProtection,
}

/// The mathematical value of a `Module`: the configuration it was sized by,
/// the full arena contents, the length of valid installed code, and the
/// arena's permission state.
pub struct ModuleView {
    pub config: Config,
    pub code: Seq<u8>,
    pub code_len: nat,
    pub protection: ArenaProtection,
}

impl View for Module {
    type V = ModuleView;

    closed spec fn view(&self) -> ModuleView {
        ModuleView {
            config: self.engine@,
            code: self.code@,
            code_len: self.code_len as nat,
            protection: self.protection,
        }
    }
}

impl Module {
    /// Well-formedness of a module: the arena spans exactly the configured
    /// native code ceiling and the installed length never exceeds it.
    pub open spec fn wf(self) -> bool {
        &&& self@.config.max_code_size * NATIVE_CODE_MULTIPLIER <= usize::MAX
        &&& self@.code.len() == self@.config.max_code_size * NATIVE_CODE_MULTIPLIER
        &&& self@.code_len <= self@.code.len()
    }

    /// Constructs a new `Module` with the given engine. The arena holds
    /// `max_native_code_size` bytes, all zero, is writable, and carries no
    /// installed code yet.
    pub fn new(engine: Rc<Engine>) -> (r: Result<Box<Module>, Error>)
        requires
            engine@.max_code_size * NATIVE_CODE_MULTIPLIER <= usize::MAX,
        ensures
            r matches Ok(m) ==> {
                &&& m.wf()
                &&& m@.config == engine@
                &&& m@.code_len == 0
                &&& m@.protection == ArenaProtection::ReadWrite
                &&& forall|i: int| 0 <= i < m@.code.len() ==> m@.code[i] == 0u8
            },
            r is Ok,
    {
        let size = engine.config().max_native_code_size();
        let mut code: Vec<u8> = Vec::new();
        let mut k: usize = 0;
        while k < size
            invariant
                k <= size,
                code@.len() == k,
                forall|i: int| 0 <= i < k ==> code@[i] == 0u8,
            decreases size - k,
        {
            code.push(0u8);
            k = k + 1;
        }
        Ok(Box::new(Module {
            engine,
            code,
            code_len: 0,
            protection: ArenaProtection::ReadWrite,
        }))
    }

    /// The engine handle the module was built from.
    pub(crate) fn engine_rc(&self) -> (r: &Rc<Engine>)
        ensures
            r@ == self@.config,
    {
        &self.engine
    }

    /// Turns the arena writable, the first staging step of an install.
    fn stage_writable(&mut self)
        ensures
            final(self)@ == (ModuleView { protection: ArenaProtection::ReadWrite, ..old(self)@ }),
    {
        self.protection = ArenaProtection::ReadWrite;
    }

    /// Copies `code` to the front of the arena. Demands a writable arena:
    /// no write ever lands on an executable page.
    fn write_code(&mut self, code: &[u8])
        requires
            old(self).wf(),
            old(self)@.protection is ReadWrite,
            code@.len() <= old(self)@.code.len(),
        ensures
            final(self).wf(),
            final(self)@.config == old(self)@.config,
            final(self)@.protection == old(self)@.protection,
            final(self)@.code_len == code@.len(),
            final(self)@.code.len() == old(self)@.code.len(),
            forall|i: int| 0 <= i < code@.len() ==> final(self)@.code[i] == code@[i],
            forall|i: int|
                code@.len() <= i < old(self)@.code.len()
                    ==> final(self)@.code[i] == old(self)@.code[i],
    {
        let n = code.len();
        let mut k: usize = 0;
        while k < n
            invariant
                k <= n,
                n == code@.len(),
                n <= self.code@.len(),
                self.engine == old(self).engine,
                self.protection == old(self).protection,
                self.code_len == old(self).code_len,
                self.code@.len() == old(self).code@.len(),
                forall|i: int| 0 <= i < k ==> self.code@[i] == code@[i],
                forall|i: int| k <= i < self.code@.len() ==> self.code@[i] == old(self).code@[i],
            decreases n - k,
        {
            let b = *vstd::slice::slice_index_get(code, k);
            self.code[k] = b;
            k = k + 1;
        }
        self.code_len = n;
    }

    /// Turns the arena executable, the final staging step of an install.
    fn stage_executable(&mut self)
        ensures
            final(self)@ == (ModuleView { protection: ArenaProtection::ReadExec, ..old(self)@ }),
    {
        self.protection = ArenaProtection::ReadExec;
    }

    /// Installs native code into the module.
    ///
    /// Code longer than the configured ceiling is rejected with
    /// `InvalidCodeSize`, and the module is left unchanged. Otherwise the
    /// arena passes through the staged transitions — writable, write,
    /// executable — the code lands verbatim at offset zero, bytes beyond it
    /// keep their prior contents, and the installed length becomes the
    /// code's length.
    pub fn set_native_code(&mut self, code: &[u8]) -> (r: Result<(), Error>)
        requires
            old(self).wf(),
        ensures
            final(self).wf(),
            final(self)@.config == old(self)@.config,
            code@.len() > old(self)@.config.max_code_size * NATIVE_CODE_MULTIPLIER ==> {
                &&& r == Err::<(), Error>(Error::InvalidCodeSize)
                &&& final(self)@ == old(self)@
            },
            code@.len() <= old(self)@.config.max_code_size * NATIVE_CODE_MULTIPLIER ==> {
                &&& r == Ok::<(), Error>(())
                &&& final(self)@.code_len == code@.len()
                &&& final(self)@.protection == ArenaProtection::ReadExec
                &&& final(self)@.code.len() == old(self)@.code.len()
                &&& forall|i: int| 0 <= i < code@.len() ==> final(self)@.code[i] == code@[i]
                &&& forall|i: int|
                    code@.len() <= i < old(self)@.code.len()
                        ==> final(self)@.code[i] == old(self)@.code[i]
            },
    {
        if code.len() > self.engine.config().max_native_code_size() {
            return Err(Error::InvalidCodeSize);
        }
        self.stage_writable();
        self.write_code(code);
        self.stage_executable();
        Ok(())
    }

    /// Returns a read-only view of the installed native code: the first
    /// `code_len` bytes of the arena.
    pub fn native_code(&self) -> (r: &[u8])
        requires
            self.wf(),
        ensures
            r@ == self@.code.subrange(0, self@.code_len as int),
    {
        slice_subrange(self.code.as_slice(), 0, self.code_len)
    }
}

} // verus!
