//! The registry behind `__cxa_atexit`: a fixed number of exit handlers,
//! each kept with its argument and the object it belongs to. Handlers are
//! recorded, never run: the target has no process exit.
use vstd::prelude::*;

verus! {

/// How many handlers the registry holds.
pub const MAX_ATEXIT: usize = 32;

/// A recorded handler: the addresses of the function, of its argument and
/// of the shared object it belongs to.
#[derive(Debug, Clone, Copy, PartialEq, Eq, Structural)]
pub struct AtexitEntry {
    /// The address of the handler.
    pub func: usize,
    /// The argument that the handler is to be called with.
    pub arg: usize,
    /// The shared object that registered the handler.
    pub dso: usize,
}

/// The recorded handlers, in the order of registration.
pub struct AtexitRegistry {
    entries: Vec<AtexitEntry>,
}

impl View for AtexitRegistry {
    type V = Seq<AtexitEntry>;

    closed spec fn view(&self) -> Seq<AtexitEntry> {
        self.entries@
    }
}

impl AtexitRegistry {
    /// The registry never holds more than [`MAX_ATEXIT`] handlers.
    #[verifier::type_invariant]
    spec fn within_capacity(self) -> bool {
        self.entries@.len() <= MAX_ATEXIT
    }

    /// An empty registry.
    pub fn new() -> (r: Self)
        ensures
            r@ == Seq::<AtexitEntry>::empty(),
    {
        AtexitRegistry { entries: Vec::new() }
    }

    /// The recorded handlers.
    pub fn entries(&self) -> (r: &[AtexitEntry])
        ensures
            r@ == self@,
            r@.len() <= MAX_ATEXIT,
    {
        proof {
            use_type_invariant(self);
        }
        self.entries.as_slice()
    }
}

/// Records `func` with `arg` and `dso`: `0` when there was room for it,
/// `-1`, with the registry unchanged, when [`MAX_ATEXIT`] handlers are
/// recorded already.
pub fn __cxa_atexit(registry: &mut AtexitRegistry, func: usize, arg: usize, dso: usize) -> (r: i32)
    ensures
        old(registry)@.len() < MAX_ATEXIT ==> r == 0 && final(registry)@ == old(registry)@.push(
            AtexitEntry { func, arg, dso },
        ),
        old(registry)@.len() >= MAX_ATEXIT ==> r == -1 && final(registry)@ == old(registry)@,
        final(registry)@.len() <= MAX_ATEXIT,
{
    proof {
        use_type_invariant(&*registry);
    }
    if registry.entries.len() >= MAX_ATEXIT {
        return -1;
    }
    let mut entries: Vec<AtexitEntry> = Vec::new();
    std::mem::swap(&mut entries, &mut registry.entries);
    entries.push(AtexitEntry { func, arg, dso });
    registry.entries = entries;
    0
}

} // verus!
