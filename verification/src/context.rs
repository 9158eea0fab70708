//! The nestable runtime context: a stack of runtime flavors with scoped
//! registration, innermost-wins lookup, and strict LIFO release.
use vstd::prelude::*;

use crate::errors::SandboxError;

verus! {

/// The kind of backing runtime currently registered: a plain local runtime,
/// or a sandboxed node instance bound to a port.
#[derive(Clone, Copy, Debug, PartialEq, Eq, Structural)]
pub enum RuntimeFlavor {
    Local,
    Sandbox(u16),
}

/// The handle returned by [`RuntimeContext::enter`]; releasing it pops
/// exactly the entry it registered.
#[derive(Clone, Copy, Debug)]
pub struct Registration {
    /// The depth of the stack just before this registration was pushed;
    /// the registration is the innermost one exactly when the stack is
    /// one entry deeper than this.
    pub depth: usize,
}

/// What `lookup` answers on a given stack: the innermost entry, if any.
pub open spec fn spec_lookup(entries: Seq<RuntimeFlavor>) -> Option<RuntimeFlavor> {
    if entries.len() == 0 {
        None
    } else {
        Some(entries.last())
    }
}

/// An explicit, nestable registry of "which runtime flavor is active".
/// It is a value threaded through the callers rather than a process-wide
/// global, so concurrent test executions each own their own stack.
pub struct RuntimeContext {
    entries: Vec<RuntimeFlavor>,
}

impl RuntimeContext {
    /// The stack as a sequence, outermost entry first.
    pub closed spec fn view(&self) -> Seq<RuntimeFlavor> {
        self.entries@
    }

    /// An empty context: nothing registered, `lookup` answers `None`.
    pub fn new() -> (r: RuntimeContext)
        ensures
            r@ == Seq::<RuntimeFlavor>::empty(),
    {
        RuntimeContext { entries: Vec::new() }
    }

    /// Registers `flavor` as the new innermost entry and returns the handle
    /// whose release pops exactly this entry.
    pub fn enter(&mut self, flavor: RuntimeFlavor) -> (r: Registration)
        ensures
            final(self)@ == old(self)@.push(flavor),
            r.depth == old(self)@.len(),
    {
        let r = Registration { depth: self.entries.len() };
        self.entries.push(flavor);
        r
    }

    /// Pops the entry that `registration` registered, provided it is the
    /// innermost one. Releasing any other entry is a nesting-discipline
    /// violation: it fails loudly and leaves the stack unchanged.
    pub fn release(&mut self, registration: Registration) -> (r: Result<(), SandboxError>)
        ensures
            registration.depth + 1 == old(self)@.len() ==> r == Ok::<(), SandboxError>(())
                && final(self)@ == old(self)@.drop_last(),
            registration.depth + 1 != old(self)@.len() ==> r == Err::<(), SandboxError>(
                SandboxError::ContextNestingViolation,
            ) && final(self)@ == old(self)@,
    {
        if self.entries.len() > 0 && registration.depth == self.entries.len() - 1 {
            let popped = self.entries.pop();
            proof {
                assert(self@ =~= old(self)@.drop_last());
            }
            Ok(())
        } else {
            Err(SandboxError::ContextNestingViolation)
        }
    }

    /// The innermost registered flavor, or `None` when nothing is registered.
    pub fn lookup(&self) -> (r: Option<RuntimeFlavor>)
        ensures
            r == spec_lookup(self@),
    {
        if self.entries.len() == 0 {
            None
        } else {
            Some(self.entries[self.entries.len() - 1])
        }
    }
}

/// Entering a flavor and immediately releasing that registration restores the
/// stack, and with it the answer of `lookup`, to its pre-enter value.
pub proof fn lemma_enter_release_restores_lookup(entries: Seq<RuntimeFlavor>, flavor: RuntimeFlavor)
    ensures
        entries.push(flavor).drop_last() == entries,
        spec_lookup(entries.push(flavor).drop_last()) == spec_lookup(entries),
{
    assert(entries.push(flavor).drop_last() =~= entries);
}

/// Nested registrations released in reverse order: after entering `f1` then
/// `f2`, lookup answers `f2`; once `f2` is released, lookup answers `f1`;
/// once `f1` is released as well, lookup answers whatever it answered before
/// either was entered.
pub proof fn lemma_nested_enter_release(
    entries: Seq<RuntimeFlavor>,
    f1: RuntimeFlavor,
    f2: RuntimeFlavor,
)
    ensures
        spec_lookup(entries.push(f1).push(f2)) == Some(f2),
        spec_lookup(entries.push(f1).push(f2).drop_last()) == Some(f1),
        entries.push(f1).push(f2).drop_last().drop_last() == entries,
        spec_lookup(entries.push(f1).push(f2).drop_last().drop_last()) == spec_lookup(entries),
{
    assert(entries.push(f1).push(f2).drop_last() =~= entries.push(f1));
    assert(entries.push(f1).drop_last() =~= entries);
}

} // verus!
