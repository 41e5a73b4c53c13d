//! Critical sections: scopes in which interrupts are masked.

use vstd::prelude::*;

verus! {

/// The interrupt mask of the core, with the depth of the critical sections
/// that are open. Interrupts are delivered only at depth zero.
pub struct InterruptMask {
    depth: usize,
}

/// The proof that interrupts are masked. It carries no information; it is
/// handed to the scope by reference and taken back when the scope ends.
pub struct CriticalSection {
    _private: (),
}

impl View for InterruptMask {
    type V = nat;

    closed spec fn view(&self) -> nat {
        self.depth as nat
    }
}

/// Whether interrupts are masked at nesting depth `depth`.
pub open spec fn masked_at(depth: nat) -> bool {
    depth > 0
}

/// The depth after `n` further scopes were entered.
pub open spec fn entered(depth: nat, n: nat) -> nat {
    depth + n
}

/// The depth after `n` scopes were released.
pub open spec fn released(depth: nat, n: nat) -> nat
    recommends
        n <= depth,
{
    (depth - n) as nat
}

impl InterruptMask {
    /// The mask of a core that runs with interrupts enabled.
    pub fn new() -> (mask: InterruptMask)
        ensures
            mask@ == 0,
    {
        InterruptMask { depth: 0 }
    }

    /// Whether interrupts are masked now.
    pub fn is_masked(&self) -> (masked: bool)
        ensures
            masked == masked_at(self@),
    {
        self.depth > 0
    }

    /// The number of critical sections that are open.
    pub fn depth(&self) -> (depth: usize)
        ensures
            depth == self@,
    {
        self.depth
    }

    /// Masks interrupts and opens a scope.
    pub fn enter(&mut self) -> (token: CriticalSection)
        requires
            old(self)@ < usize::MAX,
        ensures
            final(self)@ == entered(old(self)@, 1),
            masked_at(final(self)@),
    {
        self.depth = self.depth + 1;
        CriticalSection { _private: () }
    }

    /// Closes the scope that `token` stands for. Interrupts are delivered
    /// again only when the outermost scope is closed.
    pub fn exit(&mut self, token: CriticalSection)
        requires
            old(self)@ > 0,
        ensures
            final(self)@ == released(old(self)@, 1),
            masked_at(final(self)@) == (old(self)@ > 1),
    {
        self.depth = self.depth - 1;
    }
}

/// Runs `f` with interrupts masked and restores the mask as it was. The token
/// exists for the call alone.
pub fn critical_section<R, F: FnOnce(&CriticalSection) -> R>(mask: &mut InterruptMask, f: F) -> (result: R)
    requires
        old(mask)@ < usize::MAX,
        forall|token: &CriticalSection| call_requires(f, (token,)),
    ensures
        final(mask)@ == old(mask)@,
        exists|token: &CriticalSection| call_ensures(f, (token,), result),
{
    let token = mask.enter();
    let result = f(&token);
    mask.exit(token);
    result
}

/// While an outer scope is open, closing inner scopes never unmasks
/// interrupts: after `n` scopes were entered on top of an open one and `k` of
/// them released again, interrupts are still masked.
pub proof fn law_inner_release_keeps_mask(depth: nat, n: nat, k: nat)
    requires
        masked_at(depth),
        k <= n,
    ensures
        masked_at(released(entered(depth, n), k)),
{
}

/// Releasing every scope that was entered restores the mask as it was before
/// the first of them.
pub proof fn law_release_restores(depth: nat, n: nat)
    ensures
        released(entered(depth, n), n) == depth,
        masked_at(released(entered(depth, n), n)) == masked_at(depth),
{
}

} // verus!
