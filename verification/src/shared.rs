//! Shared-stack manager: the sole owner of the single network stack,
//! multiplexed among several cooperatively polled protocol clients.
//!
//! The manager issues lightweight proxy handles. Every proxy routes to the
//! one shared stack, so an operation performed through any proxy is visible
//! through every other. Access through a proxy borrows the manager mutably
//! for the duration of exactly one operation, so two operations can never
//! interleave mid-operation: the non-reentrancy guard that the
//! single-threaded, cooperatively polled design demands is enforced here at
//! compile time instead of by a runtime check that fails loudly.
use vstd::prelude::*;

verus! {

/// A lightweight handle granting routed access to the singly-owned network
/// stack. Proxies are cheap and copyable; they do not own the stack, only a
/// relation to the manager, and any number may be outstanding at once.
#[derive(Copy, Clone, Debug)]
pub struct NetworkStackProxy {
    token: (),
}

/// The single owner of the network stack for the life of the process.
///
/// The caller constructs exactly one manager at startup and passes it, by
/// mutable borrow, to whichever component performs a stack operation; the
/// "exactly one" invariant is an explicit ownership handoff rather than a
/// hidden global.
pub struct NetworkManager<S> {
    stack: S,
}

impl<S> NetworkManager<S> {
    /// The stack instance held by the manager.
    pub closed spec fn stack_view(self) -> S {
        self.stack
    }

    /// What a holder of `proxy` observes when reaching the stack through the
    /// manager: always the one shared stack, whichever proxy is used.
    pub open spec fn view_through(self, proxy: NetworkStackProxy) -> S {
        self.stack_view()
    }

    /// Takes exclusive ownership of a single stack instance.
    pub fn new(stack: S) -> (m: Self)
        ensures
            m.stack_view() == stack,
    {
        NetworkManager { stack }
    }

    /// Issues a new proxy onto the shared stack. May be called any number of
    /// times; all proxies alias the same underlying stack, and issuing one
    /// changes nothing.
    pub fn acquire_stack(&self) -> (p: NetworkStackProxy) {
        NetworkStackProxy { token: () }
    }

    /// Reads the shared stack through a proxy. The result does not depend on
    /// which proxy is presented.
    pub fn stack<'a>(&'a self, proxy: &NetworkStackProxy) -> (r: &'a S)
        ensures
            *r == self.view_through(*proxy),
    {
        &self.stack
    }

    /// Grants one routed operation against the shared stack through a proxy.
    /// The mutable borrow of the manager lasts for exactly the one operation,
    /// so no operation from another proxy can interleave with it, and the
    /// result of the operation is what every other proxy observes afterward.
    pub fn stack_mut<'a>(&'a mut self, proxy: &NetworkStackProxy) -> (r: &'a mut S)
        ensures
            *r == old(self).view_through(*proxy),
            final(self).stack_view() == *final(r),
    {
        &mut self.stack
    }
}

/// Shared-state visibility: any two proxies observe the same stack. An
/// operation performed through one proxy is therefore seen through every
/// proxy obtained before or after it.
pub proof fn lemma_proxy_shared_view<S>(m: NetworkManager<S>, a: NetworkStackProxy, b: NetworkStackProxy)
    ensures
        m.view_through(a) == m.view_through(b),
{
}

} // verus!
