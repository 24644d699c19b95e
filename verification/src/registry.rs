//! Ordered dispatch registry.
//!
//! A session owns one registry of handlers, each responsible for a
//! different message family.  Inbound payloads are offered to the
//! handlers in registration order and the first one that claims a
//! payload is the only one that acts on it; a payload no handler claims
//! is dropped without any effect.  Handlers are registered once and
//! never removed.

use vstd::prelude::*;

use crate::queue::SenderHandle;

verus! {

/// Capability a message-family handler offers the session: it can be
/// handed the producer side of the outbound queue, and it can try to
/// claim an inbound payload.
///
/// `accepts` is the handler's claim predicate: `handle` returns exactly
/// that, and a handler that does not claim a payload must leave itself
/// untouched, so declining is free of side effects.  Claiming never
/// changes what the handler will claim later nor the sender it holds.
pub trait RpcCaller: Sized {
    /// Which payloads this handler claims.
    spec fn accepts(&self, bytes: Seq<u8>) -> bool;

    /// The producer capability currently bound to this handler.
    spec fn sender_spec(&self) -> Option<SenderHandle>;

    /// Binds the producer side of the outbound queue to this handler;
    /// called at registration and again on every reconnect, so a stale
    /// handle from a closed cycle is never kept.
    fn set_sender(&mut self, sender: SenderHandle)
        ensures
            final(self).sender_spec() == Some(sender),
            forall|b: Seq<u8>| final(self).accepts(b) == old(self).accepts(b),
    ;

    /// Offers `bytes` to this handler.  Returns whether it claimed the
    /// payload; a decode failure inside the handler counts as not
    /// claiming, never as an error.
    fn handle(&mut self, bytes: &[u8]) -> (matched: bool)
        ensures
            matched == old(self).accepts(bytes@),
            !matched ==> *final(self) == *old(self),
            final(self).sender_spec() == old(self).sender_spec(),
            forall|b: Seq<u8>| final(self).accepts(b) == old(self).accepts(b),
    ;
}

/// Index of the first handler at or after `i` that claims `b`, or
/// `hs.len()` when none does.
pub open spec fn first_match_from<H: RpcCaller>(hs: Seq<H>, b: Seq<u8>, i: int) -> int
    decreases hs.len() - i,
{
    if i < 0 || i >= hs.len() {
        hs.len() as int
    } else if hs[i].accepts(b) {
        i
    } else {
        first_match_from(hs, b, i + 1)
    }
}

/// Index of the first handler that claims `b`, or `hs.len()` when none
/// does.
pub open spec fn first_match<H: RpcCaller>(hs: Seq<H>, b: Seq<u8>) -> int {
    first_match_from(hs, b, 0)
}

/// Whether any registered handler claims `b`.
pub open spec fn any_accepts<H: RpcCaller>(hs: Seq<H>, b: Seq<u8>) -> bool {
    exists|i: int| 0 <= i < hs.len() && hs[i].accepts(b)
}

proof fn lemma_first_match_from_bounds<H: RpcCaller>(hs: Seq<H>, b: Seq<u8>, i: int)
    requires
        0 <= i <= hs.len(),
    ensures
        i <= first_match_from(hs, b, i) <= hs.len(),
        first_match_from(hs, b, i) < hs.len() <==> exists|j: int|
            i <= j < hs.len() && hs[j].accepts(b),
        first_match_from(hs, b, i) < hs.len() ==> hs[first_match_from(hs, b, i)].accepts(b)
            && forall|j: int| i <= j < first_match_from(hs, b, i) ==> !hs[j].accepts(b),
    decreases hs.len() - i,
{
    if i < hs.len() && !hs[i].accepts(b) {
        lemma_first_match_from_bounds(hs, b, i + 1);
    }
}

/// `first_match` points at a claiming handler exactly when one exists,
/// and nothing before it claims the payload.
pub proof fn lemma_first_match_bounds<H: RpcCaller>(hs: Seq<H>, b: Seq<u8>)
    ensures
        0 <= first_match(hs, b) <= hs.len(),
        any_accepts(hs, b) <==> first_match(hs, b) < hs.len(),
        first_match(hs, b) < hs.len() ==> hs[first_match(hs, b)].accepts(b) && forall|j: int|
            0 <= j < first_match(hs, b) ==> !hs[j].accepts(b),
{
    lemma_first_match_from_bounds(hs, b, 0);
}

proof fn lemma_first_match_found<H: RpcCaller>(hs: Seq<H>, b: Seq<u8>, k: int, i: int)
    requires
        0 <= k <= i < hs.len(),
        forall|j: int| k <= j < i ==> !hs[j].accepts(b),
        hs[i].accepts(b),
    ensures
        first_match_from(hs, b, k) == i,
    decreases i - k,
{
    if k < i {
        lemma_first_match_found(hs, b, k + 1, i);
    }
}

/// Ordered collection of a session's handlers.
pub struct DispatchRegistry<H: RpcCaller> {
    pub handlers: Vec<H>,
}

impl<H: RpcCaller> DispatchRegistry<H> {
    /// An empty registry.
    pub fn new() -> (r: DispatchRegistry<H>)
        ensures
            r.handlers@ == Seq::<H>::empty(),
    {
        let r = DispatchRegistry { handlers: Vec::new() };
        proof {
            assert(r.handlers@ =~= Seq::<H>::empty());
        }
        r
    }

    /// Appends a handler; registration order is dispatch priority and is
    /// never reordered.
    pub fn register(&mut self, handler: H)
        ensures
            final(self).handlers@ == old(self).handlers@.push(handler),
    {
        self.handlers.push(handler);
    }

    /// Routes one inbound payload: offers it to the handlers in
    /// registration order, stopping at the first that claims it.
    ///
    /// First-match-wins: at most the first claiming handler changes, and
    /// every other handler — in particular every later one, even if it
    /// would also have claimed the payload — is left exactly as it was.
    /// When no handler claims the payload nothing at all changes: the
    /// payload is dropped and that is not an error.
    pub fn route(&mut self, bytes: &[u8]) -> (matched: bool)
        ensures
            final(self).handlers@.len() == old(self).handlers@.len(),
            matched == any_accepts(old(self).handlers@, bytes@),
            forall|j: int|
                0 <= j < old(self).handlers@.len() && j != first_match(
                    old(self).handlers@,
                    bytes@,
                ) ==> final(self).handlers@[j] == old(self).handlers@[j],
            !matched ==> final(self).handlers@ == old(self).handlers@,
            // routing never changes what the registry will claim later
            forall|j: int, p: Seq<u8>|
                0 <= j < old(self).handlers@.len() ==> final(self).handlers@[j].accepts(p) == old(
                    self,
                ).handlers@[j].accepts(p),
            matched ==> ({
                let k = first_match(old(self).handlers@, bytes@);
                &&& 0 <= k < old(self).handlers@.len()
                &&& old(self).handlers@[k].accepts(bytes@)
                &&& forall|j: int| 0 <= j < k ==> !old(self).handlers@[j].accepts(bytes@)
                &&& forall|b: Seq<u8>|
                    final(self).handlers@[k].accepts(b) == old(self).handlers@[k].accepts(b)
                &&& final(self).handlers@[k].sender_spec() == old(self).handlers@[k].sender_spec()
            }),
    {
        let n = self.handlers.len();
        let mut i: usize = 0;
        while i < n
            invariant
                n == self.handlers@.len(),
                i <= n,
                self.handlers@ == old(self).handlers@,
                forall|j: int| 0 <= j < i ==> !old(self).handlers@[j].accepts(bytes@),
            decreases n - i,
        {
            let h = &mut self.handlers[i];
            let matched = h.handle(bytes);
            if matched {
                proof {
                    lemma_first_match_found(old(self).handlers@, bytes@, 0, i as int);
                }
                return true;
            }
            proof {
                assert(self.handlers@ =~= old(self).handlers@);
            }
            i = i + 1;
        }
        false
    }

    /// Number of registered handlers.
    pub fn len(&self) -> (n: usize)
        ensures
            n == self.handlers@.len(),
    {
        self.handlers.len()
    }
}

} // verus!
