use vstd::prelude::*;

use crate::property::{closures_of, collect_closures, count_with_closure, PropertyDescriptor};

verus! {

/// The registry that ties native closure data to the lifetime of engine
/// objects. Each batch registered gets a token; the host hands the token back
/// to the finalization callback, which drains that slot exactly once.
pub struct ClosureRegistry {
    slots: Vec<Option<Vec<usize>>>,
}

/// The registry after a batch was registered under `token`.
pub open spec fn after_register(
    pending: Map<nat, Seq<usize>>,
    token: nat,
    closures: Seq<usize>,
) -> Map<nat, Seq<usize>> {
    pending.insert(token, closures)
}

/// What finalizing `token` hands back: the batch registered under it, if
/// it is still pending.
pub open spec fn finalize_yield(pending: Map<nat, Seq<usize>>, token: nat) -> Option<Seq<usize>> {
    if pending.contains_key(token) {
        Some(pending[token])
    } else {
        None
    }
}

/// The registry after `token` was finalized.
pub open spec fn after_finalize(pending: Map<nat, Seq<usize>>, token: nat) -> Map<nat, Seq<usize>> {
    pending.remove(token)
}

impl ClosureRegistry {
    /// The batches still waiting for their finalization, by token.
    pub closed spec fn pending(&self) -> Map<nat, Seq<usize>> {
        Map::new(
            |t: nat| t < self.slots@.len() && self.slots@[t as int] is Some,
            |t: nat| self.slots@[t as int]->Some_0@,
        )
    }

    /// The token the next registration will get.
    pub closed spec fn next_token(&self) -> nat {
        self.slots@.len()
    }

    /// Every pending token was handed out already.
    pub open spec fn wf(&self) -> bool {
        forall|t: nat| self.pending().contains_key(t) ==> t < self.next_token()
    }

    pub fn new() -> (r: ClosureRegistry)
        ensures
            r.pending() == Map::<nat, Seq<usize>>::empty(),
            r.next_token() == 0,
            r.wf(),
    {
        let r = ClosureRegistry { slots: Vec::new() };
        assert(r.pending() =~= Map::<nat, Seq<usize>>::empty());
        r
    }

    proof fn lemma_wf(&self)
        ensures
            self.wf(),
    {
    }

    /// Takes ownership of a batch of closure data until its finalization.
    pub fn register(&mut self, closures: Vec<usize>) -> (token: usize)
        requires
            old(self).next_token() < usize::MAX,
        ensures
            token as nat == old(self).next_token(),
            !old(self).pending().contains_key(token as nat),
            final(self).pending() == after_register(old(self).pending(), token as nat, closures@),
            final(self).next_token() == old(self).next_token() + 1,
            final(self).wf(),
    {
        let token = self.slots.len();
        self.slots.push(Some(closures));
        assert(self.pending() =~= old(self).pending().insert(token as nat, closures@));
        proof {
            self.lemma_wf();
        }
        token
    }

    /// Drains the batch registered under `token`: the first call hands it
    /// back for release, any later one hands back nothing.
    pub fn finalize(&mut self, token: usize) -> (r: Option<Vec<usize>>)
        ensures
            r is Some <==> old(self).pending().contains_key(token as nat),
            r is Some ==> finalize_yield(old(self).pending(), token as nat) == Some(r->Some_0@),
            r is None ==> finalize_yield(old(self).pending(), token as nat) is None,
            final(self).pending() == after_finalize(old(self).pending(), token as nat),
            final(self).next_token() == old(self).next_token(),
            final(self).wf(),
    {
        if token < self.slots.len() {
            let mut taken: Option<Vec<usize>> = None;
            self.slots.set_and_swap(token, &mut taken);
            assert(self.pending() =~= old(self).pending().remove(token as nat));
            proof {
                self.lemma_wf();
            }
            taken
        } else {
            assert(self.pending() =~= old(self).pending().remove(token as nat));
            None
        }
    }

    /// Whether another batch can be registered: tokens are not exhausted.
    pub fn can_register(&self) -> (r: bool)
        ensures
            r == (self.next_token() < usize::MAX),
    {
        self.slots.len() < usize::MAX
    }

    /// Whether the batch under `token` still waits for finalization.
    pub fn is_pending(&self, token: usize) -> (r: bool)
        ensures
            r == self.pending().contains_key(token as nat),
    {
        token < self.slots.len() && self.slots[token].is_some()
    }
}

/// What `define_properties` hands to the host: the token under which the
/// batch's closures wait for the object's finalization, and how many there
/// are.
#[derive(Clone, Copy, Debug, PartialEq, Eq, Structural)]
pub struct DefinePlan {
    pub token: usize,
    pub closure_count: usize,
}

/// The first part of defining a batch of properties: gathers the closure
/// data of the descriptors that carry one and registers it, to be released
/// when the target object is finalized. The host is then asked to attach the
/// finalizer with the plan's token and to define the properties; if either
/// call fails the batch stays pending, a bounded leak.
pub fn plan_define_properties(registry: &mut ClosureRegistry, ds: &Vec<PropertyDescriptor>) -> (r:
    DefinePlan)
    requires
        old(registry).next_token() < usize::MAX,
    ensures
        r.token as nat == old(registry).next_token(),
        r.closure_count as nat == count_with_closure(ds@),
        final(registry).pending() == after_register(
            old(registry).pending(),
            r.token as nat,
            closures_of(ds@),
        ),
        final(registry).next_token() == old(registry).next_token() + 1,
        final(registry).wf(),
{
    let closures = collect_closures(ds);
    let count = closures.len();
    let token = registry.register(closures);
    DefinePlan { token, closure_count: count }
}

} // verus!
