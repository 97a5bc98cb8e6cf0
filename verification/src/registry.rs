//! The two handler registries and the operations that change them.
//!
//! A context is plain data: whoever shares it between threads wraps it in a
//! lock and holds that lock for one operation at a time.

use std::collections::HashMap;
use vstd::prelude::*;

use crate::{CallHandle, CallbackId};

verus! {

/// What a dispatch context holds, as two finite maps.
#[verifier::ext_equal]
pub ghost struct Registries<P, O> {
    /// The reusable handler of each event kind that has one.
    pub persistent: Map<CallbackId, P>,
    /// The single-use handler of each call whose result is awaited.
    pub pending: Map<CallHandle, O>,
}

impl<P, O> Registries<P, O> {
    /// No handler of either sort.
    pub open spec fn empty() -> Self {
        Registries { persistent: Map::empty(), pending: Map::empty() }
    }

    /// The registries after `handler` was registered for `id`.
    pub open spec fn with_persistent(self, id: CallbackId, handler: P) -> Self {
        Registries { persistent: self.persistent.insert(id, handler), ..self }
    }

    /// The registries after the handler of `id`, if any, was removed.
    pub open spec fn without_persistent(self, id: CallbackId) -> Self {
        Registries { persistent: self.persistent.remove(id), ..self }
    }

    /// The registries after `handler` was attached to the call `handle`.
    pub open spec fn with_pending(self, handle: CallHandle, handler: O) -> Self {
        Registries { pending: self.pending.insert(handle, handler), ..self }
    }

    /// The registries after the handler of the call `handle`, if any, was
    /// taken out.
    pub open spec fn without_pending(self, handle: CallHandle) -> Self {
        Registries { pending: self.pending.remove(handle), ..self }
    }

    /// The handler that an event of kind `id` reaches.
    pub open spec fn persistent_for(self, id: CallbackId) -> Option<P> {
        if self.persistent.contains_key(id) {
            Some(self.persistent[id])
        } else {
            None
        }
    }

    /// The handler that the result of the call `handle` reaches.
    pub open spec fn pending_for(self, handle: CallHandle) -> Option<O> {
        if self.pending.contains_key(handle) {
            Some(self.pending[handle])
        } else {
            None
        }
    }
}

/// Owner of both registries. `P` is the type of a reusable handler, `O` that
/// of a single-use one; the context stores and returns them and never calls
/// them.
pub struct DispatchContext<P, O> {
    persistent: HashMap<CallbackId, P>,
    pending_results: HashMap<CallHandle, O>,
}

impl<P, O> View for DispatchContext<P, O> {
    type V = Registries<P, O>;

    closed spec fn view(&self) -> Registries<P, O> {
        Registries { persistent: self.persistent@, pending: self.pending_results@ }
    }
}

/// Token for one registration of a reusable handler. Releasing it cancels
/// the registration of its kind.
#[derive(Debug)]
pub struct CallbackHandle {
    id: CallbackId,
    released: bool,
}

impl<P, O> DispatchContext<P, O> {
    /// A context with nothing registered.
    pub fn new() -> (ctx: Self)
        ensures
            ctx@ == Registries::<P, O>::empty(),
    {
        DispatchContext { persistent: HashMap::new(), pending_results: HashMap::new() }
    }

    /// Both registries hold finitely many handlers.
    pub proof fn lemma_finite(&self)
        ensures
            self@.persistent.dom().finite(),
            self@.pending.dom().finite(),
    {
        broadcast use vstd::std_specs::hash::group_hash_axioms;

    }

    /// Registers `handler` for events of kind `id`, in place of any handler
    /// the kind had, and returns the token that cancels the registration.
    pub fn register_persistent(&mut self, id: CallbackId, handler: P) -> (token: CallbackHandle)
        ensures
            final(self)@ == old(self)@.with_persistent(id, handler),
            token.id() == id,
            token.is_active(),
    {
        self.persistent.insert(id, handler);
        CallbackHandle { id, released: false }
    }

    /// Attaches `handler` to the call `handle`, in place of any handler the
    /// call had.
    pub fn register_one_shot(&mut self, handle: CallHandle, handler: O)
        ensures
            final(self)@ == old(self)@.with_pending(handle, handler),
    {
        self.pending_results.insert(handle, handler);
    }

    /// Looks up the handler of kind `id` and leaves it registered.
    pub fn take_persistent(&self, id: CallbackId) -> (found: Option<&P>)
        ensures
            match found {
                Some(handler) => self@.persistent_for(id) == Some(*handler),
                None => self@.persistent_for(id) is None,
            },
    {
        self.persistent.get(&id)
    }

    /// Takes the handler of the call `handle` out of the registry.
    pub fn take_one_shot(&mut self, handle: CallHandle) -> (taken: Option<O>)
        ensures
            taken == old(self)@.pending_for(handle),
            final(self)@ == old(self)@.without_pending(handle),
    {
        self.pending_results.remove(&handle)
    }

    /// Removes the handler of kind `id`, if there is one.
    pub fn remove_persistent(&mut self, id: CallbackId)
        ensures
            final(self)@ == old(self)@.without_persistent(id),
    {
        self.persistent.remove(&id);
    }

    /// Tells whether a handler is registered for kind `id`.
    pub fn is_registered(&self, id: CallbackId) -> (yes: bool)
        ensures
            yes == self@.persistent.contains_key(id),
    {
        self.persistent.contains_key(&id)
    }

    /// Tells whether the call `handle` has a handler awaiting its result.
    pub fn is_pending(&self, handle: CallHandle) -> (yes: bool)
        ensures
            yes == self@.pending.contains_key(handle),
    {
        self.pending_results.contains_key(&handle)
    }

    /// Number of kinds that have a handler.
    pub fn persistent_len(&self) -> (n: usize)
        ensures
            n == self@.persistent.dom().len(),
    {
        self.persistent.len()
    }

    /// Number of calls whose result is awaited.
    pub fn pending_len(&self) -> (n: usize)
        ensures
            n == self@.pending.dom().len(),
    {
        self.pending_results.len()
    }
}

impl CallbackHandle {
    /// The kind this token governs.
    pub closed spec fn id(&self) -> CallbackId {
        self.id
    }

    /// The token has not been released yet.
    pub closed spec fn is_active(&self) -> bool {
        !self.released
    }

    /// Releases the token. The first release removes the handler of the
    /// token's kind from `ctx` if the context still exists; with `None`, or
    /// on a token already released, nothing changes.
    pub fn release<P, O>(&mut self, ctx: Option<&mut DispatchContext<P, O>>)
        ensures
            !final(self).is_active(),
            final(self).id() == old(self).id(),
            ctx matches Some(live) ==> final(live)@ == if old(self).is_active() {
                live@.without_persistent(old(self).id())
            } else {
                live@
            },
    {
        if !self.released {
            self.released = true;
            match ctx {
                Some(live) => {
                    live.remove_persistent(self.id);
                },
                None => {},
            }
        }
    }
}

/// The registries after every entry of `batch` was registered, first to
/// last.
pub open spec fn register_all<P, O>(regs: Registries<P, O>, batch: Seq<(CallbackId, P)>) -> Registries<
    P,
    O,
>
    decreases batch.len(),
{
    if batch.len() == 0 {
        regs
    } else {
        register_all(regs, batch.drop_last()).with_persistent(batch.last().0, batch.last().1)
    }
}

/// No kind occurs twice in `batch`.
pub open spec fn distinct_kinds<P>(batch: Seq<(CallbackId, P)>) -> bool {
    forall|i: int, j: int| 0 <= i < j < batch.len() ==> batch[i].0 != batch[j].0
}

/// Registering a second handler for a kind replaces the first: the
/// registries are what they would be had the first never been registered,
/// and the kind leads to the second handler alone.
pub proof fn lemma_last_registration_wins<P, O>(
    regs: Registries<P, O>,
    id: CallbackId,
    first: P,
    second: P,
)
    ensures
        regs.with_persistent(id, first).with_persistent(id, second) == regs.with_persistent(
            id,
            second,
        ),
        regs.with_persistent(id, first).with_persistent(id, second).persistent_for(id) == Some(
            second,
        ),
{
    assert(regs.with_persistent(id, first).with_persistent(id, second) =~= regs.with_persistent(
        id,
        second,
    ));
}

/// Attaching a second handler to a call that still awaits its result
/// replaces the first.
pub proof fn lemma_last_attachment_wins<P, O>(
    regs: Registries<P, O>,
    handle: CallHandle,
    first: O,
    second: O,
)
    ensures
        regs.with_pending(handle, first).with_pending(handle, second) == regs.with_pending(
            handle,
            second,
        ),
        regs.with_pending(handle, first).with_pending(handle, second).pending_for(handle) == Some(
            second,
        ),
{
    assert(regs.with_pending(handle, first).with_pending(handle, second) =~= regs.with_pending(
        handle,
        second,
    ));
}

/// Once the handler of a kind is removed the kind leads nowhere, and every
/// other kind and every pending call is as it was.
pub proof fn lemma_removal_cancels<P, O>(regs: Registries<P, O>, id: CallbackId)
    ensures
        regs.without_persistent(id).persistent_for(id) is None,
        forall|other: CallbackId|
            other != id ==> regs.without_persistent(id).persistent_for(other)
                == #[trigger] regs.persistent_for(other),
        regs.without_persistent(id).pending == regs.pending,
{
}

/// What a batch of registrations leaves behind: a kind of the batch leads
/// to the handler of its last entry, any other kind to what it led to
/// before, and the pending calls are untouched.
pub proof fn lemma_register_all<P, O>(regs: Registries<P, O>, batch: Seq<(CallbackId, P)>)
    ensures
        register_all(regs, batch).pending == regs.pending,
        forall|id: CallbackId| #[trigger]
            register_all(regs, batch).persistent.contains_key(id) <==> regs.persistent.contains_key(
                id,
            ) || exists|i: int| 0 <= i < batch.len() && batch[i].0 == id,
        forall|id: CallbackId|
            !(exists|i: int| 0 <= i < batch.len() && batch[i].0 == id) ==> #[trigger] register_all(
                regs,
                batch,
            ).persistent_for(id) == regs.persistent_for(id),
        forall|i: int|
            0 <= i < batch.len() && (forall|j: int| i < j < batch.len() ==> batch[j].0
                != batch[i].0) ==> register_all(regs, batch).persistent_for(#[trigger] batch[i].0)
                == Some(batch[i].1),
    decreases batch.len(),
{
    if batch.len() > 0 {
        let front = batch.drop_last();
        let before = register_all(regs, front);
        let after = register_all(regs, batch);
        lemma_register_all(regs, front);
        assert forall|id: CallbackId| #[trigger]
            after.persistent.contains_key(id) <==> regs.persistent.contains_key(id) || exists|
                i: int,
            |
                0 <= i < batch.len() && batch[i].0 == id by {
            if after.persistent.contains_key(id) && !regs.persistent.contains_key(id) {
                if id == batch.last().0 {
                    assert(batch[batch.len() - 1].0 == id);
                } else {
                    assert(before.persistent.contains_key(id));
                    let i = choose|i: int| 0 <= i < front.len() && front[i].0 == id;
                    assert(batch[i].0 == id);
                }
            }
            if exists|i: int| 0 <= i < batch.len() && batch[i].0 == id {
                let i = choose|i: int| 0 <= i < batch.len() && batch[i].0 == id;
                if i < front.len() {
                    assert(front[i].0 == id);
                    assert(before.persistent.contains_key(id));
                }
            }
        }
        assert forall|id: CallbackId|
            !(exists|i: int| 0 <= i < batch.len() && batch[i].0 == id) implies #[trigger] after.persistent_for(
            id,
        ) == regs.persistent_for(id) by {
            assert(batch[batch.len() - 1].0 != id);
            assert forall|i: int| 0 <= i < front.len() implies front[i].0 != id by {
                assert(batch[i].0 != id);
            }
            assert(before.persistent_for(id) == regs.persistent_for(id));
        }
        assert forall|i: int|
            0 <= i < batch.len() && (forall|j: int| i < j < batch.len() ==> batch[j].0
                != batch[i].0) implies after.persistent_for(#[trigger] batch[i].0) == Some(
            batch[i].1,
        ) by {
            if i < front.len() {
                assert(front[i] == batch[i]);
                assert forall|j: int| i < j < front.len() implies front[j].0 != front[i].0 by {
                    assert(front[j] == batch[j]);
                }
                assert(before.persistent_for(front[i].0) == Some(front[i].1));
                assert(batch[batch.len() - 1].0 != batch[i].0);
            }
        }
    }
}

/// Registrations for kinds that are all different, none of them registered
/// before, are all kept: each kind leads to its own handler, and the
/// registry grows by exactly the size of the batch.
pub proof fn lemma_distinct_registrations_all_kept<P, O>(
    regs: Registries<P, O>,
    batch: Seq<(CallbackId, P)>,
)
    requires
        distinct_kinds(batch),
        regs.persistent.dom().finite(),
        forall|i: int| 0 <= i < batch.len() ==> !regs.persistent.contains_key(#[trigger] batch[i].0),
    ensures
        forall|i: int|
            0 <= i < batch.len() ==> register_all(regs, batch).persistent_for(#[trigger] batch[i].0)
                == Some(batch[i].1),
        register_all(regs, batch).persistent.dom().finite(),
        register_all(regs, batch).persistent.dom().len() == regs.persistent.dom().len()
            + batch.len(),
    decreases batch.len(),
{
    lemma_register_all(regs, batch);
    if batch.len() > 0 {
        let front = batch.drop_last();
        let before = register_all(regs, front);
        assert(distinct_kinds(front)) by {
            assert forall|i: int, j: int| 0 <= i < j < front.len() implies front[i].0
                != front[j].0 by {
                assert(front[i] == batch[i] && front[j] == batch[j]);
            }
        }
        assert forall|i: int| 0 <= i < front.len() implies !regs.persistent.contains_key(
            #[trigger] front[i].0,
        ) by {
            assert(front[i] == batch[i]);
        }
        lemma_distinct_registrations_all_kept(regs, front);
        lemma_register_all(regs, front);
        let last = batch.last().0;
        assert(!before.persistent.contains_key(last)) by {
            if exists|i: int| 0 <= i < front.len() && front[i].0 == last {
                let i = choose|i: int| 0 <= i < front.len() && front[i].0 == last;
                assert(front[i] == batch[i]);
                assert(batch[i].0 != batch[batch.len() - 1].0);
            }
            assert(!regs.persistent.contains_key(batch[batch.len() - 1].0));
        }
        assert(register_all(regs, batch).persistent.dom() =~= before.persistent.dom().insert(last));
    }
}

/// The order of registrations for different kinds does not matter: two
/// batches with the same entries, each kind occurring once, leave the same
/// registries.
pub proof fn lemma_registration_order_irrelevant<P, O>(
    regs: Registries<P, O>,
    one: Seq<(CallbackId, P)>,
    other: Seq<(CallbackId, P)>,
)
    requires
        distinct_kinds(one),
        distinct_kinds(other),
        forall|entry: (CallbackId, P)| one.contains(entry) <==> other.contains(entry),
    ensures
        register_all(regs, one) == register_all(regs, other),
{
    lemma_register_all(regs, one);
    lemma_register_all(regs, other);
    let a = register_all(regs, one);
    let b = register_all(regs, other);
    assert forall|id: CallbackId| a.persistent_for(id) == b.persistent_for(id) by {
        if exists|i: int| 0 <= i < one.len() && one[i].0 == id {
            let i = choose|i: int| 0 <= i < one.len() && one[i].0 == id;
            assert(one.contains(one[i]));
            assert(other.contains(one[i]));
            let j = choose|j: int| 0 <= j < other.len() && other[j] == one[i];
            assert(a.persistent_for(one[i].0) == Some(one[i].1));
            assert(b.persistent_for(other[j].0) == Some(other[j].1));
        } else {
            if exists|j: int| 0 <= j < other.len() && other[j].0 == id {
                let j = choose|j: int| 0 <= j < other.len() && other[j].0 == id;
                assert(other.contains(other[j]));
                assert(one.contains(other[j]));
                let i = choose|i: int| 0 <= i < one.len() && one[i] == other[j];
                assert(one[i].0 == id);
            }
        }
    }
    assert(a.persistent =~= b.persistent) by {
        assert forall|id: CallbackId| a.persistent.contains_key(id) == b.persistent.contains_key(
            id,
        ) by {
            assert(a.persistent_for(id) == b.persistent_for(id));
        }
        assert forall|id: CallbackId| a.persistent.contains_key(id) implies a.persistent[id]
            == b.persistent[id] by {
            assert(a.persistent_for(id) == b.persistent_for(id));
        }
    }
    assert(a =~= b);
}

} // verus!
