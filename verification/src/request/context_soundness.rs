//! What every operation on module contexts keeps.
//!
//! A pool hands out storage that is nonzero, aligned and its own, and a context lies in such
//! storage. So a published context is told from every other one by its address, and its slot leads
//! back to the registration it was published with.

use vstd::prelude::*;

use crate::native::{NativePool, NativeState};
use crate::request::context::{
    ContextCancellationHold, ContextRemoval, ContextWalk, RequestContextError,
    RequestContextModule, RequestContextRegistration, RequestContextRegistry,
};

verus! {

impl NativePool {
    /// Whether the pool hands out nonzero storage of alignment `align`, each block once.
    pub open spec fn hands_out(self, align: usize) -> bool {
        &&& self.blocks@.no_duplicates()
        &&& forall|i: int|
            0 <= i < self.blocks@.len() ==> (#[trigger] self.blocks@[i]) != 0 && self.blocks@[i]
                % align == 0
    }

    /// Whether a context at `address` can lie in storage that the pool handed out.
    pub open spec fn handed_out(self, address: usize) -> bool {
        address != 0 && !self.blocks@.contains(address)
    }

    /// Whether the pool hands out sound storage, and its contexts lie in such storage: each is
    /// registered once, and linked once.
    pub open spec fn sound(self, align: usize) -> bool {
        &&& self.hands_out(align)
        &&& self.contexts@.no_duplicates()
        &&& match self.registry {
            None => self.contexts@.len() == 0,
            Some(registry) => {
                &&& registry.distinct()
                &&& forall|i: int|
                    0 <= i < registry.registrations@.len() ==> self.handed_out(
                        (#[trigger] registry.registrations@[i]).context,
                    )
                &&& forall|context: usize| #[trigger]
                    self.contexts@.contains(context) ==> registry.registers(context)
            },
        }
    }
}

impl NativeState {
    /// Whether slot `index` of `request` publishes the context of a registration in the pool at
    /// `pool`.
    pub open spec fn publishes(self, pool: usize, request: usize, index: usize) -> bool {
        self.pools@[pool].registry matches Some(registry) && exists|k: int|
            0 <= k < registry.registrations@.len() && (
            #[trigger] registry.registrations@[k]).publishes(self, request, index)
    }

    /// Whether the contexts of the pool at `pool` are kept soundly: the pool is sound, active
    /// registrations name slots that exist, no slot leads to storage that was not handed out, and
    /// a slot that leads to a linked context is the one that the context was published in.
    pub open spec fn contexts_sound(self, pool: usize, align: usize) -> bool {
        &&& self.pools@[pool].sound(align)
        &&& self.pools@[pool].registry matches Some(registry) ==> registry.slots_exist(self)
        &&& forall|r: usize, i: usize|
            self.has_slot(r, i) ==> !self.pools@[pool].blocks@.contains(#[trigger] self.slot(r, i))
        &&& forall|r: usize, i: usize|
            self.has_slot(r, i) && self.pools@[pool].contexts@.contains(#[trigger] self.slot(r, i))
                ==> self.publishes(pool, r, i)
    }
}

/// Where a distinct context is registered.
proof fn lemma_registered_at(registry: RequestContextRegistry, k: int)
    requires
        registry.distinct(),
        0 <= k < registry.registrations@.len(),
    ensures
        registry.first_of(registry.registrations@[k].context, k),
        registry.registers(registry.registrations@[k].context),
{
    assert(registry.first_of(registry.registrations@[k].context, k));
}

/// A registered context has its registration.
proof fn lemma_registration_of(registry: RequestContextRegistry, context: usize) -> (k: int)
    requires
        registry.registers(context),
    ensures
        0 <= k < registry.registrations@.len(),
        registry.registrations@[k].context == context,
{
    choose|i: int| #[trigger] registry.first_of(context, i)
}

/// A pool without contexts that hands out sound storage is sound.
pub proof fn law_new_pool_is_sound(pool: NativePool, align: usize)
    requires
        pool.hands_out(align),
        pool.registry is None,
        pool.contexts@.len() == 0,
    ensures
        pool.sound(align),
{
}

/// What is left of sound storage is sound.
proof fn lemma_spent_storage(before: NativePool, after: NativePool, align: usize)
    requires
        before.hands_out(align),
        NativePool::spent_from(after.blocks@, before.blocks@),
    ensures
        after.hands_out(align),
        forall|address: usize| #[trigger]
            after.blocks@.contains(address) ==> before.blocks@.contains(address),
        forall|address: usize| before.handed_out(address) ==> #[trigger] after.handed_out(address),
{
    let left = before.blocks@.take(after.blocks@.len() as int);
    assert(after.blocks@ == left);
    assert forall|i: int| 0 <= i < left.len() implies #[trigger] after.blocks@[i]
        == before.blocks@[i] by {}
    assert forall|address: usize| #[trigger] after.blocks@.contains(address) implies
        before.blocks@.contains(address) by {
        let i = choose|i: int| 0 <= i < after.blocks@.len() && after.blocks@[i] == address;
        assert(before.blocks@[i] == address);
    }
}

/// Handing out more storage and changing anything but slots keeps contexts sound.
proof fn lemma_drawn_storage(before: NativeState, after: NativeState, pool: usize, align: usize)
    requires
        before.contexts_sound(pool, align),
        after.pools@[pool] == (NativePool {
            blocks: after.pools@[pool].blocks,
            ..before.pools@[pool]
        }),
        NativePool::spent_from(after.pools@[pool].blocks@, before.pools@[pool].blocks@),
        forall|r: usize, i: usize| #[trigger] after.has_slot(r, i) == before.has_slot(r, i),
        forall|r: usize, i: usize|
            before.has_slot(r, i) ==> #[trigger] after.slot(r, i) == before.slot(r, i),
    ensures
        after.contexts_sound(pool, align),
{
    lemma_spent_storage(before.pools@[pool], after.pools@[pool], align);
}

/// What changes nothing keeps the contexts sound.
pub proof fn law_unchanged_contexts_stay_sound(
    before: NativeState,
    after: NativeState,
    pool: usize,
    align: usize,
)
    requires
        before.contexts_sound(pool, align),
        after.unchanged(before),
    ensures
        after.contexts_sound(pool, align),
{
    assert(forall|r: usize, i: usize| #[trigger] after.has_slot(r, i) == before.has_slot(r, i));
    NativePool::lemma_spend(before.pools@[pool].blocks@, 0, 0);
    lemma_drawn_storage(before, after, pool, align);
}

/// A context that could not be made leaves the contexts sound.
pub proof fn law_refused_context_keeps_soundness(
    before: NativeState,
    after: NativeState,
    pool: usize,
    align: usize,
)
    requires
        before.contexts_sound(pool, align),
        after.context_refused(before, pool),
    ensures
        after.contexts_sound(pool, align),
{
    assert forall|r: usize, i: usize| #[trigger] after.has_slot(r, i) == before.has_slot(r, i) by {
        assert(after.requests@.contains_key(r) == before.requests@.contains_key(r));
    }
    lemma_drawn_storage(before, after, pool, align);
}

/// A published context keeps the contexts sound. It lies in nonzero, aligned storage that no other
/// context of the pool lies in.
pub proof fn law_published_context_keeps_soundness(
    before: NativeState,
    after: NativeState,
    raw: usize,
    index: usize,
    address: usize,
    align: usize,
)
    requires
        before.contexts_sound(before.requests@[raw].pool, align),
        before.admits_context(before.requests@[raw].pool),
        before.has_slot(raw, index),
        after.context_published(before, raw, index, address),
    ensures
        after.contexts_sound(before.requests@[raw].pool, align),
        address != 0,
        address % align == 0,
        !before.pools@[before.requests@[raw].pool].contexts@.contains(address),
{
    let pool = before.requests@[raw].pool;
    let found = before.pools@[pool];
    let left = after.pools@[pool];
    let taken = before.context_blocks(pool);
    let at = found.blocks@.len() - taken;
    let registry = left.registry->Some_0;
    let earlier = match found.registry {
        None => Seq::empty(),
        Some(known) => known.registrations@,
    };
    assert(found.blocks@[at] == address);
    assert(left.blocks@ =~= found.blocks@.take(at));
    lemma_spent_storage(found, left, align);
    assert(!left.blocks@.contains(address)) by {
        if left.blocks@.contains(address) {
            let i = choose|i: int| 0 <= i < left.blocks@.len() && left.blocks@[i] == address;
            assert(found.blocks@[i] == found.blocks@[at]);
        }
    }
    assert(registry.registrations@ =~= earlier.push(
        RequestContextRegistration { request: raw, index, context: address, active: true },
    ));
    assert forall|i: int| 0 <= i < earlier.len() implies (#[trigger] earlier[i]).context != address
        && found.handed_out(earlier[i].context) by {
        assert(found.registry->Some_0.registrations@[i] == earlier[i]);
    }
    assert forall|context: usize| #[trigger] found.contexts@.contains(context) implies exists|k: int|
        0 <= k < earlier.len() && (#[trigger] earlier[k]).context == context by {
        let k = lemma_registration_of(found.registry->Some_0, context);
        assert(earlier[k].context == context);
    }
    assert(!found.contexts@.contains(address));
    assert(registry.distinct());
    assert(left.contexts@.no_duplicates());
    assert forall|context: usize| #[trigger] left.contexts@.contains(context) implies registry.registers(
        context,
    ) by {
        let i = choose|i: int| 0 <= i < left.contexts@.len() && left.contexts@[i] == context;
        if i < found.contexts@.len() {
            assert(found.contexts@[i] == context);
            assert(found.contexts@.contains(context));
            let k = choose|k: int| 0 <= k < earlier.len() && (#[trigger] earlier[k]).context == context;
            assert(registry.registrations@[k] == earlier[k]);
            lemma_registered_at(registry, k);
        } else {
            lemma_registered_at(registry, earlier.len() as int);
        }
    }
    assert(left.sound(align));
    assert forall|r: usize, i: usize| #[trigger] after.has_slot(r, i) == before.has_slot(r, i) by {
        assert(after.requests@.contains_key(r) == before.requests@.contains_key(r));
    }
    assert forall|i: int|
        0 <= i < registry.registrations@.len()
            && (#[trigger] registry.registrations@[i]).active implies after.has_slot(
        registry.registrations@[i].request,
        registry.registrations@[i].index,
    ) by {
        if i < earlier.len() {
            assert(found.registry->Some_0.registrations@[i] == registry.registrations@[i]);
            assert(before.has_slot(earlier[i].request, earlier[i].index));
        }
    }
    assert forall|r: usize, i: usize| after.has_slot(r, i) implies !left.blocks@.contains(
        #[trigger] after.slot(r, i),
    ) by {
        assert(before.has_slot(r, i));
        if !(r == raw && i == index) {
            assert(after.slot(r, i) == before.slot(r, i));
        }
    }
    assert forall|r: usize, i: usize|
        after.has_slot(r, i) && left.contexts@.contains(
            #[trigger] after.slot(r, i),
        ) implies after.publishes(pool, r, i) by {
        assert(before.has_slot(r, i));
        if r == raw && i == index {
            assert(registry.registrations@[earlier.len() as int].publishes(after, r, i));
        } else {
            assert(after.slot(r, i) == before.slot(r, i));
            assert(found.blocks@.contains(address));
            assert(before.slot(r, i) != address);
            let n = choose|n: int|
                0 <= n < left.contexts@.len() && left.contexts@[n] == after.slot(r, i);
            assert(found.contexts@[n] == before.slot(r, i));
            assert(found.contexts@.contains(before.slot(r, i)));
            assert(before.publishes(pool, r, i));
            let known = found.registry->Some_0;
            let k = choose|k: int|
                0 <= k < known.registrations@.len() && (
                #[trigger] known.registrations@[k]).publishes(before, r, i);
            assert(registry.registrations@[k] == known.registrations@[k]);
            assert(registry.registrations@[k].publishes(after, r, i));
        }
    }
}

/// A sequence without repetitions loses a value with its first occurrence, and nothing else.
proof fn lemma_without_first_of_distinct(values: Seq<usize>, value: usize)
    requires
        values.no_duplicates(),
    ensures
        crate::request::context::without_first(values, value).no_duplicates(),
        forall|other: usize| #[trigger]
            crate::request::context::without_first(values, value).contains(other) == (
            values.contains(other) && other != value),
    decreases values.len(),
{
    let left = crate::request::context::without_first(values, value);
    if values.len() > 0 {
        let first = values[0];
        let rest = values.drop_first();
        lemma_without_first_of_distinct(rest, value);
        assert forall|other: usize| #[trigger] values.contains(other) == (rest.contains(other)
            || other == first) by {
            if values.contains(other) {
                let i = choose|i: int| 0 <= i < values.len() && values[i] == other;
                if i > 0 {
                    assert(rest[i - 1] == other);
                }
            }
            if rest.contains(other) {
                let i = choose|i: int| 0 <= i < rest.len() && rest[i] == other;
                assert(values[i + 1] == other);
            }
            if other == first {
                assert(values[0] == other);
            }
        }
        assert(!rest.contains(first)) by {
            if rest.contains(first) {
                let i = choose|i: int| 0 <= i < rest.len() && rest[i] == first;
                assert(values[i + 1] == values[0]);
            }
        }
        if first != value {
            let shorter = crate::request::context::without_first(rest, value);
            assert(left == seq![first] + shorter);
            assert forall|other: usize| #[trigger] left.contains(other) == (shorter.contains(other)
                || other == first) by {
                if left.contains(other) {
                    let i = choose|i: int| 0 <= i < left.len() && left[i] == other;
                    if i > 0 {
                        assert(shorter[i - 1] == other);
                    }
                }
                if shorter.contains(other) {
                    let i = choose|i: int| 0 <= i < shorter.len() && shorter[i] == other;
                    assert(left[i + 1] == other);
                }
                if other == first {
                    assert(left[0] == other);
                }
            }
            assert(left.no_duplicates()) by {
                assert forall|i: int, j: int|
                    0 <= i < left.len() && 0 <= j < left.len() && i != j implies left[i]
                    != left[j] by {
                    if i > 0 && j > 0 {
                        assert(left[i] == shorter[i - 1]);
                        assert(left[j] == shorter[j - 1]);
                    } else if i > 0 {
                        assert(left[i] == shorter[i - 1]);
                        assert(shorter.contains(left[i]));
                    } else {
                        assert(left[j] == shorter[j - 1]);
                        assert(shorter.contains(left[j]));
                    }
                }
            }
        }
    }
}

/// A detached context keeps the contexts sound. Neither the pool nor its registry holds it any
/// more.
pub proof fn law_detached_context_keeps_soundness(
    before: NativeState,
    after: NativeState,
    pool: usize,
    context: usize,
    contexts: Seq<usize>,
    align: usize,
)
    requires
        before.contexts_sound(pool, align),
        after.context_detached(before, pool, context, contexts),
    ensures
        after.contexts_sound(pool, align),
        !after.pools@[pool].contexts@.contains(context),
        after.pools@[pool].registry matches Some(registry) ==> !registry.registers(context),
{
    let found = before.pools@[pool];
    let left = after.pools@[pool];
    lemma_without_first_of_distinct(found.contexts@, context);
    lemma_no_zero_block(found);
    assert(forall|r: usize, i: usize| #[trigger] after.has_slot(r, i) == before.has_slot(r, i));
    if let Some(known) = found.registry {
        let registry = left.registry->Some_0;
        if known.registers(context) {
            let n = choose|n: int|
                #[trigger] known.first_of(context, n) && registry.registrations@
                    == known.registrations@.remove(n) && after.registration_ended(
                    before,
                    known.registrations@[n],
                    contexts,
                );
            let ended = known.registrations@[n];
            let kept = |k: int| if k < n { k } else { k - 1 };
            assert forall|k: int|
                0 <= k < registry.registrations@.len() implies #[trigger] registry.registrations@[k]
                == known.registrations@[if k < n { k } else { k + 1 }] by {}
            assert(registry.distinct());
            assert(!registry.registers(context)) by {
                if registry.registers(context) {
                    let k = lemma_registration_of(registry, context);
                    assert(known.registrations@[if k < n { k } else { k + 1 }].context
                        == known.registrations@[n].context);
                }
            }
            assert forall|other: usize| #[trigger] left.contexts@.contains(other) implies registry.registers(
                other,
            ) by {
                assert(found.contexts@.contains(other));
                let k = lemma_registration_of(known, other);
                assert(registry.registrations@[kept(k)] == known.registrations@[k]);
                lemma_registered_at(registry, kept(k));
            }
            assert forall|k: int| 0 <= k < registry.registrations@.len() implies left.handed_out(
                (#[trigger] registry.registrations@[k]).context,
            ) by {
                assert(found.handed_out(
                    known.registrations@[if k < n { k } else { k + 1 }].context,
                ));
            }
            assert forall|r: usize, i: usize| before.has_slot(r, i) implies #[trigger] after.slot(
                r,
                i,
            ) == (if ended.active && ended.publishes(before, r, i) {
                0
            } else {
                before.slot(r, i)
            }) by {}
            assert forall|r: usize, i: usize|
                after.has_slot(r, i) && left.contexts@.contains(
                    #[trigger] after.slot(r, i),
                ) implies after.publishes(pool, r, i) by {
                let value = after.slot(r, i);
                assert(before.has_slot(r, i));
                let held = lemma_registration_of(known, value);
                assert(known.registrations@[held].context != 0);
                assert(value == before.slot(r, i));
                assert(before.publishes(pool, r, i));
                let k = choose|k: int|
                    0 <= k < known.registrations@.len() && (
                    #[trigger] known.registrations@[k]).publishes(before, r, i);
                assert(registry.registrations@[kept(k)] == known.registrations@[k]);
                assert(registry.registrations@[kept(k)].publishes(after, r, i));
            }
            assert forall|k: int|
                0 <= k < registry.registrations@.len()
                    && (#[trigger] registry.registrations@[k]).active implies after.has_slot(
                registry.registrations@[k].request,
                registry.registrations@[k].index,
            ) by {
                let same = known.registrations@[if k < n { k } else { k + 1 }];
                assert(before.has_slot(same.request, same.index));
            }
            assert forall|r: usize, i: usize| after.has_slot(r, i) implies !left.blocks@.contains(
                #[trigger] after.slot(r, i),
            ) by {
                assert(before.has_slot(r, i));
            }
        } else {
            assert(!found.contexts@.contains(context));
            assert(left.contexts@ =~= found.contexts@) by {
                lemma_without_absent(found.contexts@, context);
            }
            assert(after.requests@ == before.requests@);
            assert(!registry.registers(context)) by {
                if registry.registers(context) {
                    let k = choose|k: int| #[trigger] registry.first_of(context, k);
                    assert(known.first_of(context, k));
                }
            }
            lemma_same_registrations(before, after, pool, align);
        }
    } else {
        lemma_without_absent(found.contexts@, context);
        assert(left.contexts@ == found.contexts@);
        assert(left.sound(align));
        assert forall|r: usize, i: usize| after.has_slot(r, i) implies !left.blocks@.contains(
            #[trigger] after.slot(r, i),
        ) by {
            assert(before.has_slot(r, i));
            assert(after.slot(r, i) == before.slot(r, i));
        }
    }
}

/// No zero block stands among those that a sound pool hands out.
proof fn lemma_no_zero_block(pool: NativePool)
    ensures
        (forall|i: int| 0 <= i < pool.blocks@.len() ==> (#[trigger] pool.blocks@[i]) != 0)
            ==> !pool.blocks@.contains(0),
{
}

/// A sequence that lacks a value keeps everything.
proof fn lemma_without_absent(values: Seq<usize>, value: usize)
    requires
        !values.contains(value),
    ensures
        crate::request::context::without_first(values, value) == values,
    decreases values.len(),
{
    if values.len() > 0 {
        let rest = values.drop_first();
        assert(values[0] != value);
        assert(!rest.contains(value)) by {
            if rest.contains(value) {
                let i = choose|i: int| 0 <= i < rest.len() && rest[i] == value;
                assert(values[i + 1] == value);
            }
        }
        lemma_without_absent(rest, value);
        assert(seq![values[0]] + rest =~= values);
    }
}

/// The same registrations in the same slots are as sound.
proof fn lemma_same_registrations(before: NativeState, after: NativeState, pool: usize, align: usize)
    requires
        before.contexts_sound(pool, align),
        before.pools@[pool].registry is Some,
        after.pools@[pool].registry is Some,
        after.pools@[pool].blocks == before.pools@[pool].blocks,
        after.pools@[pool].contexts@ == before.pools@[pool].contexts@,
        after.pools@[pool].registry->Some_0.registrations@
            == before.pools@[pool].registry->Some_0.registrations@,
        after.requests@ == before.requests@,
    ensures
        after.contexts_sound(pool, align),
{
    let known = before.pools@[pool].registry->Some_0;
    let registry = after.pools@[pool].registry->Some_0;
    assert(forall|r: usize, i: usize| #[trigger] after.has_slot(r, i) == before.has_slot(r, i));
    assert(forall|r: usize, i: usize| #[trigger] after.slot(r, i) == before.slot(r, i));
    assert forall|context: usize| #[trigger] known.registers(context) implies registry.registers(
        context,
    ) by {
        let k = choose|k: int| #[trigger] known.first_of(context, k);
        assert(registry.first_of(context, k));
    }
    assert forall|r: usize, i: usize|
        after.has_slot(r, i) && after.pools@[pool].contexts@.contains(
            #[trigger] after.slot(r, i),
        ) implies after.publishes(pool, r, i) by {
        assert(before.has_slot(r, i));
        assert(before.pools@[pool].contexts@.contains(before.slot(r, i)));
        assert(before.publishes(pool, r, i));
        let k = choose|k: int|
            0 <= k < known.registrations@.len() && (
            #[trigger] known.registrations@[k]).publishes(before, r, i);
        assert(registry.registrations@[k].publishes(after, r, i));
    }
    assert forall|i: int|
        0 <= i < registry.registrations@.len()
            && (#[trigger] registry.registrations@[i]).active implies after.has_slot(
        registry.registrations@[i].request,
        registry.registrations@[i].index,
    ) by {
        assert(known.registrations@[i].active);
        assert(before.has_slot(known.registrations@[i].request, known.registrations@[i].index));
    }
    assert forall|i: int| 0 <= i < registry.registrations@.len() implies after.pools@[pool].handed_out(
        (#[trigger] registry.registrations@[i]).context,
    ) by {
        assert(before.pools@[pool].handed_out(known.registrations@[i].context));
    }
    assert forall|r: usize, i: usize| after.has_slot(r, i) implies !after.pools@[pool].blocks@.contains(
        #[trigger] after.slot(r, i),
    ) by {
        assert(before.has_slot(r, i));
        assert(!before.pools@[pool].blocks@.contains(before.slot(r, i)));
    }
}

/// A step of a cancellation keeps the contexts sound.
pub proof fn law_cancelled_context_keeps_soundness(
    before: NativeState,
    after: NativeState,
    walk: ContextWalk,
    walked: ContextWalk,
    result: Option<usize>,
    align: usize,
)
    requires
        before.contexts_sound(walk.pool, align),
        after.context_cancelled(before, walk, walked, result),
    ensures
        after.contexts_sound(walk.pool, align),
{
    let pool = walk.pool;
    let found = before.pools@[pool];
    let left = after.pools@[pool];
    if result is None {
        law_unchanged_contexts_stay_sound(before, after, pool, align);
    } else {
        let known = found.registry->Some_0;
        let registry = left.registry->Some_0;
        let index = walk.upcoming(known, before)->Some_0;
        let cancelled = known.registrations@[index];
        assert(forall|r: usize, i: usize| #[trigger] after.has_slot(r, i) == before.has_slot(r, i));
        assert(forall|k: int|
            0 <= k < known.registrations@.len() ==> (#[trigger] registry.registrations@[k]).context
                == known.registrations@[k].context);
        assert(registry.distinct());
        assert forall|context: usize| #[trigger] left.contexts@.contains(context) implies registry.registers(
            context,
        ) by {
            let k = lemma_registration_of(known, context);
            assert(registry.registrations@[k].context == context);
            lemma_registered_at(registry, k);
        }
        assert forall|k: int| 0 <= k < registry.registrations@.len() implies left.handed_out(
            (#[trigger] registry.registrations@[k]).context,
        ) by {
            assert(found.handed_out(known.registrations@[k].context));
        }
        assert forall|k: int|
            0 <= k < registry.registrations@.len()
                && (#[trigger] registry.registrations@[k]).active implies after.has_slot(
            registry.registrations@[k].request,
            registry.registrations@[k].index,
        ) by {
            assert(known.registrations@[k].active);
            assert(before.has_slot(known.registrations@[k].request, known.registrations@[k].index));
        }
        lemma_no_zero_block(found);
        assert forall|r: usize, i: usize| after.has_slot(r, i) implies !left.blocks@.contains(
            #[trigger] after.slot(r, i),
        ) by {
            assert(before.has_slot(r, i));
        }
        assert forall|r: usize, i: usize|
            after.has_slot(r, i) && left.contexts@.contains(
                #[trigger] after.slot(r, i),
            ) implies after.publishes(pool, r, i) by {
            assert(before.has_slot(r, i));
            let held = lemma_registration_of(known, after.slot(r, i));
            assert(known.registrations@[held].context != 0);
            assert(after.slot(r, i) == before.slot(r, i));
            assert(before.publishes(pool, r, i));
            let k = choose|k: int|
                0 <= k < known.registrations@.len() && (
                #[trigger] known.registrations@[k]).publishes(before, r, i);
            assert(k != index);
            assert(registry.registrations@[k] == known.registrations@[k]);
            assert(registry.registrations@[k].publishes(after, r, i));
        }
    }
}

/// A context that was published is the context of its module.
pub proof fn law_published_context_is_found(
    before: NativeState,
    after: NativeState,
    raw: usize,
    module: RequestContextModule,
    address: usize,
)
    requires
        before.context_ready(raw, module),
        before.contexts_sound(before.requests@[raw].pool, module.align),
        before.insertion(raw, module, Ok(())) == Ok::<Option<usize>, RequestContextError>(None),
        after.context_published(
            before,
            raw,
            before.context_slot(raw, module.module)->Ok_0,
            address,
        ),
    ensures
        after.context_ready(raw, module),
        after.context_of(raw, module) == Ok::<Option<usize>, RequestContextError>(Some(address)),
{
    let index = before.context_slot(raw, module.module)->Ok_0;
    assert(before.has_slot(raw, index));
    law_published_context_keeps_soundness(before, after, raw, index, address, module.align);
}

/// A module that asks for its context again gets the one that was published: a second insertion
/// can be made, makes nothing and answers the same address. The contexts stay sound and settled.
pub proof fn law_second_insertion_finds_the_first(
    before: NativeState,
    after: NativeState,
    raw: usize,
    module: RequestContextModule,
    address: usize,
)
    requires
        before.live(raw),
        before.context_ready(raw, module),
        before.pool_resolves(raw),
        before.contexts_settled(raw),
        before.contexts_sound(before.requests@[raw].pool, module.align),
        before.insertion(raw, module, Ok(())) == Ok::<Option<usize>, RequestContextError>(None),
        after.context_published(
            before,
            raw,
            before.context_slot(raw, module.module)->Ok_0,
            address,
        ),
    ensures
        after.live(raw),
        after.context_ready(raw, module),
        after.pool_resolves(raw),
        after.contexts_settled(raw),
        after.contexts_sound(before.requests@[raw].pool, module.align),
        after.slot(raw, before.context_slot(raw, module.module)->Ok_0) == address,
        after.insertion(raw, module, Ok(())) == Ok::<Option<usize>, RequestContextError>(
            Some(address),
        ),
{
    let pool = before.requests@[raw].pool;
    let index = before.context_slot(raw, module.module)->Ok_0;
    assert(before.has_slot(raw, index));
    law_published_context_keeps_soundness(before, after, raw, index, address, module.align);
    law_published_context_is_found(before, after, raw, module, address);
    let registry = after.registry_of(raw)->Some_0;
    assert forall|i: int| 0 <= i < registry.registrations@.len() implies !(
    #[trigger] registry.registrations@[i]).stale(after) by {
        let found = before.registry_of(raw)->Some_0;
        if before.registry_of(raw) is Some && i < found.registrations@.len() {
            let r = found.registrations@[i];
            assert(registry.registrations@[i] == r);
            assert(!r.stale(before));
            assert(before.pools@[pool].handed_out(r.context));
            if r.active {
                assert(before.has_slot(r.request, r.index));
                assert(!(r.request == raw && r.index == index));
            }
        }
    }
    lemma_links_kept(before, after, raw);
}

/// A context is found as long as its slot leads to it: in a later state, too, an insertion makes
/// nothing and answers its address.
pub proof fn law_published_context_stays_found(
    before: NativeState,
    after: NativeState,
    later: NativeState,
    raw: usize,
    module: RequestContextModule,
    address: usize,
)
    requires
        before.context_ready(raw, module),
        before.contexts_sound(before.requests@[raw].pool, module.align),
        before.insertion(raw, module, Ok(())) == Ok::<Option<usize>, RequestContextError>(None),
        after.context_published(
            before,
            raw,
            before.context_slot(raw, module.module)->Ok_0,
            address,
        ),
        later.context_slot(raw, module.module) == before.context_slot(raw, module.module),
        later.slot(raw, before.context_slot(raw, module.module)->Ok_0) == address,
    ensures
        later.insertion(raw, module, Ok(())) == Ok::<Option<usize>, RequestContextError>(
            Some(address),
        ),
{
    let index = before.context_slot(raw, module.module)->Ok_0;
    assert(before.has_slot(raw, index));
    law_published_context_keeps_soundness(before, after, raw, index, address, module.align);
}

/// Requests that keep their main requests and parents stay live.
proof fn lemma_links_kept(before: NativeState, after: NativeState, raw: usize)
    requires
        before.live(raw),
        after.requests@.dom() == before.requests@.dom(),
        forall|r: usize| #[trigger]
            after.requests@.contains_key(r) ==> {
                &&& after.requests@[r].main == before.requests@[r].main
                &&& after.requests@[r].parent == before.requests@[r].parent
            },
    ensures
        after.live(raw),
{
    assert(forall|r: usize| #[trigger]
        after.requests@.contains_key(r) == before.requests@.contains_key(r));
    assert forall|r: usize| #[trigger] after.requests@.contains_key(r) implies {
        &&& after.resolves(after.requests@[r].main)
        &&& after.resolves(after.requests@[r].parent)
    } by {
        assert(before.requests@.contains_key(r));
        assert(before.resolves(before.requests@[r].main));
        assert(before.resolves(before.requests@[r].parent));
    }
}

impl NativeState {
    /// Whether this state is one in which the removal of the context at `context` has been done
    /// for good: its module finds none, a further removal can be made and takes out none, and
    /// neither the pool nor its registry holds the context, so that detaching it once more hands
    /// out nothing.
    pub open spec fn context_gone(
        self,
        raw: usize,
        module: RequestContextModule,
        context: usize,
        align: usize,
    ) -> bool {
        let pool = self.requests@[raw].pool;
        &&& self.live(raw)
        &&& self.context_ready(raw, module)
        &&& self.registry_ready(raw)
        &&& self.contexts_settled(raw)
        &&& self.contexts_sound(pool, align)
        &&& self.context_of(raw, module) == Ok::<Option<usize>, RequestContextError>(None)
        &&& self.removal(raw, module, Ok(())) == Ok::<Option<usize>, RequestContextError>(None)
        &&& !self.pools@[pool].contexts@.contains(context)
        &&& self.pools@[pool].registry matches Some(registry) ==> !registry.registers(context)
    }
}

/// A removed context is gone for good, and it alone was handed out: its slot is empty, a further
/// removal takes out nothing, and neither the pool nor its registry holds it any more.
pub proof fn law_removed_context_is_gone(
    before: NativeState,
    after: NativeState,
    raw: usize,
    module: RequestContextModule,
    context: usize,
    result: Result<ContextRemoval, RequestContextError>,
    align: usize,
)
    requires
        before.live(raw),
        before.context_ready(raw, module),
        before.registry_ready(raw),
        before.contexts_settled(raw),
        before.contexts_sound(before.requests@[raw].pool, align),
        before.removal(raw, module, Ok(())) == Ok::<Option<usize>, RequestContextError>(
            Some(context),
        ),
        after.context_removed(before, raw, module, Ok(()), result),
    ensures
        after.context_gone(raw, module, context, align),
        after.slot(raw, before.context_slot(raw, module.module)->Ok_0) == 0,
        result matches Ok(removal) && removal.removed && removal.contexts@ == seq![context],
{
    let pool = before.requests@[raw].pool;
    let index = before.context_slot(raw, module.module)->Ok_0;
    let contexts = result->Ok_0.contexts@;
    let middle = choose|middle: NativeState| #[trigger]
        middle.holds_for(before, raw) && after.context_detached(middle, pool, context, contexts);
    crate::request::context::lemma_counts_keep_slots(before, middle, raw);
    assert(before.resolves(before.requests@[raw].main));
    assert(before.has_slot(raw, index));
    assert(middle.has_slot(raw, index));
    NativePool::lemma_spend(before.pools@[pool].blocks@, 0, 0);
    lemma_drawn_storage(before, middle, pool, align);
    let registry = before.registry_of(raw)->Some_0;
    assert(middle.pools@[pool].registry == Some(registry));
    assert(before.publishes(pool, raw, index));
    let k = choose|k: int|
        0 <= k < registry.registrations@.len() && (
        #[trigger] registry.registrations@[k]).publishes(before, raw, index);
    lemma_registered_at(registry, k);
    law_detached_context_keeps_soundness(middle, after, pool, context, contexts, align);
    let n = choose|n: int|
        #[trigger] registry.first_of(context, n) && after.pools@[pool].registry->Some_0.registrations@
            == registry.registrations@.remove(n) && after.registration_ended(
            middle,
            registry.registrations@[n],
            contexts,
        );
    registry.lemma_count_to(context, k);
    registry.lemma_count_to(context, n);
    assert(registry.registrations@[n].publishes(middle, raw, index));
    assert(after.has_slot(raw, index));
    let left = after.pools@[pool].registry->Some_0;
    assert forall|i: int| 0 <= i < left.registrations@.len() implies !(
    #[trigger] left.registrations@[i]).stale(after) by {
        let r = registry.registrations@[if i < n { i } else { i + 1 }];
        assert(left.registrations@[i] == r);
        assert(!r.stale(before));
        assert(r.context != context);
        if r.active {
            assert(before.has_slot(r.request, r.index));
            assert(middle.has_slot(r.request, r.index));
            assert(after.slot(r.request, r.index) == middle.slot(r.request, r.index));
        }
    }
    assert(after.requests@.contains_key(raw));
    assert(after.requests@.dom() =~= before.requests@.dom());
    lemma_links_kept(before, after, raw);
}

/// A removed context stays gone once the reference of its removal was given up.
pub proof fn law_released_removal_stays_gone(
    gone: NativeState,
    released: NativeState,
    raw: usize,
    module: RequestContextModule,
    context: usize,
    align: usize,
    hold: Option<ContextCancellationHold>,
)
    requires
        gone.context_gone(raw, module, context, align),
        hold matches Some(hold) ==> gone.requests@.contains_key(hold.main),
        released == (NativeState { requests: released.requests, ..gone }),
        released.requests@ == (match hold {
            None => gone.requests@,
            Some(hold) => gone.released(hold.request, hold.main).0,
        }),
    ensures
        released.context_gone(raw, module, context, align),
{
    let pool = gone.requests@[raw].pool;
    assert(released.requests@.dom() =~= gone.requests@.dom());
    assert forall|r: usize| #[trigger] released.requests@.contains_key(r) implies {
        &&& released.requests@[r].main == gone.requests@[r].main
        &&& released.requests@[r].parent == gone.requests@[r].parent
        &&& released.requests@[r].ctx == gone.requests@[r].ctx
        &&& released.requests@[r].pool == gone.requests@[r].pool
    } by {}
    assert(forall|r: usize| #[trigger]
        released.requests@.contains_key(r) == gone.requests@.contains_key(r));
    assert forall|r: usize, i: usize| #[trigger] released.has_slot(r, i) == gone.has_slot(r, i) by {
        assert(released.requests@.contains_key(r) == gone.requests@.contains_key(r));
    }
    assert forall|r: usize, i: usize|
        gone.has_slot(r, i) implies #[trigger] released.slot(r, i) == gone.slot(r, i) by {
        assert(released.requests@.contains_key(r));
    }
    assert(released.requests@.contains_key(raw));
    NativePool::lemma_spend(gone.pools@[pool].blocks@, 0, 0);
    lemma_drawn_storage(gone, released, pool, align);
    lemma_links_kept(gone, released, raw);
    if let Some(registry) = gone.registry_of(raw) {
        assert forall|i: int| 0 <= i < registry.registrations@.len() implies !(
        #[trigger] registry.registrations@[i]).stale(released) by {
            let r = registry.registrations@[i];
            assert(!r.stale(gone));
            if r.active {
                assert(gone.has_slot(r.request, r.index));
            }
        }
    }
}

/// A second removal of a context answers that there was none, with nothing to cancel, and detaching
/// the context again, as the destruction of the pool would, hands out nothing.
pub proof fn law_second_removal_finds_nothing(
    gone: NativeState,
    after: NativeState,
    raw: usize,
    module: RequestContextModule,
    context: usize,
    align: usize,
    result: Result<ContextRemoval, RequestContextError>,
)
    requires
        gone.context_gone(raw, module, context, align),
        after.context_removed(gone, raw, module, Ok(()), result),
    ensures
        result matches Ok(removal) && !removal.removed && removal.hold is None
            && removal.contexts@.len() == 0,
        after.unchanged(gone),
        forall|state: NativeState, contexts: Seq<usize>| #[trigger]
            state.context_detached(gone, gone.requests@[raw].pool, context, contexts)
                ==> contexts.len() == 0,
{
}

} // verus!
