//! Module contexts of a request and the registry that cancels them.
//!
//! A module publishes its context in a slot of the request. The registry in the request pool
//! remembers which context belongs in which slot, so that a context whose slot nginx cleared is
//! found, cancelled and dropped. Cancelling runs code of the module: the functions here hand out
//! the contexts to cancel and go on with what is left of the request afterwards.

use vstd::prelude::*;

use crate::native::{HttpConfigError, ModuleDescriptor, NativePool, NativeRequest, NativeState, NginxCall, Pointer};
use crate::request::view::{checked_request_ptr, module_slot_index, MainRequestRefMut, RequestError, RequestRef, RequestRefMut};
use crate::status::NGX_DONE;

verus! {

/// Failure returned while accessing a module request-context slot.
#[derive(Clone, Copy, Debug, PartialEq, Eq, Structural)]
pub enum RequestContextError {
    /// The module descriptor does not identify a usable HTTP context slot.
    Configuration(HttpConfigError),
    /// Nginx has not installed the request context-slot array.
    MissingSlots,
    /// The request context-slot array does not satisfy pointer alignment.
    MisalignedSlots,
    /// A non-null module context does not satisfy its type's alignment.
    MisalignedContext,
    /// The request pool cannot be used for a context operation.
    Request(RequestError),
    /// Nginx could not allocate the context and its cleanup entry.
    Allocation,
    /// The context cleanup was missing when removal was requested.
    MissingCleanup,
}

impl From<HttpConfigError> for RequestContextError {
    fn from(error: HttpConfigError) -> (result: Self) {
        RequestContextError::Configuration(error)
    }
}

impl vstd::std_specs::convert::FromSpecImpl<HttpConfigError> for RequestContextError {
    open spec fn obeys_from_spec() -> bool {
        true
    }

    open spec fn from_spec(error: HttpConfigError) -> Self {
        RequestContextError::Configuration(error)
    }
}

impl From<RequestError> for RequestContextError {
    fn from(error: RequestError) -> (result: Self) {
        RequestContextError::Request(error)
    }
}

impl vstd::std_specs::convert::FromSpecImpl<RequestError> for RequestContextError {
    open spec fn obeys_from_spec() -> bool {
        true
    }

    open spec fn from_spec(error: RequestError) -> Self {
        RequestContextError::Request(error)
    }
}

/// Failure returned while constructing a request module context.
#[derive(Debug, PartialEq, Eq)]
pub enum RequestContextCreateError<E> {
    /// Request or module context state prevented construction.
    Context(RequestContextError),
    /// The caller's context constructor rejected construction.
    Construction(E),
}

impl<E> From<RequestContextError> for RequestContextCreateError<E> {
    fn from(error: RequestContextError) -> (result: Self) {
        RequestContextCreateError::Context(error)
    }
}

impl<E> vstd::std_specs::convert::FromSpecImpl<RequestContextError> for RequestContextCreateError<E> {
    open spec fn obeys_from_spec() -> bool {
        true
    }

    open spec fn from_spec(error: RequestContextError) -> Self {
        RequestContextCreateError::Context(error)
    }
}

impl<E> From<RequestError> for RequestContextCreateError<E> {
    fn from(error: RequestError) -> (result: Self) {
        RequestContextCreateError::Context(RequestContextError::Request(error))
    }
}

impl<E> vstd::std_specs::convert::FromSpecImpl<RequestError> for RequestContextCreateError<E> {
    open spec fn obeys_from_spec() -> bool {
        true
    }

    open spec fn from_spec(error: RequestError) -> Self {
        RequestContextCreateError::Context(RequestContextError::Request(error))
    }
}

/// One module context that the library published.
#[derive(Clone, Copy, Debug, PartialEq, Eq, Structural)]
pub struct RequestContextRegistration {
    /// Request whose slot array holds the context.
    pub request: usize,
    /// Slot of the context.
    pub index: usize,
    /// The context, by its address.
    pub context: usize,
    /// Whether the context is still to be cancelled or cleaned up.
    pub active: bool,
}

/// A client-body read that waits for its callback.
#[derive(Clone, Copy, Debug, PartialEq, Eq, Structural)]
pub struct ClientBodyReadOperation {
    pub id: u64,
    pub generation: u64,
    /// The callback, by its address.
    pub callback: usize,
}

/// What a client-body callback finds registered.
#[derive(Clone, Copy, Debug, PartialEq, Eq, Structural)]
pub enum ClientBodyCallbackState {
    /// The read belongs to this generation of the request.
    Current,
    /// The read belongs to an older generation.
    Stale,
    /// No read of this callback waits.
    Missing,
}

/// Contexts and body reads of one main request.
#[derive(Debug)]
pub struct RequestContextRegistry {
    /// Published contexts, the earliest first.
    pub registrations: Vec<RequestContextRegistration>,
    /// The main request.
    pub main: usize,
    /// Identity of the registry.
    pub owner: usize,
    /// Counts the replacements of the request's contexts.
    pub generation: u64,
    pub next_client_body_read_id: u64,
    pub client_body_read: Option<ClientBodyReadOperation>,
}

/// A module with the alignment of its request context.
#[derive(Clone, Copy, Debug, PartialEq, Eq, Structural)]
pub struct RequestContextModule {
    pub module: ModuleDescriptor,
    pub align: usize,
}

impl NativeState {
    /// What slot `index` of a request holds.
    pub open spec fn slot(self, request: usize, index: usize) -> usize {
        match self.requests@[request].ctx {
            Pointer::To(slots) => slots@[index as int],
            _ => 0,
        }
    }

    /// Whether a request has a slot `index`.
    pub open spec fn has_slot(self, request: usize, index: usize) -> bool {
        &&& self.requests@.contains_key(request)
        &&& self.requests@[request].ctx matches Pointer::To(slots) && index < slots@.len()
    }

    /// Whether the pool pointer of a request is null or leads to a pool of the state.
    pub open spec fn pool_resolves(self, raw: usize) -> bool {
        self.requests@[raw].pool != 0 ==> self.pools@.contains_key(self.requests@[raw].pool)
    }

    /// The context registry in the pool of a request.
    pub open spec fn registry_of(self, raw: usize) -> Option<RequestContextRegistry> {
        if self.requests@[raw].pool == 0 {
            None
        } else {
            self.pools@[self.requests@[raw].pool].registry
        }
    }

    /// Whether the pool of a request is null or its registry names slots that exist.
    pub open spec fn registry_ready(self, raw: usize) -> bool {
        &&& self.pool_resolves(raw)
        &&& self.registry_of(raw) matches Some(registry) ==> registry.slots_exist(self)
    }

    /// The state's pools once the registry of the pool at `pool` is `registry`.
    pub open spec fn with_registry(
        self,
        pool: usize,
        registry: Option<RequestContextRegistry>,
    ) -> Map<usize, NativePool> {
        self.pools@.insert(pool, (NativePool { registry, ..self.pools@[pool] }))
    }

    /// Whether only the contents of context slots may differ from `before`.
    pub open spec fn same_but_slots(self, before: NativeState) -> bool {
        &&& self == (NativeState { requests: self.requests, ..before })
        &&& self.requests@.dom() == before.requests@.dom()
        &&& forall|raw: usize| #[trigger]
            self.requests@.contains_key(raw) ==> {
                &&& self.requests@[raw] == (NativeRequest {
                    ctx: self.requests@[raw].ctx,
                    ..before.requests@[raw]
                })
                &&& match before.requests@[raw].ctx {
                    Pointer::To(slots) => self.requests@[raw].ctx matches Pointer::To(s) && s@.len()
                        == slots@.len(),
                    _ => self.requests@[raw].ctx == before.requests@[raw].ctx,
                }
            }
    }
}

impl RequestContextRegistration {
    /// Whether the registered context is no longer in its slot.
    pub open spec fn stale(self, native: NativeState) -> bool {
        self.active && native.slot(self.request, self.index) != self.context
    }

    /// The registration once it was cancelled.
    pub open spec fn cancelled(self) -> RequestContextRegistration {
        RequestContextRegistration { active: false, ..self }
    }

    /// Whether slot `index` of `request` publishes this context.
    pub open spec fn publishes(self, native: NativeState, request: usize, index: usize) -> bool {
        &&& self.active
        &&& self.request == request
        &&& self.index == index
        &&& native.slot(request, index) == self.context
    }
}

/// Which registrations a cancellation takes.
#[derive(Clone, Copy, Debug, PartialEq, Eq, Structural)]
pub enum ContextSelection {
    /// Those whose context is no longer in its slot.
    Stale,
    /// All that are still active.
    Active,
}

impl ContextSelection {
    /// Whether the selection takes a registration.
    pub open spec fn takes(
        self,
        registration: RequestContextRegistration,
        native: NativeState,
    ) -> bool {
        match self {
            ContextSelection::Stale => registration.stale(native),
            ContextSelection::Active => registration.active,
        }
    }
}

/// The contexts of the registrations that `selection` takes, the latest first.
pub open spec fn selected_contexts(
    registrations: Seq<RequestContextRegistration>,
    native: NativeState,
    selection: ContextSelection,
) -> Seq<usize>
    decreases registrations.len(),
{
    if registrations.len() == 0 {
        Seq::empty()
    } else {
        let earlier = selected_contexts(registrations.drop_last(), native, selection);
        if selection.takes(registrations.last(), native) {
            seq![registrations.last().context] + earlier
        } else {
            earlier
        }
    }
}

/// Where the latest registration is that `selection` takes.
pub open spec fn latest_selected(
    registrations: Seq<RequestContextRegistration>,
    native: NativeState,
    selection: ContextSelection,
) -> Option<int>
    decreases registrations.len(),
{
    if registrations.len() == 0 {
        None
    } else if selection.takes(registrations.last(), native) {
        Some(registrations.len() - 1)
    } else {
        latest_selected(registrations.drop_last(), native, selection)
    }
}

impl RequestContextRegistry {
    /// Whether every active registration names a slot that exists.
    pub open spec fn slots_exist(self, native: NativeState) -> bool {
        forall|i: int|
            0 <= i < self.registrations@.len() && (#[trigger] self.registrations@[i]).active
                ==> native.has_slot(self.registrations@[i].request, self.registrations@[i].index)
    }

    /// Whether a registered context is no longer in its slot.
    pub open spec fn stale(self, native: NativeState) -> bool {
        exists|i: int|
            0 <= i < self.registrations@.len() && (#[trigger] self.registrations@[i]).stale(native)
    }

    /// Adds a registration.
    pub fn insert(&mut self, registration: RequestContextRegistration)
        ensures
            final(self).registrations@ == old(self).registrations@.push(registration),
            *final(self) == (RequestContextRegistry {
                registrations: final(self).registrations,
                ..*old(self)
            }),
    {
        self.registrations.push(registration);
    }

    /// Whether a registered context is no longer in its slot.
    pub fn has_stale(&self, native: &NativeState) -> (result: bool)
        requires
            self.slots_exist(*native),
        ensures
            result == self.stale(*native),
    {
        let mut index: usize = 0;
        while index < self.registrations.len()
            invariant
                index <= self.registrations@.len(),
                self.slots_exist(*native),
                forall|i: int|
                    0 <= i < index ==> !(#[trigger] self.registrations@[i]).stale(*native),
            decreases self.registrations@.len() - index,
        {
            let registration = self.registrations[index];
            if registration.active && native.slot_value(registration.request, registration.index)
                != registration.context {
                assert(self.registrations@[index as int].stale(*native));
                return true;
            }
            index = index + 1;
        }
        false
    }

    /// Where a context is registered first.
    pub open spec fn first_of(self, context: usize, index: int) -> bool {
        &&& 0 <= index < self.registrations@.len()
        &&& self.registrations@[index].context == context
        &&& forall|i: int| 0 <= i < index ==> (#[trigger] self.registrations@[i]).context != context
    }

    /// Whether a context is registered.
    pub open spec fn registers(self, context: usize) -> bool {
        exists|i: int| #[trigger] self.first_of(context, i)
    }

    /// Number of registrations up to that of `context`, or none if it is not registered.
    pub open spec fn count_to(self, context: usize) -> int {
        if self.registers(context) {
            (choose|i: int| #[trigger] self.first_of(context, i)) + 1
        } else {
            0
        }
    }

    /// The context of the latest registration.
    pub open spec fn newest(self) -> Option<usize> {
        if self.registrations@.len() == 0 {
            None
        } else {
            Some(self.registrations@.last().context)
        }
    }

    /// A context is registered first in one place.
    pub proof fn lemma_count_to(self, context: usize, index: int)
        requires
            self.first_of(context, index),
        ensures
            self.count_to(context) == index + 1,
    {
        let i = choose|i: int| #[trigger] self.first_of(context, i);
        assert(self.first_of(context, i));
        if i < index {
            assert(self.registrations@[i].context == context);
        } else if index < i {
            assert(self.registrations@[index].context == context);
        }
    }

    /// Number of registrations up to that of `context`, or none if it is not registered.
    pub fn place(&self, context: usize) -> (result: usize)
        ensures
            result == self.count_to(context),
            result <= self.registrations@.len(),
    {
        let mut index: usize = 0;
        while index < self.registrations.len()
            invariant
                index <= self.registrations@.len(),
                forall|i: int|
                    0 <= i < index ==> (#[trigger] self.registrations@[i]).context != context,
            decreases self.registrations@.len() - index,
        {
            if self.registrations[index].context == context {
                proof {
                    self.lemma_count_to(context, index as int);
                }
                return index + 1;
            }
            index = index + 1;
        }
        assert(!self.registers(context)) by {
            if self.registers(context) {
                let i = choose|i: int| #[trigger] self.first_of(context, i);
                assert(self.registrations@[i].context == context);
            }
        }
        0
    }

    /// Where the latest of the earliest `count` registrations is that `selection` takes.
    pub fn latest(&self, native: &NativeState, count: usize, selection: ContextSelection) -> (result:
        Option<usize>)
        requires
            count <= self.registrations@.len(),
            self.slots_exist(*native),
        ensures
            match latest_selected(self.registrations@.take(count as int), *native, selection) {
                None => result is None,
                Some(i) => result is Some && result->0 == i && 0 <= i < count && selection.takes(
                    self.registrations@[i],
                    *native,
                ),
            },
    {
        let mut index: usize = count;
        while index > 0
            invariant
                index <= count <= self.registrations@.len(),
                self.slots_exist(*native),
                latest_selected(self.registrations@.take(count as int), *native, selection)
                    == latest_selected(self.registrations@.take(index as int), *native, selection),
            decreases index,
        {
            let ghost looked = self.registrations@.take(index as int);
            index = index - 1;
            let registration = self.registrations[index];
            proof {
                assert(looked.last() == registration);
                assert(looked.drop_last() =~= self.registrations@.take(index as int));
            }
            let taken = match selection {
                ContextSelection::Stale => registration.active && native.slot_value(
                    registration.request,
                    registration.index,
                ) != registration.context,
                ContextSelection::Active => registration.active,
            };
            if taken {
                return Some(index);
            }
        }
        None
    }

    /// Moves on to the next generation.
    pub fn advance_generation(&mut self)
        ensures
            *final(self) == (RequestContextRegistry {
                generation: Self::next_generation(old(self).generation),
                ..*old(self)
            }),
    {
        self.generation = self.generation.wrapping_add(1);
    }

    /// The generation after `generation`.
    pub open spec fn next_generation(generation: u64) -> u64 {
        if generation == u64::MAX {
            0
        } else {
            (generation + 1) as u64
        }
    }

    /// Cancels the registration at `index`: its slot is cleared if it holds the context.
    pub fn cancel(&mut self, native: &mut NativeState, index: usize) -> (result: usize)
        requires
            index < old(self).registrations@.len(),
            old(native).has_slot(
                old(self).registrations@[index as int].request,
                old(self).registrations@[index as int].index,
            ),
            old(self).registrations@[index as int].active,
        ensures
            result == old(self).registrations@[index as int].context,
            *final(self) == (RequestContextRegistry {
                registrations: final(self).registrations,
                ..*old(self)
            }),
            final(self).registrations@ == old(self).registrations@.update(
                index as int,
                old(self).registrations@[index as int].cancelled(),
            ),
            final(native).same_but_slots(*old(native)),
            forall|r: usize, slot: usize|
                old(native).has_slot(r, slot) ==> #[trigger] final(native).slot(r, slot) == (if old(
                    self,
                ).registrations@[index as int].publishes(*old(native), r, slot) {
                    0
                } else {
                    old(native).slot(r, slot)
                }),
    {
        let registration = self.registrations[index];
        native.clear_slot(registration.request, registration.index, registration.context);
        let cancelled = RequestContextRegistration {
            request: registration.request,
            index: registration.index,
            context: registration.context,
            active: false,
        };
        self.registrations.set(index, cancelled);
        registration.context
    }
}

impl NativeState {
    /// What slot `index` of a request holds.
    pub fn slot_value(&self, request: usize, index: usize) -> (result: usize)
        requires
            self.has_slot(request, index),
        ensures
            result == self.slot(request, index),
    {
        match &self.request(request).ctx {
            Pointer::To(slots) => slots[index],
            _ => 0,
        }
    }

    /// Stores `value` in slot `index` of a request.
    pub fn set_slot(&mut self, request: usize, index: usize, value: usize)
        requires
            old(self).has_slot(request, index),
        ensures
            final(self).same_but_slots(*old(self)),
            forall|r: usize, i: usize|
                old(self).has_slot(r, i) ==> #[trigger] final(self).slot(r, i) == (if r == request
                    && i == index {
                    value
                } else {
                    old(self).slot(r, i)
                }),
    {
        let mut native_request = self.take_request(request);
        let ghost taken = native_request;
        match native_request.ctx {
            Pointer::To(mut slots) => {
                slots.set(index, value);
                native_request.ctx = Pointer::To(slots);
            },
            other => {
                native_request.ctx = other;
            },
        }
        self.put_request(request, native_request);
        assert(self.requests@.dom() =~= old(self).requests@.dom());
    }

    /// Clears slot `index` of a request if it holds `context`.
    pub fn clear_slot(&mut self, request: usize, index: usize, context: usize)
        requires
            old(self).has_slot(request, index),
        ensures
            final(self).same_but_slots(*old(self)),
            forall|r: usize, i: usize|
                old(self).has_slot(r, i) ==> #[trigger] final(self).slot(r, i) == (if r == request
                    && i == index && old(self).slot(r, i) == context {
                    0
                } else {
                    old(self).slot(r, i)
                }),
    {
        if self.slot_value(request, index) == context {
            self.set_slot(request, index, 0);
        }
    }
}

/// A reference that keeps a request alive while contexts are cancelled.
#[derive(Debug, PartialEq, Eq, Structural)]
pub struct ContextCancellationHold {
    pub request: usize,
    pub main: usize,
}

/// A walk through the registrations of a pool, from the latest one on, that cancels those it
/// takes.
///
/// The code of a cancelled context runs between two steps. So each step looks at the
/// registrations anew: it goes on at the one that stood before the last one cancelled, and ends
/// where that one was removed meanwhile. Registrations that were added meanwhile are not reached.
#[derive(Clone, Copy, Debug, PartialEq, Eq, Structural)]
pub struct ContextWalk {
    /// Pool of the registry.
    pub pool: usize,
    /// The registration to look at next, by its context.
    pub next: Option<usize>,
    pub selection: ContextSelection,
    /// Whether a registration was cancelled.
    pub cancelled: bool,
}

impl ContextWalk {
    /// Number of registrations that are still to be looked at.
    pub open spec fn left(self, registry: RequestContextRegistry) -> int {
        match self.next {
            None => 0,
            Some(context) => registry.count_to(context),
        }
    }

    /// Where the registration is that the next step cancels.
    pub open spec fn upcoming(self, registry: RequestContextRegistry, native: NativeState) -> Option<
        int,
    > {
        latest_selected(
            registry.registrations@.take(self.left(registry)),
            native,
            self.selection,
        )
    }

    /// The contexts that the walk hands out if nothing else changes.
    pub open spec fn remaining(self, registry: RequestContextRegistry, native: NativeState) -> Seq<
        usize,
    > {
        selected_contexts(
            registry.registrations@.take(self.left(registry)),
            native,
            self.selection,
        )
    }

    /// Whether the walk has passed no registration that it would take.
    pub open spec fn thorough(self, registry: RequestContextRegistry, native: NativeState) -> bool {
        forall|i: int|
            self.left(registry) <= i < registry.registrations@.len() ==> !self.selection.takes(
                #[trigger] registry.registrations@[i],
                native,
            )
    }

    /// Cancels the next registration, and hands out its context.
    ///
    /// The caller cancels and drops the context before the next step.
    pub fn cancel_next(&mut self, native: &mut NativeState) -> (result: Option<usize>)
        requires
            old(self).next is Some ==> old(native).walkable(old(self).pool),
        ensures
            final(native).context_cancelled(*old(native), *old(self), *final(self), result),
    {
        let context = match self.next {
            None => return None,
            Some(context) => context,
        };
        let mut pool = native.take_pool(self.pool);
        let mut registry = match pool.registry.take() {
            None => {
                pool.registry = None;
                native.put_pool(self.pool, pool);
                self.next = None;
                assert(native.pools@ =~= old(native).pools@);
                return None;
            },
            Some(registry) => registry,
        };
        let ghost found = registry;
        let ghost taken = *native;
        proof {
            lemma_selection_depends_on_slots(
                found.registrations@.take(self.left(found)),
                *old(native),
                taken,
                self.selection,
            );
            assert forall|i: int|
                0 <= i < found.registrations@.len()
                    && (#[trigger] found.registrations@[i]).active implies taken.has_slot(
                found.registrations@[i].request,
                found.registrations@[i].index,
            ) by {
                assert(old(native).has_slot(
                    found.registrations@[i].request,
                    found.registrations@[i].index,
                ));
            }
        }
        let count = registry.place(context);
        let index = match registry.latest(native, count, self.selection) {
            None => {
                pool.registry = Some(registry);
                native.put_pool(self.pool, pool);
                self.next = None;
                assert(native.pools@ =~= old(native).pools@);
                return None;
            },
            Some(index) => index,
        };
        assert(found.registrations@[index as int].active);
        let cancelled = registry.cancel(native, index);
        let ghost cleared = *native;
        self.next = if index == 0 {
            None
        } else {
            Some(registry.registrations[index - 1].context)
        };
        self.cancelled = true;
        pool.registry = Some(registry);
        native.put_pool(self.pool, pool);
        proof {
            assert(native.pools@ =~= old(native).with_registry(self.pool, Some(registry)));
            assert forall|r: usize, slot: usize| old(native).has_slot(
                r,
                slot,
            ) implies #[trigger] native.slot(r, slot) == (if found.registrations@[index as int].publishes(
                *old(native),
                r,
                slot,
            ) {
                0
            } else {
                old(native).slot(r, slot)
            }) by {
                assert(taken.has_slot(r, slot));
                assert(cleared.slot(r, slot) == native.slot(r, slot));
            }
        }
        Some(cancelled)
    }
}

impl NativeState {
    /// Whether the pool at `pool` is there and its registry, if any, names slots that exist.
    pub open spec fn walkable(self, pool: usize) -> bool {
        &&& self.pools@.contains_key(pool)
        &&& self.pools@[pool].registry matches Some(registry) ==> registry.slots_exist(self)
    }

    /// Whether this state is what a step of `walk` makes of `before`, with `walked` left to do.
    pub open spec fn context_cancelled(
        self,
        before: NativeState,
        walk: ContextWalk,
        walked: ContextWalk,
        result: Option<usize>,
    ) -> bool {
        let upcoming = match before.pools@[walk.pool].registry {
            None => None::<int>,
            Some(registry) => walk.upcoming(registry, before),
        };
        match upcoming {
            None => {
                &&& result is None
                &&& walked == (ContextWalk { next: None, ..walk })
                &&& self.unchanged(before)
            },
            Some(index) => {
                let registrations = before.pools@[walk.pool].registry->Some_0.registrations@;
                &&& result == Some(registrations[index].context)
                &&& walked == (ContextWalk {
                    next: if index == 0 {
                        None
                    } else {
                        Some(registrations[index - 1].context)
                    },
                    cancelled: true,
                    ..walk
                })
                &&& 0 <= index < registrations.len()
                &&& walk.selection.takes(registrations[index], before)
                &&& self.registration_cancelled(before, walk.pool, index)
            },
        }
    }

    /// Whether this state is `before` with the registration at `index` in the pool at `pool`
    /// cancelled.
    pub open spec fn registration_cancelled(
        self,
        before: NativeState,
        pool: usize,
        index: int,
    ) -> bool {
        let registry = before.pools@[pool].registry->Some_0;
        let after = self.pools@[pool].registry->Some_0;
        &&& self.pools@ == before.with_registry(pool, Some(after))
        &&& after == (RequestContextRegistry { registrations: after.registrations, ..registry })
        &&& after.registrations@ == registry.registrations@.update(
            index,
            registry.registrations@[index].cancelled(),
        )
        &&& (NativeState { pools: before.pools, ..self }).same_but_slots(before)
        &&& forall|r: usize, slot: usize|
            before.has_slot(r, slot) ==> #[trigger] self.slot(r, slot) == (
            if registry.registrations@[index].publishes(before, r, slot) {
                0
            } else {
                before.slot(r, slot)
            })
    }
}

/// A cancellation of stale contexts, with the reference that keeps the request alive meanwhile.
///
/// The caller takes the contexts out one by one with [`cancel_next`](Self::cancel_next), cancels
/// and drops each before it takes the next, and ends with [`finish`](Self::finish).
#[derive(Debug)]
pub struct ContextCancellation {
    pub hold: Option<ContextCancellationHold>,
    pub walk: ContextWalk,
}

impl NativeState {
    /// The requests once a reference on `main` was given up, and the call that this asks for.
    pub open spec fn released(self, request: usize, main: usize) -> (
        Map<usize, NativeRequest>,
        Option<NginxCall>,
    ) {
        let count = self.requests@[main].count;
        if self.requests@[main].pool == 0 {
            (self.requests@, None)
        } else if count > 1 {
            (self.with_count(main, (count - 1) as u16), None)
        } else if count == 1 && !self.requests@[main].terminated {
            (self.requests@, Some(NginxCall::FinalizeRequest { request, status: NGX_DONE }))
        } else {
            (self.requests@, None)
        }
    }

    /// The requests once a cancellation reference for `raw` was taken, and that reference.
    pub open spec fn retained(self, raw: usize) -> (
        Map<usize, NativeRequest>,
        Result<Option<ContextCancellationHold>, RequestError>,
    ) {
        match self.main_of(raw) {
            Err(error) => (self.requests@, Err(error)),
            Ok(main) => {
                let count = self.requests@[main].count;
                if count == 0 {
                    (self.requests@, Ok(None))
                } else if count == u16::MAX {
                    (self.requests@, Err(RequestError::ReferenceCountOverflow))
                } else {
                    (
                        self.with_count(main, (count + 1) as u16),
                        Ok(Some(ContextCancellationHold { request: raw, main })),
                    )
                }
            },
        }
    }
}

/// Gives up a reference on `main` that was held for `request`.
pub fn release_request_reference(native: &mut NativeState, request: usize, main: usize) -> (result:
    Option<NginxCall>)
    requires
        old(native).requests@.contains_key(main),
    ensures
        final(native).requests@ == old(native).released(request, main).0,
        result == old(native).released(request, main).1,
        *final(native) == (NativeState { requests: final(native).requests, ..*old(native) }),
{
    if native.request(main).pool == 0 {
        return None;
    }
    let count = native.request(main).count;
    if count > 1 {
        native.set_count(main, count - 1);
        None
    } else if count == 1 && !native.request(main).terminated {
        Some(NginxCall::FinalizeRequest { request, status: NGX_DONE })
    } else {
        None
    }
}

/// Takes a reference that keeps the request alive while contexts are cancelled.
///
/// A main request without references is not kept. The reference comes from nginx's lifecycle
/// reserve, not from the budget of delayed operations.
pub fn retain_request_for_context_cancellation(native: &mut NativeState, raw: usize) -> (result:
    Result<Option<ContextCancellationHold>, RequestError>)
    requires
        old(native).live(raw),
    ensures
        final(native).requests@ == old(native).retained(raw).0,
        result == old(native).retained(raw).1,
        *final(native) == (NativeState { requests: final(native).requests, ..*old(native) }),
{
    let request = RequestRef { raw };
    let main = match request.main_raw(native) {
        Ok(main) => main,
        Err(error) => return Err(error),
    };
    assert(native.resolves(native.requests@[raw].main));
    let count = native.request(main).count;
    if count == 0 {
        return Ok(None);
    }
    if count == u16::MAX {
        return Err(RequestError::ReferenceCountOverflow);
    }
    native.set_count(main, count + 1);
    Ok(Some(ContextCancellationHold { request: raw, main }))
}

/// A cancellation reference that is given up right away leaves every request as it was, when the
/// main request has its pool.
pub proof fn law_retain_then_release_restores(before: NativeState, after: NativeState, raw: usize)
    requires
        before.live(raw),
        after.requests@ == before.retained(raw).0,
        before.retained(raw).1 matches Ok(Some(hold)) && before.requests@[hold.main].pool != 0,
    ensures
        after.released(raw, before.retained(raw).1->Ok_0->Some_0.main) == (
            before.requests@,
            None::<NginxCall>,
        ),
{
    let main = before.retained(raw).1->Ok_0->Some_0.main;
    assert(before.resolves(before.requests@[raw].main));
    assert(after.released(raw, main).0 =~= before.requests@);
}

impl NativeState {
    /// Whether this state is what beginning to cancel the stale contexts of `raw` makes of
    /// `before`.
    pub open spec fn cancellation_begun(
        self,
        before: NativeState,
        raw: usize,
        result: Result<ContextCancellation, RequestError>,
    ) -> bool {
        let walk = ContextWalk {
            pool: before.requests@[raw].pool,
            next: match before.registry_of(raw) {
                None => None,
                Some(registry) => registry.newest(),
            },
            selection: ContextSelection::Stale,
            cancelled: false,
        };
        if before.registry_of(raw) is None {
            &&& self.unchanged(before)
            &&& result matches Ok(cancellation) && cancellation.hold is None && cancellation.walk
                == walk
        } else {
            match before.retained(raw).1 {
                Err(error) => {
                    &&& result == Err::<ContextCancellation, RequestError>(error)
                    &&& self.unchanged(before)
                },
                Ok(hold) => {
                    &&& result matches Ok(cancellation) && cancellation.hold == hold
                        && cancellation.walk == walk
                    &&& self.holds_for(before, raw)
                },
            }
        }
    }

    /// The pools once a cancellation of stale contexts ended: the registry moved to its next
    /// generation if a context was cancelled.
    pub open spec fn settled_pools(self, walk: ContextWalk) -> Map<usize, NativePool> {
        match self.pools@[walk.pool].registry {
            Some(registry) => if walk.cancelled {
                self.with_registry(
                    walk.pool,
                    Some(
                        RequestContextRegistry {
                            generation: RequestContextRegistry::next_generation(
                                registry.generation,
                            ),
                            ..registry
                        },
                    ),
                )
            } else {
                self.pools@
            },
            None => self.pools@,
        }
    }

    /// Whether every active context that the request's registry holds is in its slot.
    pub open spec fn contexts_settled(self, raw: usize) -> bool {
        self.registry_of(raw) matches Some(registry) ==> !registry.stale(self)
    }
}

/// Begins to cancel every context of the request that is no longer in its slot.
pub fn cancel_stale_request_contexts(native: &mut NativeState, raw: usize) -> (result: Result<
    ContextCancellation,
    RequestError,
>)
    requires
        old(native).live(raw),
        old(native).pool_resolves(raw),
    ensures
        final(native).cancellation_begun(*old(native), raw, result),
{
    let generation = request_context_generation(native, raw);
    let walk = ContextWalk {
        pool: generation.pool,
        next: generation.next,
        selection: ContextSelection::Stale,
        cancelled: false,
    };
    let pool_address = native.request(raw).pool;
    if pool_address == 0 || native.pool(pool_address).registry.is_none() {
        return Ok(ContextCancellation { hold: None, walk });
    }
    match retain_request_for_context_cancellation(native, raw) {
        Ok(hold) => Ok(ContextCancellation { hold, walk }),
        Err(error) => Err(error),
    }
}

/// A change of reference counts keeps every slot.
pub proof fn lemma_counts_keep_slots(before: NativeState, after: NativeState, raw: usize)
    requires
        before.live(raw),
        after.requests@ == before.retained(raw).0,
    ensures
        forall|r: usize, i: usize| #[trigger] after.has_slot(r, i) == before.has_slot(r, i),
        forall|r: usize, i: usize| #[trigger] after.slot(r, i) == before.slot(r, i),
{
    assert(before.resolves(before.requests@[raw].main));
}

/// What a selection takes depends on the slots alone.
proof fn lemma_selection_depends_on_slots(
    registrations: Seq<RequestContextRegistration>,
    a: NativeState,
    b: NativeState,
    selection: ContextSelection,
)
    requires
        forall|r: usize, i: usize| #[trigger] a.slot(r, i) == b.slot(r, i),
    ensures
        latest_selected(registrations, a, selection) == latest_selected(registrations, b, selection),
        forall|r: RequestContextRegistration| #[trigger]
            selection.takes(r, a) == selection.takes(r, b),
    decreases registrations.len(),
{
    assert forall|r: RequestContextRegistration| #[trigger]
        selection.takes(r, a) == selection.takes(r, b) by {
        assert(a.slot(r.request, r.index) == b.slot(r.request, r.index));
    }
    if registrations.len() > 0 {
        lemma_selection_depends_on_slots(registrations.drop_last(), a, b, selection);
    }
}

/// How a cancellation ended.
#[derive(Clone, Copy, Debug, PartialEq, Eq)]
pub struct CancellationOutcome {
    /// Whether the request can still be used.
    pub settled: Result<(), RequestError>,
    /// The call that gives up the request.
    pub call: Option<NginxCall>,
}

impl ContextCancellation {
    /// Cancels the next stale context, and hands it out to be cancelled and dropped.
    pub fn cancel_next(&mut self, native: &mut NativeState) -> (result: Option<usize>)
        requires
            old(self).walk.next is Some ==> old(native).walkable(old(self).walk.pool),
        ensures
            *final(self) == (ContextCancellation { walk: final(self).walk, ..*old(self) }),
            final(native).context_cancelled(
                *old(native),
                old(self).walk,
                final(self).walk,
                result,
            ),
    {
        self.walk.cancel_next(native)
    }

    /// Ends a cancellation whose contexts were all cancelled and dropped.
    ///
    /// The registry moves to its next generation if there were any. When the contexts gave up
    /// every other reference, the request is gone.
    pub fn finish(self, native: &mut NativeState) -> (result: CancellationOutcome)
        requires
            self.walk.next is None,
            self.walk.cancelled ==> old(native).pools@.contains_key(self.walk.pool),
            self.hold matches Some(hold) ==> old(native).requests@.contains_key(hold.main),
        ensures
            *final(native) == (NativeState {
                requests: final(native).requests,
                pools: final(native).pools,
                ..*old(native)
            }),
            final(native).pools@ == old(native).settled_pools(self.walk),
            match self.hold {
                None => {
                    &&& result == (CancellationOutcome {
                        settled: Ok::<(), RequestError>(()),
                        call: None::<NginxCall>,
                    })
                    &&& final(native).requests@ == old(native).requests@
                },
                Some(hold) => {
                    &&& result.settled == (if old(native).requests@[hold.main].count == 1 {
                        Err::<(), RequestError>(RequestError::MissingPool)
                    } else {
                        Ok::<(), RequestError>(())
                    })
                    &&& result.call == old(native).released(hold.request, hold.main).1
                    &&& final(native).requests@ == old(native).released(hold.request, hold.main).0
                },
            },
    {
        if self.walk.cancelled {
            advance_pool_generation(native, self.walk.pool);
        }
        match self.hold {
            None => CancellationOutcome { settled: Ok(()), call: None },
            Some(hold) => {
                let settled = if native.request(hold.main).count == 1 {
                    Err(RequestError::MissingPool)
                } else {
                    Ok(())
                };
                let call = release_request_reference(native, hold.request, hold.main);
                CancellationOutcome { settled, call }
            },
        }
    }
}

/// Moves the registry of a pool to its next generation.
fn advance_pool_generation(native: &mut NativeState, pool_address: usize)
    requires
        old(native).pools@.contains_key(pool_address),
    ensures
        *final(native) == (NativeState { pools: final(native).pools, ..*old(native) }),
        match old(native).pools@[pool_address].registry {
            None => final(native).pools@ == old(native).pools@,
            Some(registry) => final(native).pools@ == old(native).with_registry(
                pool_address,
                Some(
                    (RequestContextRegistry {
                        generation: RequestContextRegistry::next_generation(registry.generation),
                        ..registry
                    }),
                ),
            ),
        },
{
    if native.pool(pool_address).registry.is_none() {
        return;
    }
    let ghost registry = old(native).pools@[pool_address].registry->Some_0;
    let mut pool = native.take_pool(pool_address);
    let mut registry_now = pool.registry.take().unwrap();
    registry_now.advance_generation();
    pool.registry = Some(registry_now);
    native.put_pool(pool_address, pool);
    assert(native.pools@ =~= old(native).with_registry(
        pool_address,
        Some(
            (RequestContextRegistry {
                generation: RequestContextRegistry::next_generation(registry.generation),
                ..registry
            }),
        ),
    ));
}

/// Moves the request's registry to its next generation.
pub fn advance_request_generation(native: &mut NativeState, raw: usize)
    requires
        old(native).requests@.contains_key(raw),
        old(native).pool_resolves(raw),
    ensures
        *final(native) == (NativeState { pools: final(native).pools, ..*old(native) }),
        match old(native).registry_of(raw) {
            None => final(native).pools@ == old(native).pools@,
            Some(registry) => final(native).pools@ == old(native).with_registry(
                old(native).requests@[raw].pool,
                Some(
                    (RequestContextRegistry {
                        generation: RequestContextRegistry::next_generation(registry.generation),
                        ..registry
                    }),
                ),
            ),
        },
{
    let pool_address = native.request(raw).pool;
    if pool_address != 0 {
        advance_pool_generation(native, pool_address);
    }
}

impl RequestContextRegistry {
    /// What a body callback `expected` finds registered.
    pub open spec fn body_callback(self, expected: usize) -> ClientBodyCallbackState {
        match self.client_body_read {
            None => ClientBodyCallbackState::Missing,
            Some(operation) => if operation.callback != expected {
                ClientBodyCallbackState::Missing
            } else if operation.generation == self.generation {
                ClientBodyCallbackState::Current
            } else {
                ClientBodyCallbackState::Stale
            },
        }
    }

    /// The registry with a read of `callback` registered in its generation.
    pub open spec fn with_body_read(self, callback: usize) -> RequestContextRegistry {
        RequestContextRegistry {
            next_client_body_read_id: Self::next_generation(self.next_client_body_read_id),
            client_body_read: Some(
                ClientBodyReadOperation {
                    id: self.next_client_body_read_id,
                    generation: self.generation,
                    callback,
                },
            ),
            ..self
        }
    }
}

/// A read that was registered is current for its callback, and for no other.
pub proof fn law_registered_read_is_current(
    registry: RequestContextRegistry,
    callback: usize,
    other: usize,
)
    ensures
        registry.with_body_read(callback).body_callback(callback)
            == ClientBodyCallbackState::Current,
        other != callback ==> registry.with_body_read(callback).body_callback(other)
            == ClientBodyCallbackState::Missing,
{
}

/// A read of an older generation is stale: its callback never runs on replacement state.
pub proof fn law_older_read_is_stale(registry: RequestContextRegistry, callback: usize)
    ensures
        (RequestContextRegistry {
            generation: RequestContextRegistry::next_generation(registry.generation),
            ..registry.with_body_read(callback)
        }).body_callback(callback) == ClientBodyCallbackState::Stale,
{
}

/// Takes the registered read that the callback `expected` completes.
pub fn take_client_body_read(native: &mut NativeState, raw: usize, expected: usize) -> (result:
    ClientBodyCallbackState)
    requires
        old(native).requests@.contains_key(raw),
        old(native).pool_resolves(raw),
    ensures
        *final(native) == (NativeState { pools: final(native).pools, ..*old(native) }),
        match old(native).registry_of(raw) {
            None => result == ClientBodyCallbackState::Missing && final(native).pools@ == old(
                native).pools@,
            Some(registry) => {
                &&& result == registry.body_callback(expected)
                &&& final(native).pools@ == (if result == ClientBodyCallbackState::Missing {
                    old(native).pools@
                } else {
                    old(native).with_registry(
                        old(native).requests@[raw].pool,
                        Some((RequestContextRegistry { client_body_read: None, ..registry })),
                    )
                })
            },
        },
{
    let pool_address = native.request(raw).pool;
    if pool_address == 0 {
        return ClientBodyCallbackState::Missing;
    }
    let state = match &native.pool(pool_address).registry {
        None => ClientBodyCallbackState::Missing,
        Some(registry) => match registry.client_body_read {
            None => ClientBodyCallbackState::Missing,
            Some(operation) => {
                if operation.callback != expected {
                    ClientBodyCallbackState::Missing
                } else if operation.generation == registry.generation {
                    ClientBodyCallbackState::Current
                } else {
                    ClientBodyCallbackState::Stale
                }
            },
        },
    };
    if state == ClientBodyCallbackState::Missing {
        return state;
    }
    forget_body_read(native, pool_address);
    state
}

/// Drops the registered read of the pool's registry.
fn forget_body_read(native: &mut NativeState, pool_address: usize)
    requires
        old(native).pools@.contains_key(pool_address),
        old(native).pools@[pool_address].registry is Some,
    ensures
        *final(native) == (NativeState { pools: final(native).pools, ..*old(native) }),
        final(native).pools@ == old(native).with_registry(
            pool_address,
            Some(
                (RequestContextRegistry {
                    client_body_read: None,
                    ..old(native).pools@[pool_address].registry->Some_0
                }),
            ),
        ),
{
    let ghost registry = old(native).pools@[pool_address].registry->Some_0;
    let mut pool = native.take_pool(pool_address);
    let mut registry_now = pool.registry.take().unwrap();
    registry_now.client_body_read = None;
    pool.registry = Some(registry_now);
    native.put_pool(pool_address, pool);
    assert(native.pools@ =~= old(native).with_registry(
        pool_address,
        Some((RequestContextRegistry { client_body_read: None, ..registry })),
    ));
}

/// Drops the registered read `id` of the callback `expected`.
pub fn clear_client_body_read(native: &mut NativeState, raw: usize, id: u64, expected: usize)
    requires
        old(native).requests@.contains_key(raw),
        old(native).pool_resolves(raw),
    ensures
        *final(native) == (NativeState { pools: final(native).pools, ..*old(native) }),
        final(native).pools@ == old(native).without_body_read(raw, id, expected),
{
    let pool_address = native.request(raw).pool;
    if pool_address == 0 {
        return;
    }
    let matches_read = match &native.pool(pool_address).registry {
        None => false,
        Some(registry) => match registry.client_body_read {
            None => false,
            Some(operation) => operation.id == id && operation.callback == expected,
        },
    };
    if matches_read {
        forget_body_read(native, pool_address);
    }
}

impl NativeState {
    /// The pools once the read `id` of the callback `expected` was dropped.
    pub open spec fn without_body_read(self, raw: usize, id: u64, expected: usize) -> Map<
        usize,
        NativePool,
    > {
        match self.registry_of(raw) {
            Some(registry) => match registry.client_body_read {
                Some(operation) => if operation.id == id && operation.callback == expected {
                    self.with_registry(
                        self.requests@[raw].pool,
                        Some((RequestContextRegistry { client_body_read: None, ..registry })),
                    )
                } else {
                    self.pools@
                },
                None => self.pools@,
            },
            None => self.pools@,
        }
    }
}

/// Creates the request's context registry, unless its pool has one.
///
/// Answers whether it was created. The registry's identity is used up even when the pool then
/// refuses the storage.
pub fn get_or_create_request_context_registry(
    native: &mut NativeState,
    pool_address: usize,
    main: usize,
) -> (result: Result<bool, RequestContextError>)
    requires
        old(native).pools@.contains_key(pool_address),
        old(native).requests@.contains_key(main),
    ensures
        final(native).registry_created(*old(native), pool_address, main, result),
{
    if native.pool(pool_address).registry.is_some() {
        return Ok(false);
    }
    let owner = native.next_owner;
    if owner == usize::MAX {
        return Err(RequestContextError::Allocation);
    }
    native.next_owner = owner + 1;
    let mut pool = native.take_pool(pool_address);
    let ghost blocks = pool.blocks@;
    let entry = pool.allocate();
    let storage = if entry.is_some() {
        pool.allocate()
    } else {
        None
    };
    proof {
        NativePool::lemma_spend(blocks, 1, 1);
    }
    if storage.is_none() {
        native.put_pool(pool_address, pool);
        assert(native.pools@ =~= old(native).pools@.insert(
            pool_address,
            native.pools@[pool_address],
        ));
        return Err(RequestContextError::Allocation);
    }
    pool.registry = Some(
        RequestContextRegistry {
            registrations: Vec::new(),
            main,
            owner,
            generation: 0,
            next_client_body_read_id: 0,
            client_body_read: None,
        },
    );
    native.put_pool(pool_address, pool);
    let mut request = native.take_request(main);
    request.cleanup.insert(0, owner);
    native.put_request(main, request);
    proof {
        assert(native.pools@ =~= old(native).pools@.insert(
            pool_address,
            native.pools@[pool_address],
        ));
        assert(native.requests@ =~= old(native).requests@.insert(main, native.requests@[main]));
        assert(native.requests@[main].cleanup@ =~= seq![owner] + old(
            native).requests@[main].cleanup@);
    }
    Ok(true)
}

impl NativeState {
    /// Whether this state is what creating a registry makes of `before`.
    pub open spec fn registry_created(
        self,
        before: NativeState,
        pool: usize,
        main: usize,
        result: Result<bool, RequestContextError>,
    ) -> bool {
        if before.pools@[pool].registry is Some {
            result == Ok::<bool, RequestContextError>(false) && self.unchanged(before)
        } else if before.next_owner == usize::MAX {
            result == Err::<bool, RequestContextError>(RequestContextError::Allocation)
                && self.unchanged(before)
        } else {
            &&& self == (NativeState {
                requests: self.requests,
                pools: self.pools,
                next_owner: (before.next_owner + 1) as usize,
                ..before
            })
            &&& self.pools@ == before.pools@.insert(pool, self.pools@[pool])
            &&& if before.pools@[pool].blocks@.len() < 2 {
                &&& result == Err::<bool, RequestContextError>(RequestContextError::Allocation)
                &&& self.requests@ == before.requests@
                &&& NativePool::spent_from(self.pools@[pool].blocks@, before.pools@[pool].blocks@)
                &&& self.pools@[pool] == (NativePool {
                    blocks: self.pools@[pool].blocks,
                    ..before.pools@[pool]
                })
            } else {
                &&& result == Ok::<bool, RequestContextError>(true)
                &&& self.pools@[pool].blocks@ == NativePool::spend(before.pools@[pool].blocks@, 2)
                &&& self.pools@[pool] == (NativePool {
                    blocks: self.pools@[pool].blocks,
                    registry: self.pools@[pool].registry,
                    ..before.pools@[pool]
                })
                &&& self.pools@[pool].registry matches Some(registry) && {
                    &&& registry.registrations@.len() == 0
                    &&& registry.main == main
                    &&& registry.owner == before.next_owner
                    &&& registry.generation == 0
                    &&& registry.next_client_body_read_id == 0
                    &&& registry.client_body_read is None
                }
                &&& self.requests@ == before.requests@.insert(main, self.requests@[main])
                &&& self.requests@[main] == (NativeRequest {
                    cleanup: self.requests@[main].cleanup,
                    ..before.requests@[main]
                })
                &&& self.requests@[main].cleanup@ == seq![before.next_owner]
                    + before.requests@[main].cleanup@
            }
        }
    }
}

/// Removes the context registry of a pool and its termination entry on the main request.
pub fn remove_request_context_registry(
    native: &mut NativeState,
    pool_address: usize,
    main: usize,
)
    requires
        old(native).pools@.contains_key(pool_address),
        old(native).pools@[pool_address].registry is Some,
        old(native).requests@.contains_key(main),
    ensures
        *final(native) == (NativeState {
            requests: final(native).requests,
            pools: final(native).pools,
            ..*old(native)
        }),
        final(native).pools@ == old(native).with_registry(pool_address, None),
        final(native).requests@ == old(native).requests@.insert(
            main,
            final(native).requests@[main],
        ),
        final(native).requests@[main] == (NativeRequest {
            cleanup: final(native).requests@[main].cleanup,
            ..old(native).requests@[main]
        }),
        final(native).requests@[main].cleanup@ == without_first(
            old(native).requests@[main].cleanup@,
            old(native).pools@[pool_address].registry->Some_0.owner,
        ),
{
    let mut pool = native.take_pool(pool_address);
    let registry = pool.registry.take().unwrap();
    native.put_pool(pool_address, pool);
    let owner = registry.owner;
    let mut request = native.take_request(main);
    let ghost cleanup = request.cleanup@;
    let mut index: usize = 0;
    while index < request.cleanup.len() && request.cleanup[index] != owner
        invariant
            index <= request.cleanup@.len(),
            request.cleanup@ == cleanup,
            forall|i: int| 0 <= i < index ==> cleanup[i] != owner,
        decreases request.cleanup@.len() - index,
    {
        index = index + 1;
    }
    proof {
        lemma_without_first(cleanup, owner, index as int);
    }
    if index < request.cleanup.len() {
        request.cleanup.remove(index);
    }
    native.put_request(main, request);
    proof {
        assert(native.pools@ =~= old(native).with_registry(pool_address, None));
        assert(native.requests@ =~= old(native).requests@.insert(main, native.requests@[main]));
    }
}

/// `values` without the first occurrence of `value`.
pub open spec fn without_first(values: Seq<usize>, value: usize) -> Seq<usize>
    decreases values.len(),
{
    if values.len() == 0 {
        values
    } else if values[0] == value {
        values.drop_first()
    } else {
        seq![values[0]] + without_first(values.drop_first(), value)
    }
}

/// Removing the first occurrence at `index`, or nothing at the end.
proof fn lemma_without_first(values: Seq<usize>, value: usize, index: int)
    requires
        0 <= index <= values.len(),
        forall|i: int| 0 <= i < index ==> values[i] != value,
        index < values.len() ==> values[index] == value,
    ensures
        without_first(values, value) == (if index < values.len() {
            values.remove(index)
        } else {
            values
        }),
    decreases values.len(),
{
    if values.len() == 0 {
    } else if index == 0 {
        assert(values.drop_first() =~= values.remove(0));
    } else {
        lemma_without_first(values.drop_first(), value, index - 1);
        if index < values.len() {
            assert(seq![values[0]] + values.drop_first().remove(index - 1) =~= values.remove(index));
        } else {
            assert(seq![values[0]] + values.drop_first() =~= values);
        }
    }
}

/// Removing a registry that was just created puts the termination entries back.
pub proof fn law_created_registry_is_removed(cleanup: Seq<usize>, owner: usize)
    ensures
        without_first(seq![owner] + cleanup, owner) == cleanup,
{
    assert((seq![owner] + cleanup).drop_first() =~= cleanup);
}

/// Registers a client-body read of `callback`, unless one already waits.
pub fn register_client_body_read(native: &mut NativeState, raw: usize, callback: usize) -> (result:
    Result<Option<u64>, RequestContextError>)
    requires
        old(native).live(raw),
        old(native).pool_of(raw) is Ok ==> old(native).pool_resolves(raw),
    ensures
        final(native).read_registered(*old(native), raw, callback, result),
{
    let request = RequestRef { raw };
    let pool_address = match request.pool(native) {
        Ok(pool) => pool,
        Err(error) => return Err(RequestContextError::from(error)),
    };
    let main = match request.main_raw(native) {
        Ok(main) => main,
        Err(error) => return Err(RequestContextError::from(error)),
    };
    assert(native.resolves(native.requests@[raw].main));
    match get_or_create_request_context_registry(native, pool_address, main) {
        Ok(_) => {},
        Err(error) => {
            assert(native.pools@ == native.pools@);
            return Err(error);
        },
    }
    let ghost middle = *native;
    let mut pool = native.take_pool(pool_address);
    let mut registry = pool.registry.take().unwrap();
    let ghost found = registry;
    let id = if registry.client_body_read.is_some() {
        None
    } else {
        let id: u64 = registry.next_client_body_read_id;
        registry.next_client_body_read_id = id.wrapping_add(1);
        registry.client_body_read = Some(
            ClientBodyReadOperation { id, generation: registry.generation, callback },
        );
        Some(id)
    };
    pool.registry = Some(registry);
    native.put_pool(pool_address, pool);
    proof {
        assert(middle.with_registry(pool_address, Some(found)) =~= middle.pools@);
        assert(native.pools@ =~= middle.with_registry(pool_address, Some(registry)));
        assert(middle.pools@ == middle.pools@);
    }
    Ok(id)
}

impl NativeState {
    /// How creating a registry in the pool at `pool` ends.
    pub open spec fn creation(self, pool: usize) -> Result<bool, RequestContextError> {
        if self.pools@[pool].registry is Some {
            Ok(false)
        } else if self.next_owner == usize::MAX || self.pools@[pool].blocks@.len() < 2 {
            Err(RequestContextError::Allocation)
        } else {
            Ok(true)
        }
    }

    /// Whether this state is what asking for a read of `callback` makes of `before`: the request's
    /// registry is created if need be, and the read is registered unless another one waits.
    pub open spec fn read_registered(
        self,
        before: NativeState,
        raw: usize,
        callback: usize,
        result: Result<Option<u64>, RequestContextError>,
    ) -> bool {
        match (before.pool_of(raw), before.main_of(raw)) {
            (Err(error), _) => {
                &&& result == Err::<Option<u64>, RequestContextError>(
                    RequestContextError::Request(error),
                )
                &&& self.unchanged(before)
            },
            (Ok(_), Err(error)) => {
                &&& result == Err::<Option<u64>, RequestContextError>(
                    RequestContextError::Request(error),
                )
                &&& self.unchanged(before)
            },
            (Ok(pool), Ok(main)) => exists|middle: NativeState|
                #![trigger middle.pools@]
                {
                    match before.creation(pool) {
                        Err(error) => {
                            &&& result == Err::<Option<u64>, RequestContextError>(error)
                            &&& self.registry_created(before, pool, main, Err(error))
                        },
                        Ok(created) => {
                            &&& middle.registry_created(before, pool, main, Ok(created))
                            &&& middle.pools@[pool].registry is Some
                            &&& self.body_read_registered(middle, pool, callback, result)
                        },
                    }
                },
        }
    }

    /// Whether this state is what registering a read of `callback` makes of `before`.
    pub open spec fn body_read_registered(
        self,
        before: NativeState,
        pool: usize,
        callback: usize,
        result: Result<Option<u64>, RequestContextError>,
    ) -> bool {
        let registry = before.pools@[pool].registry->Some_0;
        &&& self == (NativeState { pools: self.pools, ..before })
        &&& if registry.client_body_read is Some {
            &&& result == Ok::<Option<u64>, RequestContextError>(None)
            &&& self.pools@ == before.pools@
        } else {
            &&& result == Ok::<Option<u64>, RequestContextError>(
                Some(registry.next_client_body_read_id),
            )
            &&& self.pools@ == before.with_registry(pool, Some(registry.with_body_read(callback)))
        }
    }
}

impl RequestContextRegistry {
    /// Takes the registration of a context out of the registry.
    pub fn unlink(&mut self, context: usize) -> (result: Option<RequestContextRegistration>)
        ensures
            *final(self) == (RequestContextRegistry {
                registrations: final(self).registrations,
                ..*old(self)
            }),
            match result {
                None => !old(self).registers(context) && final(self).registrations@ == old(
                    self).registrations@,
                Some(registration) => exists|i: int|
                    {
                        &&& #[trigger] old(self).first_of(context, i)
                        &&& registration == old(self).registrations@[i]
                        &&& final(self).registrations@ == old(self).registrations@.remove(i)
                    },
            },
    {
        let mut index: usize = 0;
        while index < self.registrations.len()
            invariant
                index <= self.registrations@.len(),
                *self == *old(self),
                forall|i: int|
                    0 <= i < index ==> (#[trigger] self.registrations@[i]).context != context,
            decreases self.registrations@.len() - index,
        {
            if self.registrations[index].context == context {
                assert(old(self).first_of(context, index as int));
                let registration = self.registrations.remove(index);
                return Some(registration);
            }
            index = index + 1;
        }
        None
    }
}

/// A walk through the contexts that the request's registry holds now.
pub fn request_context_generation(native: &NativeState, raw: usize) -> (result: ContextWalk)
    requires
        native.requests@.contains_key(raw),
        native.pool_resolves(raw),
    ensures
        result == (ContextWalk {
            pool: native.requests@[raw].pool,
            next: match native.registry_of(raw) {
                None => None,
                Some(registry) => registry.newest(),
            },
            selection: ContextSelection::Active,
            cancelled: false,
        }),
{
    let pool_address = native.request(raw).pool;
    let next = if pool_address == 0 {
        None
    } else {
        registered_last(native, pool_address)
    };
    ContextWalk {
        pool: pool_address,
        next,
        selection: ContextSelection::Active,
        cancelled: false,
    }
}

/// The context that was registered last in a pool.
fn registered_last(native: &NativeState, pool_address: usize) -> (result: Option<usize>)
    requires
        native.pools@.contains_key(pool_address),
    ensures
        result == (match native.pools@[pool_address].registry {
            None => None::<usize>,
            Some(registry) => registry.newest(),
        }),
{
    match &native.pool(pool_address).registry {
        None => None,
        Some(registry) => {
            let count = registry.registrations.len();
            if count == 0 {
                None
            } else {
                Some(registry.registrations[count - 1].context)
            }
        },
    }
}

/// Begins to cancel every context of a main request that nginx terminates early.
///
/// A request that completes normally reaches pool cleanup instead.
pub fn terminate_request_context_registry(native: &mut NativeState, pool_address: usize) -> (result:
    Option<ContextWalk>)
    requires
        old(native).pools@.contains_key(pool_address),
        old(native).pools@[pool_address].registry matches Some(registry) && old(
            native,
        ).requests@.contains_key(registry.main),
    ensures
        *final(native) == (NativeState { pools: final(native).pools, ..*old(native) }),
        ({
            let registry = old(native).pools@[pool_address].registry->Some_0;
            if old(native).requests@[registry.main].terminated {
                &&& result == Some(
                    ContextWalk {
                        pool: pool_address,
                        next: registry.newest(),
                        selection: ContextSelection::Active,
                        cancelled: false,
                    },
                )
                &&& final(native).pools@ == old(native).with_registry(
                    pool_address,
                    Some((RequestContextRegistry { client_body_read: None, ..registry })),
                )
            } else {
                result is None && final(native).pools@ == old(native).pools@
            }
        }),
{
    let main = match &native.pool(pool_address).registry {
        Some(registry) => registry.main,
        None => 0,
    };
    if !native.request(main).terminated {
        return None;
    }
    forget_body_read(native, pool_address);
    let next = registered_last(native, pool_address);
    Some(
        ContextWalk {
            pool: pool_address,
            next,
            selection: ContextSelection::Active,
            cancelled: false,
        },
    )
}

impl RequestContextRegistry {
    /// Whether no context is registered twice.
    pub open spec fn distinct(self) -> bool {
        forall|i: int, j: int|
            0 <= i < j < self.registrations@.len() ==> (#[trigger] self.registrations@[i]).context
                != (#[trigger] self.registrations@[j]).context
    }
}

/// A walk that begins at the latest registration looks at all of them.
pub proof fn law_walk_begins_with_everything(walk: ContextWalk, registry: RequestContextRegistry)
    requires
        registry.distinct(),
        walk.next == registry.newest(),
    ensures
        walk.left(registry) == registry.registrations@.len(),
        forall|native: NativeState| #[trigger] walk.thorough(registry, native),
{
    let count = registry.registrations@.len();
    if count > 0 {
        let last = registry.registrations@[count - 1];
        assert(registry.first_of(last.context, count - 1));
        registry.lemma_count_to(last.context, count - 1);
    }
}

/// A step of a walk hands out the first of the contexts that remain to be cancelled, and leaves
/// the others to the next steps. It passes no registration that the walk would take.
pub proof fn law_step_hands_out_the_first_remaining(
    before: NativeState,
    after: NativeState,
    walk: ContextWalk,
    walked: ContextWalk,
    result: Option<usize>,
)
    requires
        before.walkable(walk.pool),
        before.pools@[walk.pool].registry matches Some(registry) && registry.distinct(),
        after.context_cancelled(before, walk, walked, result),
    ensures
        after.walkable(walk.pool),
        after.pools@[walk.pool].registry matches Some(registry) && registry.distinct(),
        ({
            let found = before.pools@[walk.pool].registry->Some_0;
            let left = after.pools@[walk.pool].registry->Some_0;
            &&& walk.remaining(found, before) == (match result {
                None => Seq::<usize>::empty(),
                Some(context) => seq![context] + walked.remaining(left, after),
            })
            &&& walk.thorough(found, before) ==> walked.thorough(left, after)
        }),
{
    let found = before.pools@[walk.pool].registry->Some_0;
    let left = after.pools@[walk.pool].registry->Some_0;
    let count = walk.left(found);
    lemma_left_in_bounds(walk, found);
    lemma_latest_selected(found.registrations@.take(count), before, walk.selection);
    match walk.upcoming(found, before) {
        None => {
            assert(left == found);
            assert forall|i: int| 0 <= i < found.registrations@.len() && walk.thorough(
                found,
                before,
            ) implies !walk.selection.takes(#[trigger] left.registrations@[i], after) by {
                assert(before.slot(found.registrations@[i].request, found.registrations@[i].index)
                    == after.slot(found.registrations@[i].request, found.registrations@[i].index));
                if i < count {
                    assert(found.registrations@.take(count)[i] == found.registrations@[i]);
                }
            }
        },
        Some(index) => {
            lemma_cancelled_keeps_the_others(before, after, walk, index);
            assert(found.registrations@.take(count).take(index) =~= found.registrations@.take(
                index,
            ));
            if index > 0 {
                let context = found.registrations@[index - 1].context;
                assert(left.registrations@[index - 1] == found.registrations@[index - 1]);
                assert(left.first_of(context, index - 1));
                left.lemma_count_to(context, index - 1);
            }
            assert(walked.left(left) == index);
            assert(left.registrations@.take(index) =~= found.registrations@.take(index));
            lemma_selected_by_entries(
                left.registrations@.take(index),
                before,
                after,
                walk.selection,
            );
            assert forall|i: int| index <= i < left.registrations@.len() && walk.thorough(
                found,
                before,
            ) implies !walk.selection.takes(#[trigger] left.registrations@[i], after) by {
                if index < i {
                    assert(left.registrations@[i] == found.registrations@[i]);
                    if i < count {
                        assert(found.registrations@.take(count)[i] == found.registrations@[i]);
                    }
                }
            }
        },
    }
}

/// Once a walk ended and passed none that it would take, it would take none of the registrations:
/// a walk for stale contexts leaves every active context in its slot, one for all contexts leaves
/// none active.
pub proof fn law_walked_registry_is_done(walk: ContextWalk, native: NativeState, raw: usize)
    requires
        walk.next is None,
        native.registry_of(raw) matches Some(registry) ==> walk.thorough(registry, native),
    ensures
        walk.selection == ContextSelection::Stale ==> native.contexts_settled(raw),
        walk.selection == ContextSelection::Active ==> (native.registry_of(raw) matches Some(
            registry,
        ) ==> forall|i: int|
            0 <= i < registry.registrations@.len() ==> !(
            #[trigger] registry.registrations@[i]).active),
{
}

/// A context that a step of a walk handed out is no longer in its slot.
pub proof fn law_cancelled_context_is_unpublished(
    before: NativeState,
    after: NativeState,
    walk: ContextWalk,
    walked: ContextWalk,
    context: usize,
)
    requires
        before.walkable(walk.pool),
        before.pools@[walk.pool].registry is Some,
        after.context_cancelled(before, walk, walked, Some(context)),
        context != 0,
    ensures
        walk.upcoming(before.pools@[walk.pool].registry->Some_0, before) matches Some(index) && {
            let registration =
                before.pools@[walk.pool].registry->Some_0.registrations@[index];
            &&& registration.context == context
            &&& after.slot(registration.request, registration.index) != context
        },
{
    let registry = before.pools@[walk.pool].registry->Some_0;
    let index = walk.upcoming(registry, before)->Some_0;
    let registration = registry.registrations@[index];
    assert(registration.active);
    assert(before.has_slot(registration.request, registration.index));
}

/// A walk looks at registrations that are there.
proof fn lemma_left_in_bounds(walk: ContextWalk, registry: RequestContextRegistry)
    ensures
        0 <= walk.left(registry) <= registry.registrations@.len(),
{
    if let Some(context) = walk.next {
        if registry.registers(context) {
            let i = choose|i: int| #[trigger] registry.first_of(context, i);
            assert(registry.first_of(context, i));
        }
    }
}

/// The latest registration that a selection takes is followed by none, and its context is the
/// first that the selection hands out.
proof fn lemma_latest_selected(
    registrations: Seq<RequestContextRegistration>,
    native: NativeState,
    selection: ContextSelection,
)
    ensures
        match latest_selected(registrations, native, selection) {
            None => {
                &&& selected_contexts(registrations, native, selection) == Seq::<usize>::empty()
                &&& forall|i: int|
                    0 <= i < registrations.len() ==> !selection.takes(
                        #[trigger] registrations[i],
                        native,
                    )
            },
            Some(index) => {
                &&& 0 <= index < registrations.len()
                &&& selection.takes(registrations[index], native)
                &&& selected_contexts(registrations, native, selection) == seq![
                    registrations[index].context,
                ] + selected_contexts(registrations.take(index), native, selection)
                &&& forall|i: int|
                    index < i < registrations.len() ==> !selection.takes(
                        #[trigger] registrations[i],
                        native,
                    )
            },
        },
    decreases registrations.len(),
{
    if registrations.len() > 0 {
        let earlier = registrations.drop_last();
        lemma_latest_selected(earlier, native, selection);
        if selection.takes(registrations.last(), native) {
            assert(registrations.take(registrations.len() - 1) =~= earlier);
        } else {
            assert forall|i: int| 0 <= i < earlier.len() implies #[trigger] registrations[i]
                == earlier[i] by {}
            if let Some(index) = latest_selected(earlier, native, selection) {
                assert(registrations.take(index) =~= earlier.take(index));
            }
        }
    }
}

/// What a selection takes from registrations that stand in both states alike.
proof fn lemma_selected_by_entries(
    registrations: Seq<RequestContextRegistration>,
    a: NativeState,
    b: NativeState,
    selection: ContextSelection,
)
    requires
        forall|i: int|
            0 <= i < registrations.len() ==> selection.takes(#[trigger] registrations[i], a)
                == selection.takes(registrations[i], b),
    ensures
        selected_contexts(registrations, a, selection) == selected_contexts(
            registrations,
            b,
            selection,
        ),
    decreases registrations.len(),
{
    if registrations.len() > 0 {
        let earlier = registrations.drop_last();
        assert(registrations[registrations.len() - 1] == registrations.last());
        assert forall|i: int| 0 <= i < earlier.len() implies selection.takes(
            #[trigger] earlier[i],
            a,
        ) == selection.takes(earlier[i], b) by {
            assert(registrations[i] == earlier[i]);
        }
        lemma_selected_by_entries(earlier, a, b, selection);
    }
}

/// Cancelling a registration leaves the others as they are: those that the walk takes stay taken,
/// the others stay passed.
proof fn lemma_cancelled_keeps_the_others(
    before: NativeState,
    after: NativeState,
    walk: ContextWalk,
    index: int,
)
    requires
        before.walkable(walk.pool),
        before.pools@[walk.pool].registry matches Some(registry) && registry.distinct() && 0
            <= index < registry.registrations@.len() && walk.selection.takes(
            registry.registrations@[index],
            before,
        ),
        after.registration_cancelled(before, walk.pool, index),
    ensures
        after.walkable(walk.pool),
        after.pools@[walk.pool].registry matches Some(registry) && registry.distinct(),
        ({
            let found = before.pools@[walk.pool].registry->Some_0;
            let left = after.pools@[walk.pool].registry->Some_0;
            &&& !walk.selection.takes(left.registrations@[index], after)
            &&& forall|i: int|
                0 <= i < found.registrations@.len() && i != index ==> {
                    &&& #[trigger] left.registrations@[i] == found.registrations@[i]
                    &&& walk.selection.takes(found.registrations@[i], after)
                        == walk.selection.takes(found.registrations@[i], before)
                }
        }),
{
    let found = before.pools@[walk.pool].registry->Some_0;
    let left = after.pools@[walk.pool].registry->Some_0;
    let cancelled = found.registrations@[index];
    assert forall|i: int| 0 <= i < found.registrations@.len() && i != index implies {
        &&& #[trigger] left.registrations@[i] == found.registrations@[i]
        &&& walk.selection.takes(found.registrations@[i], after) == walk.selection.takes(
            found.registrations@[i],
            before,
        )
    } by {
        let other = found.registrations@[i];
        assert(other.context != cancelled.context);
        if other.active {
            assert(before.has_slot(other.request, other.index));
            assert(after.slot(other.request, other.index) == (if cancelled.publishes(
                before,
                other.request,
                other.index,
            ) {
                0
            } else {
                before.slot(other.request, other.index)
            }));
        }
    }
    assert forall|i: int|
        0 <= i < left.registrations@.len()
            && (#[trigger] left.registrations@[i]).active implies after.has_slot(
        left.registrations@[i].request,
        left.registrations@[i].index,
    ) by {
        assert(found.registrations@[i].active);
        assert(before.has_slot(found.registrations@[i].request, found.registrations@[i].index));
    }
}

impl NativeState {
    /// The slot of a module in a request.
    pub open spec fn context_slot(self, raw: usize, module: ModuleDescriptor) -> Result<
        usize,
        RequestContextError,
    > {
        match self.slot_index(module) {
            Err(error) => Err(RequestContextError::Configuration(error)),
            Ok(index) => match self.requests@[raw].ctx {
                Pointer::Null => Err(RequestContextError::MissingSlots),
                Pointer::Misaligned => Err(RequestContextError::MisalignedSlots),
                Pointer::To(_) => Ok(index),
            },
        }
    }

    /// The context that a module has in a request.
    pub open spec fn context_of(self, raw: usize, module: RequestContextModule) -> Result<
        Option<usize>,
        RequestContextError,
    > {
        match self.context_slot(raw, module.module) {
            Err(error) => Err(error),
            Ok(index) => {
                let context = self.slot(raw, index);
                if context == 0 {
                    Ok(None)
                } else if context % module.align != 0 {
                    Err(RequestContextError::MisalignedContext)
                } else {
                    Ok(Some(context))
                }
            },
        }
    }

    /// The context that a module has in a request whose stale contexts were settled.
    pub open spec fn settled_context(
        self,
        raw: usize,
        module: RequestContextModule,
        settled: Result<(), RequestError>,
    ) -> Result<Option<usize>, RequestContextError> {
        match settled {
            Err(error) => Err(RequestContextError::Request(error)),
            Ok(_) => self.context_of(raw, module),
        }
    }

    /// Whether a module's context can be looked up in a request.
    pub open spec fn context_ready(self, raw: usize, module: RequestContextModule) -> bool {
        &&& self.requests@.contains_key(raw)
        &&& module.align > 0
        &&& self.holds_every_slot(self.requests@[raw].ctx)
    }
}

impl RequestRef {
    /// The slot of a module in this request.
    pub fn module_context_slot(&self, native: &NativeState, module: ModuleDescriptor) -> (result:
        Result<usize, RequestContextError>)
        requires
            native.requests@.contains_key(self.raw),
        ensures
            result == native.context_slot(self.raw, module),
    {
        let index = match module_slot_index(native, module) {
            Ok(index) => index,
            Err(error) => return Err(RequestContextError::from(error)),
        };
        match &native.request(self.raw).ctx {
            Pointer::Null => Err(RequestContextError::MissingSlots),
            Pointer::Misaligned => Err(RequestContextError::MisalignedSlots),
            Pointer::To(_) => Ok(index),
        }
    }

    /// The context in a slot of this request.
    pub fn context_from_slot(&self, native: &NativeState, index: usize, align: usize) -> (result:
        Result<Option<usize>, RequestContextError>)
        requires
            native.has_slot(self.raw, index),
            align > 0,
        ensures
            result == (if native.slot(self.raw, index) == 0 {
                Ok::<Option<usize>, RequestContextError>(None)
            } else if native.slot(self.raw, index) % align != 0 {
                Err::<Option<usize>, RequestContextError>(RequestContextError::MisalignedContext)
            } else {
                Ok::<Option<usize>, RequestContextError>(Some(native.slot(self.raw, index)))
            }),
    {
        let context = native.slot_value(self.raw, index);
        if context == 0 {
            return Ok(None);
        }
        if context % align != 0 {
            return Err(RequestContextError::MisalignedContext);
        }
        Ok(Some(context))
    }

    /// Shared context that a module has in this request, by its address.
    pub fn module_context(&self, native: &NativeState, module: RequestContextModule) -> (result:
        Result<Option<usize>, RequestContextError>)
        requires
            native.context_ready(self.raw, module),
        ensures
            result == native.context_of(self.raw, module),
    {
        match self.module_context_slot(native, module.module) {
            Ok(index) => self.context_from_slot(native, index, module.align),
            Err(error) => Err(error),
        }
    }
}

/// A module context that was found or made.
#[derive(Debug)]
pub struct ContextEntry<T> {
    /// The context, by its address.
    pub address: usize,
    /// The value that was made for it, unless the context was there.
    pub created: Option<T>,
}

/// How a context was removed.
#[derive(Debug)]
pub struct ContextRemoval {
    /// Whether there was a context.
    pub removed: bool,
    /// The reference that is given up once the contexts were cancelled and dropped.
    pub hold: Option<ContextCancellationHold>,
    /// What is still to be cancelled and dropped.
    pub contexts: Vec<usize>,
}

impl ContextRemoval {
    /// Gives up the reference of a removal whose contexts were cancelled and dropped.
    pub fn release(self, native: &mut NativeState) -> (result: Option<NginxCall>)
        requires
            self.hold matches Some(hold) ==> old(native).requests@.contains_key(hold.main),
        ensures
            *final(native) == (NativeState { requests: final(native).requests, ..*old(native) }),
            match self.hold {
                None => result is None && final(native).requests@ == old(native).requests@,
                Some(hold) => (final(native).requests@, result) == old(native).released(
                    hold.request,
                    hold.main,
                ),
            },
    {
        match self.hold {
            None => None,
            Some(hold) => release_request_reference(native, hold.request, hold.main),
        }
    }
}

/// Whether a context is still the one that its slot publishes.
#[derive(Debug)]
pub enum ContextCurrency {
    /// The slot publishes the context.
    Current,
    /// The slot publishes another one; the stale contexts are to be cancelled.
    Displaced(ContextCancellation),
}

impl RequestRefMut {
    /// Verifies that `context` is still published in the module's request slot.
    ///
    /// A mismatch cancels every stale registered context.
    pub fn is_current_module_context(
        native: &mut NativeState,
        request: usize,
        module: ModuleDescriptor,
        context: usize,
    ) -> (result: Result<ContextCurrency, RequestContextError>)
        requires
            old(native).resolves(request),
            old(native).checked_request(request) is Ok ==> {
                &&& old(native).live(request)
                &&& old(native).holds_every_slot(old(native).requests@[request].ctx)
                &&& old(native).registry_ready(request)
            },
        ensures
            match old(native).checked_request(request) {
                Err(error) => {
                    &&& result matches Err(e) && e == RequestContextError::Request(error)
                    &&& final(native).unchanged(*old(native))
                },
                Ok(raw) => match old(native).context_slot(raw, module) {
                    Err(error) => {
                        &&& result matches Err(e) && e == error
                        &&& final(native).unchanged(*old(native))
                    },
                    Ok(index) => if old(native).slot(raw, index) == context {
                        &&& result matches Ok(ContextCurrency::Current)
                        &&& final(native).unchanged(*old(native))
                    } else {
                        match result {
                            Ok(ContextCurrency::Displaced(cancellation)) => final(
                                native).cancellation_begun(*old(native), raw, Ok(cancellation)),
                            Err(RequestContextError::Request(error)) => final(
                                native).cancellation_begun(*old(native), raw, Err(error)),
                            _ => false,
                        }
                    },
                },
            },
    {
        let raw = match checked_request_ptr(native, request) {
            Ok(raw) => raw,
            Err(error) => return Err(RequestContextError::from(error)),
        };
        let view = RequestRef { raw };
        let index = match view.module_context_slot(native, module) {
            Ok(index) => index,
            Err(error) => return Err(error),
        };
        if native.slot_value(raw, index) == context {
            return Ok(ContextCurrency::Current);
        }
        match cancel_stale_request_contexts(native, raw) {
            Ok(cancellation) => Ok(ContextCurrency::Displaced(cancellation)),
            Err(error) => Err(RequestContextError::from(error)),
        }
    }

    /// Shared context that a module has in this request, by its address.
    ///
    /// `settled` is how cancelling the request's stale contexts ended; where it is `Ok`, none is
    /// left.
    pub fn module_context(
        &self,
        native: &NativeState,
        module: RequestContextModule,
        settled: Result<(), RequestError>,
    ) -> (result: Result<Option<usize>, RequestContextError>)
        requires
            native.context_ready(self.raw, module),
            settled is Ok ==> native.contexts_settled(self.raw),
        ensures
            result == native.settled_context(self.raw, module, settled),
    {
        match settled {
            Ok(_) => self.view().module_context(native, module),
            Err(error) => Err(RequestContextError::from(error)),
        }
    }

    /// Exclusive access to a movable context of a module, by its address.
    ///
    /// `settled` is how cancelling the request's stale contexts ended; where it is `Ok`, none is
    /// left.
    pub fn module_context_mut(
        &mut self,
        native: &NativeState,
        module: RequestContextModule,
        settled: Result<(), RequestError>,
    ) -> (result: Result<Option<usize>, RequestContextError>)
        requires
            native.context_ready(old(self).raw, module),
            settled is Ok ==> native.contexts_settled(old(self).raw),
        ensures
            *final(self) == *old(self),
            result == native.settled_context(old(self).raw, module, settled),
    {
        self.module_context(native, module, settled)
    }

    /// Pinned exclusive access to a context of a module, by its address.
    ///
    /// `settled` is how cancelling the request's stale contexts ended; where it is `Ok`, none is
    /// left.
    pub fn pinned_module_context_mut(
        &mut self,
        native: &NativeState,
        module: RequestContextModule,
        settled: Result<(), RequestError>,
    ) -> (result: Result<Option<usize>, RequestContextError>)
        requires
            native.context_ready(old(self).raw, module),
            settled is Ok ==> native.contexts_settled(old(self).raw),
        ensures
            *final(self) == *old(self),
            result == native.settled_context(old(self).raw, module, settled),
    {
        self.module_context(native, module, settled)
    }
}

impl NativeState {
    /// Whether the request pool and main request of `raw` can be used.
    pub open spec fn owner_of(self, raw: usize) -> Result<(usize, usize), RequestError> {
        match self.pool_of(raw) {
            Err(error) => Err(error),
            Ok(pool) => match self.main_of(raw) {
                Err(error) => Err(error),
                Ok(main) => Ok((pool, main)),
            },
        }
    }

    /// Blocks that a new context takes from the pool at `pool`: a cleanup entry with the context,
    /// and another with the registry where there is none.
    pub open spec fn context_blocks(self, pool: usize) -> nat {
        if self.pools@[pool].registry is Some {
            2
        } else {
            4
        }
    }

    /// Whether the pool at `pool` has room for a new context.
    pub open spec fn admits_context(self, pool: usize) -> bool {
        &&& self.creation(pool) is Ok
        &&& self.pools@[pool].blocks@.len() >= self.context_blocks(pool)
    }

    /// Whether this state differs from `before` only in storage and identities that a refused
    /// context used up in the pool at `pool`.
    pub open spec fn context_refused(self, before: NativeState, pool: usize) -> bool {
        &&& self.requests@.dom() == before.requests@.dom()
        &&& forall|raw: usize| #[trigger]
            self.requests@.contains_key(raw) ==> {
                &&& self.requests@[raw] == (NativeRequest {
                    cleanup: self.requests@[raw].cleanup,
                    ..before.requests@[raw]
                })
                &&& self.requests@[raw].cleanup@ == before.requests@[raw].cleanup@
            }
        &&& self.pools@ == before.pools@.insert(pool, self.pools@[pool])
        &&& self.pools@[pool] == (NativePool {
            blocks: self.pools@[pool].blocks,
            ..before.pools@[pool]
        })
        &&& NativePool::spent_from(self.pools@[pool].blocks@, before.pools@[pool].blocks@)
        &&& self == (NativeState {
            requests: self.requests,
            pools: self.pools,
            next_owner: if before.pools@[pool].registry is None && before.next_owner < usize::MAX {
                (before.next_owner + 1) as usize
            } else {
                before.next_owner
            },
            ..before
        })
    }

    /// Whether this state is what publishing a new context of `raw` at slot `index` makes of
    /// `before`.
    pub open spec fn context_published(
        self,
        before: NativeState,
        raw: usize,
        index: usize,
        address: usize,
    ) -> bool {
        let pool = before.requests@[raw].pool;
        let main = before.requests@[raw].main;
        let created = before.pools@[pool].registry is None;
        let blocks = before.pools@[pool].blocks@;
        let registration = RequestContextRegistration {
            request: raw,
            index,
            context: address,
            active: true,
        };
        &&& address == blocks[blocks.len() - before.context_blocks(pool)]
        &&& self.slot(raw, index) == address
        &&& forall|r: usize, i: usize|
            before.has_slot(r, i) && !(r == raw && i == index) ==> #[trigger] self.slot(r, i)
                == before.slot(r, i)
        &&& self.requests@.dom() == before.requests@.dom()
        &&& forall|r: usize| #[trigger]
            self.requests@.contains_key(r) ==> {
                &&& self.requests@[r] == (NativeRequest {
                    ctx: self.requests@[r].ctx,
                    cleanup: self.requests@[r].cleanup,
                    ..before.requests@[r]
                })
                &&& match before.requests@[r].ctx {
                    Pointer::To(slots) => self.requests@[r].ctx matches Pointer::To(s) && s@.len()
                        == slots@.len(),
                    _ => self.requests@[r].ctx == before.requests@[r].ctx,
                }
                &&& self.requests@[r].cleanup@ == (if r == main && created {
                    seq![before.next_owner] + before.requests@[r].cleanup@
                } else {
                    before.requests@[r].cleanup@
                })
            }
        &&& self.pools@ == before.pools@.insert(pool, self.pools@[pool])
        &&& self.pools@[pool] == (NativePool {
            blocks: self.pools@[pool].blocks,
            registry: self.pools@[pool].registry,
            contexts: self.pools@[pool].contexts,
            ..before.pools@[pool]
        })
        &&& self.pools@[pool].blocks@ == NativePool::spend(blocks, before.context_blocks(pool))
        &&& self.pools@[pool].contexts@ == before.pools@[pool].contexts@.push(address)
        &&& self.pools@[pool].registry matches Some(registry) && match before.pools@[pool].registry {
            Some(old_registry) => {
                &&& registry == (RequestContextRegistry {
                    registrations: registry.registrations,
                    ..old_registry
                })
                &&& registry.registrations@ == old_registry.registrations@.push(registration)
            },
            None => {
                &&& registry.registrations@ == seq![registration]
                &&& registry.main == main
                &&& registry.owner == before.next_owner
                &&& registry.generation == 0
                &&& registry.next_client_body_read_id == 0
                &&& registry.client_body_read is None
            },
        }
        &&& self == (NativeState {
            requests: self.requests,
            pools: self.pools,
            next_owner: if created {
                (before.next_owner + 1) as usize
            } else {
                before.next_owner
            },
            ..before
        })
    }
}

/// Where a module's context is or can be made.
enum ContextPlace {
    /// The context is there.
    Present(usize),
    /// Storage for the context was taken from the pool.
    Reserved {
        index: usize,
        pool_address: usize,
        main: usize,
        address: usize,
        registry_created: bool,
    },
}

impl NativeState {
    /// How looking for a module's context, or for room to make it, ends.
    pub open spec fn insertion(
        self,
        raw: usize,
        module: RequestContextModule,
        settled: Result<(), RequestError>,
    ) -> Result<Option<usize>, RequestContextError> {
        match self.settled_context(raw, module, settled) {
            Err(error) => Err(error),
            Ok(Some(address)) => Ok(Some(address)),
            Ok(None) => match self.owner_of(raw) {
                Err(error) => Err(RequestContextError::Request(error)),
                Ok(owner) => if self.admits_context(owner.0) {
                    Ok(None)
                } else {
                    Err(RequestContextError::Allocation)
                },
            },
        }
    }

    /// Whether this state is what reserving storage for a context of `raw` makes of `before`.
    spec fn context_reserved(self, before: NativeState, raw: usize, address: usize) -> bool {
        let pool = before.requests@[raw].pool;
        let main = before.requests@[raw].main;
        let created = before.pools@[pool].registry is None;
        let blocks = before.pools@[pool].blocks@;
        &&& address == blocks[blocks.len() - before.context_blocks(pool)]
        &&& self.requests@.dom() == before.requests@.dom()
        &&& forall|r: usize| #[trigger]
            self.requests@.contains_key(r) ==> {
                &&& self.requests@[r] == (NativeRequest {
                    cleanup: self.requests@[r].cleanup,
                    ..before.requests@[r]
                })
                &&& self.requests@[r].cleanup@ == (if r == main && created {
                    seq![before.next_owner] + before.requests@[r].cleanup@
                } else {
                    before.requests@[r].cleanup@
                })
            }
        &&& self.pools@ == before.pools@.insert(pool, self.pools@[pool])
        &&& self.pools@[pool] == (NativePool {
            blocks: self.pools@[pool].blocks,
            registry: self.pools@[pool].registry,
            ..before.pools@[pool]
        })
        &&& self.pools@[pool].blocks@ == NativePool::spend(blocks, before.context_blocks(pool))
        &&& self.pools@[pool].registry matches Some(registry) && match before.pools@[pool].registry {
            Some(old_registry) => registry == old_registry,
            None => {
                &&& registry.registrations@.len() == 0
                &&& registry.main == main
                &&& registry.owner == before.next_owner
                &&& registry.generation == 0
                &&& registry.next_client_body_read_id == 0
                &&& registry.client_body_read is None
            },
        }
        &&& self == (NativeState {
            requests: self.requests,
            pools: self.pools,
            next_owner: if created {
                (before.next_owner + 1) as usize
            } else {
                before.next_owner
            },
            ..before
        })
    }
}

impl RequestRefMut {
    /// Finds a module's context, or reserves storage for it.
    fn prepare_context(
        &self,
        native: &mut NativeState,
        module: RequestContextModule,
        settled: Result<(), RequestError>,
    ) -> (result: Result<ContextPlace, RequestContextError>)
        requires
            old(native).live(self.raw),
            old(native).context_ready(self.raw, module),
            settled is Ok ==> old(native).contexts_settled(self.raw),
            old(native).pool_of(self.raw) is Ok ==> old(native).pool_resolves(self.raw),
        ensures
            match old(native).insertion(self.raw, module, settled) {
                Err(error) => {
                    &&& result matches Err(e) && e == error
                    &&& (old(native).settled_context(self.raw, module, settled) is Err
                        || old(native).owner_of(self.raw) is Err) ==> final(native).unchanged(
                        *old(native),
                    )
                    &&& (old(native).owner_of(self.raw) is Ok && error
                        == RequestContextError::Allocation) ==> final(native).context_refused(
                        *old(native),
                        old(native).requests@[self.raw].pool,
                    )
                },
                Ok(Some(address)) => {
                    &&& result matches Ok(ContextPlace::Present(a)) && a == address
                    &&& final(native).unchanged(*old(native))
                },
                Ok(None) => {
                    &&& result matches Ok(
                        ContextPlace::Reserved {
                            index,
                            pool_address,
                            main,
                            address,
                            registry_created,
                        },
                    ) && {
                        &&& Ok::<usize, RequestContextError>(index) == old(native).context_slot(
                            self.raw,
                            module.module,
                        )
                        &&& pool_address == old(native).requests@[self.raw].pool
                        &&& old(native).pools@.contains_key(pool_address)
                        &&& main == old(native).requests@[self.raw].main
                        &&& old(native).requests@.contains_key(main)
                        &&& registry_created == (old(native).pools@[pool_address].registry is None)
                        &&& final(native).context_reserved(*old(native), self.raw, address)
                    }
                },
            },
    {
        let view = self.view();
        match settled {
            Ok(_) => {},
            Err(error) => return Err(RequestContextError::from(error)),
        }
        let index = match view.module_context_slot(native, module.module) {
            Ok(index) => index,
            Err(error) => return Err(error),
        };
        match view.context_from_slot(native, index, module.align) {
            Ok(Some(address)) => return Ok(ContextPlace::Present(address)),
            Ok(None) => {},
            Err(error) => return Err(error),
        }
        let pool_address = match view.pool(native) {
            Ok(pool) => pool,
            Err(error) => return Err(RequestContextError::from(error)),
        };
        let main = match view.main_raw(native) {
            Ok(main) => main,
            Err(error) => return Err(RequestContextError::from(error)),
        };
        assert(native.resolves(native.requests@[self.raw].main));
        let ghost blocks = old(native).pools@[pool_address].blocks@;
        let registry_created = match get_or_create_request_context_registry(
            native,
            pool_address,
            main,
        ) {
            Ok(created) => created,
            Err(error) => {
                proof {
                    NativePool::lemma_spend(blocks, 0, 0);
                    assert(native.pools@ =~= old(native).pools@.insert(
                        pool_address,
                        native.pools@[pool_address],
                    ));
                }
                return Err(error);
            },
        };
        let ghost middle = *native;
        let mut pool = native.take_pool(pool_address);
        let entry = pool.allocate();
        let storage = if entry.is_some() {
            pool.allocate()
        } else {
            None
        };
        native.put_pool(pool_address, pool);
        proof {
            NativePool::lemma_spend(blocks, 2, 1);
            NativePool::lemma_spend(blocks, 2, 2);
            NativePool::lemma_spend(blocks, 3, 1);
            NativePool::lemma_spend(blocks, 1, 1);
            NativePool::lemma_spend(blocks, 0, 0);
            assert(native.pools@ =~= old(native).pools@.insert(
                pool_address,
                native.pools@[pool_address],
            ));
            assert(native.requests@.dom() =~= old(native).requests@.dom());
        }
        match storage {
            None => {
                let ghost full = *native;
                abandon_context(native, pool_address, main, registry_created);
                proof {
                    lemma_abandoned_is_refused(*old(native), full, *native, pool_address, main);
                }
                Err(RequestContextError::Allocation)
            },
            Some(address) => Ok(
                ContextPlace::Reserved { index, pool_address, main, address, registry_created },
            ),
        }
    }
}

/// Drops a registry that was made for a context which could not be made.
fn abandon_context(
    native: &mut NativeState,
    pool_address: usize,
    main: usize,
    registry_created: bool,
)
    requires
        old(native).pools@.contains_key(pool_address),
        old(native).pools@[pool_address].registry is Some,
        old(native).requests@.contains_key(main),
        registry_created ==> old(native).requests@[main].cleanup@.len() > 0 && old(
            native).requests@[main].cleanup@[0] == old(
            native).pools@[pool_address].registry->Some_0.owner,
    ensures
        *final(native) == (NativeState {
            requests: final(native).requests,
            pools: final(native).pools,
            ..*old(native)
        }),
        if registry_created {
            &&& final(native).pools@ == old(native).with_registry(pool_address, None)
            &&& final(native).requests@ == old(native).requests@.insert(
                main,
                final(native).requests@[main],
            )
            &&& final(native).requests@[main] == (NativeRequest {
                cleanup: final(native).requests@[main].cleanup,
                ..old(native).requests@[main]
            })
            &&& final(native).requests@[main].cleanup@ == old(
                native).requests@[main].cleanup@.drop_first()
        } else {
            final(native).unchanged(*old(native))
        },
{
    if registry_created {
        remove_request_context_registry(native, pool_address, main);
    }
}

/// A registry that was made for a refused context and dropped again leaves only used-up storage.
proof fn lemma_abandoned_is_refused(
    before: NativeState,
    middle: NativeState,
    after: NativeState,
    pool: usize,
    main: usize,
)
    requires
        before.pools@.contains_key(pool),
        before.requests@.contains_key(main),
        before.pools@[pool].registry is None ==> before.next_owner < usize::MAX,
        middle.requests@.dom() == before.requests@.dom(),
        forall|r: usize| #[trigger]
            middle.requests@.contains_key(r) ==> {
                &&& middle.requests@[r] == (NativeRequest {
                    cleanup: middle.requests@[r].cleanup,
                    ..before.requests@[r]
                })
                &&& middle.requests@[r].cleanup@ == (if r == main && before.pools@[pool].registry
                    is None {
                    seq![before.next_owner] + before.requests@[r].cleanup@
                } else {
                    before.requests@[r].cleanup@
                })
            },
        middle.pools@ == before.pools@.insert(pool, middle.pools@[pool]),
        middle.pools@[pool] == (NativePool {
            blocks: middle.pools@[pool].blocks,
            registry: middle.pools@[pool].registry,
            ..before.pools@[pool]
        }),
        before.pools@[pool].registry is Some ==> middle.pools@[pool].registry
            == before.pools@[pool].registry,
        NativePool::spent_from(middle.pools@[pool].blocks@, before.pools@[pool].blocks@),
        middle == (NativeState {
            requests: middle.requests,
            pools: middle.pools,
            next_owner: if before.pools@[pool].registry is None {
                (before.next_owner + 1) as usize
            } else {
                before.next_owner
            },
            ..before
        }),
        after == (NativeState { requests: after.requests, pools: after.pools, ..middle }),
        if before.pools@[pool].registry is None {
            &&& after.pools@ == middle.with_registry(pool, None)
            &&& after.requests@ == middle.requests@.insert(main, after.requests@[main])
            &&& after.requests@[main] == (NativeRequest {
                cleanup: after.requests@[main].cleanup,
                ..middle.requests@[main]
            })
            &&& after.requests@[main].cleanup@ == middle.requests@[main].cleanup@.drop_first()
        } else {
            after.unchanged(middle)
        },
    ensures
        after.context_refused(before, pool),
{
    assert(after.requests@.dom() =~= before.requests@.dom());
    assert(after.pools@ =~= before.pools@.insert(pool, after.pools@[pool]));
    assert(middle.requests@.contains_key(main));
    assert((seq![before.next_owner] + before.requests@[main].cleanup@).drop_first()
        =~= before.requests@[main].cleanup@);
    assert forall|raw: usize| #[trigger] after.requests@.contains_key(raw) implies {
        &&& after.requests@[raw] == (NativeRequest {
            cleanup: after.requests@[raw].cleanup,
            ..before.requests@[raw]
        })
        &&& after.requests@[raw].cleanup@ == before.requests@[raw].cleanup@
    } by {
        assert(middle.requests@.contains_key(raw));
    }
}

/// Registers a context and publishes it in its slot.
fn publish_context(
    native: &mut NativeState,
    raw: usize,
    index: usize,
    pool_address: usize,
    address: usize,
)
    requires
        old(native).pools@.contains_key(pool_address),
        old(native).pools@[pool_address].registry is Some,
        old(native).has_slot(raw, index),
    ensures
        (NativeState { pools: old(native).pools, ..*final(native) }).same_but_slots(*old(native)),
        final(native).slot(raw, index) == address,
        forall|r: usize, i: usize|
            old(native).has_slot(r, i) && !(r == raw && i == index) ==> #[trigger] final(
                native).slot(r, i) == old(native).slot(r, i),
        final(native).pools@ == old(native).pools@.insert(
            pool_address,
            final(native).pools@[pool_address],
        ),
        final(native).pools@[pool_address] == (NativePool {
            registry: final(native).pools@[pool_address].registry,
            contexts: final(native).pools@[pool_address].contexts,
            ..old(native).pools@[pool_address]
        }),
        final(native).pools@[pool_address].contexts@ == old(
            native).pools@[pool_address].contexts@.push(address),
        final(native).pools@[pool_address].registry matches Some(registry) && registry == (
        RequestContextRegistry {
            registrations: registry.registrations,
            ..old(native).pools@[pool_address].registry->Some_0
        }) && registry.registrations@ == old(
            native).pools@[pool_address].registry->Some_0.registrations@.push(
            RequestContextRegistration { request: raw, index, context: address, active: true },
        ),
{
    let mut pool = native.take_pool(pool_address);
    let mut registry = pool.registry.take().unwrap();
    registry.insert(
        RequestContextRegistration { request: raw, index, context: address, active: true },
    );
    pool.registry = Some(registry);
    pool.contexts.push(address);
    native.put_pool(pool_address, pool);
    let ghost middle = *native;
    native.set_slot(raw, index, address);
    proof {
        assert(native.pools@ =~= old(native).pools@.insert(
            pool_address,
            native.pools@[pool_address],
        ));
        assert forall|r: usize, i: usize|
            old(native).has_slot(r, i) && !(r == raw && i == index) implies #[trigger] native.slot(
            r,
            i,
        ) == old(native).slot(r, i) by {
            assert(middle.has_slot(r, i));
        }
        assert(middle.has_slot(raw, index));
    }
}

/// Reserving storage and then publishing is publishing.
proof fn lemma_reserved_then_published(
    before: NativeState,
    middle: NativeState,
    after: NativeState,
    raw: usize,
    index: usize,
    address: usize,
)
    requires
        middle.context_reserved(before, raw, address),
        before.has_slot(raw, index),
        (NativeState { pools: middle.pools, ..after }).same_but_slots(middle),
        after.slot(raw, index) == address,
        forall|r: usize, i: usize|
            middle.has_slot(r, i) && !(r == raw && i == index) ==> #[trigger] after.slot(r, i)
                == middle.slot(r, i),
        before.pools@.contains_key(before.requests@[raw].pool),
        after.pools@ == middle.pools@.insert(
            before.requests@[raw].pool,
            after.pools@[before.requests@[raw].pool],
        ),
        after.pools@[before.requests@[raw].pool] == (NativePool {
            registry: after.pools@[before.requests@[raw].pool].registry,
            contexts: after.pools@[before.requests@[raw].pool].contexts,
            ..middle.pools@[before.requests@[raw].pool]
        }),
        after.pools@[before.requests@[raw].pool].contexts@
            == middle.pools@[before.requests@[raw].pool].contexts@.push(address),
        after.pools@[before.requests@[raw].pool].registry matches Some(registry) && registry == (
        RequestContextRegistry {
            registrations: registry.registrations,
            ..middle.pools@[before.requests@[raw].pool].registry->Some_0
        }) && registry.registrations@
            == middle.pools@[before.requests@[raw].pool].registry->Some_0.registrations@.push(
            RequestContextRegistration { request: raw, index, context: address, active: true },
        ),
    ensures
        after.context_published(before, raw, index, address),
{
    let pool = before.requests@[raw].pool;
    assert(after.pools@ =~= before.pools@.insert(pool, after.pools@[pool]));
    assert forall|r: usize, i: usize|
        before.has_slot(r, i) && !(r == raw && i == index) implies #[trigger] after.slot(r, i)
        == before.slot(r, i) by {
        assert(middle.requests@.contains_key(r));
        assert(middle.has_slot(r, i));
        assert(middle.slot(r, i) == before.slot(r, i));
    }
    assert(after.requests@.dom() =~= before.requests@.dom());
    if before.pools@[pool].registry is None {
        assert(after.pools@[pool].registry->Some_0.registrations@ =~= seq![
            RequestContextRegistration { request: raw, index, context: address, active: true },
        ]);
    }
}

impl RequestRefMut {
    /// Returns a movable module context, inserting a pool-owned value when absent.
    ///
    /// `settled` is how cancelling the request's stale contexts ended; where it is `Ok`, none is
    /// left.
    pub fn get_or_insert_module_context_with<T, F: FnOnce() -> T>(
        &mut self,
        native: &mut NativeState,
        module: RequestContextModule,
        settled: Result<(), RequestError>,
        constructor: F,
    ) -> (result: Result<ContextEntry<T>, RequestContextError>)
        requires
            old(native).live(old(self).raw),
            old(native).context_ready(old(self).raw, module),
            settled is Ok ==> old(native).contexts_settled(old(self).raw),
            old(native).pool_of(old(self).raw) is Ok ==> old(native).pool_resolves(old(self).raw),
            constructor.requires(()),
        ensures
            *final(self) == *old(self),
            match old(native).insertion(old(self).raw, module, settled) {
                Err(error) => {
                    &&& result matches Err(e) && e == error
                    &&& (old(native).settled_context(old(self).raw, module, settled) is Err
                        || old(native).owner_of(old(self).raw) is Err) ==> final(native).unchanged(
                        *old(native),
                    )
                    &&& (old(native).owner_of(old(self).raw) is Ok && error
                        == RequestContextError::Allocation) ==> final(native).context_refused(
                        *old(native),
                        old(native).requests@[old(self).raw].pool,
                    )
                },
                Ok(Some(address)) => {
                    &&& result matches Ok(entry) && entry.address == address && entry.created is None
                    &&& final(native).unchanged(*old(native))
                },
                Ok(None) => {
                    &&& result matches Ok(entry) && entry.created matches Some(value)
                        && constructor.ensures((), value) && final(native).context_published(
                        *old(native),
                        old(self).raw,
                        old(native).context_slot(old(self).raw, module.module)->Ok_0,
                        entry.address,
                    )
                },
            },
    {
        self.get_or_insert_pinned_module_context_with(native, module, settled, constructor)
    }

    /// Returns a pinned module context, inserting a pool-owned value when absent.
    ///
    /// The slot is published only once the context, its registry entry, and its pool cleanup
    /// exist. `settled` is how cancelling the request's stale contexts ended; where it is `Ok`,
    /// none is left.
    pub fn get_or_insert_pinned_module_context_with<T, F: FnOnce() -> T>(
        &mut self,
        native: &mut NativeState,
        module: RequestContextModule,
        settled: Result<(), RequestError>,
        constructor: F,
    ) -> (result: Result<ContextEntry<T>, RequestContextError>)
        requires
            old(native).live(old(self).raw),
            old(native).context_ready(old(self).raw, module),
            settled is Ok ==> old(native).contexts_settled(old(self).raw),
            old(native).pool_of(old(self).raw) is Ok ==> old(native).pool_resolves(old(self).raw),
            constructor.requires(()),
        ensures
            *final(self) == *old(self),
            match old(native).insertion(old(self).raw, module, settled) {
                Err(error) => {
                    &&& result matches Err(e) && e == error
                    &&& (old(native).settled_context(old(self).raw, module, settled) is Err
                        || old(native).owner_of(old(self).raw) is Err) ==> final(native).unchanged(
                        *old(native),
                    )
                    &&& (old(native).owner_of(old(self).raw) is Ok && error
                        == RequestContextError::Allocation) ==> final(native).context_refused(
                        *old(native),
                        old(native).requests@[old(self).raw].pool,
                    )
                },
                Ok(Some(address)) => {
                    &&& result matches Ok(entry) && entry.address == address && entry.created is None
                    &&& final(native).unchanged(*old(native))
                },
                Ok(None) => {
                    &&& result matches Ok(entry) && entry.created matches Some(value)
                        && constructor.ensures((), value) && final(native).context_published(
                        *old(native),
                        old(self).raw,
                        old(native).context_slot(old(self).raw, module.module)->Ok_0,
                        entry.address,
                    )
                },
            },
    {
        let place = match self.prepare_context(native, module, settled) {
            Ok(place) => place,
            Err(error) => return Err(error),
        };
        match place {
            ContextPlace::Present(address) => Ok(ContextEntry { address, created: None }),
            ContextPlace::Reserved { index, pool_address, address, .. } => {
                let value = constructor();
                let ghost middle = *native;
                publish_context(native, self.raw, index, pool_address, address);
                proof {
                    lemma_reserved_then_published(
                        *old(native),
                        middle,
                        *native,
                        self.raw,
                        index,
                        address,
                    );
                }
                Ok(ContextEntry { address, created: Some(value) })
            },
        }
    }

    /// Returns a pinned module context, using a fallible constructor when it is absent.
    ///
    /// `settled` is how cancelling the request's stale contexts ended; where it is `Ok`, none is
    /// left.
    pub fn try_get_or_insert_pinned_module_context_with<T, E, F: FnOnce() -> Result<T, E>>(
        &mut self,
        native: &mut NativeState,
        module: RequestContextModule,
        settled: Result<(), RequestError>,
        constructor: F,
    ) -> (result: Result<ContextEntry<T>, RequestContextCreateError<E>>)
        requires
            old(native).live(old(self).raw),
            old(native).context_ready(old(self).raw, module),
            settled is Ok ==> old(native).contexts_settled(old(self).raw),
            old(native).pool_of(old(self).raw) is Ok ==> old(native).pool_resolves(old(self).raw),
            constructor.requires(()),
        ensures
            *final(self) == *old(self),
            match old(native).insertion(old(self).raw, module, settled) {
                Err(error) => {
                    &&& result matches Err(RequestContextCreateError::Context(e)) && e == error
                    &&& (old(native).settled_context(old(self).raw, module, settled) is Err
                        || old(native).owner_of(old(self).raw) is Err) ==> final(native).unchanged(
                        *old(native),
                    )
                    &&& (old(native).owner_of(old(self).raw) is Ok && error
                        == RequestContextError::Allocation) ==> final(native).context_refused(
                        *old(native),
                        old(native).requests@[old(self).raw].pool,
                    )
                },
                Ok(Some(address)) => {
                    &&& result matches Ok(entry) && entry.address == address && entry.created is None
                    &&& final(native).unchanged(*old(native))
                },
                Ok(None) => match result {
                    Ok(entry) => {
                        &&& entry.created matches Some(value) && constructor.ensures((), Ok(value))
                        &&& final(native).context_published(
                            *old(native),
                            old(self).raw,
                            old(native).context_slot(old(self).raw, module.module)->Ok_0,
                            entry.address,
                        )
                    },
                    Err(RequestContextCreateError::Construction(error)) => {
                        &&& constructor.ensures((), Err(error))
                        &&& final(native).context_refused(
                            *old(native),
                            old(native).requests@[old(self).raw].pool,
                        )
                    },
                    Err(RequestContextCreateError::Context(_)) => false,
                },
            },
    {
        let place = match self.prepare_context(native, module, settled) {
            Ok(place) => place,
            Err(error) => return Err(RequestContextCreateError::from(error)),
        };
        match place {
            ContextPlace::Present(address) => Ok(ContextEntry { address, created: None }),
            ContextPlace::Reserved { index, pool_address, main, address, registry_created } => {
                match constructor() {
                    Ok(value) => {
                        let ghost middle = *native;
                        publish_context(native, self.raw, index, pool_address, address);
                        proof {
                            lemma_reserved_then_published(
                                *old(native),
                                middle,
                                *native,
                                self.raw,
                                index,
                                address,
                            );
                        }
                        Ok(ContextEntry { address, created: Some(value) })
                    },
                    Err(error) => {
                        let ghost middle = *native;
                        abandon_context(native, pool_address, main, registry_created);
                        proof {
                            NativePool::lemma_spend(
                                old(native).pools@[pool_address].blocks@,
                                old(native).context_blocks(pool_address),
                                0,
                            );
                            lemma_abandoned_is_refused(
                                *old(native),
                                middle,
                                *native,
                                pool_address,
                                main,
                            );
                        }
                        Err(RequestContextCreateError::Construction(error))
                    },
                }
            },
        }
    }
}

impl NativeState {
    /// Whether this state is what detaching `context` from the pool at `pool` makes of `before`,
    /// with `contexts` left to end.
    pub open spec fn context_detached(
        self,
        before: NativeState,
        pool: usize,
        context: usize,
        contexts: Seq<usize>,
    ) -> bool {
        &&& (NativeState { pools: before.pools, ..self }).same_but_slots(before)
        &&& self.pools@ == before.pools@.insert(pool, self.pools@[pool])
        &&& self.pools@[pool] == (NativePool {
            contexts: self.pools@[pool].contexts,
            registry: self.pools@[pool].registry,
            ..before.pools@[pool]
        })
        &&& self.pools@[pool].contexts@ == without_first(before.pools@[pool].contexts@, context)
        &&& match before.pools@[pool].registry {
            None => {
                &&& self.pools@[pool].registry is None
                &&& contexts.len() == 0
                &&& self.requests@ == before.requests@
            },
            Some(registry) => {
                &&& self.pools@[pool].registry matches Some(after) && {
                    &&& after == (RequestContextRegistry {
                        registrations: after.registrations,
                        ..registry
                    })
                    &&& if registry.registers(context) {
                        exists|i: int|
                            {
                                &&& #[trigger] registry.first_of(context, i)
                                &&& after.registrations@ == registry.registrations@.remove(i)
                                &&& self.registration_ended(
                                    before,
                                    registry.registrations@[i],
                                    contexts,
                                )
                            }
                    } else {
                        &&& after.registrations@ == registry.registrations@
                        &&& contexts.len() == 0
                        &&& self.requests@ == before.requests@
                    }
                }
            },
        }
    }

    /// Whether this state is what ending `registration` makes of the slots of `before`.
    pub open spec fn registration_ended(
        self,
        before: NativeState,
        registration: RequestContextRegistration,
        contexts: Seq<usize>,
    ) -> bool {
        if registration.active {
            &&& contexts == seq![registration.context]
            &&& forall|r: usize, i: usize|
                before.has_slot(r, i) ==> #[trigger] self.slot(r, i) == (if registration.publishes(
                    before,
                    r,
                    i,
                ) {
                    0
                } else {
                    before.slot(r, i)
                })
        } else {
            contexts.len() == 0 && self.requests@ == before.requests@
        }
    }
}

/// Takes a context out of its pool's cleanup list, its registry and its slot.
///
/// Answers the context if its code is still to run: the module's cleanup code when nginx destroys
/// the pool, its cancel code otherwise.
pub fn detach_context(native: &mut NativeState, pool_address: usize, context: usize) -> (result: Vec<
    usize,
>)
    requires
        old(native).pools@.contains_key(pool_address),
        old(native).pools@[pool_address].registry matches Some(registry) ==> registry.slots_exist(
            *old(native),
        ),
    ensures
        final(native).context_detached(*old(native), pool_address, context, result@),
{
    let mut pool = native.take_pool(pool_address);
    let ghost linked = pool.contexts@;
    let mut index: usize = 0;
    while index < pool.contexts.len() && pool.contexts[index] != context
        invariant
            index <= pool.contexts@.len(),
            pool.contexts@ == linked,
            forall|i: int| 0 <= i < index ==> linked[i] != context,
        decreases pool.contexts@.len() - index,
    {
        index = index + 1;
    }
    proof {
        lemma_without_first(linked, context, index as int);
    }
    if index < pool.contexts.len() {
        pool.contexts.remove(index);
    }
    let mut contexts: Vec<usize> = Vec::new();
    let ghost taken = *native;
    match pool.registry.take() {
        None => {
            pool.registry = None;
        },
        Some(mut registry) => {
            let ghost found = registry;
            match registry.unlink(context) {
                None => {},
                Some(registration) => {
                    proof {
                        let i = choose|i: int|
                            #[trigger] found.first_of(context, i) && registration
                                == found.registrations@[i] && registry.registrations@
                                == found.registrations@.remove(i);
                        assert(found.registers(context));
                        if registration.active {
                            assert(found.registrations@[i].active);
                            assert(old(native).has_slot(registration.request, registration.index));
                            assert(taken.has_slot(registration.request, registration.index));
                        }
                    }
                    if registration.active {
                        native.clear_slot(registration.request, registration.index, context);
                        contexts.push(context);
                    }
                    proof {
                        let i = choose|i: int|
                            #[trigger] found.first_of(context, i) && registration
                                == found.registrations@[i] && registry.registrations@
                                == found.registrations@.remove(i);
                        if registration.active {
                            assert(contexts@ =~= seq![registration.context]);
                            assert forall|r: usize, j: usize| old(native).has_slot(
                                r,
                                j,
                            ) implies #[trigger] native.slot(r, j) == (if registration.publishes(
                                *old(native),
                                r,
                                j,
                            ) {
                                0
                            } else {
                                old(native).slot(r, j)
                            }) by {
                                assert(taken.has_slot(r, j));
                            }
                        }
                        assert(native.registration_ended(
                            *old(native),
                            found.registrations@[i],
                            contexts@,
                        ));
                    }
                },
            }
            pool.registry = Some(registry);
        },
    }
    let ghost ended = *native;
    native.put_pool(pool_address, pool);
    proof {
        assert(native.pools@ =~= old(native).pools@.insert(
            pool_address,
            native.pools@[pool_address],
        ));
        assert(forall|r: usize, j: usize| #[trigger] native.slot(r, j) == ended.slot(r, j));
    }
    contexts
}

impl RequestRefMut {
    /// Removes the module context when present.
    ///
    /// The removed context is to be cancelled and dropped by the caller. A context without its
    /// cleanup entry stays published. `settled` is how cancelling the request's stale contexts
    /// ended; where it is `Ok`, none is left.
    pub fn remove_module_context(
        &mut self,
        native: &mut NativeState,
        module: RequestContextModule,
        settled: Result<(), RequestError>,
    ) -> (result: Result<ContextRemoval, RequestContextError>)
        requires
            old(native).live(old(self).raw),
            old(native).context_ready(old(self).raw, module),
            settled is Ok ==> old(native).contexts_settled(old(self).raw),
            old(native).pool_of(old(self).raw) is Ok ==> old(native).registry_ready(old(self).raw),
        ensures
            *final(self) == *old(self),
            final(native).context_removed(*old(native), old(self).raw, module, settled, result),
    {
        match settled {
            Ok(_) => {},
            Err(error) => return Err(RequestContextError::from(error)),
        }
        let pool_address = match self.pool(native) {
            Ok(pool) => pool,
            Err(error) => return Err(RequestContextError::from(error)),
        };
        let context = match self.view().module_context(native, module) {
            Ok(Some(context)) => context,
            Ok(None) => {
                return Ok(
                    ContextRemoval {
                        removed: false,
                        hold: None,
                        contexts: Vec::new(),
                    },
                );
            },
            Err(error) => return Err(error),
        };
        let hold = match retain_request_for_context_cancellation(native, self.raw) {
            Ok(hold) => hold,
            Err(error) => return Err(RequestContextError::from(error)),
        };
        let ghost retained = *native;
        proof {
            lemma_counts_keep_slots(*old(native), *native, self.raw);
            assert(old(native).resolves(old(native).requests@[self.raw].main));
        }
        let pool = native.pool(pool_address);
        let mut index: usize = 0;
        while index < pool.contexts.len() && pool.contexts[index] != context
            invariant
                index <= pool.contexts@.len(),
                forall|i: int| 0 <= i < index ==> pool.contexts@[i] != context,
            decreases pool.contexts@.len() - index,
        {
            index = index + 1;
        }
        let linked = index < pool.contexts.len();
        assert(linked ==> pool.contexts@[index as int] == context);
        assert(linked == old(native).pools@[pool_address].contexts@.contains(context));
        if !linked {
            let ghost held = hold;
            if let Some(hold) = hold {
                release_request_reference(native, hold.request, hold.main);
            }
            proof {
                if held is Some && old(native).requests@[held->Some_0.main].pool != 0 {
                    law_retain_then_release_restores(*old(native), retained, self.raw);
                }
            }
            return Err(RequestContextError::MissingCleanup);
        }
        let contexts = detach_context(native, pool_address, context);
        proof {
            assert(retained.holds_for(*old(native), self.raw));
            assert(native.context_detached(
                retained,
                old(native).requests@[self.raw].pool,
                context,
                contexts@,
            ));
            assert(old(native).removal(self.raw, module, settled) == Ok::<
                Option<usize>,
                RequestContextError,
            >(Some(context)));
        }
        Ok(ContextRemoval { removed: true, hold, contexts })
    }
}

impl NativeState {
    /// Whether this state is what removing a module's context from `raw` makes of `before`.
    pub open spec fn context_removed(
        self,
        before: NativeState,
        raw: usize,
        module: RequestContextModule,
        settled: Result<(), RequestError>,
        result: Result<ContextRemoval, RequestContextError>,
    ) -> bool {
        match before.removal(raw, module, settled) {
            Err(error) => {
                &&& result matches Err(e) && e == error
                &&& if error == RequestContextError::MissingCleanup {
                    &&& self == (NativeState {
                        requests: self.requests,
                        pools: self.pools,
                        ..before
                    })
                    &&& self.pools@ == before.pools@
                    &&& self.requests@ == before.requests_after_refusal(raw)
                } else {
                    self.unchanged(before)
                }
            },
            Ok(None) => {
                &&& result matches Ok(removal) && !removal.removed && removal.hold
                    is None && removal.contexts@.len() == 0
                &&& self.unchanged(before)
            },
            Ok(Some(context)) => {
                &&& result matches Ok(removal) && removal.removed && Ok::<
                    Option<ContextCancellationHold>,
                    RequestError,
                >(removal.hold) == before.retained(raw).1 && self.detached_while_held(
                    before,
                    raw,
                    context,
                    removal.contexts@,
                )
            },
        }
    }

    /// Whether this state is `before` with a cancellation reference for `raw`.
    pub open spec fn holds_for(self, before: NativeState, raw: usize) -> bool {
        &&& self.requests@ == before.retained(raw).0
        &&& self == (NativeState { requests: self.requests, ..before })
    }

    /// Whether this state is what detaching a context while the request is held makes of `before`.
    pub open spec fn detached_while_held(
        self,
        before: NativeState,
        raw: usize,
        context: usize,
        contexts: Seq<usize>,
    ) -> bool {
        exists|middle: NativeState| #[trigger]
            middle.holds_for(before, raw) && self.context_detached(
                middle,
                before.requests@[raw].pool,
                context,
                contexts,
            )
    }

    /// The requests once a refused removal gave up its reference: a main request without its pool
    /// keeps the reference.
    pub open spec fn requests_after_refusal(self, raw: usize) -> Map<usize, NativeRequest> {
        match self.retained(raw).1 {
            Ok(Some(hold)) => if self.requests@[hold.main].pool == 0 {
                self.retained(raw).0
            } else {
                self.requests@
            },
            _ => self.requests@,
        }
    }

    /// The context that a removal takes out, or why it takes out none.
    pub open spec fn removal(
        self,
        raw: usize,
        module: RequestContextModule,
        settled: Result<(), RequestError>,
    ) -> Result<Option<usize>, RequestContextError> {
        match settled {
            Err(error) => Err(RequestContextError::Request(error)),
            Ok(_) => match self.pool_of(raw) {
                Err(error) => Err(RequestContextError::Request(error)),
                Ok(pool) => match self.context_of(raw, module) {
                    Err(error) => Err(error),
                    Ok(None) => Ok(None),
                    Ok(Some(context)) => match self.retained(raw).1 {
                        Err(error) => Err(RequestContextError::Request(error)),
                        Ok(_) => if self.pools@[pool].contexts@.contains(context) {
                            Ok(Some(context))
                        } else {
                            Err(RequestContextError::MissingCleanup)
                        },
                    },
                },
            },
        }
    }
}

impl MainRequestRefMut {
    /// Returns a shared view of the main request.
    pub fn view(&self) -> (result: RequestRef)
        ensures
            result == (RequestRef { raw: self.request.raw }),
    {
        self.request.view()
    }

    /// Exclusive access to a movable context of a module, by its address.
    ///
    /// `settled` is how cancelling the request's stale contexts ended; where it is `Ok`, none is
    /// left.
    pub fn module_context_mut(
        &mut self,
        native: &NativeState,
        module: RequestContextModule,
        settled: Result<(), RequestError>,
    ) -> (result: Result<Option<usize>, RequestContextError>)
        requires
            native.context_ready(old(self).request.raw, module),
            settled is Ok ==> native.contexts_settled(old(self).request.raw),
        ensures
            *final(self) == *old(self),
            result == native.settled_context(old(self).request.raw, module, settled),
    {
        self.request.module_context_mut(native, module, settled)
    }

    /// Pinned exclusive access to a context of a module, by its address.
    ///
    /// `settled` is how cancelling the request's stale contexts ended; where it is `Ok`, none is
    /// left.
    pub fn pinned_module_context_mut(
        &mut self,
        native: &NativeState,
        module: RequestContextModule,
        settled: Result<(), RequestError>,
    ) -> (result: Result<Option<usize>, RequestContextError>)
        requires
            native.context_ready(old(self).request.raw, module),
            settled is Ok ==> native.contexts_settled(old(self).request.raw),
        ensures
            *final(self) == *old(self),
            result == native.settled_context(old(self).request.raw, module, settled),
    {
        self.request.pinned_module_context_mut(native, module, settled)
    }

    /// Returns a movable main-request context, inserting a pool-owned value when absent.
    ///
    /// `settled` is how cancelling the request's stale contexts ended; where it is `Ok`, none is
    /// left.
    pub fn get_or_insert_module_context_with<T, F: FnOnce() -> T>(
        &mut self,
        native: &mut NativeState,
        module: RequestContextModule,
        settled: Result<(), RequestError>,
        constructor: F,
    ) -> (result: Result<ContextEntry<T>, RequestContextError>)
        requires
            old(native).live(old(self).request.raw),
            old(native).context_ready(old(self).request.raw, module),
            settled is Ok ==> old(native).contexts_settled(old(self).request.raw),
            old(native).pool_of(old(self).request.raw) is Ok ==> old(native).pool_resolves(old(self).request.raw),
            constructor.requires(()),
        ensures
            *final(self) == *old(self),
            match old(native).insertion(old(self).request.raw, module, settled) {
                Err(error) => {
                    &&& result matches Err(e) && e == error
                    &&& (old(native).settled_context(old(self).request.raw, module, settled) is Err
                        || old(native).owner_of(old(self).request.raw) is Err) ==> final(native).unchanged(
                        *old(native),
                    )
                    &&& (old(native).owner_of(old(self).request.raw) is Ok && error
                        == RequestContextError::Allocation) ==> final(native).context_refused(
                        *old(native),
                        old(native).requests@[old(self).request.raw].pool,
                    )
                },
                Ok(Some(address)) => {
                    &&& result matches Ok(entry) && entry.address == address && entry.created is None
                    &&& final(native).unchanged(*old(native))
                },
                Ok(None) => {
                    &&& result matches Ok(entry) && entry.created matches Some(value)
                        && constructor.ensures((), value) && final(native).context_published(
                        *old(native),
                        old(self).request.raw,
                        old(native).context_slot(old(self).request.raw, module.module)->Ok_0,
                        entry.address,
                    )
                },
            },
    {
        self.request.get_or_insert_module_context_with(native, module, settled, constructor)
    }

    /// Returns a pinned main-request context, inserting a pool-owned value when absent.
    ///
    /// `settled` is how cancelling the request's stale contexts ended; where it is `Ok`, none is
    /// left.
    pub fn get_or_insert_pinned_module_context_with<T, F: FnOnce() -> T>(
        &mut self,
        native: &mut NativeState,
        module: RequestContextModule,
        settled: Result<(), RequestError>,
        constructor: F,
    ) -> (result: Result<ContextEntry<T>, RequestContextError>)
        requires
            old(native).live(old(self).request.raw),
            old(native).context_ready(old(self).request.raw, module),
            settled is Ok ==> old(native).contexts_settled(old(self).request.raw),
            old(native).pool_of(old(self).request.raw) is Ok ==> old(native).pool_resolves(old(self).request.raw),
            constructor.requires(()),
        ensures
            *final(self) == *old(self),
            match old(native).insertion(old(self).request.raw, module, settled) {
                Err(error) => {
                    &&& result matches Err(e) && e == error
                    &&& (old(native).settled_context(old(self).request.raw, module, settled) is Err
                        || old(native).owner_of(old(self).request.raw) is Err) ==> final(native).unchanged(
                        *old(native),
                    )
                    &&& (old(native).owner_of(old(self).request.raw) is Ok && error
                        == RequestContextError::Allocation) ==> final(native).context_refused(
                        *old(native),
                        old(native).requests@[old(self).request.raw].pool,
                    )
                },
                Ok(Some(address)) => {
                    &&& result matches Ok(entry) && entry.address == address && entry.created is None
                    &&& final(native).unchanged(*old(native))
                },
                Ok(None) => {
                    &&& result matches Ok(entry) && entry.created matches Some(value)
                        && constructor.ensures((), value) && final(native).context_published(
                        *old(native),
                        old(self).request.raw,
                        old(native).context_slot(old(self).request.raw, module.module)->Ok_0,
                        entry.address,
                    )
                },
            },
    {
        self.request.get_or_insert_pinned_module_context_with(native, module, settled, constructor)
    }

    /// Returns a pinned main-request context, using a fallible constructor when absent.
    ///
    /// `settled` is how cancelling the request's stale contexts ended; where it is `Ok`, none is
    /// left.
    pub fn try_get_or_insert_pinned_module_context_with<T, E, F: FnOnce() -> Result<T, E>>(
        &mut self,
        native: &mut NativeState,
        module: RequestContextModule,
        settled: Result<(), RequestError>,
        constructor: F,
    ) -> (result: Result<ContextEntry<T>, RequestContextCreateError<E>>)
        requires
            old(native).live(old(self).request.raw),
            old(native).context_ready(old(self).request.raw, module),
            settled is Ok ==> old(native).contexts_settled(old(self).request.raw),
            old(native).pool_of(old(self).request.raw) is Ok ==> old(native).pool_resolves(old(self).request.raw),
            constructor.requires(()),
        ensures
            *final(self) == *old(self),
            match old(native).insertion(old(self).request.raw, module, settled) {
                Err(error) => {
                    &&& result matches Err(RequestContextCreateError::Context(e)) && e == error
                    &&& (old(native).settled_context(old(self).request.raw, module, settled) is Err
                        || old(native).owner_of(old(self).request.raw) is Err) ==> final(native).unchanged(
                        *old(native),
                    )
                    &&& (old(native).owner_of(old(self).request.raw) is Ok && error
                        == RequestContextError::Allocation) ==> final(native).context_refused(
                        *old(native),
                        old(native).requests@[old(self).request.raw].pool,
                    )
                },
                Ok(Some(address)) => {
                    &&& result matches Ok(entry) && entry.address == address && entry.created is None
                    &&& final(native).unchanged(*old(native))
                },
                Ok(None) => match result {
                    Ok(entry) => {
                        &&& entry.created matches Some(value) && constructor.ensures((), Ok(value))
                        &&& final(native).context_published(
                            *old(native),
                            old(self).request.raw,
                            old(native).context_slot(old(self).request.raw, module.module)->Ok_0,
                            entry.address,
                        )
                    },
                    Err(RequestContextCreateError::Construction(error)) => {
                        &&& constructor.ensures((), Err(error))
                        &&& final(native).context_refused(
                            *old(native),
                            old(native).requests@[old(self).request.raw].pool,
                        )
                    },
                    Err(RequestContextCreateError::Context(_)) => false,
                },
            },
    {
        self.request.try_get_or_insert_pinned_module_context_with(native, module, settled, constructor)
    }

    /// Removes the module context when present.
    ///
    /// `settled` is how cancelling the request's stale contexts ended; where it is `Ok`, none is
    /// left.
    pub fn remove_module_context(
        &mut self,
        native: &mut NativeState,
        module: RequestContextModule,
        settled: Result<(), RequestError>,
    ) -> (result: Result<ContextRemoval, RequestContextError>)
        requires
            old(native).live(old(self).request.raw),
            old(native).context_ready(old(self).request.raw, module),
            settled is Ok ==> old(native).contexts_settled(old(self).request.raw),
            old(native).pool_of(old(self).request.raw) is Ok ==> old(native).registry_ready(old(self).request.raw),
        ensures
            *final(self) == *old(self),
            final(native).context_removed(*old(native), old(self).request.raw, module, settled, result),
    {
        self.request.remove_module_context(native, module, settled)
    }
}

} // verus!
