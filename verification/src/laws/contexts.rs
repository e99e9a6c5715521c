//! Module contexts: what a slot leads to, how contexts come and go, and who cancels them.

use vstd::prelude::*;

use crate::laws::continuations::recounted;
use crate::native::{HttpConfigError, ModuleDescriptor, NativeRequest, NativeState, NginxCall};
use crate::request::context::{
    advance_request_generation, cancel_stale_request_contexts, clear_client_body_read,
    detach_context,
    get_or_create_request_context_registry, release_request_reference,
    remove_request_context_registry, request_context_generation,
    retain_request_for_context_cancellation, take_client_body_read,
    terminate_request_context_registry, without_first, CancellationOutcome, ClientBodyCallbackState,
    ContextCancellation, ContextCancellationHold, ContextCurrency, ContextEntry, ContextRemoval, ContextSelection,
    ContextWalk, RequestContextCreateError, RequestContextError, RequestContextModule,
    RequestContextRegistration, RequestContextRegistry,
};
use crate::request::continuation::RedirectOutcome;
use crate::request::view::{MainRequestRefMut, RequestError, RequestRef, RequestRefMut};
use crate::variable::HttpVariableRequest;

verus! {

/// Whether a module has a slot in the context array of a request.
pub open spec fn slotted(native: NativeState, raw: usize, module: ModuleDescriptor) -> bool {
    &&& module.type_ == 0x50545448
    &&& module.index < native.max_module
    &&& module.ctx_index < native.http_max_module
    &&& native.requests@[raw].ctx is To
}

/// What the slot of a module leads to.
pub open spec fn slot_content(native: NativeState, raw: usize, module: ModuleDescriptor) -> usize {
    native.requests@[raw].ctx->To_0@[module.ctx_index as int]
}

/// Whether `error` says why a module has no slot in the context array of a request.
pub open spec fn unslotted(
    native: NativeState,
    raw: usize,
    module: ModuleDescriptor,
    error: RequestContextError,
) -> bool {
    let registered = module.type_ == 0x50545448 && module.index < native.max_module
        && module.ctx_index < native.http_max_module;
    match error {
        RequestContextError::Configuration(HttpConfigError::WrongModuleType) => module.type_
            != 0x50545448,
        RequestContextError::Configuration(HttpConfigError::ModuleIndexOutOfBounds) => module.index
            >= native.max_module || module.ctx_index >= native.http_max_module,
        RequestContextError::MissingSlots => registered && native.requests@[raw].ctx is Null,
        RequestContextError::MisalignedSlots => registered
            && native.requests@[raw].ctx is Misaligned,
        _ => false,
    }
}

/// Whether `result` is the context that a module has for a request, if it has one.
pub open spec fn context_shown(
    native: NativeState,
    raw: usize,
    module: RequestContextModule,
    result: Result<Option<usize>, RequestContextError>,
) -> bool {
    let content = slot_content(native, raw, module.module);
    match result {
        Ok(None) => slotted(native, raw, module.module) && content == 0,
        Ok(Some(context)) => slotted(native, raw, module.module) && context == content && context
            != 0 && context % module.align == 0,
        Err(RequestContextError::MisalignedContext) => slotted(native, raw, module.module)
            && content != 0 && content % module.align != 0,
        Err(error) => unslotted(native, raw, module.module, error),
    }
}

/// Whether `result` is the context that a module has, once the stale contexts were cancelled; a
/// failure to cancel them is the failure to find it.
pub open spec fn settled_shown(
    native: NativeState,
    raw: usize,
    module: RequestContextModule,
    settled: Result<(), RequestError>,
    result: Result<Option<usize>, RequestContextError>,
) -> bool {
    &&& settled matches Err(error) ==> result == Err::<Option<usize>, RequestContextError>(
        RequestContextError::Request(error),
    )
    &&& settled is Ok ==> context_shown(native, raw, module, result)
}

/// A module's context is what its own slot of the request leads to, whichever view asks.
pub proof fn law_contexts_are_found_in_their_slot(
    native: NativeState,
    module: RequestContextModule,
    settled: Result<(), RequestError>,
    view: RequestRef,
    exclusive: RequestRefMut,
)
    ensures
        forall|result: Result<usize, RequestContextError>| #[trigger]
            call_ensures(RequestRef::module_context_slot, (&view, &native, module.module), result)
                ==> {
                &&& result matches Ok(index) ==> slotted(native, view.raw, module.module) && index
                    == module.module.ctx_index
                &&& result matches Err(error) ==> unslotted(
                    native,
                    view.raw,
                    module.module,
                    error,
                )
            },
        forall|index: usize, align: usize, result: Result<Option<usize>, RequestContextError>|
         #[trigger]
            call_ensures(RequestRef::context_from_slot, (&view, &native, index, align), result)
                && native.requests@[view.raw].ctx is To ==> {
                let content = native.requests@[view.raw].ctx->To_0@[index as int];
                &&& result is Err <==> content != 0 && content % align != 0
                &&& result matches Ok(found) ==> found == (if content == 0 {
                    None
                } else {
                    Some(content)
                })
                &&& result matches Err(error) ==> error == RequestContextError::MisalignedContext
            },
        forall|result: Result<Option<usize>, RequestContextError>| #[trigger]
            call_ensures(RequestRef::module_context, (&view, &native, module), result)
                ==> context_shown(native, view.raw, module, result),
        forall|result: Result<Option<usize>, RequestContextError>| #[trigger]
            call_ensures(
                RequestRefMut::module_context,
                (&exclusive, &native, module, settled),
                result,
            ) ==> settled_shown(native, exclusive.raw, module, settled, result),
        forall|request: &mut RequestRefMut, result: Result<Option<usize>, RequestContextError>|
         #[trigger]
            call_ensures(
                RequestRefMut::module_context_mut,
                (request, &native, module, settled),
                result,
            ) ==> settled_shown(native, request.raw, module, settled, result) && *final(request)
                == *request,
        forall|request: &mut RequestRefMut, result: Result<Option<usize>, RequestContextError>|
         #[trigger]
            call_ensures(
                RequestRefMut::pinned_module_context_mut,
                (request, &native, module, settled),
                result,
            ) ==> settled_shown(native, request.raw, module, settled, result) && *final(request)
                == *request,
        forall|request: &mut MainRequestRefMut, result: Result<Option<usize>, RequestContextError>|
         #[trigger]
            call_ensures(
                MainRequestRefMut::module_context_mut,
                (request, &native, module, settled),
                result,
            ) ==> settled_shown(native, request.request.raw, module, settled, result)
                && *final(request) == *request,
        forall|request: &mut MainRequestRefMut, result: Result<Option<usize>, RequestContextError>|
         #[trigger]
            call_ensures(
                MainRequestRefMut::pinned_module_context_mut,
                (request, &native, module, settled),
                result,
            ) ==> settled_shown(native, request.request.raw, module, settled, result)
                && *final(request) == *request,
        forall|
            evaluated: &mut HttpVariableRequest,
            result: Result<Option<usize>, RequestContextError>,
        | #[trigger]
            call_ensures(
                HttpVariableRequest::module_context_mut,
                (evaluated, &native, module, settled),
                result,
            ) ==> settled_shown(native, evaluated.request.raw, module, settled, result)
                && *final(evaluated) == *evaluated,
        forall|
            evaluated: &mut HttpVariableRequest,
            result: Result<Option<usize>, RequestContextError>,
        | #[trigger]
            call_ensures(
                HttpVariableRequest::pinned_module_context_mut,
                (evaluated, &native, module, settled),
                result,
            ) ==> settled_shown(native, evaluated.request.raw, module, settled, result)
                && *final(evaluated) == *evaluated,
{
}

/// Whether a module's context of a request came into being: its slot leads to it, the registry
/// remembers it behind all others, and the pool drops it with its other contexts. No other slot
/// changes.
pub open spec fn context_made(
    before: NativeState,
    after: NativeState,
    raw: usize,
    module: ModuleDescriptor,
    address: usize,
) -> bool {
    let pool = before.requests@[raw].pool;
    let registry = after.pools@[pool].registry->0;
    let earlier = if before.pools@[pool].registry is Some {
        before.pools@[pool].registry->0.registrations@
    } else {
        Seq::empty()
    };
    let needed: int = if before.pools@[pool].registry is Some {
        2
    } else {
        4
    };
    let blocks = before.pools@[pool].blocks@;
    &&& slot_content(after, raw, module) == address
    &&& blocks.len() >= needed && address == blocks[blocks.len() - needed]
    &&& after.pools@[pool].registry is Some
    &&& registry.registrations@.len() == earlier.len() + 1
    &&& registry.registrations@.drop_last() =~= earlier
    &&& registry.registrations@.last() == (RequestContextRegistration {
        request: raw,
        index: module.ctx_index,
        context: address,
        active: true,
    })
    &&& after.pools@[pool].contexts@ == before.pools@[pool].contexts@.push(address)
    &&& after.pools@[pool].blocks@.len() == blocks.len() - needed
    &&& before.pools@[pool].registry is Some ==> registry.generation
        == before.pools@[pool].registry->0.generation && registry.client_body_read
        == before.pools@[pool].registry->0.client_body_read
    &&& before.pools@[pool].registry is None ==> registry.generation == 0
        && registry.client_body_read is None && registry.main == before.requests@[raw].main
        && registry.owner == before.next_owner && after.next_owner == before.next_owner + 1
    &&& before.pools@[pool].registry is Some ==> after.next_owner == before.next_owner
    &&& forall|other: usize, index: usize|
        before.has_slot(other, index) && !(other == raw && index == module.ctx_index)
            ==> #[trigger] after.slot(other, index) == before.slot(other, index)
    &&& forall|other: usize|
        before.requests@.contains_key(other) ==> {
            let was = before.requests@[other];
            let now = #[trigger] after.requests@[other];
            &&& now == (NativeRequest { ctx: now.ctx, cleanup: now.cleanup, ..was })
            &&& now.cleanup@ == (if other == before.requests@[raw].main
                && before.pools@[pool].registry is None {
                seq![before.next_owner] + was.cleanup@
            } else {
                was.cleanup@
            })
        }
}

/// Whether what can be seen of the requests and pools is the same.
pub open spec fn undisturbed(before: NativeState, after: NativeState) -> bool {
    after.requests@ == before.requests@ && after.pools@ == before.pools@
}

/// Whether a pool has the blocks that a new context takes: two, and two more for a registry where
/// there is none, which also takes an owner.
pub open spec fn room_for(native: NativeState, pool: usize) -> bool {
    let blocks = native.pools@[pool].blocks@.len();
    if native.pools@[pool].registry is Some {
        blocks >= 2
    } else {
        blocks >= 4 && native.next_owner < usize::MAX
    }
}

/// Whether a module's context of a request was found, made or refused.
pub open spec fn context_had<T>(
    before: NativeState,
    after: NativeState,
    raw: usize,
    module: RequestContextModule,
    settled: Result<(), RequestError>,
    result: Result<ContextEntry<T>, RequestContextError>,
) -> bool {
    let pool = before.requests@[raw].pool;
    let content = slot_content(before, raw, module.module);
    let there = slotted(before, raw, module.module);
    &&& settled matches Err(error) ==> result is Err && result->Err_0
        == RequestContextError::Request(error) && undisturbed(before, after)
    &&& settled is Ok && there && content != 0 && content % module.align == 0 ==> {
        &&& result is Ok && result->Ok_0.address == content && result->Ok_0.created is None
        &&& undisturbed(before, after)
    }
    &&& settled is Ok && there && content != 0 && content % module.align != 0 ==> result is Err
        && result->Err_0 == RequestContextError::MisalignedContext && undisturbed(before, after)
    &&& settled is Ok && !there ==> result is Err && unslotted(
        before,
        raw,
        module.module,
        result->Err_0,
    ) && undisturbed(before, after)
    &&& settled is Ok && there && content == 0 ==> {
        &&& result matches Ok(entry) ==> entry.created is Some && context_made(
            before,
            after,
            raw,
            module.module,
            entry.address,
        )
        &&& result is Ok <==> pool != 0 && pool % 8 == 0 && before.main_of(raw) is Ok && room_for(
            before,
            pool,
        )
        &&& result is Err && pool != 0 && pool % 8 == 0 && before.main_of(raw) is Ok
            ==> result->Err_0 == RequestContextError::Allocation && slot_content(
            after,
            raw,
            module.module,
        ) == 0 && after.pools@[pool].contexts == before.pools@[pool].contexts
            && after.pools@[pool].registry == before.pools@[pool].registry
        &&& pool == 0 || pool % 8 != 0 || before.main_of(raw) is Err ==> result is Err
            && result->Err_0 is Request && undisturbed(before, after)
    }
}

/// A context that a module has is handed back as it is and nothing is constructed; one that it
/// lacks is constructed once and published. A refusal publishes nothing.
pub proof fn law_contexts_are_inserted_once<T, F: FnOnce() -> T>(
    module: RequestContextModule,
    settled: Result<(), RequestError>,
    constructor: F,
)
    requires
        module.align > 0,
    ensures
        forall|
            request: &mut RequestRefMut,
            native: &mut NativeState,
            result: Result<ContextEntry<T>, RequestContextError>,
        |
            #![trigger call_ensures(RequestRefMut::get_or_insert_module_context_with::<T, F>, (request, native, module, settled, constructor), result)]
            call_ensures(
                RequestRefMut::get_or_insert_module_context_with::<T, F>,
                (request, native, module, settled, constructor),
                result,
            ) && native.live(request.raw) ==> {
                &&& context_had(*native, *final(native), request.raw, module, settled, result)
                &&& result is Ok && result->Ok_0.created is Some ==> constructor.ensures(
                    (),
                    result->Ok_0.created->0,
                )
                &&& *final(request) == *request
            },
        forall|
            request: &mut RequestRefMut,
            native: &mut NativeState,
            result: Result<ContextEntry<T>, RequestContextError>,
        |
            #![trigger call_ensures(RequestRefMut::get_or_insert_pinned_module_context_with::<T, F>, (request, native, module, settled, constructor), result)]
            call_ensures(
                RequestRefMut::get_or_insert_pinned_module_context_with::<T, F>,
                (request, native, module, settled, constructor),
                result,
            ) && native.live(request.raw) ==> {
                &&& context_had(*native, *final(native), request.raw, module, settled, result)
                &&& result is Ok && result->Ok_0.created is Some ==> constructor.ensures(
                    (),
                    result->Ok_0.created->0,
                )
                &&& *final(request) == *request
            },
        forall|
            request: &mut MainRequestRefMut,
            native: &mut NativeState,
            result: Result<ContextEntry<T>, RequestContextError>,
        |
            #![trigger call_ensures(MainRequestRefMut::get_or_insert_module_context_with::<T, F>, (request, native, module, settled, constructor), result)]
            call_ensures(
                MainRequestRefMut::get_or_insert_module_context_with::<T, F>,
                (request, native, module, settled, constructor),
                result,
            ) && native.live(request.request.raw) ==> {
                &&& context_had(
                    *native,
                    *final(native),
                    request.request.raw,
                    module,
                    settled,
                    result,
                )
                &&& result is Ok && result->Ok_0.created is Some ==> constructor.ensures(
                    (),
                    result->Ok_0.created->0,
                )
            },
        forall|
            request: &mut MainRequestRefMut,
            native: &mut NativeState,
            result: Result<ContextEntry<T>, RequestContextError>,
        |
            #![trigger call_ensures(MainRequestRefMut::get_or_insert_pinned_module_context_with::<T, F>, (request, native, module, settled, constructor), result)]
            call_ensures(
                MainRequestRefMut::get_or_insert_pinned_module_context_with::<T, F>,
                (request, native, module, settled, constructor),
                result,
            ) && native.live(request.request.raw) ==> {
                &&& context_had(
                    *native,
                    *final(native),
                    request.request.raw,
                    module,
                    settled,
                    result,
                )
                &&& result is Ok && result->Ok_0.created is Some ==> constructor.ensures(
                    (),
                    result->Ok_0.created->0,
                )
            },
{
}

/// A constructor that fails publishes nothing and its error is handed back; otherwise a fallible
/// insertion does what any other does.
#[verifier::rlimit(60)]
#[verifier::spinoff_prover]
pub proof fn law_failed_constructors_publish_nothing<T, E, F: FnOnce() -> Result<T, E>>(
    module: RequestContextModule,
    settled: Result<(), RequestError>,
    constructor: F,
)
    requires
        module.align > 0,
    ensures
        forall|
            request: &mut RequestRefMut,
            native: &mut NativeState,
            result: Result<ContextEntry<T>, RequestContextCreateError<E>>,
        |
            #![trigger call_ensures(RequestRefMut::try_get_or_insert_pinned_module_context_with::<T, E, F>, (request, native, module, settled, constructor), result)]
            call_ensures(
                RequestRefMut::try_get_or_insert_pinned_module_context_with::<T, E, F>,
                (request, native, module, settled, constructor),
                result,
            ) && native.live(request.raw) ==> context_tried(
                *native,
                *final(native),
                request.raw,
                module,
                settled,
                constructor,
                result,
            ),
        forall|
            request: &mut MainRequestRefMut,
            native: &mut NativeState,
            result: Result<ContextEntry<T>, RequestContextCreateError<E>>,
        |
            #![trigger call_ensures(MainRequestRefMut::try_get_or_insert_pinned_module_context_with::<T, E, F>, (request, native, module, settled, constructor), result)]
            call_ensures(
                MainRequestRefMut::try_get_or_insert_pinned_module_context_with::<T, E, F>,
                (request, native, module, settled, constructor),
                result,
            ) && native.live(request.request.raw) ==> context_tried(
                *native,
                *final(native),
                request.request.raw,
                module,
                settled,
                constructor,
                result,
            ),
{
}

/// Whether a module's context was found, made, refused, or not made because its constructor failed.
pub open spec fn context_tried<T, E, F: FnOnce() -> Result<T, E>>(
    before: NativeState,
    after: NativeState,
    raw: usize,
    module: RequestContextModule,
    settled: Result<(), RequestError>,
    constructor: F,
    result: Result<ContextEntry<T>, RequestContextCreateError<E>>,
) -> bool {
    let pool = before.requests@[raw].pool;
    match result {
        Ok(entry) => {
            &&& context_had(before, after, raw, module, settled, Ok(entry))
            &&& entry.created matches Some(value) ==> constructor.ensures((), Ok(value))
        },
        Err(RequestContextCreateError::Context(error)) => context_had::<T>(
            before,
            after,
            raw,
            module,
            settled,
            Err(error),
        ),
        Err(RequestContextCreateError::Construction(error)) => {
            &&& constructor.ensures((), Err(error))
            &&& settled is Ok && slotted(before, raw, module.module) && slot_content(
                before,
                raw,
                module.module,
            ) == 0
            &&& slot_content(after, raw, module.module) == 0
            &&& after.pools@[pool].contexts == before.pools@[pool].contexts
            &&& after.pools@[pool].registry == before.pools@[pool].registry
        },
    }
}

/// Removing a context that a module has takes it out of the pool's contexts and out of the registry
/// and hands it out once for cancelling, under a hold on the request; without one nothing changes.
pub proof fn law_removals_take_their_own_context(
    module: RequestContextModule,
    settled: Result<(), RequestError>,
)
    requires
        module.align > 0,
    ensures
        forall|
            request: &mut RequestRefMut,
            native: &mut NativeState,
            result: Result<ContextRemoval, RequestContextError>,
        | #[trigger]
            call_ensures(
                RequestRefMut::remove_module_context,
                (request, native, module, settled),
                result,
            ) ==> context_gone(*native, *final(native), request.raw, module, settled, result)
                && *final(request) == *request,
        forall|
            request: &mut MainRequestRefMut,
            native: &mut NativeState,
            result: Result<ContextRemoval, RequestContextError>,
        | #[trigger]
            call_ensures(
                MainRequestRefMut::remove_module_context,
                (request, native, module, settled),
                result,
            ) ==> context_gone(
                *native,
                *final(native),
                request.request.raw,
                module,
                settled,
                result,
            ),
{
    assert forall|
        request: &mut RequestRefMut,
        native: &mut NativeState,
        result: Result<ContextRemoval, RequestContextError>,
    | #[trigger]
        call_ensures(
            RequestRefMut::remove_module_context,
            (request, native, module, settled),
            result,
        ) implies context_gone(*native, *final(native), request.raw, module, settled, result) by {
        lemma_context_gone(*native, *final(native), request.raw, module, settled, result);
    }
    assert forall|
        request: &mut MainRequestRefMut,
        native: &mut NativeState,
        result: Result<ContextRemoval, RequestContextError>,
    | #[trigger]
        call_ensures(
            MainRequestRefMut::remove_module_context,
            (request, native, module, settled),
            result,
        ) implies context_gone(
        *native,
        *final(native),
        request.request.raw,
        module,
        settled,
        result,
    ) by {
        lemma_context_gone(*native, *final(native), request.request.raw, module, settled, result);
    }
}

/// A removal takes out a module's own context.
proof fn lemma_context_gone(
    before: NativeState,
    after: NativeState,
    raw: usize,
    module: RequestContextModule,
    settled: Result<(), RequestError>,
    result: Result<ContextRemoval, RequestContextError>,
)
    requires
        module.align > 0,
        after.context_removed(before, raw, module, settled, result),
    ensures
        context_gone(before, after, raw, module, settled, result),
{
    let pool = before.requests@[raw].pool;
    if let Ok(Some(context)) = before.removal(raw, module, settled) {
        let held = choose|held: NativeState| #[trigger]
            held.holds_for(before, raw) && after.context_detached(
                held,
                pool,
                context,
                result->Ok_0.contexts@,
            );
        let contexts = before.pools@[pool].contexts@;
        assert forall|at: int|
            0 <= at < contexts.len() && (#[trigger] contexts[at]) == context && !contexts.take(
                at,
            ).contains(context) implies after.pools@[pool].contexts@ == contexts.remove(at) by {
            assert forall|i: int| 0 <= i < at implies contexts[i] != context by {
                assert(contexts.take(at)[i] == contexts[i]);
            }
            lemma_first_is_removed(contexts, context, at);
        }
        let main = before.requests@[raw].main;
        if before.requests@[main].count > 0 {
            assert(held.requests@.contains_key(main));
            assert(after.requests@.contains_key(main));
        }
        if let Some(registry) = before.pools@[pool].registry {
            if registry.registers(context) {
                let i = choose|i: int|
                    {
                        &&& #[trigger] registry.first_of(context, i)
                        &&& after.pools@[pool].registry->Some_0.registrations@
                            == registry.registrations@.remove(i)
                        &&& after.registration_ended(
                            held,
                            registry.registrations@[i],
                            result->Ok_0.contexts@,
                        )
                    };
                assert(registry.first_of(context, i));
            }
        }
    }
}

/// Whether a module's context of a request was removed, was not there, or could not be removed.
pub open spec fn context_gone(
    before: NativeState,
    after: NativeState,
    raw: usize,
    module: RequestContextModule,
    settled: Result<(), RequestError>,
    result: Result<ContextRemoval, RequestContextError>,
) -> bool {
    let pool = before.requests@[raw].pool;
    let content = slot_content(before, raw, module.module);
    let there = slotted(before, raw, module.module);
    let usable = settled is Ok && pool != 0 && pool % 8 == 0 && there;
    &&& settled matches Err(error) ==> result is Err && result->Err_0
        == RequestContextError::Request(error)
    &&& usable && content == 0 ==> result is Ok && !result->Ok_0.removed && result->Ok_0.hold is None
        && result->Ok_0.contexts@.len() == 0 && undisturbed(before, after)
    &&& usable && content != 0 && content % module.align != 0 ==> result is Err && result->Err_0
        == RequestContextError::MisalignedContext && undisturbed(before, after)
    &&& result is Ok && result->Ok_0.removed ==> {
        &&& usable && content != 0 && content % module.align == 0
        &&& before.pools@[pool].contexts@.contains(content)
        &&& result->Ok_0.contexts@.len() <= 1
        &&& result->Ok_0.contexts@.len() == 1 ==> result->Ok_0.contexts@[0] == content
        &&& forall|at: int|
            0 <= at < before.pools@[pool].contexts@.len() && (
            #[trigger] before.pools@[pool].contexts@[at]) == content
                && !before.pools@[pool].contexts@.take(at).contains(content)
                ==> after.pools@[pool].contexts@ == before.pools@[pool].contexts@.remove(at)
        &&& result->Ok_0.hold matches Some(hold) ==> {
            &&& hold.request == raw
            &&& hold.main == before.requests@[raw].main
            &&& after.requests@[hold.main].count == before.requests@[hold.main].count + 1
        }
        &&& result->Ok_0.hold is None <==> before.requests@[before.requests@[raw].main].count == 0
        &&& before.pools@[pool].registry is None ==> result->Ok_0.contexts@.len() == 0
    }
    &&& usable && content != 0 && content % module.align == 0
        && before.pools@[pool].contexts@.contains(content) && before.main_of(raw) is Ok
        && before.requests@[before.requests@[raw].main].count < 65535 ==> result is Ok
        && result->Ok_0.removed
    &&& usable && content != 0 && content % module.align == 0
        && !before.pools@[pool].contexts@.contains(content) && before.main_of(raw) is Ok
        && before.requests@[before.requests@[raw].main].count < 65535 ==> result is Err
        && result->Err_0 == RequestContextError::MissingCleanup && after.pools@ == before.pools@
    &&& result is Ok && !result->Ok_0.removed ==> usable && content == 0
    &&& usable && content != 0 && content % module.align == 0
        && !before.pools@[pool].contexts@.contains(content) ==> result is Err
}

/// A hold for cancelling adds one reference to a main request that still has some and room for one
/// more; one that has none is not held, and one that is full is refused.
pub proof fn law_cancellations_hold_the_main_request(raw: usize)
    ensures
        forall|
            state: &mut NativeState,
            result: Result<Option<ContextCancellationHold>, RequestError>,
        | #[trigger]
            call_ensures(retain_request_for_context_cancellation, (state, raw), result)
                && state.main_of(raw) is Ok && state.requests@.contains_key(
                state.requests@[raw].main,
            ) ==> {
                let main = state.requests@[raw].main;
                let count = state.requests@[main].count;
                &&& count == 0 ==> result == Ok::<Option<ContextCancellationHold>, RequestError>(
                    None,
                ) && final(state).requests@ == state.requests@
                &&& count == 65535 ==> result == Err::<
                    Option<ContextCancellationHold>,
                    RequestError,
                >(RequestError::ReferenceCountOverflow) && final(state).requests@
                    == state.requests@
                &&& 0 < count < 65535 ==> result is Ok && result->Ok_0 == Some(
                    ContextCancellationHold { request: raw, main },
                ) && recounted(*state, *final(state), main, count + 1)
            },
        forall|state: &mut NativeState, main: usize, call: Option<NginxCall>| #[trigger]
            call_ensures(release_request_reference, (state, raw, main), call) ==> {
                let count = state.requests@[main].count;
                let live = state.requests@[main].pool != 0;
                &&& call is Some <==> live && count == 1 && !state.requests@[main].terminated
                &&& call matches Some(asked) ==> asked == (NginxCall::FinalizeRequest {
                    request: raw,
                    status: (-4) as isize,
                })
                &&& live && count > 1 ==> final(state).requests@[main].count == count - 1
                &&& !(live && count > 1) ==> final(state).requests@ == state.requests@
            },
{
    assert forall|
        state: &mut NativeState,
        result: Result<Option<ContextCancellationHold>, RequestError>,
    | #[trigger]
        call_ensures(retain_request_for_context_cancellation, (state, raw), result)
            && state.main_of(raw) is Ok && state.requests@.contains_key(state.requests@[raw].main)
            && 0 < state.requests@[state.requests@[raw].main].count
            < 65535 implies final(state).requests@.dom() =~= state.requests@.dom() by {}
}

/// Whether a selection takes a registration: an active one, and for a selection of stale ones only
/// one whose slot does not lead to it any more.
pub open spec fn picked(
    selection: ContextSelection,
    registration: RequestContextRegistration,
    native: NativeState,
) -> bool {
    registration.active && (selection == ContextSelection::Active || native.slot(
        registration.request,
        registration.index,
    ) != registration.context)
}

/// A walk cancels registrations from the last to the first: each step takes the last one that the
/// selection takes among those that are left, marks it inactive and clears its slot if that still
/// leads to it. Nothing else changes, and a walk that finds none is over.
pub proof fn law_walks_cancel_one_at_a_time()
    ensures
        forall|walk: &mut ContextWalk, native: &mut NativeState, result: Option<usize>| #[trigger]
            call_ensures(ContextWalk::cancel_next, (walk, native), result) ==> step_taken(
                *walk,
                *final(walk),
                *native,
                *final(native),
                result,
            ),
        forall|
            cancellation: &mut ContextCancellation,
            native: &mut NativeState,
            result: Option<usize>,
        | #[trigger]
            call_ensures(ContextCancellation::cancel_next, (cancellation, native), result)
                ==> step_taken(
                cancellation.walk,
                final(cancellation).walk,
                *native,
                *final(native),
                result,
            ) && final(cancellation).hold == cancellation.hold,
{
    assert forall|selection: ContextSelection, registration: RequestContextRegistration, native: NativeState|
        #[trigger] selection.takes(registration, native) == picked(selection, registration, native) by {}
    assert forall|walk: &mut ContextWalk, native: &mut NativeState, result: Option<usize>| #[trigger]
        call_ensures(ContextWalk::cancel_next, (walk, native), result) implies step_taken(
        *walk,
        *final(walk),
        *native,
        *final(native),
        result,
    ) by {
        lemma_step_taken(*walk, *final(walk), *native, *final(native), result);
    }
    assert forall|
        cancellation: &mut ContextCancellation,
        native: &mut NativeState,
        result: Option<usize>,
    | #[trigger]
        call_ensures(ContextCancellation::cancel_next, (cancellation, native), result) implies step_taken(
        cancellation.walk,
        final(cancellation).walk,
        *native,
        *final(native),
        result,
    ) by {
        lemma_step_taken(
            cancellation.walk,
            final(cancellation).walk,
            *native,
            *final(native),
            result,
        );
    }
}

/// The last registration that a selection takes is taken, and none behind it is.
proof fn lemma_latest(
    registrations: Seq<RequestContextRegistration>,
    native: NativeState,
    selection: ContextSelection,
)
    ensures
        match crate::request::context::latest_selected(registrations, native, selection) {
            None => forall|i: int|
                0 <= i < registrations.len() ==> !picked(
                    selection,
                    #[trigger] registrations[i],
                    native,
                ),
            Some(index) => {
                &&& 0 <= index < registrations.len()
                &&& picked(selection, registrations[index], native)
                &&& forall|i: int|
                    index < i < registrations.len() ==> !picked(
                        selection,
                        #[trigger] registrations[i],
                        native,
                    )
            },
        },
    decreases registrations.len(),
{
    if registrations.len() > 0 {
        lemma_latest(registrations.drop_last(), native, selection);
        assert forall|i: int| 0 <= i < registrations.len() - 1 implies registrations.drop_last()[i]
            == #[trigger] registrations[i] by {}
    }
}

/// Cancelling the next context is one step of a walk.
proof fn lemma_step_taken(
    walk: ContextWalk,
    walked: ContextWalk,
    native: NativeState,
    after: NativeState,
    result: Option<usize>,
)
    requires
        after.context_cancelled(native, walk, walked, result),
    ensures
        step_taken(walk, walked, native, after, result),
{
    if native.pools@[walk.pool].registry is Some {
        let registry = native.pools@[walk.pool].registry->0;
        let taken = registry.registrations@.take(walk.left(registry));
        if walk.next is Some && registry.registers(walk.next->0) {
            let place = choose|i: int| #[trigger] registry.first_of(walk.next->0, i);
            registry.lemma_count_to(walk.next->0, place);
        }
        assert(0 <= walk.left(registry) <= registry.registrations@.len());
        lemma_latest(taken, native, walk.selection);
        assert forall|i: int| 0 <= i < walk.left(registry) implies taken[i]
            == #[trigger] registry.registrations@[i] by {}
    }
}

/// Whether a walk took one step from one state to another.
pub open spec fn step_taken(
    walk: ContextWalk,
    walked: ContextWalk,
    native: NativeState,
    after: NativeState,
    result: Option<usize>,
) -> bool {
    let registry = native.pools@[walk.pool].registry->0;
    let registrations = registry.registrations@;
    let left = walk.left(registry);
    let now = after.pools@[walk.pool].registry->0.registrations@;
    &&& walked.pool == walk.pool
    &&& walked.selection == walk.selection
    &&& result is None ==> {
        &&& walked.next is None
        &&& walked.cancelled == walk.cancelled
        &&& undisturbed(native, after)
        &&& native.pools@[walk.pool].registry is Some ==> forall|i: int|
            0 <= i < left ==> !picked(walk.selection, #[trigger] registrations[i], native)
    }
    &&& result is Some ==> {
        &&& native.pools@[walk.pool].registry is Some
        &&& walked.cancelled
        &&& exists|index: int|
            #![trigger registrations[index]]
            {
                &&& 0 <= index < left
                &&& registrations[index].context == result->0
                &&& picked(walk.selection, registrations[index], native)
                &&& forall|i: int|
                    index < i < left ==> !picked(walk.selection, #[trigger] registrations[i], native)
                &&& walked.next == (if index == 0 {
                    None
                } else {
                    Some(registrations[index - 1].context)
                })
                &&& now.len() == registrations.len()
                &&& !now[index].active
                &&& now[index].context == registrations[index].context
                &&& forall|i: int|
                    0 <= i < registrations.len() && i != index ==> #[trigger] now[i]
                        == registrations[i]
                &&& forall|request: usize, slot: usize|
                    native.has_slot(request, slot) ==> #[trigger] after.slot(request, slot) == (
                    if request == registrations[index].request && slot
                        == registrations[index].index && native.slot(request, slot)
                        == registrations[index].context {
                        0
                    } else {
                        native.slot(request, slot)
                    })
            }
    }
}

/// Cancelling the stale contexts of a request begins at its newest registration, under a hold on the
/// request where there is a registry; the generation advances exactly if a context was cancelled.
pub proof fn law_cancellations_begin_at_the_newest(raw: usize, cancellation: ContextCancellation)
    ensures
        forall|native: &mut NativeState, result: Result<ContextCancellation, RequestError>|
         #[trigger]
            call_ensures(cancel_stale_request_contexts, (native, raw), result) ==> {
                let pool = native.requests@[raw].pool;
                let registered = pool != 0 && native.pools@[pool].registry is Some;
                let registrations = native.pools@[pool].registry->0.registrations@;
                &&& result matches Ok(begun) ==> {
                    &&& begun.walk.pool == pool
                    &&& begun.walk.selection == ContextSelection::Stale
                    &&& !begun.walk.cancelled
                    &&& !registered ==> begun.walk.next is None && begun.hold is None
                    &&& registered ==> begun.walk.next == (if registrations.len() == 0 {
                        None
                    } else {
                        Some(registrations.last().context)
                    })
                    &&& begun.hold matches Some(hold) ==> hold.request == raw
                }
                &&& !registered ==> result is Ok && undisturbed(*native, *final(native))
                &&& result is Err ==> undisturbed(*native, *final(native))
                &&& final(native).pools@ == native.pools@
                &&& registered ==> match native.main_of(raw) {
                    Err(error) => result == Err::<ContextCancellation, RequestError>(error),
                    Ok(main) => {
                        let count = native.requests@[main].count;
                        &&& count == 65535 ==> result == Err::<ContextCancellation, RequestError>(
                            RequestError::ReferenceCountOverflow,
                        )
                        &&& count < 65535 ==> result is Ok
                        &&& count == 0 ==> result->Ok_0.hold is None
                        &&& 0 < count < 65535 ==> result->Ok_0.hold == Some(
                            ContextCancellationHold { request: raw, main },
                        ) && final(native).requests@[main].count == count + 1
                    },
                }
            },
        forall|native: &mut NativeState, outcome: CancellationOutcome| #[trigger]
            call_ensures(ContextCancellation::finish, (cancellation, native), outcome) ==> {
                let pool = cancellation.walk.pool;
                let before = native.pools@[pool].registry;
                let after = final(native).pools@[pool].registry;
                &&& cancellation.walk.cancelled && before is Some && native.pools@.contains_key(pool)
                    ==> after is Some && after->0 == (RequestContextRegistry {
                    generation: after->0.generation,
                    ..before->0
                }) && follows(before->0.generation, after->0.generation)
                &&& !cancellation.walk.cancelled || before is None ==> final(native).pools@
                    == native.pools@
                &&& cancellation.hold is None ==> outcome.settled is Ok && outcome.call is None
                    && final(native).requests@ == native.requests@
                &&& cancellation.hold matches Some(hold) ==> {
                    &&& outcome.settled is Err <==> native.requests@[hold.main].count == 1
                    &&& outcome.settled matches Err(error) ==> error == RequestError::MissingPool
                    &&& outcome.call is Some ==> outcome.call->0 == (NginxCall::FinalizeRequest {
                        request: hold.request,
                        status: (-4) as isize,
                    })
                }
            },
{
}

/// Whether `next` is the number after `last`; the number after the largest is 0.
pub open spec fn follows(last: u64, next: u64) -> bool {
    if last == 0xffff_ffff_ffff_ffff {
        next == 0
    } else {
        next == last + 1
    }
}

/// The generation of a request advances by one, and nothing else of its registry changes.
pub proof fn law_generations_advance_by_one(raw: usize)
    ensures
        forall|registry: &mut RequestContextRegistry, result: ()| #[trigger]
            call_ensures(RequestContextRegistry::advance_generation, (registry,), result) ==> {
                &&& follows(registry.generation, final(registry).generation)
                &&& *final(registry) == (RequestContextRegistry {
                    generation: final(registry).generation,
                    ..*registry
                })
            },
        forall|native: &mut NativeState, result: ()| #[trigger]
            call_ensures(advance_request_generation, (native, raw), result) ==> {
                let pool = native.requests@[raw].pool;
                let before = native.pools@[pool].registry;
                let after = final(native).pools@[pool].registry;
                &&& pool == 0 || before is None ==> final(native).pools@ == native.pools@
                &&& pool != 0 && before is Some ==> {
                    &&& after is Some && follows(before->0.generation, after->0.generation)
                    &&& after->0 == (RequestContextRegistry {
                        generation: after->0.generation,
                        ..before->0
                    })
                }
                &&& final(native).requests == native.requests
            },
{
}

/// A registry keeps its registrations in the order in which they came; unlinking takes out the first
/// of a context and keeps the others in their order.
pub proof fn law_registries_keep_their_order(
    registration: RequestContextRegistration,
    context: usize,
    native: NativeState,
)
    ensures
        forall|registry: &mut RequestContextRegistry, result: ()| #[trigger]
            call_ensures(RequestContextRegistry::insert, (registry, registration), result) ==> {
                &&& final(registry).registrations@.len() == registry.registrations@.len() + 1
                &&& final(registry).registrations@.last() == registration
                &&& final(registry).registrations@.drop_last() =~= registry.registrations@
                &&& final(registry).generation == registry.generation
                &&& final(registry).client_body_read == registry.client_body_read
            },
        forall|registry: &RequestContextRegistry, result: bool| #[trigger]
            call_ensures(RequestContextRegistry::has_stale, (registry, &native), result) ==> (result
                <==> exists|i: int|
                0 <= i < registry.registrations@.len() && picked(
                    ContextSelection::Stale,
                    #[trigger] registry.registrations@[i],
                    native,
                )),
        forall|registry: &RequestContextRegistry, result: usize| #[trigger]
            call_ensures(RequestContextRegistry::place, (registry, context), result) ==> {
                &&& result <= registry.registrations@.len()
                &&& result == 0 ==> forall|i: int|
                    0 <= i < registry.registrations@.len() ==> (
                    #[trigger] registry.registrations@[i]).context != context
                &&& result > 0 ==> {
                    &&& registry.registrations@[result - 1].context == context
                    &&& forall|i: int|
                        0 <= i < result - 1 ==> (#[trigger] registry.registrations@[i]).context
                            != context
                }
            },
        forall|
            registry: &mut RequestContextRegistry,
            result: Option<RequestContextRegistration>,
        | #[trigger]
            call_ensures(RequestContextRegistry::unlink, (registry, context), result) ==> {
                &&& result is None ==> final(registry).registrations@ == registry.registrations@
                    && forall|i: int|
                    0 <= i < registry.registrations@.len() ==> (
                    #[trigger] registry.registrations@[i]).context != context
                &&& result matches Some(taken) ==> taken.context == context
                    && final(registry).registrations@.len() == registry.registrations@.len() - 1
            },
{
    assert forall|registry: &RequestContextRegistry, result: usize| #[trigger]
        call_ensures(RequestContextRegistry::place, (registry, context), result) implies {
        &&& result == 0 ==> forall|i: int|
            0 <= i < registry.registrations@.len() ==> (
            #[trigger] registry.registrations@[i]).context != context
        &&& result > 0 ==> {
            &&& registry.registrations@[result - 1].context == context
            &&& forall|i: int|
                0 <= i < result - 1 ==> (#[trigger] registry.registrations@[i]).context != context
        }
    } by {
        lemma_registered(*registry, context);
        if registry.registers(context) {
            let place = choose|i: int| #[trigger] registry.first_of(context, i);
            registry.lemma_count_to(context, place);
        }
    }
    assert forall|
        registry: &mut RequestContextRegistry,
        result: Option<RequestContextRegistration>,
    | #[trigger]
        call_ensures(RequestContextRegistry::unlink, (registry, context), result)
            && result is None implies forall|i: int|
        0 <= i < registry.registrations@.len() ==> (#[trigger] registry.registrations@[i]).context
            != context by {
        lemma_registered(*registry, context);
    }
    assert forall|registry: &RequestContextRegistry, i: int|
        0 <= i < registry.registrations@.len() implies (
    #[trigger] registry.registrations@[i]).stale(native) == picked(
        ContextSelection::Stale,
        registry.registrations@[i],
        native,
    ) by {}
}

/// A context that stands in a registry is registered there.
proof fn lemma_registered(registry: RequestContextRegistry, context: usize)
    ensures
        registry.registers(context) <==> exists|i: int|
            0 <= i < registry.registrations@.len() && (
            #[trigger] registry.registrations@[i]).context == context,
{
    if exists|i: int|
        0 <= i < registry.registrations@.len() && (#[trigger] registry.registrations@[i]).context
            == context {
        let some = choose|i: int|
            0 <= i < registry.registrations@.len() && (
            #[trigger] registry.registrations@[i]).context == context;
        lemma_first(registry, context, some);
    }
    if registry.registers(context) {
        let first = choose|i: int| #[trigger] registry.first_of(context, i);
        assert(registry.registrations@[first].context == context);
    }
}

/// Among the registrations up to one with a context, one is the first with that context.
proof fn lemma_first(registry: RequestContextRegistry, context: usize, at: int)
    requires
        0 <= at < registry.registrations@.len(),
        registry.registrations@[at].context == context,
    ensures
        registry.registers(context),
    decreases at,
{
    if exists|i: int| 0 <= i < at && (#[trigger] registry.registrations@[i]).context == context {
        let earlier = choose|i: int|
            0 <= i < at && (#[trigger] registry.registrations@[i]).context == context;
        lemma_first(registry, context, earlier);
    } else {
        assert(registry.first_of(context, at));
    }
}

/// Setting a slot changes that slot alone; clearing does so only while the slot leads to the given
/// context.
pub proof fn law_slots_of_requests_change_alone(
    request: usize,
    index: usize,
    value: usize,
    other: usize,
    slot: usize,
)
    ensures
        forall|native: &mut NativeState, result: ()| #[trigger]
            call_ensures(NativeState::set_slot, (native, request, index, value), result)
                && native.has_slot(other, slot) ==> final(native).slot(other, slot) == (if other
                == request && slot == index {
                value
            } else {
                native.slot(other, slot)
            }),
        forall|native: &mut NativeState, result: ()| #[trigger]
            call_ensures(NativeState::clear_slot, (native, request, index, value), result)
                && native.has_slot(other, slot) ==> final(native).slot(other, slot) == (if other
                == request && slot == index && native.slot(other, slot) == value {
                0
            } else {
                native.slot(other, slot)
            }),
        forall|native: &NativeState, result: usize| #[trigger]
            call_ensures(NativeState::slot_value, (native, request, index), result)
                && native.requests@[request].ctx is To ==> result
                == native.requests@[request].ctx->To_0@[index as int],
        forall|native: NativeState| #[trigger]
            native.has_slot(request, index) ==> native.requests@[request].ctx is To && index
                < native.requests@[request].ctx->To_0@.len() && native.slot(request, index)
                == native.requests@[request].ctx->To_0@[index as int],
{
}

/// A pending body read is taken out by its own callback alone, and is current exactly if the
/// generation is still the one in which it began.
pub proof fn law_body_reads_are_taken_by_their_callback(raw: usize, callback: usize, id: u64)
    ensures
        forall|native: &mut NativeState, result: ClientBodyCallbackState| #[trigger]
            call_ensures(take_client_body_read, (native, raw, callback), result) ==> {
                let pool = native.requests@[raw].pool;
                let registry = native.pools@[pool].registry->0;
                let read = registry.client_body_read->0;
                let own = pool != 0 && native.pools@[pool].registry is Some
                    && registry.client_body_read is Some && read.callback == callback;
                &&& result == ClientBodyCallbackState::Current <==> own && read.generation
                    == registry.generation
                &&& result == ClientBodyCallbackState::Stale <==> own && read.generation
                    != registry.generation
                &&& result == ClientBodyCallbackState::Missing <==> !own
                &&& own ==> final(native).pools@[pool].registry == Some(
                    RequestContextRegistry { client_body_read: None, ..registry },
                )
                &&& !own ==> final(native).pools@ == native.pools@
                &&& final(native).requests == native.requests
            },
        forall|native: &mut NativeState, result: ()| #[trigger]
            call_ensures(clear_client_body_read, (native, raw, id, callback), result) ==> {
                let pool = native.requests@[raw].pool;
                let registry = native.pools@[pool].registry->0;
                let read = registry.client_body_read->0;
                let own = pool != 0 && native.pools@[pool].registry is Some
                    && registry.client_body_read is Some && read.callback == callback && read.id
                    == id;
                &&& own ==> final(native).pools@[pool].registry == Some(
                    RequestContextRegistry { client_body_read: None, ..registry },
                )
                &&& !own ==> final(native).pools@ == native.pools@
                &&& final(native).requests == native.requests
            },
{
}

/// A registry is created where there is none, as an empty one of the main request whose cleanup
/// comes before the others of that request; removing it takes both away again.
pub proof fn law_registries_are_created_once(pool: usize, main: usize)
    ensures
        forall|native: &mut NativeState, result: Result<bool, RequestContextError>| #[trigger]
            call_ensures(get_or_create_request_context_registry, (native, pool, main), result)
                ==> {
                let before = native.pools@[pool];
                let after = final(native).pools@[pool];
                let possible = native.next_owner < usize::MAX && before.blocks@.len() >= 2;
                &&& before.registry is Some ==> result == Ok::<bool, RequestContextError>(false)
                    && undisturbed(*native, *final(native))
                &&& before.registry is None && possible ==> {
                    &&& result == Ok::<bool, RequestContextError>(true)
                    &&& after.registry is Some
                    &&& after.registry->0.registrations@.len() == 0
                    &&& after.registry->0.main == main
                    &&& after.registry->0.generation == 0
                    &&& after.registry->0.client_body_read is None
                    &&& after.registry->0.owner == native.next_owner
                    &&& final(native).next_owner == native.next_owner + 1
                    &&& final(native).requests@[main].cleanup@ == seq![native.next_owner]
                        + native.requests@[main].cleanup@
                    &&& after.blocks@.len() == before.blocks@.len() - 2
                }
                &&& before.registry is None && !possible ==> result == Err::<
                    bool,
                    RequestContextError,
                >(RequestContextError::Allocation) && final(native).requests@ == native.requests@
                    && after.registry is None
            },
        forall|native: &mut NativeState, result: ()| #[trigger]
            call_ensures(remove_request_context_registry, (native, pool, main), result) ==> {
                let owner = native.pools@[pool].registry->0.owner;
                let before = native.requests@[main].cleanup@;
                let after = final(native).requests@[main].cleanup@;
                &&& final(native).pools@[pool].registry is None
                &&& final(native).pools@[pool].contexts == native.pools@[pool].contexts
                &&& before.len() > 0 && before[0] == owner ==> after == before.drop_first()
                &&& before.len() == 0 ==> after.len() == 0
            },
        forall|native: &mut NativeState, result: Option<ContextWalk>| #[trigger]
            call_ensures(terminate_request_context_registry, (native, pool), result) ==> {
                let registry = native.pools@[pool].registry->0;
                let after = final(native).pools@[pool].registry;
                &&& result is Some <==> native.requests@[registry.main].terminated
                &&& result matches Some(walk) ==> {
                    &&& walk.pool == pool
                    &&& walk.selection == ContextSelection::Active
                    &&& !walk.cancelled
                    &&& walk.next == (if registry.registrations@.len() == 0 {
                        None
                    } else {
                        Some(registry.registrations@.last().context)
                    })
                    &&& after == Some(RequestContextRegistry { client_body_read: None, ..registry })
                }
                &&& result is None ==> final(native).pools@ == native.pools@
                &&& final(native).requests == native.requests
            },
{
}

/// Every active context of a request is cancelled by the walk that begins at the newest.
pub proof fn law_generations_cancel_what_is_active(native: NativeState, raw: usize)
    ensures
        forall|walk: ContextWalk| #[trigger]
            call_ensures(request_context_generation, (&native, raw), walk) ==> {
                let pool = native.requests@[raw].pool;
                let registry = native.pools@[pool].registry;
                &&& walk.pool == pool
                &&& walk.selection == ContextSelection::Active
                &&& !walk.cancelled
                &&& pool == 0 || registry is None ==> walk.next is None
                &&& pool != 0 && registry is Some ==> walk.next == (
                if registry->0.registrations@.len() == 0 {
                    None
                } else {
                    Some(registry->0.registrations@.last().context)
                })
            },
{
}

/// Ending a removal gives up its hold once, as any other reference is given up.
pub proof fn law_removals_give_up_their_hold(removal: ContextRemoval)
    ensures
        forall|native: &mut NativeState, call: Option<NginxCall>| #[trigger]
            call_ensures(ContextRemoval::release, (removal, native), call) ==> {
                &&& removal.hold is None ==> call is None && final(native).requests@
                    == native.requests@
                &&& removal.hold matches Some(hold) ==> {
                    let count = native.requests@[hold.main].count;
                    let live = native.requests@[hold.main].pool != 0;
                    &&& live && count > 1 ==> final(native).requests@[hold.main].count == count - 1
                        && call is None
                    &&& live && count == 1 && !native.requests@[hold.main].terminated ==> call
                        == Some(
                        NginxCall::FinalizeRequest {
                            request: hold.request,
                            status: (-4) as isize,
                        },
                    )
                    &&& !(live && count > 1) ==> final(native).requests@ == native.requests@
                }
                &&& final(native).pools == native.pools
            },
{
}

/// A context is current exactly while its module's slot leads to it, and asking changes nothing
/// then. Where the slot leads elsewhere, the stale contexts of the request are to be cancelled.
pub proof fn law_contexts_are_current_while_published(
    request: usize,
    module: ModuleDescriptor,
    context: usize,
)
    ensures
        forall|native: &mut NativeState, result: Result<ContextCurrency, RequestContextError>|
            #[trigger]
            call_ensures(
                RequestRefMut::is_current_module_context,
                (native, request, module, context),
                result,
            ) ==> {
                let pointer = native.checked_request(request);
                let usable = pointer is Ok && slotted(*native, request, module);
                &&& (result matches Ok(ContextCurrency::Current)) <==> usable && slot_content(
                    *native,
                    request,
                    module,
                ) == context
                &&& (result matches Ok(ContextCurrency::Current)) ==> final(native).unchanged(*native)
                &&& pointer is Err ==> (result matches Err(error) && error
                    == RequestContextError::Request(pointer->Err_0)) && final(native).unchanged(
                    *native,
                )
                &&& pointer is Ok && !usable ==> (result matches Err(error) && unslotted(
                    *native,
                    request,
                    module,
                    error,
                )) && final(native).unchanged(*native)
                &&& result matches Ok(ContextCurrency::Displaced(cancellation)) ==> {
                    &&& cancellation.walk.selection == ContextSelection::Stale
                    &&& cancellation.walk.pool == native.requests@[request].pool
                    &&& !cancellation.walk.cancelled
                }
            },
{
}

/// Detaching a context takes the first mention of it off the pool's contexts and leaves the others
/// in their order. Where the pool has no registry, nothing else changes and no context is to end.
pub proof fn law_detached_contexts_leave_their_pool(address: usize, context: usize)
    ensures
        forall|native: &mut NativeState, result: Vec<usize>, at: int|
            #![trigger
                call_ensures(detach_context, (native, address, context), result),
                native.pools@[address].contexts@[at],
            ]
            call_ensures(detach_context, (native, address, context), result) && 0 <= at
                < native.pools@[address].contexts@.len() && native.pools@[address].contexts@[at]
                == context && !native.pools@[address].contexts@.take(at).contains(context)
                ==> final(native).pools@[address].contexts@
                == native.pools@[address].contexts@.remove(at),
        forall|native: &mut NativeState, result: Vec<usize>| #[trigger]
            call_ensures(detach_context, (native, address, context), result) ==> {
                let before = native.pools@[address];
                let after = final(native).pools@[address];
                &&& !before.contexts@.contains(context) ==> after.contexts@ == before.contexts@
                &&& after.blocks == before.blocks
                &&& after.files == before.files
                &&& before.registry is None ==> after.registry is None && result@.len() == 0
                    && final(native).requests@ == native.requests@
                &&& forall|other: usize|
                    other != address ==> #[trigger] final(native).pools@[other]
                        == native.pools@[other]
            },
{
    assert forall|native: &mut NativeState, result: Vec<usize>, at: int|
        #![trigger
            call_ensures(detach_context, (native, address, context), result),
            native.pools@[address].contexts@[at],
        ]
        call_ensures(detach_context, (native, address, context), result) && 0 <= at
            < native.pools@[address].contexts@.len() && native.pools@[address].contexts@[at]
            == context && !native.pools@[address].contexts@.take(at).contains(
            context,
        ) implies final(native).pools@[address].contexts@
        == native.pools@[address].contexts@.remove(at) by {
        let contexts = native.pools@[address].contexts@;
        assert forall|i: int| 0 <= i < at implies contexts[i] != context by {
            assert(contexts.take(at)[i] == contexts[i]);
        }
        lemma_first_is_removed(contexts, context, at);
    }
    assert forall|native: &mut NativeState, result: Vec<usize>| #[trigger]
        call_ensures(detach_context, (native, address, context), result)
            && !native.pools@[address].contexts@.contains(
            context,
        ) implies final(native).pools@[address].contexts@ == native.pools@[address].contexts@ by {
        lemma_first_is_removed(
            native.pools@[address].contexts@,
            context,
            native.pools@[address].contexts@.len() as int,
        );
    }
}

/// What stays of a sequence without the first mention of a value.
proof fn lemma_first_is_removed(values: Seq<usize>, value: usize, at: int)
    requires
        0 <= at <= values.len(),
        forall|i: int| 0 <= i < at ==> values[i] != value,
        at < values.len() ==> values[at] == value,
    ensures
        without_first(values, value) == (if at < values.len() {
            values.remove(at)
        } else {
            values
        }),
    decreases values.len(),
{
    if values.len() > 0 {
        if at == 0 {
            assert(values.drop_first() =~= values.remove(0));
        } else {
            let rest = values.drop_first();
            assert forall|i: int| 0 <= i < at - 1 implies rest[i] != value by {
                assert(rest[i] == values[i + 1]);
            }
            lemma_first_is_removed(rest, value, at - 1);
            if at < values.len() {
                assert(seq![values[0]] + rest.remove(at - 1) =~= values.remove(at));
            } else {
                assert(seq![values[0]] + rest =~= values);
            }
        }
    }
}

/// A redirect cancels the contexts of its generation one at a time, and its end gives up the
/// reference that it held.
pub proof fn law_redirects_cancel_their_generation()
    ensures
        forall|outcome: &mut RedirectOutcome, native: &mut NativeState, result: Option<usize>|
            #[trigger] call_ensures(RedirectOutcome::cancel_next, (outcome, native), result) ==> {
                &&& step_taken(
                    outcome.generation,
                    final(outcome).generation,
                    *native,
                    *final(native),
                    result,
                )
                &&& final(outcome).status == outcome.status
                &&& final(outcome).hold == outcome.hold
            },
        forall|outcome: RedirectOutcome, native: &mut NativeState, result: Option<NginxCall>|
            #[trigger] call_ensures(RedirectOutcome::release, (outcome, native), result) ==> {
                &&& outcome.hold is None ==> result is None && final(native).requests@
                    == native.requests@
                &&& outcome.hold matches Some(hold) ==> (final(native).requests@, result)
                    == native.released(hold.request, hold.main)
            },
{
    assert forall|selection: ContextSelection, registration: RequestContextRegistration, native: NativeState|
        #[trigger] selection.takes(registration, native) == picked(selection, registration, native) by {}
    assert forall|outcome: &mut RedirectOutcome, native: &mut NativeState, result: Option<usize>|
        #[trigger]
        call_ensures(RedirectOutcome::cancel_next, (outcome, native), result) implies step_taken(
        outcome.generation,
        final(outcome).generation,
        *native,
        *final(native),
        result,
    ) by {
        lemma_step_taken(
            outcome.generation,
            final(outcome).generation,
            *native,
            *final(native),
            result,
        );
    }
}

/// The latest registration among the first ones is the last of them that the selection takes;
/// cancelling one marks it inactive, clears its slot if that still leads to it, and answers the
/// context whose code is to run.
pub proof fn law_registrations_are_cancelled_from_the_latest(
    registry: RequestContextRegistry,
    native: NativeState,
    count: usize,
    selection: ContextSelection,
    index: usize,
)
    ensures
        forall|result: Option<usize>| #[trigger]
            call_ensures(RequestContextRegistry::latest, (&registry, &native, count, selection), result)
                && count <= registry.registrations@.len() ==> {
                &&& result matches Some(i) ==> {
                    &&& i < count
                    &&& picked(selection, registry.registrations@[i as int], native)
                    &&& forall|k: int|
                        i < k < count ==> !picked(
                            selection,
                            #[trigger] registry.registrations@[k],
                            native,
                        )
                }
                &&& result is None ==> forall|k: int|
                    0 <= k < count ==> !picked(selection, #[trigger] registry.registrations@[k], native)
            },
        forall|held: &mut RequestContextRegistry, state: &mut NativeState, result: usize| #[trigger]
            call_ensures(RequestContextRegistry::cancel, (held, state, index), result) && index
                < held.registrations@.len() && held.registrations@[index as int].active ==> {
                let before = held.registrations@;
                let after = final(held).registrations@;
                let ended = before[index as int];
                &&& result == ended.context
                &&& after.len() == before.len()
                &&& !after[index as int].active
                &&& after[index as int].context == ended.context
                &&& forall|k: int|
                    0 <= k < before.len() && k != index ==> #[trigger] after[k] == before[k]
                &&& final(held).generation == held.generation
                &&& final(held).main == held.main
                &&& forall|request: usize, slot: usize|
                    state.has_slot(request, slot) ==> #[trigger] final(state).slot(request, slot)
                        == (if request == ended.request && slot == ended.index && state.slot(
                        request,
                        slot,
                    ) == ended.context {
                        0
                    } else {
                        state.slot(request, slot)
                    })
            },
{
    let first = registry.registrations@.take(count as int);
    if count <= registry.registrations@.len() {
        lemma_latest(first, native, selection);
        assert forall|k: int| 0 <= k < count implies first[k]
            == #[trigger] registry.registrations@[k] by {}
    }
}

} // verus!
