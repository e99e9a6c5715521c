use std::collections::HashMap;

use ngx_http::native::{
    HttpConfigError, ModuleDescriptor, NativePool, NativeRequest, NativeState, NginxCall, Pointer,
    NGX_HTTP_MODULE,
};
use ngx_http::request::context::{
    cancel_stale_request_contexts, detach_context, terminate_request_context_registry,
    ContextCurrency, ContextEntry, RequestContextCreateError, RequestContextError,
    RequestContextModule,
};
use ngx_http::request::continuation::RequestHold;
use ngx_http::request::view::{RequestError, RequestRefMut};
use ngx_http::status::NGX_DONE;

const MAIN: usize = 0x1000;
const CHILD: usize = 0x1100;
const POOL: usize = 0x2000;

fn module() -> RequestContextModule {
    RequestContextModule {
        module: ModuleDescriptor { type_: NGX_HTTP_MODULE, index: 0, ctx_index: 0 },
        align: 8,
    }
}

fn pool(blocks: usize) -> NativePool {
    NativePool::new((1..=blocks).map(|number| number * 0x10).collect())
}

fn state() -> NativeState {
    let mut native = NativeState::new(1, 1);
    native.pools.insert(POOL, pool(40));
    let mut main = NativeRequest::zeroed();
    main.signature = NGX_HTTP_MODULE;
    main.main = MAIN;
    main.parent = MAIN;
    main.pool = POOL;
    main.count = 1;
    main.ctx = Pointer::To(vec![0]);
    native.requests.insert(MAIN, main);
    native
}

fn request(native: &NativeState) -> RequestRefMut {
    RequestRefMut::from_raw(native, MAIN).unwrap()
}

fn generation(native: &NativeState) -> u64 {
    native.pool(POOL).registry.as_ref().unwrap().generation
}

fn insert(native: &mut NativeState) -> Result<ContextEntry<u32>, RequestContextError> {
    request(native).get_or_insert_pinned_module_context_with(native, module(), Ok(()), || 41)
}

fn context_error(ctx: Pointer<Vec<usize>>) -> RequestContextError {
    let mut native = state();
    native.requests.get_mut(&MAIN).unwrap().ctx = ctx;
    request(&native).module_context(&native, module(), Ok(())).err().unwrap()
}

#[test]
fn request_context_slots_validate_missing_and_misaligned_storage() {
    assert_eq!(context_error(Pointer::Null), RequestContextError::MissingSlots);
    assert_eq!(context_error(Pointer::Misaligned), RequestContextError::MisalignedSlots);
    assert_eq!(context_error(Pointer::To(vec![1])), RequestContextError::MisalignedContext);
}

#[test]
fn request_context_slots_reject_unavailable_module_indexes() {
    let mut native = state();
    native.max_module = 0;
    native.http_max_module = 0;
    let expected =
        RequestContextError::Configuration(HttpConfigError::ModuleIndexOutOfBounds);
    assert_eq!(request(&native).module_context(&native, module(), Ok(())), Err(expected));
    assert_eq!(insert(&mut native).err(), Some(expected));
}

#[test]
fn module_context_reads_the_associated_context_type() {
    let mut native = state();
    native.requests.get_mut(&MAIN).unwrap().ctx = Pointer::To(vec![0x700]);
    assert_eq!(request(&native).module_context(&native, module(), Ok(())), Ok(Some(0x700)));
    assert_eq!(request(&native).view().module_context(&native, module()), Ok(Some(0x700)));
}

#[test]
fn module_context_mut_updates_the_associated_context_type() {
    let mut native = state();
    let mut contexts = HashMap::from([(0x700, 41)]);
    native.requests.get_mut(&MAIN).unwrap().ctx = Pointer::To(vec![0x700]);
    let context =
        request(&native).module_context_mut(&native, module(), Ok(())).unwrap().unwrap();
    *contexts.get_mut(&context).unwrap() = 42;
    let context = request(&native).module_context(&native, module(), Ok(())).unwrap().unwrap();
    assert_eq!(contexts[&context], 42);
    assert_eq!(
        request(&native).module_context_mut(&native, module(), Err(RequestError::MissingPool)),
        Err(RequestContextError::Request(RequestError::MissingPool))
    );
}

#[test]
fn main_mut_updates_the_parent_of_a_subrequest() {
    let mut native = state();
    native.requests.get_mut(&MAIN).unwrap().ctx = Pointer::To(vec![0x700]);
    let mut child = NativeRequest::zeroed();
    child.signature = NGX_HTTP_MODULE;
    child.main = MAIN;
    child.parent = MAIN;
    native.requests.insert(CHILD, child);
    let mut child = RequestRefMut::from_raw(&native, CHILD).unwrap();
    let mut main = child.main_mut(&native).unwrap();
    assert_eq!(main.module_context_mut(&native, module(), Ok(())), Ok(Some(0x700)));
}

#[test]
fn pinned_request_context_reuses_its_stable_pool_address_and_invalidates_before_drop() {
    let mut native = state();
    assert_eq!(request(&native).pinned_module_context_mut(&native, module(), Ok(())), Ok(None));
    let entry = insert(&mut native).unwrap();
    let address = entry.address;
    assert_eq!(entry.created, Some(41));
    assert_eq!(
        request(&native).pinned_module_context_mut(&native, module(), Ok(())),
        Ok(Some(address))
    );

    let reused = request(&native)
        .get_or_insert_pinned_module_context_with(
            &mut native,
            module(),
            Ok(()),
            || -> u32 { panic!("existing context must be reused") },
        )
        .unwrap();
    assert_eq!(reused.address, address);
    assert_eq!(reused.created, None);
    assert_eq!(native.slot_value(MAIN, 0), address);

    assert_eq!(detach_context(&mut native, POOL, address), vec![address]);
    assert_eq!(native.slot_value(MAIN, 0), 0);
    assert!(detach_context(&mut native, POOL, address).is_empty());
}

#[test]
fn native_slot_reset_cancels_old_context_before_replacement() {
    let mut native = state();
    let old = insert(&mut native).unwrap().address;

    native.set_slot(MAIN, 0, 0);
    let mut cancellation = cancel_stale_request_contexts(&mut native, MAIN).unwrap();
    assert_eq!(cancellation.cancel_next(&mut native), Some(old));
    assert_eq!(generation(&native), 0);
    assert_eq!(cancellation.cancel_next(&mut native), None);
    let outcome = cancellation.finish(&mut native);
    assert_eq!(outcome.settled, Ok(()));
    assert_eq!(outcome.call, None);
    assert_eq!(native.request(MAIN).count, 1);
    assert_eq!(generation(&native), 1);

    let new = insert(&mut native).unwrap().address;
    assert_ne!(new, old);
    assert_eq!(native.slot_value(MAIN, 0), new);
    let mut cancellation = cancel_stale_request_contexts(&mut native, MAIN).unwrap();
    assert_eq!(cancellation.cancel_next(&mut native), None);
    cancellation.finish(&mut native);
    assert_eq!(generation(&native), 1);
    assert_eq!(detach_context(&mut native, POOL, new), vec![new]);
}

#[test]
fn stale_context_cancellation_keeps_the_pool_live_until_context_drop() {
    let mut native = state();
    let mut hold = None;
    request(&native).hold(&mut native, &mut hold).unwrap();
    let context = insert(&mut native).unwrap().address;
    native.requests.get_mut(&MAIN).unwrap().count = 1;
    native.set_slot(MAIN, 0, 0);

    let currency =
        RequestRefMut::is_current_module_context(&mut native, MAIN, module().module, context);
    let mut cancellation = match currency {
        Ok(ContextCurrency::Displaced(cancellation)) => cancellation,
        other => panic!("{other:?}"),
    };
    assert_eq!(cancellation.cancel_next(&mut native), Some(context));
    assert_eq!(native.request(MAIN).count, 2);
    assert_eq!(RequestHold::cancel(&mut hold, &mut native), (true, None));
    assert_eq!(native.request(MAIN).count, 1);
    assert_eq!(cancellation.cancel_next(&mut native), None);
    let outcome = cancellation.finish(&mut native);
    assert_eq!(outcome.settled, Err(RequestError::MissingPool));
    assert_eq!(
        outcome.call,
        Some(NginxCall::FinalizeRequest { request: MAIN, status: NGX_DONE })
    );
}

#[test]
fn published_context_is_current() {
    let mut native = state();
    let context = insert(&mut native).unwrap().address;
    assert!(matches!(
        RequestRefMut::is_current_module_context(&mut native, MAIN, module().module, context),
        Ok(ContextCurrency::Current)
    ));
    assert!(matches!(
        RequestRefMut::is_current_module_context(&mut native, 0, module().module, context),
        Err(RequestContextError::Request(RequestError::NullRequest))
    ));
}

#[test]
fn failed_request_context_constructor_leaves_the_slot_unpublished_and_retries() {
    let mut native = state();
    let rejected = request(&native).try_get_or_insert_pinned_module_context_with(
        &mut native,
        module(),
        Ok(()),
        || Err::<u32, &str>("rejected"),
    );
    assert_eq!(rejected.err(), Some(RequestContextCreateError::Construction("rejected")));
    assert_eq!(native.slot_value(MAIN, 0), 0);
    assert!(native.pool(POOL).contexts.is_empty());
    assert!(native.pool(POOL).registry.is_none());
    assert!(native.request(MAIN).cleanup.is_empty());

    let entry = request(&native)
        .try_get_or_insert_pinned_module_context_with(
            &mut native,
            module(),
            Ok(()),
            || Ok::<u32, &str>(41),
        )
        .unwrap();
    assert_eq!(entry.created, Some(41));
    assert_eq!(native.slot_value(MAIN, 0), entry.address);
    assert_eq!(native.pool(POOL).contexts, vec![entry.address]);
}

#[test]
fn failed_request_context_cleanup_registration_keeps_the_slot_empty_and_retries() {
    for successes in 0..=3 {
        let mut native = state();
        native.pools.insert(POOL, pool(successes));
        let result = request(&native).get_or_insert_pinned_module_context_with(
            &mut native,
            module(),
            Ok(()),
            || -> u32 { panic!("not constructed") },
        );
        assert_eq!(result.err(), Some(RequestContextError::Allocation));
        assert_eq!(native.slot_value(MAIN, 0), 0);
        assert!(native.pool(POOL).contexts.is_empty());
        assert!(native.pool(POOL).registry.is_none());

        native.pools.insert(POOL, pool(4));
        assert_eq!(insert(&mut native).unwrap().created, Some(41));
        assert_ne!(native.slot_value(MAIN, 0), 0);
    }
}

#[test]
fn removing_a_pinned_request_context_cleans_up_exactly_once() {
    let mut native = state();
    let context = insert(&mut native).unwrap().address;
    let removal =
        request(&native).remove_module_context(&mut native, module(), Ok(())).unwrap();
    assert!(removal.removed);
    assert_eq!(removal.contexts, vec![context]);
    assert_eq!(native.slot_value(MAIN, 0), 0);
    assert_eq!(removal.release(&mut native), None);
    assert_eq!(native.request(MAIN).count, 1);
    let removal =
        request(&native).remove_module_context(&mut native, module(), Ok(())).unwrap();
    assert!(!removal.removed);
    assert!(removal.hold.is_none());
    assert!(removal.contexts.is_empty());
    assert!(native.pool(POOL).contexts.is_empty());
    assert!(native.pool(POOL).registry.as_ref().unwrap().registrations.is_empty());
    assert!(detach_context(&mut native, POOL, context).is_empty());
}

#[test]
fn failed_request_context_cleanup_unlink_restores_its_slot() {
    let mut native = state();
    let context = insert(&mut native).unwrap().address;
    native.pools.get_mut(&POOL).unwrap().contexts.clear();

    assert_eq!(
        request(&native).remove_module_context(&mut native, module(), Ok(())).err(),
        Some(RequestContextError::MissingCleanup)
    );
    assert_eq!(native.slot_value(MAIN, 0), context);
    assert_eq!(native.request(MAIN).count, 1);

    native.pools.get_mut(&POOL).unwrap().contexts.push(context);
    let removal =
        request(&native).remove_module_context(&mut native, module(), Ok(())).unwrap();
    assert!(removal.removed);
    assert_eq!(native.slot_value(MAIN, 0), 0);
}

#[test]
fn termination_cancels_every_context() {
    let mut native = state();
    let context = insert(&mut native).unwrap().address;
    assert!(terminate_request_context_registry(&mut native, POOL).is_none());
    assert_eq!(native.slot_value(MAIN, 0), context);
    native.requests.get_mut(&MAIN).unwrap().terminated = true;
    let mut walk = terminate_request_context_registry(&mut native, POOL).unwrap();
    assert_eq!(walk.cancel_next(&mut native), Some(context));
    assert_eq!(native.slot_value(MAIN, 0), 0);
    assert_eq!(walk.cancel_next(&mut native), None);
    let mut walk = terminate_request_context_registry(&mut native, POOL).unwrap();
    assert_eq!(walk.cancel_next(&mut native), None);
}

/// A state whose main request publishes one context for each of three modules.
fn three_contexts() -> (NativeState, Vec<usize>) {
    let mut native = state();
    native.max_module = 3;
    native.http_max_module = 3;
    native.requests.get_mut(&MAIN).unwrap().ctx = Pointer::To(vec![0, 0, 0]);
    let contexts = (0..3)
        .map(|index| {
            let module = RequestContextModule {
                module: ModuleDescriptor { type_: NGX_HTTP_MODULE, index, ctx_index: index },
                align: 8,
            };
            request(&native)
                .get_or_insert_pinned_module_context_with(&mut native, module, Ok(()), || index)
                .unwrap()
                .address
        })
        .collect();
    (native, contexts)
}

#[test]
fn removing_a_context_leaves_the_others_published() {
    let (mut native, contexts) = three_contexts();
    let middle = RequestContextModule {
        module: ModuleDescriptor { type_: NGX_HTTP_MODULE, index: 1, ctx_index: 1 },
        align: 8,
    };
    for removed in [true, false] {
        let removal = request(&native).remove_module_context(&mut native, middle, Ok(())).unwrap();
        assert_eq!(removal.removed, removed);
        assert_eq!(removal.contexts, if removed { vec![contexts[1]] } else { Vec::new() });
        removal.release(&mut native);
        assert_eq!(native.pool(POOL).contexts, vec![contexts[0], contexts[2]]);
        assert_eq!(native.slot_value(MAIN, 0), contexts[0]);
        assert_eq!(native.slot_value(MAIN, 1), 0);
        assert_eq!(native.slot_value(MAIN, 2), contexts[2]);
    }
    assert!(!native.pool(POOL).registry.as_ref().unwrap().has_stale(&native));
}

#[test]
fn termination_cancels_contexts_latest_first() {
    let (mut native, contexts) = three_contexts();
    native.requests.get_mut(&MAIN).unwrap().terminated = true;
    let mut walk = terminate_request_context_registry(&mut native, POOL).unwrap();
    for index in [2, 1, 0] {
        assert_eq!(native.slot_value(MAIN, index), contexts[index]);
        assert_eq!(walk.cancel_next(&mut native), Some(contexts[index]));
        assert_eq!(native.slot_value(MAIN, index), 0);
    }
    assert_eq!(walk.cancel_next(&mut native), None);
    assert_eq!(generation(&native), 0);
}

#[test]
fn stale_contexts_are_cancelled_latest_first() {
    let (mut native, contexts) = three_contexts();
    native.set_slot(MAIN, 0, 0);
    native.set_slot(MAIN, 2, 0);
    let mut cancellation = cancel_stale_request_contexts(&mut native, MAIN).unwrap();
    assert_eq!(cancellation.cancel_next(&mut native), Some(contexts[2]));
    assert_eq!(cancellation.cancel_next(&mut native), Some(contexts[0]));
    assert_eq!(cancellation.cancel_next(&mut native), None);
    assert_eq!(cancellation.finish(&mut native).settled, Ok(()));
    assert_eq!(native.slot_value(MAIN, 1), contexts[1]);
    assert_eq!(generation(&native), 1);
}

#[test]
fn cancelling_code_decides_what_is_stale_next() {
    let (mut native, contexts) = three_contexts();
    native.set_slot(MAIN, 1, 0);
    let mut cancellation = cancel_stale_request_contexts(&mut native, MAIN).unwrap();
    assert_eq!(cancellation.cancel_next(&mut native), Some(contexts[1]));
    // The cancelled context clears the slots of the others: only the earlier one is still ahead.
    native.set_slot(MAIN, 0, 0);
    native.set_slot(MAIN, 2, 0);
    assert_eq!(cancellation.cancel_next(&mut native), Some(contexts[0]));
    assert_eq!(cancellation.cancel_next(&mut native), None);
    cancellation.finish(&mut native);
    assert!(native.pool(POOL).registry.as_ref().unwrap().has_stale(&native));
}

#[test]
fn cancelling_ends_where_the_next_context_was_removed() {
    let (mut native, contexts) = three_contexts();
    native.requests.get_mut(&MAIN).unwrap().ctx = Pointer::To(vec![0, 0, 0]);
    let mut cancellation = cancel_stale_request_contexts(&mut native, MAIN).unwrap();
    assert_eq!(cancellation.cancel_next(&mut native), Some(contexts[2]));
    assert_eq!(detach_context(&mut native, POOL, contexts[1]), vec![contexts[1]]);
    assert_eq!(cancellation.cancel_next(&mut native), None);
    cancellation.finish(&mut native);
    assert_eq!(generation(&native), 1);
}
