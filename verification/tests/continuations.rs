use ngx_http::buffer::PoolChain;
use ngx_http::native::{
    ConnectionError, ModuleDescriptor, NativeConnection, NativePool, NativeRequest, NativeState,
    NginxCall, Pointer, WriteEventHandler, NGX_HTTP_MODULE,
};
use ngx_http::request::client_body::{
    raw_client_body_handler, ClientBodyCallbackBegin, ClientBodyReadBegin, ClientBodyReadStatus,
    HttpClientBodyHandler,
};
use ngx_http::request::context::{
    clear_client_body_read, detach_context, register_client_body_read, RequestContextModule,
};
use ngx_http::request::continuation::{
    HttpFilterError, InternalRedirect, PhaseResume, RequestContinuation, RequestContinuationError,
    RequestHold, RequestHoldError, RequestPhaseResumeError,
};
use ngx_http::request::view::{RequestError, RequestRef, RequestRefMut};
use ngx_http::status::{
    HTTPStatus, Status, NGX_AGAIN, NGX_DECLINED, NGX_DONE, NGX_ERROR, NGX_OK,
};

const MAIN: usize = 0x1000;
const CHILD: usize = 0x1100;
const OTHER: usize = 0x1200;
const POOL: usize = 0x2000;
const EVENT: usize = 0x3000;
const CALLBACK: usize = 0x4000;

fn initialized(main: usize, parent: usize) -> NativeRequest {
    let mut request = NativeRequest::zeroed();
    request.signature = NGX_HTTP_MODULE;
    request.main = main;
    request.parent = parent;
    request
}

fn connection() -> NativeConnection {
    NativeConnection { log: Pointer::Null, sent: 0, data: MAIN, write: Pointer::To(EVENT) }
}

/// A main request with a pool, and a subrequest.
fn state(count: u16) -> NativeState {
    let mut native = NativeState::new(1, 1);
    native.pools.insert(POOL, NativePool::new((1..40).map(|number| number * 0x10).collect()));
    let mut main = initialized(MAIN, MAIN);
    main.pool = POOL;
    main.count = count;
    native.requests.insert(MAIN, main);
    native.requests.insert(CHILD, initialized(MAIN, MAIN));
    native
}

fn at(native: &NativeState, raw: usize) -> RequestRefMut {
    RequestRefMut::from_raw(native, raw).unwrap()
}

fn count(native: &NativeState) -> u16 {
    native.request(MAIN).count
}

fn edit(native: &mut NativeState, raw: usize) -> &mut NativeRequest {
    native.requests.get_mut(&raw).unwrap()
}

fn held(native: &mut NativeState) -> Option<RequestHold> {
    let mut hold = None;
    at(native, CHILD).hold(native, &mut hold).unwrap();
    hold
}

fn taken(native: &mut NativeState) -> RequestContinuation {
    let mut hold = held(native);
    RequestHold::take(&mut hold, native, at(native, CHILD)).unwrap()
}

#[test]
fn request_hold_rejects_reentry_and_is_removed_before_continuation() {
    let mut native = state(1);
    let mut hold = None;
    let mut request = at(&native, CHILD);
    assert_eq!(count(&native), 1);
    request.hold(&mut native, &mut hold).unwrap();
    assert_eq!(count(&native), 2);
    assert_eq!(request.hold(&mut native, &mut hold), Err(RequestHoldError::AlreadyHeld));
    assert_eq!(RequestHold::request_ptr(&hold), Some(CHILD));

    let continuation = RequestHold::take(&mut hold, &native, request).unwrap();
    assert!(hold.is_none());
    assert_eq!(continuation.abandon(&mut native), None);

    let request = at(&native, CHILD);
    assert!(matches!(
        RequestHold::take(&mut hold, &native, request),
        Err(RequestHoldError::Missing)
    ));
    assert_eq!(count(&native), 1);
}

#[test]
fn request_hold_preserves_nginx_reference_reserve() {
    let mut native = state(0);
    let mut hold = None;
    let mut request = at(&native, CHILD);

    assert_eq!(request.hold(&mut native, &mut hold), Err(RequestHoldError::InactiveMain));
    assert!(hold.is_none());

    let native_limit = u16::MAX - 1000;
    edit(&mut native, MAIN).count = native_limit - 1;
    assert_eq!(request.hold(&mut native, &mut hold), Ok(()));
    assert_eq!(count(&native), native_limit);
    assert!(RequestHold::cancel(&mut hold, &mut native).0);
    assert_eq!(count(&native), native_limit - 1);

    edit(&mut native, MAIN).count = native_limit;
    assert_eq!(request.hold(&mut native, &mut hold), Err(RequestHoldError::CountOverflow));
    assert!(hold.is_none());
    assert_eq!(count(&native), native_limit);
}

#[test]
fn request_hold_cannot_continue_a_different_subrequest() {
    let mut native = state(1);
    native.requests.insert(OTHER, initialized(MAIN, MAIN));
    let mut hold = held(&mut native);
    let second = at(&native, OTHER);
    assert!(matches!(
        RequestHold::take(&mut hold, &native, second),
        Err(RequestHoldError::ForeignRequest)
    ));
    assert!(hold.is_some());
    assert_eq!(count(&native), 2);
}

/// A main request with a connection, held by itself.
fn terminal() -> (NativeState, RequestContinuation) {
    let mut native = state(1);
    edit(&mut native, MAIN).connection = Pointer::To(connection());
    let mut hold = None;
    at(&native, MAIN).hold(&mut native, &mut hold).unwrap();
    let continuation = RequestHold::take(&mut hold, &native, at(&native, MAIN)).unwrap();
    (native, continuation)
}

#[test]
fn request_hold_allows_terminal_finalization_with_its_only_live_reference() {
    let (mut native, mut continuation) = terminal();
    edit(&mut native, MAIN).count = 1;
    assert_eq!(
        continuation.finalize(&native, Status(NGX_DONE)),
        Ok(NginxCall::FinalizeRequest { request: MAIN, status: NGX_DONE })
    );
    assert_eq!(count(&native), 1);
    assert!(continuation.consumed);
}

#[test]
fn finalization_after_output_releases_an_extra_hold_before_entering_nginx() {
    let (mut native, mut continuation) = terminal();
    assert_eq!(count(&native), 2);
    assert_eq!(
        continuation.finalize_after_output(&mut native, Status(NGX_DONE)),
        Ok(NginxCall::FinalizeRequest { request: MAIN, status: NGX_DONE })
    );
    assert_eq!(count(&native), 1);
}

#[test]
fn finalization_after_output_preserves_parent_reference_for_last_subrequest() {
    let mut native = state(1);
    edit(&mut native, CHILD).connection = Pointer::To(connection());
    let mut continuation = taken(&mut native);
    assert_eq!(count(&native), 2);
    assert_eq!(
        continuation.finalize_after_output(&mut native, Status(NGX_DONE)),
        Ok(NginxCall::FinalizeRequest { request: CHILD, status: NGX_DONE })
    );
    assert_eq!(count(&native), 2);
    assert_eq!(continuation.cancel(&mut native), Err(RequestContinuationError::Consumed));
}

#[test]
fn finalization_after_output_transfers_the_only_live_hold_to_nginx() {
    let (mut native, mut continuation) = terminal();
    edit(&mut native, MAIN).count = 1;
    assert_eq!(
        continuation.finalize_after_output(&mut native, Status(NGX_DONE)),
        Ok(NginxCall::FinalizeRequest { request: MAIN, status: NGX_DONE })
    );
    assert_eq!(count(&native), 1);
}

#[test]
fn phase_resume_rejects_the_only_live_hold() {
    let mut native = state(1);
    let mut hold = held(&mut native);
    edit(&mut native, MAIN).count = 1;

    let mut continuation = RequestHold::take(&mut hold, &native, at(&native, CHILD)).unwrap();
    assert_eq!(
        continuation.resume_preaccess(&mut native),
        Err(RequestContinuationError::Hold(RequestHoldError::InactiveMain))
    );
    edit(&mut native, MAIN).count = 2;
    continuation.cancel(&mut native).unwrap();
    assert_eq!(count(&native), 1);
}

#[test]
fn request_hold_termination_release_does_not_reenter_native_finalization() {
    let mut native = state(1);
    edit(&mut native, MAIN).terminated = true;
    let mut hold = held(&mut native);
    edit(&mut native, MAIN).count = 1;

    assert_eq!(RequestHold::cancel(&mut hold, &mut native), (true, None));
    assert_eq!(count(&native), 1);
}

#[test]
fn request_hold_rejects_zero_main_request_count() {
    let mut native = state(1);
    let mut hold = held(&mut native);
    edit(&mut native, MAIN).count = 0;

    let request = at(&native, CHILD);
    assert!(matches!(
        RequestHold::take(&mut hold, &native, request),
        Err(RequestHoldError::InactiveMain)
    ));
    assert!(hold.is_some());
}

#[test]
fn request_continuation_cancellation_prevents_reentry() {
    let mut native = state(1);
    let mut continuation = taken(&mut native);
    assert_eq!(continuation.cancel(&mut native), Ok(None));
    assert_eq!(continuation.cancel(&mut native), Err(RequestContinuationError::Consumed));
    assert_eq!(count(&native), 1);
}

#[test]
fn request_hold_cleanup_disarms_once_without_releasing() {
    let mut native = state(1);
    let mut hold = held(&mut native);
    assert!(RequestHold::disarm_for_cleanup(&mut hold));
    assert!(!RequestHold::disarm_for_cleanup(&mut hold));
    assert_eq!(count(&native), 2);
}

#[test]
fn cancelled_continuation_rejects_nonterminal_and_terminal_operations() {
    let mut native = state(1);
    let mut continuation = taken(&mut native);
    continuation.cancel(&mut native).unwrap();

    assert_eq!(continuation.send_header(&native), Err(RequestContinuationError::Consumed));
    assert_eq!(
        continuation.output_filter(&native, &PoolChain::new(POOL)),
        Err(RequestContinuationError::Consumed)
    );
    assert_eq!(
        continuation.finalize(&native, Status(400)),
        Err(RequestContinuationError::Consumed)
    );
    assert_eq!(count(&native), 1);
    assert_eq!(
        continuation.resume_preaccess(&mut native),
        Err(RequestContinuationError::Consumed)
    );
    assert_eq!(continuation.resume_declined(&mut native), Err(RequestContinuationError::Consumed));
    assert_eq!(
        continuation.call_next_header(&native, Ok(NGX_OK)),
        Err(RequestContinuationError::Consumed)
    );
}

#[test]
fn terminal_operations_reject_requests_without_connections() {
    let mut native = state(1);
    let mut request = at(&native, MAIN);
    let expected = RequestError::Connection(ConnectionError::NullConnection);

    assert_eq!(request.send_header(&native), Err(expected));
    assert_eq!(request.output_filter(&native, &PoolChain::new(POOL)), Err(expected));
    assert_eq!(at(&native, MAIN).finalize(&native, Status(400)), Err(expected));
    assert_eq!(
        at(&native, MAIN).resume_preaccess(&mut native),
        Err(RequestPhaseResumeError::Request(expected))
    );
}

#[test]
fn invalidated_continuations_reject_terminal_operations() {
    let expected = RequestError::Connection(ConnectionError::NullConnection);
    let mut native = state(1);
    let mut continuation = taken(&mut native);

    assert_eq!(
        continuation.finalize(&native, Status(400)),
        Err(RequestContinuationError::Request(expected))
    );
    assert_eq!(count(&native), 2);
    let mut hold = None;
    assert!(continuation.restore(&mut hold).is_ok());
    assert!(hold.is_some());
    assert!(RequestHold::cancel(&mut hold, &mut native).0);
    assert_eq!(count(&native), 1);

    let mut continuation = taken(&mut native);
    assert_eq!(
        continuation.resume_preaccess(&mut native),
        Err(RequestContinuationError::Phase(RequestPhaseResumeError::Request(expected)))
    );
    assert_eq!(count(&native), 2);
    continuation.cancel(&mut native).unwrap();
    assert_eq!(count(&native), 1);
}

#[test]
fn continuation_rejects_nonconsuming_finalization_without_losing_ownership() {
    let mut native = state(1);
    edit(&mut native, CHILD).connection = Pointer::To(connection());
    let mut continuation = taken(&mut native);
    assert_eq!(
        continuation.finalize(&native, Status(NGX_DECLINED)),
        Err(RequestContinuationError::NonConsumingStatus)
    );
    assert_eq!(count(&native), 2);
    continuation.cancel(&mut native).unwrap();
    assert_eq!(count(&native), 1);
}

#[test]
fn preaccess_resume_prepares_the_next_phase_handler() {
    let mut native = state(1);
    edit(&mut native, MAIN).connection = Pointer::To(connection());
    edit(&mut native, MAIN).phase_handler = 7;
    at(&native, MAIN).prepare_preaccess_resume(&mut native).unwrap();
    assert_eq!(native.request(MAIN).phase_handler, 8);
    assert_eq!(
        native.request(MAIN).write_event_handler,
        Some(WriteEventHandler::CoreRunPhases)
    );
    assert_eq!(
        at(&native, MAIN).resume_preaccess(&mut native),
        Ok(NginxCall::CoreRunPhases { request: MAIN })
    );
    assert_eq!(native.request(MAIN).phase_handler, 9);
}

#[test]
fn preaccess_resume_rejects_invalid_phase_indices_without_mutation() {
    let mut native = state(1);
    edit(&mut native, MAIN).connection = Pointer::To(connection());
    for (handler, error) in [
        (-1, RequestPhaseResumeError::NegativePhaseHandler),
        (isize::MAX, RequestPhaseResumeError::PhaseHandlerOverflow),
    ] {
        edit(&mut native, MAIN).phase_handler = handler;
        assert_eq!(at(&native, MAIN).prepare_preaccess_resume(&mut native), Err(error));
        assert_eq!(native.request(MAIN).phase_handler, handler);
        assert!(native.request(MAIN).write_event_handler.is_none());
    }
}

#[test]
fn filters_are_continued_once() {
    let (native, mut continuation) = terminal();
    assert_eq!(
        continuation.call_next_header(&native, Err(HttpFilterError::MissingHeaderFilter)),
        Err(RequestContinuationError::Filter(HttpFilterError::MissingHeaderFilter))
    );
    assert_eq!(continuation.call_next_header(&native, Ok(NGX_AGAIN)), Ok(Status(NGX_AGAIN)));
    assert_eq!(
        continuation.call_next_header(&native, Ok(NGX_OK)),
        Err(RequestContinuationError::HeaderAlreadyContinued)
    );
    assert_eq!(continuation.call_next_body(&native, Ok(NGX_OK)), Ok(Status(NGX_OK)));
    assert_eq!(
        continuation.call_next_body(&native, Ok(NGX_OK)),
        Err(RequestContinuationError::BodyAlreadyContinued)
    );
    let mut slot = None;
    let (error, continuation) = continuation.restore(&mut slot).err().unwrap();
    assert_eq!(error, RequestContinuationError::FilterAlreadyContinued);
    assert!(!continuation.consumed);
    assert!(slot.is_none());
}

#[test]
fn phases_resume_on_the_next_event_cycle() {
    let mut native = state(1);
    edit(&mut native, MAIN).connection = Pointer::To(connection());
    let mut hold = None;
    at(&native, MAIN).hold(&mut native, &mut hold).unwrap();
    edit(&mut native, MAIN).phase_handler = -1;
    assert_eq!(
        RequestHold::may_resume_phase(&hold, &native),
        Err(RequestContinuationError::Phase(RequestPhaseResumeError::NegativePhaseHandler))
    );
    assert_eq!(
        RequestHold::resume_phase(&mut hold, &mut native, NGX_ERROR),
        Err(RequestContinuationError::Phase(RequestPhaseResumeError::NegativePhaseHandler))
    );
    assert!(hold.is_some());
    edit(&mut native, MAIN).phase_handler = 3;
    assert_eq!(
        RequestHold::may_resume_phase(&hold, &native),
        Ok(PhaseResume { event: EVENT, queue: false })
    );
    assert_eq!(
        RequestHold::resume_phase(&mut hold, &mut native, NGX_ERROR),
        Ok(NginxCall::PostWriteEvent { event: EVENT })
    );
    assert!(hold.is_none());
    assert_eq!(count(&native), 1);
    assert_eq!(native.request(MAIN).phase_handler, 3);
    assert_eq!(
        RequestHold::resume_phase(&mut hold, &mut native, NGX_OK),
        Err(RequestContinuationError::Hold(RequestHoldError::Missing))
    );
}

#[test]
fn phase_resume_of_another_request_has_to_be_queued() {
    let mut native = state(1);
    edit(&mut native, CHILD).connection = Pointer::To(connection());
    let mut hold = held(&mut native);
    assert_eq!(
        RequestHold::may_resume_phase(&hold, &native),
        Ok(PhaseResume { event: EVENT, queue: true })
    );
    assert_eq!(
        RequestHold::resume_phase(&mut hold, &mut native, NGX_ERROR),
        Err(RequestContinuationError::Request(RequestError::Allocation))
    );
    assert!(hold.is_some());
    assert_eq!(count(&native), 2);
    assert_eq!(
        RequestHold::resume_phase(&mut hold, &mut native, NGX_OK),
        Ok(NginxCall::PostWriteEvent { event: EVENT })
    );
    assert_eq!(count(&native), 1);
}

#[test]
fn phase_resume_is_checked_before_the_request_is_queued() {
    let mut native = state(1);
    let mut hold = None;
    assert_eq!(
        RequestHold::may_resume_phase(&hold, &native),
        Err(RequestContinuationError::Hold(RequestHoldError::Missing))
    );
    edit(&mut native, CHILD).connection = Pointer::To(connection());
    hold = held(&mut native);
    edit(&mut native, MAIN).count = 1;
    assert_eq!(
        RequestHold::may_resume_phase(&hold, &native),
        Err(RequestContinuationError::Hold(RequestHoldError::InactiveMain))
    );
    edit(&mut native, MAIN).count = 2;
    let mut silent = connection();
    silent.write = Pointer::Null;
    edit(&mut native, CHILD).connection = Pointer::To(silent);
    assert_eq!(
        RequestHold::may_resume_phase(&hold, &native),
        Err(RequestContinuationError::Request(RequestError::Connection(
            ConnectionError::MissingWriteEvent
        )))
    );
}

struct Active;

impl HttpClientBodyHandler for Active {
    fn body_read(request: &mut RequestRefMut, native: &mut NativeState) {
        assert!(request.request_body(native).is_ok());
        native.next_owner += 100;
    }
}

struct Inactive;

impl HttpClientBodyHandler for Inactive {
    fn is_active(_request: RequestRef, _native: &NativeState) -> bool {
        false
    }

    fn body_read(_request: &mut RequestRefMut, _native: &mut NativeState) {
        unreachable!()
    }
}

/// Reads the body of `raw` as nginx does that answers at once with `status`, and says how often
/// the handler ran.
fn read_at_once<H: HttpClientBodyHandler>(
    native: &mut NativeState,
    raw: usize,
    status: isize,
) -> (ClientBodyReadStatus, Option<NginxCall>, usize) {
    let mut request = at(native, raw);
    match request.read_client_body(native, CALLBACK) {
        ClientBodyReadBegin::Started(start) => {
            let status = ClientBodyReadStatus::from_raw(start.status().raw());
            (status, start.release(), 0)
        }
        ClientBodyReadBegin::Call(pending) => {
            assert_eq!(
                pending.call(),
                NginxCall::ReadClientRequestBody { request: raw, callback: CALLBACK }
            );
            let runs = if status == NGX_OK { callback::<H>(native, raw) } else { 0 };
            let start = pending.finish(native, status);
            assert_eq!(start.request().as_ptr(), raw);
            let status = ClientBodyReadStatus::from_raw(start.status().raw());
            (status, start.release(), runs)
        }
    }
}

/// Runs the callback that nginx runs when a read completes.
fn callback<H: HttpClientBodyHandler>(native: &mut NativeState, raw: usize) -> usize {
    match raw_client_body_handler(native, raw, CALLBACK) {
        ClientBodyCallbackBegin::Cancel(mut begun) => {
            let mut request = at(native, raw);
            while begun.cancellation.cancel_next(native).is_some() {}
            let dispatch = begun.resume(native);
            let ran = dispatch.run_handler::<H>(&mut request, native);
            dispatch.end(native);
            ran as usize
        }
        _ => 0,
    }
}

#[test]
fn client_body_read_invokes_once_and_releases_each_start_reference() {
    let mut native = state(1);
    let released = Some(NginxCall::FinalizeRequest { request: MAIN, status: NGX_DONE });
    assert_eq!(
        read_at_once::<Active>(&mut native, MAIN, NGX_OK),
        (ClientBodyReadStatus::Completed, released, 1)
    );
    assert_eq!(
        read_at_once::<Inactive>(&mut native, MAIN, NGX_OK),
        (ClientBodyReadStatus::Completed, released, 0)
    );
    assert_eq!(
        read_at_once::<Active>(&mut native, MAIN, NGX_OK),
        (ClientBodyReadStatus::Completed, released, 1)
    );
    assert_eq!(callback::<Active>(&mut native, MAIN), 0);
    assert_eq!(callback::<Active>(&mut native, 0), 0);
    assert_eq!(callback::<Active>(&mut native, 1), 0);
    assert_eq!(count(&native), 1);
}

#[test]
fn inherited_subrequest_body_releases_to_the_main_request_baseline() {
    let mut native = state(2);
    edit(&mut native, CHILD).pool = POOL;
    let released = Some(NginxCall::FinalizeRequest { request: CHILD, status: NGX_DONE });
    assert_eq!(
        read_at_once::<Active>(&mut native, CHILD, NGX_OK),
        (ClientBodyReadStatus::Completed, released, 1)
    );
    assert_eq!(count(&native), 2);
}

#[test]
fn client_body_read_registration_failure_does_not_acquire_native_count() {
    let mut native = state(0);
    native.pools.insert(POOL, NativePool::new(Vec::new()));
    let (status, call, runs) = read_at_once::<Active>(&mut native, MAIN, NGX_OK);
    assert_eq!(status, ClientBodyReadStatus::Error(Status(NGX_ERROR)));
    assert_eq!((call, runs), (None, 0));
    assert_eq!(count(&native), 0);
}

#[test]
fn client_body_read_propagates_native_special_response_without_callback() {
    let mut native = state(1);
    let id = register_client_body_read(&mut native, MAIN, CALLBACK).unwrap().unwrap();
    clear_client_body_read(&mut native, MAIN, id, CALLBACK);
    let (status, call, runs) = read_at_once::<Active>(&mut native, MAIN, 500);
    assert_eq!(status, ClientBodyReadStatus::Special(HTTPStatus(500)));
    assert_eq!((call, runs), (None, 0));
    // The read is no longer registered, so that another one can begin.
    assert!(register_client_body_read(&mut native, MAIN, CALLBACK).unwrap().is_some());
}

fn redirect(native: &mut NativeState, location: &str) -> Result<NginxCall, RequestError> {
    match at(native, MAIN).internal_redirect(native, location)? {
        InternalRedirect::Pending(pending) => {
            let call = pending.call;
            let mut outcome = pending.finish(NGX_DONE);
            assert_eq!(outcome.status, Status(NGX_DONE));
            while outcome.cancel_next(native).is_some() {}
            outcome.release(native);
            Ok(call)
        }
        InternalRedirect::Rejected(status) => {
            assert_eq!(status, Status(NGX_ERROR));
            panic!("rejected")
        }
    }
}

#[test]
fn internal_redirect_rejects_replacement_read_and_stale_body_callback() {
    let mut native = state(1);
    let (status, call, runs) = read_at_once::<Active>(&mut native, MAIN, NGX_AGAIN);
    assert_eq!(status, ClientBodyReadStatus::Again);
    assert_eq!(call, Some(NginxCall::FinalizeRequest { request: MAIN, status: NGX_DONE }));
    assert_eq!(runs, 0);

    assert_eq!(
        redirect(&mut native, "/replacement"),
        Ok(NginxCall::InternalRedirect { request: MAIN })
    );

    let mut request = at(&native, MAIN);
    match request.read_client_body(&mut native, CALLBACK) {
        ClientBodyReadBegin::Started(start) => {
            assert_eq!(start.status(), &ClientBodyReadStatus::Again);
            assert!(!start.release_required);
            assert_eq!(start.release(), None);
        }
        other => panic!("{other:?}"),
    }
    assert_eq!(count(&native), 1);

    match raw_client_body_handler(&mut native, MAIN, CALLBACK) {
        ClientBodyCallbackBegin::Cancel(mut begun) => {
            assert_eq!(begun.cancellation.cancel_next(&mut native), None);
            let dispatch = begun.resume(&mut native);
            assert!(!dispatch.run);
            assert_eq!(
                dispatch.call,
                Some(NginxCall::FinalizeRequest { request: MAIN, status: NGX_ERROR })
            );
            dispatch.end(&mut native);
        }
        other => panic!("{other:?}"),
    }
    assert_eq!(count(&native), 1);
}

fn context_module() -> RequestContextModule {
    RequestContextModule {
        module: ModuleDescriptor { type_: NGX_HTTP_MODULE, index: 0, ctx_index: 0 },
        align: 8,
    }
}

/// A state whose main request publishes a context, and the address of that context.
fn with_context() -> (NativeState, usize) {
    let mut native = state(1);
    edit(&mut native, MAIN).ctx = Pointer::To(vec![0]);
    let entry = at(&native, MAIN)
        .get_or_insert_pinned_module_context_with(&mut native, context_module(), Ok(()), || 41)
        .unwrap();
    assert_eq!(entry.created, Some(41));
    assert_eq!(native.slot_value(MAIN, 0), entry.address);
    (native, entry.address)
}

#[test]
fn internal_redirect_cancels_registered_context_before_native_slot_reset() {
    for (location, call) in [
        ("/redirect", NginxCall::InternalRedirect { request: MAIN }),
        ("@replacement", NginxCall::NamedLocation { request: MAIN }),
    ] {
        let (mut native, context) = with_context();
        let pending = match at(&native, MAIN).internal_redirect(&mut native, location).unwrap() {
            InternalRedirect::Pending(pending) => pending,
            InternalRedirect::Rejected(_) => panic!("rejected"),
        };
        assert_eq!(pending.call, call);
        assert_eq!(pending.uri, location.as_bytes());
        assert_eq!(count(&native), 2);
        let mut outcome = pending.finish(NGX_DONE);
        assert_eq!(native.slot_value(MAIN, 0), context);
        assert_eq!(outcome.cancel_next(&mut native), Some(context));
        assert_eq!(native.slot_value(MAIN, 0), 0);
        assert_eq!(outcome.cancel_next(&mut native), None);
        outcome.release(&mut native);
        assert_eq!(count(&native), 1);
    }
}

#[test]
fn redirect_uri_allocation_failure_preserves_registered_context() {
    let (mut native, context) = with_context();
    native.pools.get_mut(&POOL).unwrap().blocks.clear();
    assert_eq!(redirect(&mut native, "/redirect"), Err(RequestError::Allocation));
    assert_eq!(native.slot_value(MAIN, 0), context);
    let removal = at(&native, MAIN).remove_module_context(&mut native, context_module(), Ok(()));
    assert!(removal.unwrap().removed);
}

#[test]
fn redirect_cancels_the_contexts_it_found_and_no_later_ones() {
    let (mut native, first) = with_context();
    let pending = match at(&native, MAIN).internal_redirect(&mut native, "/redirect").unwrap() {
        InternalRedirect::Pending(pending) => pending,
        InternalRedirect::Rejected(_) => panic!("rejected"),
    };
    // While nginx redirects, the context is removed and another one is published.
    let removal = at(&native, MAIN)
        .remove_module_context(&mut native, context_module(), Ok(()))
        .unwrap();
    assert_eq!(removal.contexts, vec![first]);
    removal.release(&mut native);
    let second = at(&native, MAIN)
        .get_or_insert_pinned_module_context_with(&mut native, context_module(), Ok(()), || 42)
        .unwrap()
        .address;

    let mut outcome = pending.finish(NGX_DONE);
    assert_eq!(outcome.cancel_next(&mut native), None);
    outcome.release(&mut native);
    assert_eq!(native.slot_value(MAIN, 0), second);
}

#[test]
fn redirects_without_a_location_are_rejected() {
    let mut native = state(1);
    assert!(matches!(
        at(&native, MAIN).internal_redirect(&mut native, ""),
        Ok(InternalRedirect::Rejected(Status(NGX_ERROR)))
    ));
}

/// Redirects a request that publishes a context to a named location, with nginx's answer.
fn named_redirect(location: &str, status: isize) {
    let (mut native, context) = with_context();
    let pending = match at(&native, MAIN).internal_redirect(&mut native, location).unwrap() {
        InternalRedirect::Pending(pending) => pending,
        InternalRedirect::Rejected(_) => panic!("rejected"),
    };
    assert_eq!(pending.call, NginxCall::NamedLocation { request: MAIN });
    assert_eq!(pending.uri, location.as_bytes());
    edit(&mut native, MAIN).ctx = Pointer::To(vec![0]);
    let mut outcome = pending.finish(status);
    assert_eq!(outcome.status, Status(status));
    assert_eq!(outcome.cancel_next(&mut native), Some(context));
    assert_eq!(native.slot_value(MAIN, 0), 0);
    assert_eq!(outcome.cancel_next(&mut native), None);
    assert_eq!(outcome.release(&mut native), None);
    assert!(detach_context(&mut native, POOL, context).is_empty());
}

#[test]
fn named_redirect_cancels_registered_context_before_location_reentry() {
    named_redirect("@replacement", NGX_DONE);
}

#[test]
fn missing_named_location_cancels_registered_context_before_terminal_response() {
    named_redirect("@missing", NGX_DONE);
}

#[test]
fn request_hold_reserve_survives_native_body_read_and_redirect_increments() {
    let native_limit = u16::MAX - 1000;
    let mut native = state(native_limit);
    edit(&mut native, MAIN).ctx = Pointer::To(vec![0]);
    let mut hold = None;
    assert_eq!(
        at(&native, MAIN).hold(&mut native, &mut hold),
        Err(RequestHoldError::CountOverflow)
    );
    assert!(hold.is_none());
    assert_eq!(count(&native), native_limit);

    let mut request = at(&native, MAIN);
    let pending = match request.read_client_body(&mut native, CALLBACK) {
        ClientBodyReadBegin::Call(pending) => pending,
        other => panic!("{other:?}"),
    };
    edit(&mut native, MAIN).count += 1;
    assert_eq!(callback::<Active>(&mut native, MAIN), 1);
    let start = pending.finish(&mut native, NGX_OK);
    assert_eq!(start.status(), &ClientBodyReadStatus::Completed);
    assert_eq!(count(&native), native_limit + 1);
    assert_eq!(
        start.release(),
        Some(NginxCall::FinalizeRequest { request: MAIN, status: NGX_DONE })
    );
    edit(&mut native, MAIN).count -= 1;
    assert_eq!(count(&native), native_limit);

    let pending = match at(&native, MAIN).internal_redirect(&mut native, "/redirect").unwrap() {
        InternalRedirect::Pending(pending) => pending,
        InternalRedirect::Rejected(_) => panic!("rejected"),
    };
    edit(&mut native, MAIN).count += 1;
    let mut outcome = pending.finish(NGX_DONE);
    assert_eq!(outcome.status, Status(NGX_DONE));
    assert_eq!(outcome.cancel_next(&mut native), None);
    assert_eq!(outcome.release(&mut native), None);
    assert_eq!(count(&native), native_limit + 1);
    assert!(hold.is_none());
}
