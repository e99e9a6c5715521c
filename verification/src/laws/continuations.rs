//! Delayed requests: holds, continuations, resumed phases and redirects.

use vstd::prelude::*;

use crate::native::{NativeRequest, NativeState, NginxCall, WriteEventHandler};
use crate::request::continuation::{
    HttpFilterError, InternalRedirect, PendingRedirect, PhaseResume, RedirectOutcome,
    RequestContinuation, RequestContinuationError, RequestHold, RequestHoldError,
    RequestPhaseResumeError,
};
use crate::request::view::{RequestError, RequestRefMut};
use crate::status::Status;

verus! {

/// Whether `after` has the requests of `before`, but that `main` has `count` references.
pub open spec fn recounted(before: NativeState, after: NativeState, main: usize, count: int) -> bool {
    &&& after == (NativeState { requests: after.requests, ..before })
    &&& after.requests@.dom() == before.requests@.dom()
    &&& after.requests@[main].count == count
    &&& forall|other: usize| #[trigger]
        before.requests@.contains_key(other) ==> after.requests@[other] == (NativeRequest {
            count: after.requests@[other].count,
            ..before.requests@[other]
        })
    &&& forall|other: usize|
        before.requests@.contains_key(other) && other != main ==> (
        #[trigger] after.requests@[other]).count == before.requests@[other].count
}

/// Whether `after` has the very requests of `before`.
pub open spec fn requests_kept(before: NativeState, after: NativeState) -> bool {
    &&& after == (NativeState { requests: after.requests, ..before })
    &&& after.requests@ == before.requests@
}

/// A hold is taken exactly if there is none yet and the main request has between 1 and 64534
/// references. It adds one reference to the main request; a refusal changes nothing.
pub proof fn law_holding_adds_one_reference()
    ensures
        forall|
            request: &mut RequestRefMut,
            native: &mut NativeState,
            hold: &mut Option<RequestHold>,
            result: Result<(), RequestHoldError>,
        | #[trigger]
            call_ensures(RequestRefMut::hold, (request, native, hold), result) && native.live(
                request.raw,
            ) ==> {
                let main = native.requests@[request.raw].main;
                let count = native.requests@[main].count;
                &&& result is Ok <==> *hold is None && native.main_of(request.raw) is Ok && 1
                    <= count <= 64534
                &&& result is Ok ==> {
                    &&& *final(hold) == Some(
                        RequestHold { request: request.raw, main, active: true },
                    )
                    &&& recounted(*native, *final(native), main, count + 1)
                }
                &&& result is Err ==> *final(hold) == *hold && requests_kept(*native, *final(native))
                &&& *hold is Some ==> result == Err::<(), RequestHoldError>(
                    RequestHoldError::AlreadyHeld,
                )
                &&& *hold is None && native.main_of(request.raw) is Ok && count == 0 ==> result
                    == Err::<(), RequestHoldError>(RequestHoldError::InactiveMain)
                &&& *hold is None && native.main_of(request.raw) is Ok && count > 64534 ==> result
                    == Err::<(), RequestHoldError>(RequestHoldError::CountOverflow)
            },
{
    assert forall|
        request: &mut RequestRefMut,
        native: &mut NativeState,
        hold: &mut Option<RequestHold>,
        result: Result<(), RequestHoldError>,
    | #[trigger]
        call_ensures(RequestRefMut::hold, (request, native, hold), result) && native.live(
            request.raw,
        ) && result is Ok implies recounted(
        *native,
        *final(native),
        native.requests@[request.raw].main,
        native.requests@[native.requests@[request.raw].main].count + 1,
    ) by {
        assert(native.resolves(native.requests@[request.raw].main));
        assert(final(native).requests@.dom() =~= native.requests@.dom());
    }
}

/// A hold becomes the continuation of its own request alone, and only while the main request has
/// references. The continuation has the hold, which leaves its slot; a refusal leaves it there.
pub proof fn law_taking_moves_the_hold(native: NativeState, request: RequestRefMut)
    ensures
        forall|
            hold: &mut Option<RequestHold>,
            result: Result<RequestContinuation, RequestHoldError>,
        | #[trigger]
            call_ensures(RequestHold::take, (hold, &native, request), result) ==> {
                let main = native.requests@[request.raw].main;
                &&& result is Ok <==> *hold is Some && native.main_of(request.raw) is Ok
                    && hold->Some_0.request == request.raw && hold->Some_0.main == main
                    && native.requests@[main].count > 0
                &&& result matches Ok(continuation) ==> {
                    &&& *final(hold) is None
                    &&& continuation.hold == *hold
                    &&& continuation.request == request
                    &&& !continuation.consumed
                    &&& !continuation.header_continued
                    &&& !continuation.body_continued
                }
                &&& result is Err ==> *final(hold) == *hold
                &&& *hold is None ==> (result matches Err(error) && error
                    == RequestHoldError::Missing)
                &&& *hold is Some && native.main_of(request.raw) is Ok && (
                hold->Some_0.request != request.raw || hold->Some_0.main != main) ==> (
                result matches Err(error) && error == RequestHoldError::ForeignRequest)
            },
{
}

/// Giving up a reference takes one off the main request's count, unless it is the last one: then
/// nginx is asked to finish the request, and not even that once it was terminated. A main request
/// without its pool is left alone.
pub proof fn law_released_references(native: NativeState, request: usize, main: usize)
    requires
        native.requests@.contains_key(main),
    ensures
        ({
            let count = native.requests@[main].count;
            let (requests, call) = native.released(request, main);
            let live = native.requests@[main].pool != 0;
            &&& requests.dom() =~= native.requests@.dom()
            &&& requests[main].count == (if live && count > 1 {
                count - 1
            } else {
                count as int
            })
            &&& (NativeRequest { count, ..requests[main] }) == native.requests@[main]
            &&& forall|other: usize|
                other != main ==> #[trigger] requests[other] == native.requests@[other]
            &&& call is Some <==> live && count == 1 && !native.requests@[main].terminated
            &&& call matches Some(call) ==> call == (NginxCall::FinalizeRequest {
                request,
                status: (-4) as isize,
            })
        }),
{
}

/// Cancelling a hold or a continuation gives up its reference once.
pub proof fn law_cancelling_gives_up_the_reference()
    ensures
        forall|
            hold: &mut Option<RequestHold>,
            native: &mut NativeState,
            result: (bool, Option<NginxCall>),
        | #[trigger]
            call_ensures(RequestHold::cancel, (hold, native), result) ==> {
                &&& *final(hold) is None
                &&& result.0 == (*hold is Some)
                &&& *hold is Some && hold->Some_0.active ==> (final(native).requests@, result.1)
                    == native.released(hold->Some_0.request, hold->Some_0.main)
                &&& !(*hold is Some && hold->Some_0.active) ==> result.1 is None && requests_kept(
                    *native,
                    *final(native),
                )
            },
        forall|
            continuation: &mut RequestContinuation,
            native: &mut NativeState,
            result: Result<Option<NginxCall>, RequestContinuationError>,
        | #[trigger]
            call_ensures(RequestContinuation::cancel, (continuation, native), result)
                && continuation.wf(*native) ==> {
                &&& result is Err <==> continuation.consumed
                &&& final(continuation).consumed
                &&& result matches Ok(call) ==> (final(native).requests@, call) == native.released(
                    continuation.request.raw,
                    continuation.hold->Some_0.main,
                )
                &&& result matches Err(error) ==> error == RequestContinuationError::Consumed
                    && requests_kept(*native, *final(native))
            },
        forall|hold: &mut RequestHold, native: &mut NativeState, result: Option<NginxCall>|
            #[trigger] call_ensures(RequestHold::release, (hold, native), result) ==> {
                &&& !final(hold).active
                &&& hold.active ==> (final(native).requests@, result) == native.released(
                    hold.request,
                    hold.main,
                )
                &&& !hold.active ==> result is None && requests_kept(*native, *final(native))
            },
        forall|hold: &mut Option<RequestHold>, result: bool| #[trigger]
            call_ensures(RequestHold::disarm_for_cleanup, (hold,), result) ==> *final(hold) is None
                && result == (*hold is Some),
{
}

/// An active continuation of a request that may be handed to nginx finalizes that request with the
/// very status that it is given, whatever it is, except -5, which nginx would not take as final.
/// So two statuses make two calls.
pub proof fn law_finalizing_passes_the_status_on(native: NativeState, status: Status)
    ensures
        forall|
            continuation: &mut RequestContinuation,
            result: Result<NginxCall, RequestContinuationError>,
        | #[trigger]
            call_ensures(RequestContinuation::finalize, (continuation, &native, status), result)
                ==> finalized(*continuation, *final(continuation), native, status, result),
        forall|
            continuation: &mut RequestContinuation,
            before: &mut NativeState,
            result: Result<NginxCall, RequestContinuationError>,
        | #[trigger]
            call_ensures(
                RequestContinuation::finalize_after_output,
                (continuation, before, status),
                result,
            ) ==> finalized(*continuation, *final(continuation), *before, status, result),
        forall|request: RequestRefMut, result: Result<NginxCall, RequestError>| #[trigger]
            call_ensures(RequestRefMut::finalize, (request, &native, status), result) ==> {
                &&& result is Ok <==> native.terminal_check(request.raw) is Ok
                &&& result matches Ok(call) ==> call == (NginxCall::FinalizeRequest {
                    request: request.raw,
                    status: status.0,
                })
                &&& result matches Err(error) ==> native.terminal_check(request.raw) == Err::<
                    (),
                    RequestError,
                >(error)
            },
{
}

/// Whether `result` is how finalizing with `status` ends, and `after` what it leaves of `before`.
pub open spec fn finalized(
    before: RequestContinuation,
    after: RequestContinuation,
    native: NativeState,
    status: Status,
    result: Result<NginxCall, RequestContinuationError>,
) -> bool {
    &&& result is Ok <==> !before.consumed && native.terminal_check(before.request.raw) is Ok
        && status.0 != -5
    &&& result matches Ok(call) ==> call == (NginxCall::FinalizeRequest {
        request: before.request.raw,
        status: status.0,
    }) && after.consumed && after.hold is None && after.request == before.request
    &&& result is Err ==> after == before
    &&& before.consumed ==> result == Err::<NginxCall, RequestContinuationError>(
        RequestContinuationError::Consumed,
    )
    &&& !before.consumed && native.terminal_check(before.request.raw) is Ok && status.0 == -5
        ==> result == Err::<NginxCall, RequestContinuationError>(
        RequestContinuationError::NonConsumingStatus,
    )
}

/// Two different statuses finalize with two different calls.
pub proof fn law_statuses_are_told_apart(
    before: RequestContinuation,
    native: NativeState,
    a: Status,
    b: Status,
)
    ensures
        before.finalize_check(native, a) is Ok && before.finalize_check(native, b) is Ok && a.0
            != b.0 ==> before.finalize_check(native, a) != before.finalize_check(native, b),
{
}

/// Finalizing after output gives up the hold while nginx's writer keeps another reference: a main
/// request has to keep one, a subrequest, which wakes its parent, two. Plain finalizing leaves the
/// count to nginx.
pub proof fn law_output_keeps_the_writers_reference(status: Status)
    ensures
        forall|
            continuation: &mut RequestContinuation,
            native: &mut NativeState,
            result: Result<NginxCall, RequestContinuationError>,
        | #[trigger]
            call_ensures(
                RequestContinuation::finalize_after_output,
                (continuation, native, status),
                result,
            ) && continuation.wf(*native) ==> {
                let hold = continuation.hold->Some_0;
                let count = native.requests@[hold.main].count;
                let kept: int = if hold.request == hold.main {
                    1
                } else {
                    2
                };
                &&& result is Ok && count > kept ==> recounted(
                    *native,
                    *final(native),
                    hold.main,
                    count - 1,
                )
                &&& !(result is Ok && count > kept) ==> requests_kept(*native, *final(native))
            },
{
    assert forall|
        continuation: &mut RequestContinuation,
        native: &mut NativeState,
        result: Result<NginxCall, RequestContinuationError>,
    | #[trigger]
        call_ensures(
            RequestContinuation::finalize_after_output,
            (continuation, native, status),
            result,
        ) && continuation.wf(*native) && result is Ok && native.requests@[
            continuation.hold->Some_0.main].count > (if continuation.hold->Some_0.request
            == continuation.hold->Some_0.main {
            1int
        } else {
            2int
        }) implies recounted(
        *native,
        *final(native),
        continuation.hold->Some_0.main,
        native.requests@[continuation.hold->Some_0.main].count - 1,
    ) by {
        assert(final(native).requests@.dom() =~= native.requests@.dom());
    }
}

/// Resuming with a declined status asks nginx to go on with -5, and gives up the hold, which must
/// not be the last reference.
pub proof fn law_declining_gives_up_the_hold()
    ensures
        forall|
            continuation: &mut RequestContinuation,
            native: &mut NativeState,
            result: Result<NginxCall, RequestContinuationError>,
        | #[trigger]
            call_ensures(RequestContinuation::resume_declined, (continuation, native), result)
                && continuation.wf(*native) ==> {
                let main = continuation.hold->Some_0.main;
                &&& result is Ok <==> !continuation.consumed && native.requests@[main].count > 1
                    && native.terminal_check(continuation.request.raw) is Ok
                &&& result matches Ok(call) ==> {
                    &&& call == (NginxCall::FinalizeRequest {
                        request: continuation.request.raw,
                        status: (-5) as isize,
                    })
                    &&& final(native).requests@[main].count == native.requests@[main].count - 1
                    &&& final(continuation).consumed && final(continuation).hold is None
                    &&& forall|other: usize|
                        other != main ==> #[trigger] final(native).requests@[other]
                            == native.requests@[other]
                }
                &&& result is Err ==> *final(continuation) == *continuation && requests_kept(
                    *native,
                    *final(native),
                )
            },
{
}

/// Resuming PREACCESS moves the phase engine to the handler behind the current one and runs it. A
/// negative handler and the last possible one are refused, and nothing changes then.
pub proof fn law_preaccess_moves_to_the_next_handler()
    ensures
        forall|
            request: RequestRefMut,
            native: &mut NativeState,
            result: Result<NginxCall, RequestPhaseResumeError>,
        | #[trigger]
            call_ensures(RequestRefMut::resume_preaccess, (request, native), result) ==> {
                let handler = native.requests@[request.raw].phase_handler;
                &&& result is Ok <==> native.terminal_check(request.raw) is Ok && 0 <= handler
                    < isize::MAX
                &&& result matches Ok(call) ==> {
                    &&& call == (NginxCall::CoreRunPhases { request: request.raw })
                    &&& final(native).requests@[request.raw].phase_handler == handler + 1
                    &&& final(native).requests@[request.raw].write_event_handler == Some(
                        WriteEventHandler::CoreRunPhases,
                    )
                }
                &&& result is Err ==> requests_kept(*native, *final(native))
            },
        forall|
            continuation: &mut RequestContinuation,
            native: &mut NativeState,
            result: Result<NginxCall, RequestContinuationError>,
        | #[trigger]
            call_ensures(RequestContinuation::resume_preaccess, (continuation, native), result)
                && continuation.wf(*native) ==> {
                let raw = continuation.request.raw;
                let main = continuation.hold->Some_0.main;
                let handler = native.requests@[raw].phase_handler;
                &&& result is Ok <==> !continuation.consumed && native.requests@[main].count > 1
                    && native.terminal_check(raw) is Ok && 0 <= handler < isize::MAX
                &&& result matches Ok(call) ==> {
                    &&& call == (NginxCall::CoreRunPhases { request: raw })
                    &&& final(native).requests@[raw].phase_handler == handler + 1
                    &&& final(native).requests@[raw].write_event_handler == Some(
                        WriteEventHandler::CoreRunPhases,
                    )
                    &&& final(native).requests@[main].count == native.requests@[main].count - 1
                    &&& final(continuation).consumed && final(continuation).hold is None
                    &&& forall|other: usize|
                        other != main && other != raw ==> #[trigger] final(native).requests@[other]
                            == native.requests@[other]
                }
                &&& result is Err ==> *final(continuation) == *continuation && requests_kept(
                    *native,
                    *final(native),
                )
            },
{
}

/// Phases are resumed by posting the connection's write event. The request is queued first exactly
/// if the connection works on another one, and nginx has to accept that. The phase handler stays.
pub proof fn law_resumed_phases_post_the_write_event(posted: isize)
    ensures
        forall|
            continuation: &mut RequestContinuation,
            native: &mut NativeState,
            result: Result<NginxCall, RequestContinuationError>,
        | #[trigger]
            call_ensures(RequestContinuation::resume_phase, (continuation, native, posted), result)
                && continuation.wf(*native) ==> {
                let raw = continuation.request.raw;
                let main = continuation.hold->Some_0.main;
                let connection = native.requests@[raw].connection->To_0;
                &&& result is Ok <==> !continuation.consumed && native.requests@[main].count > 1
                    && native.terminal_check(raw) is Ok && native.requests@[raw].phase_handler >= 0
                    && connection.write is To && (connection.data == raw || posted == 0)
                &&& result matches Ok(call) ==> {
                    &&& call == (NginxCall::PostWriteEvent { event: connection.write->To_0 })
                    &&& final(native).requests@[raw].phase_handler
                        == native.requests@[raw].phase_handler
                    &&& final(native).requests@[raw].write_event_handler == Some(
                        WriteEventHandler::CoreRunPhases,
                    )
                    &&& final(native).requests@[main].count == native.requests@[main].count - 1
                    &&& final(continuation).consumed && final(continuation).hold is None
                    &&& forall|other: usize|
                        other != main && other != raw ==> #[trigger] final(native).requests@[other]
                            == native.requests@[other]
                }
                &&& result is Err ==> *final(continuation) == *continuation && requests_kept(
                    *native,
                    *final(native),
                )
            },
        forall|
            continuation: RequestContinuation,
            native: NativeState,
            result: Result<PhaseResume, RequestContinuationError>,
        | #[trigger]
            call_ensures(RequestContinuation::may_resume_phase, (&continuation, &native), result)
                && continuation.wf(native) ==> {
                let raw = continuation.request.raw;
                let connection = native.requests@[raw].connection->To_0;
                &&& result is Ok <==> !continuation.consumed && native.requests@[
                    continuation.hold->Some_0.main].count > 1 && native.terminal_check(raw) is Ok
                    && native.requests@[raw].phase_handler >= 0 && connection.write is To
                &&& result matches Ok(resume) ==> resume.queue == (connection.data != raw)
                    && resume.event == connection.write->To_0
            },
        forall|
            hold: &mut Option<RequestHold>,
            native: &mut NativeState,
            result: Result<NginxCall, RequestContinuationError>,
        | #[trigger]
            call_ensures(RequestHold::resume_phase, (hold, native, posted), result) ==> {
                let raw = hold->Some_0.request;
                let main = hold->Some_0.main;
                let connection = native.requests@[raw].connection->To_0;
                &&& result is Ok <==> *hold is Some && native.checked_request(raw) is Ok
                    && native.main_of(raw) is Ok && native.requests@[raw].main == main
                    && native.requests@[main].count > 1 && native.terminal_check(raw) is Ok
                    && native.requests@[raw].phase_handler >= 0 && connection.write is To && (
                connection.data == raw || posted == 0)
                &&& result matches Ok(call) ==> {
                    &&& call == (NginxCall::PostWriteEvent { event: connection.write->To_0 })
                    &&& *final(hold) is None
                    &&& final(native).requests@[main].count == native.requests@[main].count - 1
                }
                &&& result is Err ==> *final(hold) == *hold && requests_kept(*native, *final(native))
            },
{
}

/// Each saved filter runs at most once for a continuation: once its answer was recorded, it may not
/// be called again. The two filters do not stand in each other's way, and the answer is handed on.
pub proof fn law_filters_run_once(native: NativeState, answer: isize, error: HttpFilterError)
    ensures
        forall|
            continuation: &mut RequestContinuation,
            result: Result<Status, RequestContinuationError>,
        | #[trigger]
            call_ensures(
                RequestContinuation::call_next_header,
                (continuation, &native, Ok::<isize, HttpFilterError>(answer)),
                result,
            ) ==> {
                &&& result is Ok <==> !continuation.consumed && !continuation.header_continued
                    && native.terminal_check(continuation.request.raw) is Ok
                &&& result matches Ok(status) ==> status.0 == answer && *final(continuation) == (
                RequestContinuation { header_continued: true, ..*continuation })
                &&& result is Err ==> *final(continuation) == *continuation
                &&& !continuation.consumed && continuation.header_continued ==> result == Err::<
                    Status,
                    RequestContinuationError,
                >(RequestContinuationError::HeaderAlreadyContinued)
            },
        forall|
            continuation: &mut RequestContinuation,
            result: Result<Status, RequestContinuationError>,
        | #[trigger]
            call_ensures(
                RequestContinuation::call_next_body,
                (continuation, &native, Ok::<isize, HttpFilterError>(answer)),
                result,
            ) ==> {
                &&& result is Ok <==> !continuation.consumed && !continuation.body_continued
                    && native.terminal_check(continuation.request.raw) is Ok
                &&& result matches Ok(status) ==> status.0 == answer && *final(continuation) == (
                RequestContinuation { body_continued: true, ..*continuation })
                &&& result is Err ==> *final(continuation) == *continuation
                &&& !continuation.consumed && continuation.body_continued ==> result == Err::<
                    Status,
                    RequestContinuationError,
                >(RequestContinuationError::BodyAlreadyContinued)
            },
        forall|
            continuation: &mut RequestContinuation,
            result: Result<Status, RequestContinuationError>,
        | #[trigger]
            call_ensures(
                RequestContinuation::call_next_header,
                (continuation, &native, Err::<isize, HttpFilterError>(error)),
                result,
            ) ==> result is Err && *final(continuation) == *continuation,
        forall|
            continuation: &mut RequestContinuation,
            result: Result<Status, RequestContinuationError>,
        | #[trigger]
            call_ensures(
                RequestContinuation::call_next_body,
                (continuation, &native, Err::<isize, HttpFilterError>(error)),
                result,
            ) ==> result is Err && *final(continuation) == *continuation,
{
}

/// A continuation can be put back exactly while it is active, no filter ran and the slot is empty;
/// the slot then has the hold again. Otherwise it comes back whole.
pub proof fn law_restoring_puts_the_hold_back(continuation: RequestContinuation)
    ensures
        forall|
            slot: &mut Option<RequestHold>,
            result: Result<(), (RequestContinuationError, RequestContinuation)>,
        | #[trigger]
            call_ensures(RequestContinuation::restore, (continuation, slot), result) ==> {
                &&& result is Ok <==> !continuation.consumed && !continuation.header_continued
                    && !continuation.body_continued && *slot is None
                &&& result is Ok ==> *final(slot) == continuation.hold
                &&& result matches Err(rejected) ==> rejected.1 == continuation && *final(slot)
                    == *slot
            },
{
}

/// A redirect goes to the location that was asked for: a named one if it starts with `@`, else an
/// ordinary one. The request is kept alive meanwhile, and the contexts that it has then are the
/// ones to be cancelled, the latest first. An empty location is rejected and changes nothing.
pub proof fn law_redirects_go_to_their_location(location: &str)
    ensures
        forall|
            request: &mut RequestRefMut,
            native: &mut NativeState,
            result: Result<InternalRedirect, RequestError>,
        | #[trigger]
            call_ensures(RequestRefMut::internal_redirect, (request, native, location), result)
                ==> {
                let raw = request.raw;
                &&& location@.len() == 0 ==> (result matches Ok(InternalRedirect::Rejected(status))
                    && status.0 == -1 && final(native).unchanged(*native))
                &&& location@.len() > 0 ==> {
                    &&& !(result matches Ok(InternalRedirect::Rejected(_)))
                    &&& result is Ok <==> native.pool_of(raw) is Ok && native.pools@[
                        native.requests@[raw].pool].blocks@.len() > 0 && native.retained(raw).1 is Ok
                }
                &&& result matches Ok(InternalRedirect::Pending(redirect)) ==> {
                    &&& redirect.raw == raw
                    &&& redirect.uri@ == vstd::utf8::encode_utf8(location@)
                    &&& location@[0] == '@' ==> redirect.call == (NginxCall::NamedLocation {
                        request: raw,
                    })
                    &&& location@[0] != '@' ==> redirect.call == (NginxCall::InternalRedirect {
                        request: raw,
                    })
                    &&& redirect.generation.pool == native.requests@[raw].pool
                    &&& native.pools@[native.requests@[raw].pool].registry matches Some(registry)
                        ==> registry.registrations@.len() > 0 ==> redirect.generation.next == Some(
                        registry.registrations@.last().context,
                    )
                    &&& native.main_of(raw) is Ok && native.requests@[
                        native.requests@[raw].main].count > 0 ==> final(native).requests@[
                        native.requests@[raw].main].count == native.requests@[
                        native.requests@[raw].main].count + 1 && (redirect.hold matches Some(hold)
                        && hold.main == native.requests@[raw].main && hold.request == raw)
                }
            },
        forall|redirect: PendingRedirect, status: isize, result: RedirectOutcome| #[trigger]
            call_ensures(PendingRedirect::finish, (redirect, status), result) ==> result.status.0
                == status && result.generation == redirect.generation && result.hold
                == redirect.hold,
{
}

} // verus!
