//! Which error a delayed request is refused with.

use vstd::prelude::*;

use crate::buffer::PoolChain;
use crate::native::{ConnectionError, NativeState, NginxCall};
use crate::request::continuation::{
    HttpFilterError, PhaseResume, RequestContinuation, RequestContinuationError, RequestHold,
    RequestHoldError, RequestPhaseResumeError,
};
use crate::request::view::{RequestError, RequestRefMut};
use crate::status::Status;

verus! {

/// A hold is refused as missing if there is none, as one of a broken request if the main request
/// cannot be found, as a foreign one if it was made for another request or another main request,
/// and as inactive if the main request has no references; in this order. What may be taken is what
/// is taken.
pub proof fn law_holds_are_refused_for_a_reason(native: NativeState, request: RequestRefMut)
    ensures
        forall|hold: Option<RequestHold>, result: Result<(), RequestHoldError>| #[trigger]
            call_ensures(RequestHold::may_take, (&hold, &native, &request), result) ==> {
                let main = native.requests@[request.raw].main;
                let own = hold->Some_0.request == request.raw && hold->Some_0.main == main;
                &&& hold is None <==> result == Err::<(), RequestHoldError>(
                    RequestHoldError::Missing,
                )
                &&& hold is Some ==> match native.main_of(request.raw) {
                    Err(error) => result == Err::<(), RequestHoldError>(
                        RequestHoldError::Request(error),
                    ),
                    Ok(_) => {
                        &&& !own <==> result == Err::<(), RequestHoldError>(
                            RequestHoldError::ForeignRequest,
                        )
                        &&& own && native.requests@[main].count == 0 <==> result == Err::<
                            (),
                            RequestHoldError,
                        >(RequestHoldError::InactiveMain)
                        &&& own && native.requests@[main].count > 0 <==> result is Ok
                    },
                }
            },
        forall|
            slot: &mut Option<RequestHold>,
            hold: Option<RequestHold>,
            may: Result<(), RequestHoldError>,
            taken: Result<RequestContinuation, RequestHoldError>,
        |
            #![trigger
                call_ensures(RequestHold::may_take, (&hold, &native, &request), may),
                call_ensures(RequestHold::take, (slot, &native, request), taken),
            ]
            call_ensures(RequestHold::may_take, (&hold, &native, &request), may) && call_ensures(
                RequestHold::take,
                (slot, &native, request),
                taken,
            ) && hold == *slot ==> {
                &&& may is Ok <==> taken is Ok
                &&& may matches Err(error) ==> (taken matches Err(e) && e == error)
            },
        forall|hold: Option<RequestHold>, result: Option<usize>| #[trigger]
            call_ensures(RequestHold::request_ptr, (&hold,), result) ==> {
                &&& result is Some <==> hold is Some
                &&& result matches Some(raw) ==> raw == hold->Some_0.request
            },
        forall|
            view: &mut RequestRefMut,
            state: &mut NativeState,
            slot: &mut Option<RequestHold>,
            result: Result<(), RequestHoldError>,
        | #[trigger]
            call_ensures(RequestRefMut::hold, (view, state, slot), result) && *slot is None ==> (
            state.main_of(view.raw) matches Err(error) ==> result == Err::<(), RequestHoldError>(
                RequestHoldError::Request(error),
            )),
{
}

/// Whether `error` is the first reason for which the phases of `raw`, held through `main`, cannot
/// be resumed: the last reference, a broken request, a negative phase handler, or a write event
/// that is missing or misaligned.
pub open spec fn phase_refused(
    native: NativeState,
    raw: usize,
    main: usize,
    error: RequestContinuationError,
) -> bool {
    let request = native.requests@[raw];
    if native.requests@[main].count <= 1 {
        error == RequestContinuationError::Hold(RequestHoldError::InactiveMain)
    } else if native.terminal_check(raw) is Err {
        error == RequestContinuationError::Request(native.terminal_check(raw)->Err_0)
    } else if request.phase_handler < 0 {
        error == RequestContinuationError::Phase(RequestPhaseResumeError::NegativePhaseHandler)
    } else if request.connection->To_0.write is Null {
        error == RequestContinuationError::Request(
            RequestError::Connection(ConnectionError::MissingWriteEvent),
        )
    } else {
        &&& request.connection->To_0.write is Misaligned
        &&& error == RequestContinuationError::Request(
            RequestError::Connection(ConnectionError::MisalignedWriteEvent),
        )
    }
}

/// Resuming phases is refused for the first reason there is. What may be resumed is refused only
/// if the request has to be queued and nginx could not post it.
pub proof fn law_phases_are_refused_for_a_reason(native: NativeState, posted: isize)
    ensures
        forall|
            continuation: RequestContinuation,
            result: Result<PhaseResume, RequestContinuationError>,
        | #[trigger]
            call_ensures(RequestContinuation::may_resume_phase, (&continuation, &native), result)
                ==> {
                &&& continuation.consumed ==> (result matches Err(error) && error
                    == RequestContinuationError::Consumed)
                &&& !continuation.consumed ==> (result matches Err(error) ==> phase_refused(
                    native,
                    continuation.request.raw,
                    continuation.hold->Some_0.main,
                    error,
                ))
            },
        forall|
            continuation: &mut RequestContinuation,
            state: &mut NativeState,
            held: RequestContinuation,
            may: Result<PhaseResume, RequestContinuationError>,
            result: Result<NginxCall, RequestContinuationError>,
        |
            #![trigger
                call_ensures(RequestContinuation::may_resume_phase, (&held, &native), may),
                call_ensures(RequestContinuation::resume_phase, (continuation, state, posted), result),
            ]
            call_ensures(RequestContinuation::may_resume_phase, (&held, &native), may)
                && call_ensures(
                RequestContinuation::resume_phase,
                (continuation, state, posted),
                result,
            ) && held == *continuation && native == *state ==> {
                &&& may matches Err(error) ==> (result matches Err(e) && e == error)
                &&& may matches Ok(resume) ==> {
                    &&& result is Err <==> resume.queue && posted != 0
                    &&& result matches Err(e) ==> e == RequestContinuationError::Request(
                        RequestError::Allocation,
                    )
                    &&& result matches Ok(call) ==> call == (NginxCall::PostWriteEvent {
                        event: resume.event,
                    })
                }
            },
        forall|hold: Option<RequestHold>, result: Result<PhaseResume, RequestContinuationError>|
            #[trigger] call_ensures(RequestHold::may_resume_phase, (&hold, &native), result) ==> {
                let held = hold->Some_0;
                let pointer = native.checked_request(held.request);
                let main = native.main_of(held.request);
                &&& hold is None ==> (result matches Err(error) && error
                    == RequestContinuationError::Hold(RequestHoldError::Missing))
                &&& hold is Some && pointer is Err ==> (result matches Err(error) && error
                    == RequestContinuationError::Request(pointer->Err_0))
                &&& hold is Some && pointer is Ok && main is Err ==> (result matches Err(error)
                    && error == RequestContinuationError::Hold(
                    RequestHoldError::Request(main->Err_0),
                ))
                &&& hold is Some && pointer is Ok && main is Ok && main->Ok_0 != held.main ==> (
                result matches Err(error) && error == RequestContinuationError::Hold(
                    RequestHoldError::ForeignRequest,
                ))
                &&& hold is Some && pointer is Ok && main is Ok && main->Ok_0 == held.main ==> {
                    &&& result matches Err(error) ==> phase_refused(
                        native,
                        held.request,
                        held.main,
                        error,
                    )
                    &&& result matches Ok(resume) ==> {
                        let connection = native.requests@[held.request].connection->To_0;
                        &&& resume.queue == (connection.data != held.request)
                        &&& resume.event == connection.write->To_0
                    }
                }
            },
        forall|
            slot: &mut Option<RequestHold>,
            state: &mut NativeState,
            hold: Option<RequestHold>,
            may: Result<PhaseResume, RequestContinuationError>,
            result: Result<NginxCall, RequestContinuationError>,
        |
            #![trigger
                call_ensures(RequestHold::may_resume_phase, (&hold, &native), may),
                call_ensures(RequestHold::resume_phase, (slot, state, posted), result),
            ]
            call_ensures(RequestHold::may_resume_phase, (&hold, &native), may) && call_ensures(
                RequestHold::resume_phase,
                (slot, state, posted),
                result,
            ) && hold == *slot && native == *state ==> {
                &&& may matches Err(error) ==> (result matches Err(e) && e == error)
                &&& may matches Ok(resume) ==> {
                    &&& result is Err <==> resume.queue && posted != 0
                    &&& result matches Err(e) ==> e == RequestContinuationError::Request(
                        RequestError::Allocation,
                    )
                    &&& result matches Ok(call) ==> call == (NginxCall::PostWriteEvent {
                        event: resume.event,
                    })
                }
            },
{
}

/// Whether `error` is the first reason for which the phase engine of `raw` cannot step to its next
/// handler.
pub open spec fn step_refused(
    native: NativeState,
    raw: usize,
    error: RequestPhaseResumeError,
) -> bool {
    if native.terminal_check(raw) is Err {
        error == RequestPhaseResumeError::Request(native.terminal_check(raw)->Err_0)
    } else if native.requests@[raw].phase_handler < 0 {
        error == RequestPhaseResumeError::NegativePhaseHandler
    } else {
        &&& native.requests@[raw].phase_handler == isize::MAX
        &&& error == RequestPhaseResumeError::PhaseHandlerOverflow
    }
}

/// Stepping PREACCESS on, and declining, are refused for the first reason there is. Preparing the
/// step does what the step does, but for the call of nginx.
pub proof fn law_steps_are_refused_for_a_reason()
    ensures
        forall|
            view: RequestRefMut,
            native: &mut NativeState,
            result: Result<NginxCall, RequestPhaseResumeError>,
        | #[trigger]
            call_ensures(RequestRefMut::resume_preaccess, (view, native), result) ==> (
            result matches Err(error) ==> step_refused(*native, view.raw, error)),
        forall|
            view: &mut RequestRefMut,
            native: &mut NativeState,
            result: Result<(), RequestPhaseResumeError>,
        | #[trigger]
            call_ensures(RequestRefMut::prepare_preaccess_resume, (view, native), result) ==> {
                &&& *final(view) == *view
                &&& result matches Err(error) ==> step_refused(*native, view.raw, error)
                    && final(native).requests@ == native.requests@
                &&& result is Ok ==> {
                    &&& native.terminal_check(view.raw) is Ok
                    &&& final(native).requests@[view.raw].phase_handler
                        == native.requests@[view.raw].phase_handler + 1
                    &&& final(native).requests@[view.raw].write_event_handler is Some
                    &&& forall|other: usize|
                        other != view.raw ==> #[trigger] final(native).requests@[other]
                            == native.requests@[other]
                }
            },
        forall|
            left: RequestRefMut,
            right: &mut RequestRefMut,
            before: &mut NativeState,
            native: &mut NativeState,
            resumed: Result<NginxCall, RequestPhaseResumeError>,
            prepared: Result<(), RequestPhaseResumeError>,
        |
            #![trigger
                call_ensures(RequestRefMut::resume_preaccess, (left, before), resumed),
                call_ensures(RequestRefMut::prepare_preaccess_resume, (right, native), prepared),
            ]
            call_ensures(RequestRefMut::resume_preaccess, (left, before), resumed) && call_ensures(
                RequestRefMut::prepare_preaccess_resume,
                (right, native),
                prepared,
            ) && left.raw == right.raw && *before == *native ==> {
                &&& resumed is Ok <==> prepared is Ok
                &&& final(before).requests@ == final(native).requests@
            },
        forall|
            continuation: &mut RequestContinuation,
            native: &mut NativeState,
            result: Result<NginxCall, RequestContinuationError>,
        | #[trigger]
            call_ensures(RequestContinuation::resume_preaccess, (continuation, native), result) ==> {
                let held = native.requests@[continuation.hold->Some_0.main].count > 1;
                &&& continuation.consumed ==> (result matches Err(error) && error
                    == RequestContinuationError::Consumed)
                &&& !continuation.consumed && !held ==> (result matches Err(error) && error
                    == RequestContinuationError::Hold(RequestHoldError::InactiveMain))
                &&& !continuation.consumed && held ==> (result matches Err(error) ==> (
                error matches RequestContinuationError::Phase(reason) && step_refused(
                    *native,
                    continuation.request.raw,
                    reason,
                )))
            },
        forall|
            continuation: &mut RequestContinuation,
            native: &mut NativeState,
            result: Result<NginxCall, RequestContinuationError>,
        | #[trigger]
            call_ensures(RequestContinuation::resume_declined, (continuation, native), result) ==> {
                let held = native.requests@[continuation.hold->Some_0.main].count > 1;
                &&& continuation.consumed ==> (result matches Err(error) && error
                    == RequestContinuationError::Consumed)
                &&& !continuation.consumed && !held ==> (result matches Err(error) && error
                    == RequestContinuationError::Hold(RequestHoldError::InactiveMain))
                &&& !continuation.consumed && held ==> (result matches Err(error) ==> error
                    == RequestContinuationError::Request(
                    native.terminal_check(continuation.request.raw)->Err_0,
                ) && native.terminal_check(continuation.request.raw) is Err)
            },
{
}

/// A continuation refuses as consumed once it was, and hands on the error of a request that may not
/// be handed to nginx; a status that would not consume it is looked at last.
pub proof fn law_continuations_are_refused_for_a_reason(native: NativeState, status: Status)
    ensures
        forall|
            continuation: &mut RequestContinuation,
            result: Result<NginxCall, RequestContinuationError>,
        | #[trigger]
            call_ensures(RequestContinuation::finalize, (continuation, &native, status), result)
                && !continuation.consumed ==> (native.terminal_check(continuation.request.raw)
                matches Err(error) ==> (result matches Err(e) && e
                == RequestContinuationError::Request(error))),
        forall|
            continuation: &mut RequestContinuation,
            state: &mut NativeState,
            result: Result<NginxCall, RequestContinuationError>,
        | #[trigger]
            call_ensures(
                RequestContinuation::finalize_after_output,
                (continuation, state, status),
                result,
            ) && !continuation.consumed ==> (state.terminal_check(continuation.request.raw)
                matches Err(error) ==> (result matches Err(e) && e
                == RequestContinuationError::Request(error))),
        forall|
            continuation: &mut RequestContinuation,
            result: Result<NginxCall, RequestContinuationError>,
        | #[trigger]
            call_ensures(RequestContinuation::send_header, (continuation, &native), result) ==> {
                let allowed = native.terminal_check(continuation.request.raw);
                &&& *final(continuation) == *continuation
                &&& result is Ok <==> !continuation.consumed && allowed is Ok
                &&& result matches Ok(call) ==> call == (NginxCall::SendHeader {
                    request: continuation.request.raw,
                })
                &&& continuation.consumed ==> (result matches Err(e) && e
                    == RequestContinuationError::Consumed)
                &&& !continuation.consumed && allowed is Err ==> (result matches Err(e) && e
                    == RequestContinuationError::Request(allowed->Err_0))
            },
        forall|
            continuation: &mut RequestContinuation,
            chain: PoolChain,
            result: Result<NginxCall, RequestContinuationError>,
        | #[trigger]
            call_ensures(RequestContinuation::output_filter, (continuation, &native, &chain), result)
                ==> {
                let raw = continuation.request.raw;
                let allowed = native.terminal_check(raw);
                let pool = native.requests@[raw].pool;
                &&& *final(continuation) == *continuation
                &&& result is Ok <==> !continuation.consumed && allowed is Ok && pool != 0 && pool
                    % 8 == 0 && chain.pool == pool
                &&& result matches Ok(call) ==> call == (NginxCall::OutputFilter { request: raw })
                &&& continuation.consumed ==> (result matches Err(e) && e
                    == RequestContinuationError::Consumed)
                &&& !continuation.consumed && allowed is Err ==> (result matches Err(e) && e
                    == RequestContinuationError::Request(allowed->Err_0))
                &&& !continuation.consumed && allowed is Ok && pool == 0 ==> (result matches Err(e)
                    && e == RequestContinuationError::Request(RequestError::MissingPool))
                &&& !continuation.consumed && allowed is Ok && pool % 8 != 0 ==> (
                result matches Err(e) && e == RequestContinuationError::Request(
                    RequestError::MisalignedPool,
                ))
                &&& !continuation.consumed && allowed is Ok && pool != 0 && pool % 8 == 0
                    && chain.pool != pool ==> (result matches Err(e) && e
                    == RequestContinuationError::Request(RequestError::ForeignPool))
            },
        forall|continuation: RequestContinuation, result: Result<(), RequestContinuationError>|
            #[trigger] call_ensures(RequestContinuation::ensure_active, (&continuation,), result) ==> {
                &&& result is Ok <==> !continuation.consumed
                &&& result matches Err(e) ==> e == RequestContinuationError::Consumed
            },
        forall|continuation: RequestContinuation, result: Result<(), RequestHoldError>| #[trigger]
            call_ensures(
                RequestContinuation::ensure_releasable_hold,
                (&continuation, &native),
                result,
            ) ==> {
                &&& result is Ok <==> native.requests@[continuation.hold->Some_0.main].count > 1
                &&& result matches Err(e) ==> e == RequestHoldError::InactiveMain
            },
        forall|
            continuation: RequestContinuation,
            slot: &mut Option<RequestHold>,
            result: Result<(), (RequestContinuationError, RequestContinuation)>,
        | #[trigger]
            call_ensures(RequestContinuation::restore, (continuation, slot), result) ==> {
                let continued = continuation.header_continued || continuation.body_continued;
                &&& continuation.consumed ==> (result matches Err(rejected) && rejected.0
                    == RequestContinuationError::Consumed)
                &&& !continuation.consumed && continued ==> (result matches Err(rejected)
                    && rejected.0 == RequestContinuationError::FilterAlreadyContinued)
                &&& !continuation.consumed && !continued && *slot is Some ==> (
                result matches Err(rejected) && rejected.0 == RequestContinuationError::Hold(
                    RequestHoldError::AlreadyHeld,
                ))
            },
{
}

/// A saved filter may be called exactly if its call would be let through, and is refused with the
/// same error. An error of the filter itself is handed on.
pub proof fn law_filters_are_refused_for_a_reason(
    native: NativeState,
    outcome: Result<isize, HttpFilterError>,
)
    ensures
        forall|continuation: RequestContinuation, result: Result<(), RequestContinuationError>|
            #[trigger]
            call_ensures(RequestContinuation::may_call_next_header, (&continuation, &native), result)
                ==> filter_answer(
                continuation,
                native,
                continuation.header_continued,
                RequestContinuationError::HeaderAlreadyContinued,
                result,
            ),
        forall|continuation: RequestContinuation, result: Result<(), RequestContinuationError>|
            #[trigger]
            call_ensures(RequestContinuation::may_call_next_body, (&continuation, &native), result)
                ==> filter_answer(
                continuation,
                native,
                continuation.body_continued,
                RequestContinuationError::BodyAlreadyContinued,
                result,
            ),
        forall|
            continuation: &mut RequestContinuation,
            before: RequestContinuation,
            may: Result<(), RequestContinuationError>,
            result: Result<Status, RequestContinuationError>,
        |
            #![trigger
                call_ensures(RequestContinuation::may_call_next_header, (&before, &native), may),
                call_ensures(
                    RequestContinuation::call_next_header,
                    (continuation, &native, outcome),
                    result,
                ),
            ]
            call_ensures(RequestContinuation::may_call_next_header, (&before, &native), may)
                && call_ensures(
                RequestContinuation::call_next_header,
                (continuation, &native, outcome),
                result,
            ) && before == *continuation ==> {
                &&& may matches Err(error) ==> (result matches Err(e) && e == error)
                &&& may is Ok ==> (outcome matches Err(error) ==> (result matches Err(e) && e
                    == RequestContinuationError::Filter(error)))
            },
        forall|
            continuation: &mut RequestContinuation,
            before: RequestContinuation,
            may: Result<(), RequestContinuationError>,
            result: Result<Status, RequestContinuationError>,
        |
            #![trigger
                call_ensures(RequestContinuation::may_call_next_body, (&before, &native), may),
                call_ensures(
                    RequestContinuation::call_next_body,
                    (continuation, &native, outcome),
                    result,
                ),
            ]
            call_ensures(RequestContinuation::may_call_next_body, (&before, &native), may)
                && call_ensures(
                RequestContinuation::call_next_body,
                (continuation, &native, outcome),
                result,
            ) && before == *continuation ==> {
                &&& may matches Err(error) ==> (result matches Err(e) && e == error)
                &&& may is Ok ==> (outcome matches Err(error) ==> (result matches Err(e) && e
                    == RequestContinuationError::Filter(error)))
            },
{
}

/// Whether `result` tells if a filter that did or did not run yet may be called.
pub open spec fn filter_answer(
    continuation: RequestContinuation,
    native: NativeState,
    continued: bool,
    again: RequestContinuationError,
    result: Result<(), RequestContinuationError>,
) -> bool {
    let allowed = native.terminal_check(continuation.request.raw);
    &&& result is Ok <==> !continuation.consumed && !continued && allowed is Ok
    &&& continuation.consumed ==> (result matches Err(e) && e == RequestContinuationError::Consumed)
    &&& !continuation.consumed && continued ==> (result matches Err(e) && e == again)
    &&& !continuation.consumed && !continued && allowed is Err ==> (result matches Err(e) && e
        == RequestContinuationError::Request(allowed->Err_0))
}

/// However a continuation ends, its hold is gone from it: released for a resumed phase, handed to
/// nginx, put back into its slot, or given up with the continuation.
pub proof fn law_ended_continuations_have_no_hold()
    ensures
        forall|continuation: &mut RequestContinuation, native: &mut NativeState| #[trigger]
            call_ensures(RequestContinuation::release_for_resume, (continuation, native), ())
                && native.requests@[continuation.hold->Some_0.main].count > 1 ==> {
                let main = continuation.hold->Some_0.main;
                &&& final(continuation).consumed && final(continuation).hold is None
                &&& final(continuation).request == continuation.request
                &&& final(native).requests@[main].count == native.requests@[main].count - 1
                &&& forall|other: usize|
                    other != main ==> #[trigger] final(native).requests@[other]
                        == native.requests@[other]
            },
        forall|continuation: &mut RequestContinuation| #[trigger]
            call_ensures(RequestContinuation::transfer_to_nginx, (continuation,), ()) ==> {
                &&& final(continuation).consumed && final(continuation).hold is None
                &&& final(continuation).request == continuation.request
            },
        forall|continuation: &mut RequestContinuation, slot: &mut Option<RequestHold>| #[trigger]
            call_ensures(RequestContinuation::restore_hold, (continuation, slot), ()) ==> {
                &&& *final(slot) == continuation.hold
                &&& final(continuation).consumed && final(continuation).hold is None
            },
        forall|
            continuation: RequestContinuation,
            native: &mut NativeState,
            result: Option<NginxCall>,
        | #[trigger]
            call_ensures(RequestContinuation::abandon, (continuation, native), result)
                && continuation.wf(*native) ==> {
                &&& continuation.consumed ==> result is None && final(native).requests@
                    == native.requests@
                &&& !continuation.consumed ==> (final(native).requests@, result)
                    == native.released(continuation.request.raw, continuation.hold->Some_0.main)
            },
{
}

} // verus!
