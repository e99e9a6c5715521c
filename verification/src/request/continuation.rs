//! Delayed request processing: holds, continuations and phase resumption.

use vstd::prelude::*;
use vstd::slice::slice_to_vec;
use vstd::string::StrSliceExecFns;

use crate::buffer::PoolChain;
use crate::native::{
    ConnectionError, NativePool, NativeRequest, NativeState, NginxCall, Pointer, WriteEventHandler,
};
use crate::request::context::{
    advance_request_generation, release_request_reference, request_context_generation,
    retain_request_for_context_cancellation, ContextCancellationHold, ContextSelection,
    ContextWalk, RequestContextRegistry,
};
use crate::request::view::{
    RequestError, RequestRefMut, MAX_REQUEST_COUNT_AFTER_HOLD,
};
use crate::status::{Status, NGX_DECLINED, NGX_ERROR, NGX_OK};

verus! {

/// Failure while acquiring or consuming a delayed HTTP request hold.
#[derive(Clone, Copy, Debug, PartialEq, Eq, Structural)]
pub enum RequestHoldError {
    /// The request could not be used for the operation.
    Request(RequestError),
    /// The context already owns a hold for this request.
    AlreadyHeld,
    /// The context does not own a hold.
    Missing,
    /// The hold belongs to another request.
    ForeignRequest,
    /// The main request no longer has a live reference count.
    InactiveMain,
    /// Nginx's reserved 16-bit main-request count range cannot accept another hold.
    CountOverflow,
}

impl From<RequestError> for RequestHoldError {
    fn from(error: RequestError) -> (result: Self) {
        RequestHoldError::Request(error)
    }
}

impl vstd::std_specs::convert::FromSpecImpl<RequestError> for RequestHoldError {
    open spec fn obeys_from_spec() -> bool {
        true
    }

    open spec fn from_spec(error: RequestError) -> Self {
        RequestHoldError::Request(error)
    }
}

/// Failure while calling a saved output filter.
#[derive(Clone, Copy, Debug, PartialEq, Eq, Structural)]
pub enum HttpFilterError {
    /// No header filter was saved.
    MissingHeaderFilter,
    /// No body filter was saved.
    MissingBodyFilter,
}

/// Failure while resuming HTTP phase processing after an asynchronous callback.
#[derive(Clone, Copy, Debug, PartialEq, Eq, Structural)]
pub enum RequestPhaseResumeError {
    /// The request could not be used for the operation.
    Request(RequestError),
    /// The current phase handler index is invalid.
    NegativePhaseHandler,
    /// Advancing the phase handler would overflow nginx's index type.
    PhaseHandlerOverflow,
}

impl From<RequestError> for RequestPhaseResumeError {
    fn from(error: RequestError) -> (result: Self) {
        RequestPhaseResumeError::Request(error)
    }
}

impl vstd::std_specs::convert::FromSpecImpl<RequestError> for RequestPhaseResumeError {
    open spec fn obeys_from_spec() -> bool {
        true
    }

    open spec fn from_spec(error: RequestError) -> Self {
        RequestPhaseResumeError::Request(error)
    }
}

/// Failure while using a terminal request continuation.
#[derive(Clone, Copy, Debug, PartialEq, Eq, Structural)]
pub enum RequestContinuationError {
    /// The request could not be used for the operation.
    Request(RequestError),
    /// Calling the saved filter failed.
    Filter(HttpFilterError),
    /// Phase resumption could not prepare a valid nginx request state.
    Phase(RequestPhaseResumeError),
    /// The delayed request hold could not create its terminal continuation.
    Hold(RequestHoldError),
    /// The continuation has already completed or been cancelled.
    Consumed,
    /// The status resumes nginx processing without consuming the retained request reference.
    NonConsumingStatus,
    /// The saved header filter has already been called for this continuation.
    HeaderAlreadyContinued,
    /// The saved body filter has already been called for this continuation.
    BodyAlreadyContinued,
    /// A continuation that called a saved filter cannot be restored for a terminal retry.
    FilterAlreadyContinued,
}

impl From<RequestError> for RequestContinuationError {
    fn from(error: RequestError) -> (result: Self) {
        RequestContinuationError::Request(error)
    }
}

impl vstd::std_specs::convert::FromSpecImpl<RequestError> for RequestContinuationError {
    open spec fn obeys_from_spec() -> bool {
        true
    }

    open spec fn from_spec(error: RequestError) -> Self {
        RequestContinuationError::Request(error)
    }
}

impl From<HttpFilterError> for RequestContinuationError {
    fn from(error: HttpFilterError) -> (result: Self) {
        RequestContinuationError::Filter(error)
    }
}

impl vstd::std_specs::convert::FromSpecImpl<HttpFilterError> for RequestContinuationError {
    open spec fn obeys_from_spec() -> bool {
        true
    }

    open spec fn from_spec(error: HttpFilterError) -> Self {
        RequestContinuationError::Filter(error)
    }
}

impl From<RequestPhaseResumeError> for RequestContinuationError {
    fn from(error: RequestPhaseResumeError) -> (result: Self) {
        RequestContinuationError::Phase(error)
    }
}

impl vstd::std_specs::convert::FromSpecImpl<RequestPhaseResumeError> for RequestContinuationError {
    open spec fn obeys_from_spec() -> bool {
        true
    }

    open spec fn from_spec(error: RequestPhaseResumeError) -> Self {
        RequestContinuationError::Phase(error)
    }
}

impl From<RequestHoldError> for RequestContinuationError {
    fn from(error: RequestHoldError) -> (result: Self) {
        RequestContinuationError::Hold(error)
    }
}

impl vstd::std_specs::convert::FromSpecImpl<RequestHoldError> for RequestContinuationError {
    open spec fn obeys_from_spec() -> bool {
        true
    }

    open spec fn from_spec(error: RequestHoldError) -> Self {
        RequestContinuationError::Hold(error)
    }
}

/// One explicit reference retained by a delayed HTTP request context.
///
/// Cancelling an active hold releases its retained main-request reference. Request-pool cleanup
/// must instead disarm it because nginx already owns the teardown transition.
#[must_use]
#[derive(Debug, PartialEq, Eq, Structural)]
pub struct RequestHold {
    pub request: usize,
    pub main: usize,
    pub active: bool,
}

/// Exclusive terminal owner for a request hold removed from its context.
///
/// The hold is removed before the owner performs a terminal nginx operation, so reentry cannot
/// resume or finalize the request a second time. Fallible operations borrow this owner and leave it
/// active on error. [`RequestContinuation::abandon`] releases what an active continuation retains.
#[must_use]
#[derive(Debug)]
pub struct RequestContinuation {
    pub request: RequestRefMut,
    pub hold: Option<RequestHold>,
    pub consumed: bool,
    pub header_continued: bool,
    pub body_continued: bool,
}

impl RequestContinuation {
    /// Whether the continuation owns its hold exactly until it is consumed.
    pub open spec fn wf(self, native: NativeState) -> bool {
        &&& self.consumed == (self.hold is None)
        &&& self.hold matches Some(hold) ==> {
            &&& hold.active
            &&& hold.request == self.request.raw
            &&& native.requests@.contains_key(hold.main)
        }
    }

    /// The continuation once its hold is gone.
    pub open spec fn spent(self) -> RequestContinuation {
        RequestContinuation { hold: None, consumed: true, ..self }
    }
}

impl NativeState {
    /// The main request that a hold of `raw` would retain, or why none can be taken.
    pub open spec fn hold_check(self, raw: usize, held: bool) -> Result<usize, RequestHoldError> {
        if held {
            Err(RequestHoldError::AlreadyHeld)
        } else {
            match self.main_of(raw) {
                Err(error) => Err(RequestHoldError::Request(error)),
                Ok(main) => if self.requests@[main].count == 0 {
                    Err(RequestHoldError::InactiveMain)
                } else if self.requests@[main].count >= MAX_REQUEST_COUNT_AFTER_HOLD {
                    Err(RequestHoldError::CountOverflow)
                } else {
                    Ok(main)
                },
            }
        }
    }

    /// Whether `hold` can be turned into the continuation of `raw`.
    pub open spec fn take_check(self, hold: Option<RequestHold>, raw: usize) -> Result<
        (),
        RequestHoldError,
    > {
        match hold {
            None => Err(RequestHoldError::Missing),
            Some(hold) => match self.main_of(raw) {
                Err(error) => Err(RequestHoldError::Request(error)),
                Ok(main) => if hold.request != raw || hold.main != main {
                    Err(RequestHoldError::ForeignRequest)
                } else if self.requests@[main].count == 0 {
                    Err(RequestHoldError::InactiveMain)
                } else {
                    Ok(())
                },
            },
        }
    }

    /// The requests once `hold` was released, and the call that this asks for.
    pub open spec fn hold_released(self, hold: RequestHold) -> (
        Map<usize, NativeRequest>,
        Option<NginxCall>,
    ) {
        if hold.active {
            self.released(hold.request, hold.main)
        } else {
            (self.requests@, None)
        }
    }

    /// Whether the phase engine can go on with the next handler of `raw`.
    pub open spec fn preaccess_check(self, raw: usize) -> Result<isize, RequestPhaseResumeError> {
        match self.terminal_check(raw) {
            Err(error) => Err(RequestPhaseResumeError::Request(error)),
            Ok(_) => if self.requests@[raw].phase_handler < 0 {
                Err(RequestPhaseResumeError::NegativePhaseHandler)
            } else if self.requests@[raw].phase_handler == isize::MAX {
                Err(RequestPhaseResumeError::PhaseHandlerOverflow)
            } else {
                Ok((self.requests@[raw].phase_handler + 1) as isize)
            },
        }
    }

    /// The requests once `raw` was prepared to go on with handler `handler`.
    pub open spec fn with_phase(self, raw: usize, handler: isize) -> Map<usize, NativeRequest> {
        self.requests@.insert(
            raw,
            (NativeRequest {
                phase_handler: handler,
                write_event_handler: Some(WriteEventHandler::CoreRunPhases),
                ..self.requests@[raw]
            }),
        )
    }
}

impl RequestHold {
    /// Removes this hold from its context and grants the only terminal continuation.
    ///
    /// A nonzero main-request count may consist solely of this hold after nginx finalized the
    /// original asynchronous callback. Only terminal finalization can consume that reference;
    /// phase resumption still requires a releasable hold.
    pub fn take(hold: &mut Option<Self>, native: &NativeState, request: RequestRefMut) -> (result:
        Result<RequestContinuation, RequestHoldError>)
        requires
            native.live(request.raw),
        ensures
            match native.take_check(*old(hold), request.raw) {
                Err(error) => {
                    &&& result matches Err(e) && e == error
                    &&& *final(hold) == *old(hold)
                },
                Ok(_) => {
                    &&& *final(hold) == None::<RequestHold>
                    &&& result matches Ok(continuation) && continuation == (RequestContinuation {
                        request,
                        hold: *old(hold),
                        consumed: false,
                        header_continued: false,
                        body_continued: false,
                    })
                },
            },
    {
        match RequestHold::may_take(hold, native, &request) {
            Ok(_) => {},
            Err(error) => return Err(error),
        }
        let taken = hold.take();
        Ok(
            RequestContinuation {
                request,
                hold: taken,
                consumed: false,
                header_continued: false,
                body_continued: false,
            },
        )
    }

    /// Whether a hold can be turned into the continuation of a request.
    pub fn may_take(hold: &Option<Self>, native: &NativeState, request: &RequestRefMut) -> (result:
        Result<(), RequestHoldError>)
        requires
            native.live(request.raw),
        ensures
            result == native.take_check(*hold, request.raw),
    {
        let (current_request, current_main) = match hold {
            Some(current) => (current.request, current.main),
            None => return Err(RequestHoldError::Missing),
        };
        let main = match request.view().main_raw(native) {
            Ok(main) => main,
            Err(error) => return Err(RequestHoldError::from(error)),
        };
        if current_request != request.raw || current_main != main {
            return Err(RequestHoldError::ForeignRequest);
        }
        assert(native.resolves(native.requests@[request.raw].main));
        if native.request(main).count == 0 {
            return Err(RequestHoldError::InactiveMain);
        }
        Ok(())
    }

    /// Cancels a delayed operation and releases its retained request reference.
    ///
    /// Answers whether there was a hold, and the call that gives up the request.
    pub fn cancel(hold: &mut Option<Self>, native: &mut NativeState) -> (result: (
        bool,
        Option<NginxCall>,
    ))
        requires
            *old(hold) matches Some(h) ==> old(native).requests@.contains_key(h.main),
        ensures
            *final(hold) == None::<RequestHold>,
            *final(native) == (NativeState { requests: final(native).requests, ..*old(native) }),
            match *old(hold) {
                None => result == (false, None::<NginxCall>) && final(native).requests@ == old(
                    native).requests@,
                Some(h) => {
                    &&& result.0
                    &&& (final(native).requests@, result.1) == old(native).hold_released(h)
                },
            },
    {
        match hold.take() {
            None => (false, None),
            Some(mut taken) => {
                let call = taken.release(native);
                (true, call)
            },
        }
    }

    /// The request that a hold belongs to.
    pub fn request_ptr(hold: &Option<Self>) -> (result: Option<usize>)
        ensures
            result == (match *hold {
                Some(h) => Some(h.request),
                None => None,
            }),
    {
        match hold {
            Some(hold) => Some(hold.request),
            None => None,
        }
    }

    /// Disarms a hold while nginx is already tearing down its request pool.
    ///
    /// No reference is released: nginx took over the teardown of the reference count.
    pub fn disarm_for_cleanup(hold: &mut Option<Self>) -> (result: bool)
        ensures
            *final(hold) == None::<RequestHold>,
            result == (*old(hold) is Some),
    {
        hold.take().is_some()
    }

    /// Releases the retained reference, once.
    pub fn release(&mut self, native: &mut NativeState) -> (result: Option<NginxCall>)
        requires
            old(native).requests@.contains_key(old(self).main),
        ensures
            *final(self) == (RequestHold { active: false, ..*old(self) }),
            *final(native) == (NativeState { requests: final(native).requests, ..*old(native) }),
            (final(native).requests@, result) == old(native).hold_released(*old(self)),
    {
        if !self.active {
            return None;
        }
        self.active = false;
        release_request_reference(native, self.request, self.main)
    }

    /// Whether the phases of the held request can be resumed, and what nginx is to be asked first.
    pub fn may_resume_phase(hold: &Option<Self>, native: &NativeState) -> (result: Result<
        PhaseResume,
        RequestContinuationError,
    >)
        requires
            *hold matches Some(h) ==> native.resolves(h.request) && native.linked(),
        ensures
            result == native.hold_resume_check(*hold),
    {
        let (raw, main) = match hold {
            Some(current) => (current.request, current.main),
            None => return Err(RequestContinuationError::from(RequestHoldError::Missing)),
        };
        let request = match RequestRefMut::from_raw(native, raw) {
            Ok(request) => request,
            Err(error) => return Err(RequestContinuationError::from(error)),
        };
        match RequestHold::may_take(hold, native, &request) {
            Ok(_) => {},
            Err(error) => return Err(RequestContinuationError::from(error)),
        }
        assert(native.resolves(native.requests@[raw].main));
        check_phase_resume(native, raw, main)
    }

    /// Resumes the phases of the held request on the next event cycle, and keeps the hold in its
    /// slot on failure.
    ///
    /// `posted` is what nginx answered when the request was queued on its connection, where
    /// [`may_resume_phase`](Self::may_resume_phase) asks for that.
    pub fn resume_phase(hold: &mut Option<Self>, native: &mut NativeState, posted: isize) -> (result:
        Result<NginxCall, RequestContinuationError>)
        requires
            *old(hold) matches Some(h) ==> {
                &&& old(native).resolves(h.request)
                &&& old(native).linked()
                &&& h.active
            },
        ensures
            *final(native) == (NativeState { requests: final(native).requests, ..*old(native) }),
            match *old(hold) {
                None => {
                    &&& result == Err::<NginxCall, RequestContinuationError>(
                        RequestContinuationError::Hold(RequestHoldError::Missing),
                    )
                    &&& *final(hold) == *old(hold)
                    &&& final(native).requests@ == old(native).requests@
                },
                Some(h) => {
                    &&& result == (match old(native).hold_resume_check(*old(hold)) {
                        Err(error) => Err::<NginxCall, RequestContinuationError>(error),
                        Ok(resume) => resume.answered(posted),
                    })
                    &&& match result {
                        Ok(_) => {
                            &&& *final(hold) == None::<RequestHold>
                            &&& final(native).requests@ == old(native).resumed(h.request, h.main)
                        },
                        Err(_) => {
                            &&& *final(hold) == *old(hold)
                            &&& final(native).requests@ == old(native).requests@
                        },
                    }
                },
            },
    {
        let raw = match hold {
            Some(current) => current.request,
            None => return Err(RequestContinuationError::from(RequestHoldError::Missing)),
        };
        let request = match RequestRefMut::from_raw(native, raw) {
            Ok(request) => request,
            Err(error) => return Err(RequestContinuationError::from(error)),
        };
        let mut continuation = match RequestHold::take(hold, native, request) {
            Ok(continuation) => continuation,
            Err(error) => return Err(RequestContinuationError::from(error)),
        };
        assert(native.resolves(native.requests@[raw].main));
        match continuation.resume_phase(native, posted) {
            Ok(call) => Ok(call),
            Err(error) => {
                continuation.restore_hold(hold);
                Err(error)
            },
        }
    }
}

/// How the phases of a request can be resumed.
#[derive(Clone, Copy, Debug, PartialEq, Eq, Structural)]
pub struct PhaseResume {
    /// The write event of the connection, which is posted to the next event cycle.
    pub event: usize,
    /// Whether nginx has to queue the request on its connection first, because the connection
    /// works on another request.
    pub queue: bool,
}

impl PhaseResume {
    /// How resuming ends where nginx answers `posted` if it is asked to queue the request.
    pub open spec fn answered(self, posted: isize) -> Result<NginxCall, RequestContinuationError> {
        if self.queue && posted != NGX_OK {
            Err(RequestContinuationError::Request(RequestError::Allocation))
        } else {
            Ok(NginxCall::PostWriteEvent { event: self.event })
        }
    }
}

impl NativeState {
    /// Whether the phases of `raw` can be resumed under a hold on `main`.
    pub open spec fn phase_check(self, raw: usize, main: usize) -> Result<
        PhaseResume,
        RequestContinuationError,
    > {
        if self.requests@[main].count <= 1 {
            Err(RequestContinuationError::Hold(RequestHoldError::InactiveMain))
        } else {
            match self.terminal_check(raw) {
                Err(error) => Err(RequestContinuationError::Request(error)),
                Ok(_) => if self.requests@[raw].phase_handler < 0 {
                    Err(
                        RequestContinuationError::Phase(
                            RequestPhaseResumeError::NegativePhaseHandler,
                        ),
                    )
                } else {
                    let connection = self.connection_of(raw)->Ok_0;
                    match connection.write {
                        Pointer::Null => Err(
                            RequestContinuationError::Request(
                                RequestError::Connection(ConnectionError::MissingWriteEvent),
                            ),
                        ),
                        Pointer::Misaligned => Err(
                            RequestContinuationError::Request(
                                RequestError::Connection(ConnectionError::MisalignedWriteEvent),
                            ),
                        ),
                        Pointer::To(event) => Ok(
                            PhaseResume { event, queue: connection.data != raw },
                        ),
                    }
                },
            }
        }
    }

    /// Whether the phases of a held request can be resumed.
    pub open spec fn hold_resume_check(self, hold: Option<RequestHold>) -> Result<
        PhaseResume,
        RequestContinuationError,
    > {
        match hold {
            None => Err(RequestContinuationError::Hold(RequestHoldError::Missing)),
            Some(h) => match self.checked_request(h.request) {
                Err(error) => Err(RequestContinuationError::Request(error)),
                Ok(_) => match self.take_check(hold, h.request) {
                    Err(error) => Err(RequestContinuationError::Hold(error)),
                    Ok(_) => self.phase_check(h.request, h.main),
                },
            },
        }
    }

    /// The requests once the phases of `raw` were resumed and a reference on `main` given up.
    pub open spec fn resumed(self, raw: usize, main: usize) -> Map<usize, NativeRequest> {
        let woken = self.requests@.insert(
            raw,
            (NativeRequest {
                write_event_handler: Some(WriteEventHandler::CoreRunPhases),
                ..self.requests@[raw]
            }),
        );
        woken.insert(
            main,
            (NativeRequest { count: (woken[main].count - 1) as u16, ..woken[main] }),
        )
    }
}

/// Whether the phases of `raw` can be resumed under a hold on `main`.
fn check_phase_resume(native: &NativeState, raw: usize, main: usize) -> (result: Result<
    PhaseResume,
    RequestContinuationError,
>)
    requires
        native.live(raw),
        native.requests@.contains_key(main),
    ensures
        result == native.phase_check(raw, main),
{
    if native.request(main).count <= 1 {
        return Err(RequestContinuationError::from(RequestHoldError::InactiveMain));
    }
    let request = RequestRefMut { raw };
    match request.validate_terminal_operation(native) {
        Ok(_) => {},
        Err(error) => return Err(RequestContinuationError::from(error)),
    }
    if native.request(raw).phase_handler < 0 {
        return Err(RequestContinuationError::from(RequestPhaseResumeError::NegativePhaseHandler));
    }
    let (queue, write) = match request.connection(native) {
        Ok(connection) => (
            connection.data != raw,
            match connection.write {
                Pointer::Null => Err(ConnectionError::MissingWriteEvent),
                Pointer::Misaligned => Err(ConnectionError::MisalignedWriteEvent),
                Pointer::To(event) => Ok(event),
            },
        ),
        Err(error) => return Err(RequestContinuationError::from(error)),
    };
    match write {
        Ok(event) => Ok(PhaseResume { event, queue }),
        Err(error) => Err(RequestContinuationError::from(RequestError::from(error))),
    }
}

impl RequestContinuation {
    /// Whether the continuation was not consumed.
    pub fn ensure_active(&self) -> (result: Result<(), RequestContinuationError>)
        ensures
            result == (if self.consumed {
                Err::<(), RequestContinuationError>(RequestContinuationError::Consumed)
            } else {
                Ok::<(), RequestContinuationError>(())
            }),
    {
        if self.consumed {
            return Err(RequestContinuationError::Consumed);
        }
        Ok(())
    }

    /// Whether another reference than the hold keeps the main request alive.
    pub fn ensure_releasable_hold(&self, native: &NativeState) -> (result: Result<
        (),
        RequestHoldError,
    >)
        requires
            self.wf(*native),
            !self.consumed,
        ensures
            result == (if native.requests@[self.hold->Some_0.main].count <= 1 {
                Err::<(), RequestHoldError>(RequestHoldError::InactiveMain)
            } else {
                Ok::<(), RequestHoldError>(())
            }),
    {
        let main = match &self.hold {
            Some(hold) => hold.main,
            None => self.request.raw,
        };
        if native.request(main).count <= 1 {
            return Err(RequestHoldError::InactiveMain);
        }
        Ok(())
    }

    /// Gives up the hold's reference and consumes the continuation.
    pub fn release_for_resume(&mut self, native: &mut NativeState)
        requires
            old(self).wf(*old(native)),
            !old(self).consumed,
            old(native).requests@[old(self).hold->Some_0.main].count > 1,
        ensures
            *final(self) == old(self).spent(),
            final(native).requests@ == old(native).with_count(
                old(self).hold->Some_0.main,
                (old(native).requests@[old(self).hold->Some_0.main].count - 1) as u16,
            ),
            *final(native) == (NativeState { requests: final(native).requests, ..*old(native) }),
    {
        let hold = self.hold.take().unwrap();
        let count = native.request(hold.main).count;
        native.set_count(hold.main, count - 1);
        self.consumed = true;
    }

    /// Leaves the hold's reference to nginx and consumes the continuation.
    pub fn transfer_to_nginx(&mut self)
        ensures
            *final(self) == old(self).spent(),
    {
        self.hold = None;
        self.consumed = true;
    }

    /// Puts the hold back into its slot and consumes the continuation.
    pub fn restore_hold(&mut self, slot: &mut Option<RequestHold>)
        ensures
            *final(slot) == old(self).hold,
            *final(self) == old(self).spent(),
    {
        *slot = self.hold.take();
        self.consumed = true;
    }

    /// Restores this active continuation to an empty request-hold slot.
    ///
    /// Use this only when a fallible terminal operation returned before transferring ownership to
    /// nginx. The restored hold can then be retried or cancelled through its original owner.
    /// Rejection returns the still-active continuation to the caller.
    pub fn restore(self, slot: &mut Option<RequestHold>) -> (result: Result<
        (),
        (RequestContinuationError, Self),
    >)
        ensures
            match self.restore_check(*old(slot)) {
                Ok(_) => result is Ok && *final(slot) == self.hold,
                Err(error) => {
                    &&& result matches Err(rejected) && rejected.0 == error && rejected.1 == self
                    &&& *final(slot) == *old(slot)
                },
            },
    {
        let mut continuation = self;
        match continuation.ensure_active() {
            Ok(_) => {},
            Err(error) => return Err((error, continuation)),
        }
        if continuation.header_continued || continuation.body_continued {
            return Err((RequestContinuationError::FilterAlreadyContinued, continuation));
        }
        if slot.is_some() {
            return Err(
                (RequestContinuationError::from(RequestHoldError::AlreadyHeld), continuation),
            );
        }
        continuation.restore_hold(slot);
        Ok(())
    }

    /// Whether the continuation may be restored to `slot`.
    pub open spec fn restore_check(self, slot: Option<RequestHold>) -> Result<
        (),
        RequestContinuationError,
    > {
        if self.consumed {
            Err(RequestContinuationError::Consumed)
        } else if self.header_continued || self.body_continued {
            Err(RequestContinuationError::FilterAlreadyContinued)
        } else if slot is Some {
            Err(RequestContinuationError::Hold(RequestHoldError::AlreadyHeld))
        } else {
            Ok(())
        }
    }

    /// Releases what a continuation that is given up still retains.
    pub fn abandon(self, native: &mut NativeState) -> (result: Option<NginxCall>)
        requires
            self.wf(*old(native)),
        ensures
            *final(native) == (NativeState { requests: final(native).requests, ..*old(native) }),
            match self.hold {
                None => result is None && final(native).requests@ == old(native).requests@,
                Some(hold) => (final(native).requests@, result) == old(native).hold_released(hold),
            },
    {
        match self.hold {
            None => None,
            Some(mut hold) => hold.release(native),
        }
    }

    /// Cancels this terminal owner and releases its retained request reference.
    ///
    /// The call that comes out gives up the request.
    pub fn cancel(&mut self, native: &mut NativeState) -> (result: Result<
        Option<NginxCall>,
        RequestContinuationError,
    >)
        requires
            old(self).wf(*old(native)),
        ensures
            *final(native) == (NativeState { requests: final(native).requests, ..*old(native) }),
            if old(self).consumed {
                &&& result == Err::<Option<NginxCall>, RequestContinuationError>(
                    RequestContinuationError::Consumed,
                )
                &&& *final(self) == *old(self)
                &&& final(native).requests@ == old(native).requests@
            } else {
                &&& *final(self) == old(self).spent()
                &&& result matches Ok(call) && (final(native).requests@, call) == old(
                    native).hold_released(old(self).hold->Some_0)
            },
    {
        match self.ensure_active() {
            Ok(_) => {},
            Err(error) => return Err(error),
        }
        self.consumed = true;
        let mut hold = self.hold.take().unwrap();
        Ok(hold.release(native))
    }

    /// Sends this response header while the continuation remains active.
    pub fn send_header(&mut self, native: &NativeState) -> (result: Result<
        NginxCall,
        RequestContinuationError,
    >)
        requires
            native.live(old(self).request.raw),
        ensures
            *final(self) == *old(self),
            result == (if old(self).consumed {
                Err::<NginxCall, RequestContinuationError>(RequestContinuationError::Consumed)
            } else {
                match native.terminal_check(old(self).request.raw) {
                    Err(error) => Err::<NginxCall, RequestContinuationError>(
                        RequestContinuationError::Request(error),
                    ),
                    Ok(_) => Ok::<NginxCall, RequestContinuationError>(
                        (NginxCall::SendHeader { request: old(self).request.raw }),
                    ),
                }
            }),
    {
        match self.ensure_active() {
            Ok(_) => {},
            Err(error) => return Err(error),
        }
        match self.request.send_header(native) {
            Ok(call) => Ok(call),
            Err(error) => Err(RequestContinuationError::from(error)),
        }
    }

    /// Hands this request-pool-owned response chain on while the continuation remains active.
    pub fn output_filter(&mut self, native: &NativeState, chain: &PoolChain) -> (result: Result<
        NginxCall,
        RequestContinuationError,
    >)
        requires
            native.live(old(self).request.raw),
        ensures
            *final(self) == *old(self),
            result == (if old(self).consumed {
                Err::<NginxCall, RequestContinuationError>(RequestContinuationError::Consumed)
            } else {
                match native.output_check(old(self).request.raw, chain.pool) {
                    Err(error) => Err::<NginxCall, RequestContinuationError>(
                        RequestContinuationError::Request(error),
                    ),
                    Ok(call) => Ok::<NginxCall, RequestContinuationError>(call),
                }
            }),
    {
        match self.ensure_active() {
            Ok(_) => {},
            Err(error) => return Err(error),
        }
        match self.request.output_filter(native, chain) {
            Ok(call) => Ok(call),
            Err(error) => Err(RequestContinuationError::from(error)),
        }
    }

    /// Whether a saved filter may be called that was `continued` before.
    pub open spec fn filter_check(
        self,
        native: NativeState,
        continued: bool,
        again: RequestContinuationError,
    ) -> Result<(), RequestContinuationError> {
        if self.consumed {
            Err(RequestContinuationError::Consumed)
        } else if continued {
            Err(again)
        } else {
            match native.terminal_check(self.request.raw) {
                Err(error) => Err(RequestContinuationError::Request(error)),
                Ok(_) => Ok(()),
            }
        }
    }

    /// Whether the saved header filter may be called.
    pub fn may_call_next_header(&self, native: &NativeState) -> (result: Result<
        (),
        RequestContinuationError,
    >)
        requires
            native.live(self.request.raw),
        ensures
            result == self.filter_check(
                *native,
                self.header_continued,
                RequestContinuationError::HeaderAlreadyContinued,
            ),
    {
        match self.ensure_active() {
            Ok(_) => {},
            Err(error) => return Err(error),
        }
        if self.header_continued {
            return Err(RequestContinuationError::HeaderAlreadyContinued);
        }
        match self.request.validate_terminal_operation(native) {
            Ok(_) => Ok(()),
            Err(error) => Err(RequestContinuationError::from(error)),
        }
    }

    /// Whether the saved body filter may be called.
    pub fn may_call_next_body(&self, native: &NativeState) -> (result: Result<
        (),
        RequestContinuationError,
    >)
        requires
            native.live(self.request.raw),
        ensures
            result == self.filter_check(
                *native,
                self.body_continued,
                RequestContinuationError::BodyAlreadyContinued,
            ),
    {
        match self.ensure_active() {
            Ok(_) => {},
            Err(error) => return Err(error),
        }
        if self.body_continued {
            return Err(RequestContinuationError::BodyAlreadyContinued);
        }
        match self.request.validate_terminal_operation(native) {
            Ok(_) => Ok(()),
            Err(error) => Err(RequestContinuationError::from(error)),
        }
    }

    /// Records the one call of the saved header filter on this delayed terminal path.
    ///
    /// `outcome` is how the filter answered; it is called only when
    /// [`may_call_next_header`](Self::may_call_next_header) allows it. The continuation stays
    /// active so that the terminal status can be passed to
    /// [`finalize_after_output`](Self::finalize_after_output).
    pub fn call_next_header(
        &mut self,
        native: &NativeState,
        outcome: Result<isize, HttpFilterError>,
    ) -> (result: Result<Status, RequestContinuationError>)
        requires
            native.live(old(self).request.raw),
        ensures
            match old(self).filter_check(
                *native,
                old(self).header_continued,
                RequestContinuationError::HeaderAlreadyContinued,
            ) {
                Err(error) => {
                    &&& result == Err::<Status, RequestContinuationError>(error)
                    &&& *final(self) == *old(self)
                },
                Ok(_) => match outcome {
                    Err(error) => {
                        &&& result == Err::<Status, RequestContinuationError>(
                            RequestContinuationError::Filter(error),
                        )
                        &&& *final(self) == *old(self)
                    },
                    Ok(status) => {
                        &&& result == Ok::<Status, RequestContinuationError>(Status(status))
                        &&& *final(self) == (RequestContinuation {
                            header_continued: true,
                            ..*old(self)
                        })
                    },
                },
            },
    {
        match self.may_call_next_header(native) {
            Ok(_) => {},
            Err(error) => return Err(error),
        }
        match outcome {
            Ok(status) => {
                self.header_continued = true;
                Ok(Status(status))
            },
            Err(error) => Err(RequestContinuationError::from(error)),
        }
    }

    /// Records the one call of the saved body filter on this delayed terminal path.
    ///
    /// `outcome` is how the filter answered; it is called only when
    /// [`may_call_next_body`](Self::may_call_next_body) allows it.
    pub fn call_next_body(
        &mut self,
        native: &NativeState,
        outcome: Result<isize, HttpFilterError>,
    ) -> (result: Result<Status, RequestContinuationError>)
        requires
            native.live(old(self).request.raw),
        ensures
            match old(self).filter_check(
                *native,
                old(self).body_continued,
                RequestContinuationError::BodyAlreadyContinued,
            ) {
                Err(error) => {
                    &&& result == Err::<Status, RequestContinuationError>(error)
                    &&& *final(self) == *old(self)
                },
                Ok(_) => match outcome {
                    Err(error) => {
                        &&& result == Err::<Status, RequestContinuationError>(
                            RequestContinuationError::Filter(error),
                        )
                        &&& *final(self) == *old(self)
                    },
                    Ok(status) => {
                        &&& result == Ok::<Status, RequestContinuationError>(Status(status))
                        &&& *final(self) == (RequestContinuation {
                            body_continued: true,
                            ..*old(self)
                        })
                    },
                },
            },
    {
        match self.may_call_next_body(native) {
            Ok(_) => {},
            Err(error) => return Err(error),
        }
        match outcome {
            Ok(status) => {
                self.body_continued = true;
                Ok(Status(status))
            },
            Err(error) => Err(RequestContinuationError::from(error)),
        }
    }

    /// Whether the continuation may finalize its request with `status`.
    pub open spec fn finalize_check(self, native: NativeState, status: Status) -> Result<
        NginxCall,
        RequestContinuationError,
    > {
        if self.consumed {
            Err(RequestContinuationError::Consumed)
        } else {
            match native.terminal_check(self.request.raw) {
                Err(error) => Err(RequestContinuationError::Request(error)),
                Ok(_) => if status.0 == NGX_DECLINED {
                    Err(RequestContinuationError::NonConsumingStatus)
                } else {
                    Ok(NginxCall::FinalizeRequest { request: self.request.raw, status: status.0 })
                },
            }
        }
    }

    /// Finalizes the request and transfers the retained reference to nginx.
    ///
    /// Validation errors leave this continuation active for retry or explicit cancellation.
    /// `NGX_DECLINED` is rejected because nginx resumes phases without consuming the reference.
    pub fn finalize(&mut self, native: &NativeState, status: Status) -> (result: Result<
        NginxCall,
        RequestContinuationError,
    >)
        requires
            native.live(old(self).request.raw),
        ensures
            result == old(self).finalize_check(*native, status),
            *final(self) == (if result is Ok {
                old(self).spent()
            } else {
                *old(self)
            }),
    {
        match self.ensure_active() {
            Ok(_) => {},
            Err(error) => return Err(error),
        }
        match self.request.validate_terminal_operation(native) {
            Ok(_) => {},
            Err(error) => return Err(RequestContinuationError::from(error)),
        }
        if status.0 == NGX_DECLINED {
            return Err(RequestContinuationError::NonConsumingStatus);
        }
        self.transfer_to_nginx();
        Ok(NginxCall::FinalizeRequest { request: self.request.raw, status: status.0 })
    }

    /// Whether nginx's writer needs the hold to stay when the request is finalized after output:
    /// it is the only reference, or the last subrequest is about to wake its parent.
    pub open spec fn writer_needs_hold(self, native: NativeState) -> bool {
        let hold = self.hold->Some_0;
        let count = native.requests@[hold.main].count;
        count <= 1 || (hold.request != hold.main && count == 2)
    }

    /// Finalizes after an output or saved-filter call has transferred buffered work to nginx.
    ///
    /// When an ordinary processing reference remains, the retained reference is released before
    /// finalization so nginx's writer can consume that ordinary reference after `NGX_AGAIN`. For
    /// the final subrequest, nginx consumes one reference while waking its parent, so a count of
    /// two still requires transferring the hold to keep the parent writer live. If the hold is the
    /// request's only live reference, ownership is transferred for the same reason. Validation
    /// errors leave this continuation active for retry or explicit cancellation. `NGX_DECLINED`
    /// is rejected because it resumes phases.
    pub fn finalize_after_output(&mut self, native: &mut NativeState, status: Status) -> (result:
        Result<NginxCall, RequestContinuationError>)
        requires
            old(native).live(old(self).request.raw),
            old(self).wf(*old(native)),
        ensures
            *final(native) == (NativeState { requests: final(native).requests, ..*old(native) }),
            result == old(self).finalize_check(*old(native), status),
            *final(self) == (if result is Ok {
                old(self).spent()
            } else {
                *old(self)
            }),
            final(native).requests@ == (if result is Ok && !old(self).writer_needs_hold(
                *old(native),
            ) {
                old(native).with_count(
                    old(self).hold->Some_0.main,
                    (old(native).requests@[old(self).hold->Some_0.main].count - 1) as u16,
                )
            } else {
                old(native).requests@
            }),
    {
        match self.ensure_active() {
            Ok(_) => {},
            Err(error) => return Err(error),
        }
        match self.request.validate_terminal_operation(native) {
            Ok(_) => {},
            Err(error) => return Err(RequestContinuationError::from(error)),
        }
        if status.0 == NGX_DECLINED {
            return Err(RequestContinuationError::NonConsumingStatus);
        }
        let (request, main) = match &self.hold {
            Some(hold) => (hold.request, hold.main),
            None => (self.request.raw, self.request.raw),
        };
        let count = native.request(main).count;
        let final_subrequest = request != main && count == 2;
        if count > 1 && !final_subrequest {
            self.release_for_resume(native);
        } else {
            self.transfer_to_nginx();
        }
        Ok(NginxCall::FinalizeRequest { request: self.request.raw, status: status.0 })
    }

    /// Resumes nginx processing with `NGX_DECLINED` after releasing the retained reference.
    ///
    /// Validation errors leave this continuation active for retry or explicit cancellation.
    pub fn resume_declined(&mut self, native: &mut NativeState) -> (result: Result<
        NginxCall,
        RequestContinuationError,
    >)
        requires
            old(native).live(old(self).request.raw),
            old(self).wf(*old(native)),
        ensures
            *final(native) == (NativeState { requests: final(native).requests, ..*old(native) }),
            result == (if old(self).consumed {
                Err::<NginxCall, RequestContinuationError>(RequestContinuationError::Consumed)
            } else if old(native).requests@[old(self).hold->Some_0.main].count <= 1 {
                Err::<NginxCall, RequestContinuationError>(
                    RequestContinuationError::Hold(RequestHoldError::InactiveMain),
                )
            } else {
                match old(native).terminal_check(old(self).request.raw) {
                    Err(error) => Err::<NginxCall, RequestContinuationError>(
                        RequestContinuationError::Request(error),
                    ),
                    Ok(_) => Ok::<NginxCall, RequestContinuationError>(
                        (NginxCall::FinalizeRequest {
                            request: old(self).request.raw,
                            status: NGX_DECLINED,
                        }),
                    ),
                }
            }),
            if result is Ok {
                &&& *final(self) == old(self).spent()
                &&& final(native).requests@ == old(native).with_count(
                    old(self).hold->Some_0.main,
                    (old(native).requests@[old(self).hold->Some_0.main].count - 1) as u16,
                )
            } else {
                &&& *final(self) == *old(self)
                &&& final(native).requests@ == old(native).requests@
            },
    {
        match self.ensure_active() {
            Ok(_) => {},
            Err(error) => return Err(error),
        }
        match self.ensure_releasable_hold(native) {
            Ok(_) => {},
            Err(error) => return Err(RequestContinuationError::from(error)),
        }
        match self.request.validate_terminal_operation(native) {
            Ok(_) => {},
            Err(error) => return Err(RequestContinuationError::from(error)),
        }
        self.release_for_resume(native);
        Ok(NginxCall::FinalizeRequest { request: self.request.raw, status: NGX_DECLINED })
    }

    /// Resumes PREACCESS processing and releases the retained reference before entering nginx.
    ///
    /// Validation errors leave this continuation active for retry or explicit cancellation.
    pub fn resume_preaccess(&mut self, native: &mut NativeState) -> (result: Result<
        NginxCall,
        RequestContinuationError,
    >)
        requires
            old(native).live(old(self).request.raw),
            old(self).wf(*old(native)),
        ensures
            *final(native) == (NativeState { requests: final(native).requests, ..*old(native) }),
            result == (if old(self).consumed {
                Err::<NginxCall, RequestContinuationError>(RequestContinuationError::Consumed)
            } else if old(native).requests@[old(self).hold->Some_0.main].count <= 1 {
                Err::<NginxCall, RequestContinuationError>(
                    RequestContinuationError::Hold(RequestHoldError::InactiveMain),
                )
            } else {
                match old(native).preaccess_check(old(self).request.raw) {
                    Err(error) => Err::<NginxCall, RequestContinuationError>(
                        RequestContinuationError::Phase(error),
                    ),
                    Ok(_) => Ok::<NginxCall, RequestContinuationError>(
                        (NginxCall::CoreRunPhases { request: old(self).request.raw }),
                    ),
                }
            }),
            if result is Ok {
                &&& *final(self) == old(self).spent()
                &&& final(native).requests@ == old(native).advanced(
                    old(self).request.raw,
                    old(self).hold->Some_0.main,
                )
            } else {
                &&& *final(self) == *old(self)
                &&& final(native).requests@ == old(native).requests@
            },
    {
        match self.ensure_active() {
            Ok(_) => {},
            Err(error) => return Err(error),
        }
        match self.ensure_releasable_hold(native) {
            Ok(_) => {},
            Err(error) => return Err(RequestContinuationError::from(error)),
        }
        match self.request.prepare_preaccess_resume(native) {
            Ok(_) => {},
            Err(error) => return Err(RequestContinuationError::from(error)),
        }
        self.release_for_resume(native);
        assert(native.requests@ =~= old(native).advanced(
            old(self).request.raw,
            old(self).hold->Some_0.main,
        ));
        Ok(NginxCall::CoreRunPhases { request: self.request.raw })
    }

    /// Whether the phases of the request can be resumed, and what nginx is to be asked first.
    pub fn may_resume_phase(&self, native: &NativeState) -> (result: Result<
        PhaseResume,
        RequestContinuationError,
    >)
        requires
            native.live(self.request.raw),
            self.wf(*native),
        ensures
            result == (if self.consumed {
                Err::<PhaseResume, RequestContinuationError>(RequestContinuationError::Consumed)
            } else {
                native.phase_check(self.request.raw, self.hold->Some_0.main)
            }),
    {
        match self.ensure_active() {
            Ok(_) => {},
            Err(error) => return Err(error),
        }
        let main = match &self.hold {
            Some(hold) => hold.main,
            None => 0,
        };
        check_phase_resume(native, self.request.raw, main)
    }

    /// Wakes the phases of the request on the next event cycle and releases the hold.
    ///
    /// `posted` is what nginx answered when the request was queued on its connection, where
    /// [`may_resume_phase`](Self::may_resume_phase) asks for that.
    pub fn resume_phase(&mut self, native: &mut NativeState, posted: isize) -> (result: Result<
        NginxCall,
        RequestContinuationError,
    >)
        requires
            old(native).live(old(self).request.raw),
            old(self).wf(*old(native)),
        ensures
            *final(native) == (NativeState { requests: final(native).requests, ..*old(native) }),
            result == (if old(self).consumed {
                Err::<NginxCall, RequestContinuationError>(RequestContinuationError::Consumed)
            } else {
                match old(native).phase_check(old(self).request.raw, old(self).hold->Some_0.main) {
                    Err(error) => Err::<NginxCall, RequestContinuationError>(error),
                    Ok(resume) => resume.answered(posted),
                }
            }),
            if result is Ok {
                &&& *final(self) == old(self).spent()
                &&& final(native).requests@ == old(native).resumed(
                    old(self).request.raw,
                    old(self).hold->Some_0.main,
                )
            } else {
                &&& *final(self) == *old(self)
                &&& final(native).requests@ == old(native).requests@
            },
    {
        let resume = match self.may_resume_phase(native) {
            Ok(resume) => resume,
            Err(error) => return Err(error),
        };
        if resume.queue && posted != NGX_OK {
            return Err(RequestContinuationError::from(RequestError::Allocation));
        }
        let raw = self.request.raw;
        let event = resume.event;
        let mut request = native.take_request(raw);
        request.write_event_handler = Some(WriteEventHandler::CoreRunPhases);
        native.put_request(raw, request);
        self.release_for_resume(native);
        assert(native.requests@ =~= old(native).resumed(
            old(self).request.raw,
            old(self).hold->Some_0.main,
        ));
        Ok(NginxCall::PostWriteEvent { event })
    }
}

impl NativeState {
    /// The requests once `raw` goes on with its next phase handler and a reference on `main` is
    /// given up.
    pub open spec fn advanced(self, raw: usize, main: usize) -> Map<usize, NativeRequest> {
        let prepared = self.with_phase(raw, self.preaccess_check(raw)->Ok_0);
        prepared.insert(
            main,
            (NativeRequest { count: (prepared[main].count - 1) as u16, ..prepared[main] }),
        )
    }
}

/// A redirect that nginx is asked to make.
#[derive(Debug)]
pub struct PendingRedirect {
    /// The redirected request.
    pub raw: usize,
    /// The call that makes the redirect.
    pub call: NginxCall,
    /// The location that was copied into the pool for the call.
    pub uri: Vec<u8>,
    /// The contexts that were registered before the redirect.
    pub generation: ContextWalk,
    /// The reference that keeps the request alive meanwhile.
    pub hold: Option<ContextCancellationHold>,
}

/// How an internal redirect starts.
#[derive(Debug)]
pub enum InternalRedirect {
    /// The location is empty; nginx is not asked.
    Rejected(Status),
    /// Nginx is asked.
    Pending(PendingRedirect),
}

/// How an internal redirect ends.
///
/// The caller takes the contexts that were registered before the redirect out one by one with
/// [`cancel_next`](Self::cancel_next), cancels and drops each before it takes the next, and gives
/// up the reference with [`release`](Self::release).
#[derive(Debug)]
pub struct RedirectOutcome {
    pub status: Status,
    /// The contexts of the request before the redirect.
    pub generation: ContextWalk,
    /// The reference that keeps the request alive meanwhile.
    pub hold: Option<ContextCancellationHold>,
}

impl PendingRedirect {
    /// Begins to cancel the contexts that the redirect displaced. `status` is what nginx answered.
    pub fn finish(self, status: isize) -> (result: RedirectOutcome)
        ensures
            result == (RedirectOutcome {
                status: Status(status),
                generation: self.generation,
                hold: self.hold,
            }),
    {
        RedirectOutcome { status: Status(status), generation: self.generation, hold: self.hold }
    }
}

impl RedirectOutcome {
    /// Cancels the next context that was registered before the redirect and hands it out to be
    /// cancelled and dropped.
    pub fn cancel_next(&mut self, native: &mut NativeState) -> (result: Option<usize>)
        requires
            old(self).generation.next is Some ==> old(native).walkable(old(self).generation.pool),
        ensures
            *final(self) == (RedirectOutcome { generation: final(self).generation, ..*old(self) }),
            final(native).context_cancelled(
                *old(native),
                old(self).generation,
                final(self).generation,
                result,
            ),
    {
        self.generation.cancel_next(native)
    }

    /// Gives up the reference once every context was cancelled and dropped.
    pub fn release(self, native: &mut NativeState) -> (result: Option<NginxCall>)
        requires
            self.generation.next is None,
            self.hold matches Some(hold) ==> old(native).requests@.contains_key(hold.main),
        ensures
            *final(native) == (NativeState { requests: final(native).requests, ..*old(native) }),
            match self.hold {
                None => result is None && final(native).requests@ == old(native).requests@,
                Some(hold) => (final(native).requests@, result) == old(native).released(
                    hold.request,
                    hold.main,
                ),
            },
    {
        match self.hold {
            None => None,
            Some(hold) => release_request_reference(native, hold.request, hold.main),
        }
    }
}

impl NativeState {
    /// Whether a redirect of `raw` can be asked of nginx.
    pub open spec fn redirect_check(self, raw: usize) -> Result<(), RequestError> {
        match self.pool_of(raw) {
            Err(error) => Err(error),
            Ok(pool) => if self.pools@[pool].blocks@.len() == 0 {
                Err(RequestError::Allocation)
            } else {
                match self.retained(raw).1 {
                    Err(error) => Err(error),
                    Ok(_) => Ok(()),
                }
            },
        }
    }
}

impl RequestRefMut {
    /// Retains the main request while a context delays its terminal HTTP operation.
    ///
    /// The hold is installed only when the main request count can be incremented without
    /// consuming nginx's reserved lifecycle range.
    pub fn hold(&mut self, native: &mut NativeState, hold: &mut Option<RequestHold>) -> (result:
        Result<(), RequestHoldError>)
        requires
            old(native).live(old(self).raw),
        ensures
            *final(self) == *old(self),
            *final(native) == (NativeState { requests: final(native).requests, ..*old(native) }),
            match old(native).hold_check(old(self).raw, *old(hold) is Some) {
                Err(error) => {
                    &&& result == Err::<(), RequestHoldError>(error)
                    &&& *final(hold) == *old(hold)
                    &&& final(native).requests@ == old(native).requests@
                },
                Ok(main) => {
                    &&& result == Ok::<(), RequestHoldError>(())
                    &&& *final(hold) == Some(
                        RequestHold { request: old(self).raw, main, active: true },
                    )
                    &&& final(native).requests@ == old(native).with_count(
                        main,
                        (old(native).requests@[main].count + 1) as u16,
                    )
                    &&& final(native).requests@[main].count <= MAX_REQUEST_COUNT_AFTER_HOLD
                },
            },
    {
        if hold.is_some() {
            return Err(RequestHoldError::AlreadyHeld);
        }
        let main = match self.view().main_raw(native) {
            Ok(main) => main,
            Err(error) => return Err(RequestHoldError::from(error)),
        };
        assert(native.resolves(native.requests@[self.raw].main));
        let count = native.request(main).count;
        if count == 0 {
            return Err(RequestHoldError::InactiveMain);
        }
        if count >= MAX_REQUEST_COUNT_AFTER_HOLD {
            return Err(RequestHoldError::CountOverflow);
        }
        native.set_count(main, count + 1);
        *hold = Some(RequestHold { request: self.raw, main, active: true });
        Ok(())
    }

    /// Finalizes this request with an explicit nginx status.
    ///
    /// This consumes the request because nginx can invalidate it synchronously.
    pub fn finalize(self, native: &NativeState, status: Status) -> (result: Result<
        NginxCall,
        RequestError,
    >)
        requires
            native.live(self.raw),
        ensures
            result == (match native.terminal_check(self.raw) {
                Err(error) => Err::<NginxCall, RequestError>(error),
                Ok(_) => Ok::<NginxCall, RequestError>(
                    (NginxCall::FinalizeRequest { request: self.raw, status: status.0 }),
                ),
            }),
    {
        match self.validate_terminal_operation(native) {
            Ok(_) => Ok(NginxCall::FinalizeRequest { request: self.raw, status: status.0 }),
            Err(error) => Err(error),
        }
    }

    /// Advances a PREACCESS handler after its asynchronous callback completes.
    ///
    /// This consumes the request because running phases can finalize it synchronously.
    pub fn resume_preaccess(self, native: &mut NativeState) -> (result: Result<
        NginxCall,
        RequestPhaseResumeError,
    >)
        requires
            old(native).live(self.raw),
        ensures
            *final(native) == (NativeState { requests: final(native).requests, ..*old(native) }),
            match old(native).preaccess_check(self.raw) {
                Err(error) => {
                    &&& result == Err::<NginxCall, RequestPhaseResumeError>(error)
                    &&& final(native).requests@ == old(native).requests@
                },
                Ok(handler) => {
                    &&& result == Ok::<NginxCall, RequestPhaseResumeError>(
                        (NginxCall::CoreRunPhases { request: self.raw }),
                    )
                    &&& final(native).requests@ == old(native).with_phase(self.raw, handler)
                },
            },
    {
        let mut request = self;
        match request.prepare_preaccess_resume(native) {
            Ok(_) => Ok(NginxCall::CoreRunPhases { request: request.raw }),
            Err(error) => Err(error),
        }
    }

    /// Makes the phase engine go on with the next handler.
    pub fn prepare_preaccess_resume(&mut self, native: &mut NativeState) -> (result: Result<
        (),
        RequestPhaseResumeError,
    >)
        requires
            old(native).live(old(self).raw),
        ensures
            *final(self) == *old(self),
            *final(native) == (NativeState { requests: final(native).requests, ..*old(native) }),
            match old(native).preaccess_check(old(self).raw) {
                Err(error) => {
                    &&& result == Err::<(), RequestPhaseResumeError>(error)
                    &&& final(native).requests@ == old(native).requests@
                },
                Ok(handler) => {
                    &&& result == Ok::<(), RequestPhaseResumeError>(())
                    &&& final(native).requests@ == old(native).with_phase(old(self).raw, handler)
                },
            },
    {
        match self.validate_terminal_operation(native) {
            Ok(_) => {},
            Err(error) => return Err(RequestPhaseResumeError::from(error)),
        }
        let handler = native.request(self.raw).phase_handler;
        if handler < 0 {
            return Err(RequestPhaseResumeError::NegativePhaseHandler);
        }
        if handler == isize::MAX {
            return Err(RequestPhaseResumeError::PhaseHandlerOverflow);
        }
        let mut request = native.take_request(self.raw);
        request.write_event_handler = Some(WriteEventHandler::CoreRunPhases);
        request.phase_handler = handler + 1;
        native.put_request(self.raw, request);
        assert(native.requests@ =~= old(native).with_phase(self.raw, (handler + 1) as isize));
        Ok(())
    }

    /// Performs an internal redirect to a location.
    ///
    /// A location that starts with `@` is a named one. The redirect displaces the contexts of the
    /// request: once nginx has made it, [`PendingRedirect::finish`] cancels them.
    pub fn internal_redirect(&mut self, native: &mut NativeState, location: &str) -> (result: Result<
        InternalRedirect,
        RequestError,
    >)
        requires
            old(native).live(old(self).raw),
            old(native).pool_of(old(self).raw) is Ok ==> old(native).pool_resolves(old(self).raw),
        ensures
            *final(self) == *old(self),
            if location@.len() == 0 {
                &&& result matches Ok(InternalRedirect::Rejected(status)) && status == Status(
                    NGX_ERROR,
                )
                &&& final(native).unchanged(*old(native))
            } else {
                match old(native).redirect_check(old(self).raw) {
                    Err(error) => {
                        &&& result matches Err(e) && e == error
                        &&& final(native).requests@ == old(native).requests@
                        &&& *final(native) == (NativeState {
                            requests: final(native).requests,
                            pools: final(native).pools,
                            ..*old(native)
                        })
                        &&& match old(native).pool_of(old(self).raw) {
                            Err(_) => final(native).pools@ == old(native).pools@,
                            Ok(pool) => final(native).drew(*old(native), pool, 1),
                        }
                    },
                    Ok(_) => {
                        &&& result matches Ok(InternalRedirect::Pending(redirect)) && {
                            &&& redirect.raw == old(self).raw
                            &&& redirect.uri@ == vstd::utf8::encode_utf8(location@)
                            &&& redirect.call == (if location@[0] == '@' {
                                NginxCall::NamedLocation { request: old(self).raw }
                            } else {
                                NginxCall::InternalRedirect { request: old(self).raw }
                            })
                            &&& Ok::<Option<ContextCancellationHold>, RequestError>(redirect.hold)
                                == old(native).retained(old(self).raw).1
                            &&& redirect.generation == (ContextWalk {
                                pool: old(native).requests@[old(self).raw].pool,
                                next: match old(native).registry_of(old(self).raw) {
                                    None => None,
                                    Some(registry) => registry.newest(),
                                },
                                selection: ContextSelection::Active,
                                cancelled: false,
                            })
                        }
                        &&& final(native).requests@ == old(native).retained(old(self).raw).0
                        &&& final(native).redirect_started(*old(native), old(self).raw)
                    },
                }
            },
    {
        if location.is_empty() {
            return Ok(InternalRedirect::Rejected(Status(NGX_ERROR)));
        }
        let pool_address = match self.pool(native) {
            Ok(pool) => pool,
            Err(error) => return Err(error),
        };
        let mut pool = native.take_pool(pool_address);
        proof {
            NativePool::lemma_spend(pool.blocks@, 1, 0);
        }
        let block = pool.allocate();
        native.put_pool(pool_address, pool);
        let ghost copied = *native;
        assert(native.pools@ =~= old(native).pools@.insert(
            pool_address,
            native.pools@[pool_address],
        ));
        if block.is_none() {
            return Err(RequestError::Allocation);
        }
        let uri = slice_to_vec(location.as_bytes());
        proof {
            lemma_blocks_keep_requests(*old(native), copied, self.raw);
        }
        let hold = match retain_request_for_context_cancellation(native, self.raw) {
            Ok(hold) => hold,
            Err(error) => return Err(error),
        };
        let generation = request_context_generation(native, self.raw);
        advance_request_generation(native, self.raw);
        let call = if location.get_char(0) == '@' {
            NginxCall::NamedLocation { request: self.raw }
        } else {
            NginxCall::InternalRedirect { request: self.raw }
        };
        assert(native.pools@ =~= old(native).pools@.insert(
            pool_address,
            native.pools@[pool_address],
        ));
        Ok(InternalRedirect::Pending(PendingRedirect { raw: self.raw, call, uri, generation, hold }))
    }
}

impl NativeState {
    /// Whether the pool of `raw` gave a block for the location and its registry moved on.
    pub open spec fn redirect_started(self, before: NativeState, raw: usize) -> bool {
        let pool = before.requests@[raw].pool;
        &&& self.pools@ == before.pools@.insert(pool, self.pools@[pool])
        &&& self.pools@[pool] == (NativePool {
            blocks: self.pools@[pool].blocks,
            registry: match before.pools@[pool].registry {
                None => None,
                Some(registry) => Some(
                    RequestContextRegistry {
                        generation: RequestContextRegistry::next_generation(registry.generation),
                        ..registry
                    },
                ),
            },
            ..before.pools@[pool]
        })
        &&& self.pools@[pool].blocks@ == NativePool::spend(before.pools@[pool].blocks@, 1)
        &&& self == (NativeState { requests: self.requests, pools: self.pools, ..before })
    }
}

/// What main request a request has depends on the requests alone.
proof fn lemma_blocks_keep_requests(a: NativeState, b: NativeState, raw: usize)
    requires
        a.requests == b.requests,
    ensures
        a.main_of(raw) == b.main_of(raw),
        a.retained(raw) == b.retained(raw),
        a.live(raw) == b.live(raw),
{
    lemma_reaches_ignores_pools(a, b);
}

/// What a parent chain reaches depends on the requests alone.
proof fn lemma_reaches_ignores_pools(a: NativeState, b: NativeState)
    requires
        a.requests == b.requests,
    ensures
        forall|request: usize, main: usize, edges: nat| #[trigger]
            a.reaches(request, main, edges) == b.reaches(request, main, edges),
        a.linked() == b.linked(),
{
    assert forall|request: usize, main: usize, edges: nat| #[trigger]
        a.reaches(request, main, edges) == b.reaches(request, main, edges) by {
        lemma_reach_ignores_pools(a, b, request, main, edges);
    }
    assert(forall|p: usize| a.resolves(p) == b.resolves(p));
    if a.linked() {
        assert(b.linked());
    }
    if b.linked() {
        assert(a.linked());
    }
}

/// What a parent chain reaches depends on the requests alone.
proof fn lemma_reach_ignores_pools(
    a: NativeState,
    b: NativeState,
    request: usize,
    main: usize,
    edges: nat,
)
    requires
        a.requests == b.requests,
    ensures
        a.reaches(request, main, edges) == b.reaches(request, main, edges),
    decreases edges,
{
    if edges > 0 {
        lemma_reach_ignores_pools(
            a,
            b,
            a.requests@[request].parent,
            main,
            (edges - 1) as nat,
        );
    }
}

/// A hold leaves nginx the range of main-request counts that it reserves.
pub proof fn law_hold_keeps_the_reserve(native: NativeState, raw: usize)
    ensures
        native.hold_check(raw, false) matches Ok(main) ==> native.requests@[main].count + 1
            <= MAX_REQUEST_COUNT_AFTER_HOLD,
        native.main_of(raw) matches Ok(main) && native.requests@[main].count
            >= MAX_REQUEST_COUNT_AFTER_HOLD ==> native.hold_check(raw, false) == Err::<
            usize,
            RequestHoldError,
        >(RequestHoldError::CountOverflow),
{
}

/// A hold that is cancelled right away leaves every request as it was, when the main request has
/// its pool.
pub proof fn law_hold_then_cancel_restores(before: NativeState, after: NativeState, raw: usize)
    requires
        before.live(raw),
        before.hold_check(raw, false) matches Ok(main) && before.requests@[main].pool != 0,
        after.requests@ == before.with_count(
            before.hold_check(raw, false)->Ok_0,
            (before.requests@[before.hold_check(raw, false)->Ok_0].count + 1) as u16,
        ),
    ensures
        after.hold_released(
            RequestHold { request: raw, main: before.hold_check(raw, false)->Ok_0, active: true },
        ) == (before.requests@, None::<NginxCall>),
{
    let main = before.hold_check(raw, false)->Ok_0;
    assert(before.resolves(before.requests@[raw].main));
    assert(after.hold_released(RequestHold { request: raw, main, active: true }).0
        =~= before.requests@);
}

/// A hold that was taken into a continuation and restored is the hold that was taken.
pub proof fn law_take_then_restore_returns_the_hold(
    native: NativeState,
    slot: Option<RequestHold>,
    continuation: RequestContinuation,
)
    requires
        native.take_check(slot, continuation.request.raw) is Ok,
        continuation == (RequestContinuation {
            request: continuation.request,
            hold: slot,
            consumed: false,
            header_continued: false,
            body_continued: false,
        }),
    ensures
        continuation.restore_check(None) is Ok,
        continuation.hold == slot,
{
}

/// A consumed continuation is refused by every operation: it can be neither restored, nor
/// finalized, nor continued through a filter.
pub proof fn law_consumed_continuation_is_refused(
    continuation: RequestContinuation,
    native: NativeState,
    slot: Option<RequestHold>,
    status: Status,
    again: RequestContinuationError,
)
    ensures
        continuation.spent().restore_check(slot) == Err::<(), RequestContinuationError>(
            RequestContinuationError::Consumed,
        ),
        continuation.spent().finalize_check(native, status) == Err::<
            NginxCall,
            RequestContinuationError,
        >(RequestContinuationError::Consumed),
        continuation.spent().filter_check(native, false, again) == Err::<
            (),
            RequestContinuationError,
        >(RequestContinuationError::Consumed),
{
}

} // verus!
