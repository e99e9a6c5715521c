//! Reading the client body, and the callback that completes a read.

use vstd::prelude::*;

use crate::native::{NativePool, NativeState, NginxCall};
use crate::request::context::{
    cancel_stale_request_contexts, clear_client_body_read, register_client_body_read,
    release_request_reference, retain_request_for_context_cancellation, take_client_body_read,
    ClientBodyCallbackState, ContextCancellation, ContextCancellationHold, RequestContextError,
};
use crate::request::view::{checked_request_ptr, RequestError, RequestRef, RequestRefMut};
use crate::status::{
    HTTPStatus, Status, NGX_AGAIN, NGX_DONE, NGX_ERROR, NGX_HTTP_SPECIAL_RESPONSE, NGX_OK,
};

verus! {

/// Result returned when starting nginx client-body processing.
#[derive(Clone, Copy, Debug, PartialEq, Eq, Structural)]
pub enum ClientBodyReadStatus {
    /// Nginx completed the operation synchronously.
    Completed,
    /// Nginx needs more body input.
    Again,
    /// Nginx completed or continued through an alternate native path.
    Done,
    /// Nginx returned an HTTP special response without invoking the callback.
    Special(HTTPStatus),
    /// Nginx returned another status.
    Error(Status),
}

impl ClientBodyReadStatus {
    /// The class of a native status.
    pub open spec fn classified(status: isize) -> ClientBodyReadStatus {
        if status == NGX_OK {
            ClientBodyReadStatus::Completed
        } else if status == NGX_AGAIN {
            ClientBodyReadStatus::Again
        } else if status == NGX_DONE {
            ClientBodyReadStatus::Done
        } else if status >= NGX_HTTP_SPECIAL_RESPONSE && HTTPStatus::in_range(status as int) {
            ClientBodyReadStatus::Special(HTTPStatus(status as usize))
        } else {
            ClientBodyReadStatus::Error(Status(status))
        }
    }

    /// The native status of a class.
    pub open spec fn native(self) -> isize {
        match self {
            ClientBodyReadStatus::Completed => NGX_OK,
            ClientBodyReadStatus::Again => NGX_AGAIN,
            ClientBodyReadStatus::Done => NGX_DONE,
            ClientBodyReadStatus::Special(status) => status.0 as isize,
            ClientBodyReadStatus::Error(status) => status.0,
        }
    }

    /// Classifies a native status.
    pub fn from_raw(status: isize) -> (result: Self)
        ensures
            result == Self::classified(status),
    {
        if status == NGX_OK {
            return ClientBodyReadStatus::Completed;
        }
        if status == NGX_AGAIN {
            return ClientBodyReadStatus::Again;
        }
        if status == NGX_DONE {
            return ClientBodyReadStatus::Done;
        }
        if status >= NGX_HTTP_SPECIAL_RESPONSE {
            match HTTPStatus::from_code(status as usize) {
                Ok(status) => return ClientBodyReadStatus::Special(status),
                Err(_) => {},
            }
        }
        ClientBodyReadStatus::Error(Status(status))
    }

    /// Returns the exact native nginx status code.
    pub fn raw(&self) -> (result: isize)
        ensures
            result == self.native(),
    {
        match self {
            ClientBodyReadStatus::Completed => NGX_OK,
            ClientBodyReadStatus::Again => NGX_AGAIN,
            ClientBodyReadStatus::Done => NGX_DONE,
            ClientBodyReadStatus::Special(status) => status.0 as isize,
            ClientBodyReadStatus::Error(status) => status.0,
        }
    }
}

/// Classifying a native status keeps its exact code.
pub proof fn law_read_status_keeps_the_code(status: isize)
    ensures
        ClientBodyReadStatus::classified(status).native() == status,
{
}

/// Start-side ownership returned by nginx client-body processing.
///
/// When nginx is called and returns a non-special status, it retains one main-request reference
/// while the body callback owns asynchronous processing. [`release`](Self::release) consumes this
/// token exactly once. A special response, a registration failure, or an already pending read has
/// no start-side reference to release.
#[derive(Debug)]
pub struct ClientBodyReadStart {
    pub request: RequestRefMut,
    pub status: ClientBodyReadStatus,
    pub release_required: bool,
}

impl ClientBodyReadStart {
    /// Returns the native status class without releasing start-side ownership.
    pub fn status(&self) -> (result: &ClientBodyReadStatus)
        ensures
            *result == self.status,
    {
        &self.status
    }

    /// Returns the request while start-side ownership keeps it live.
    pub fn request(&self) -> (result: &RequestRefMut)
        ensures
            *result == self.request,
    {
        &self.request
    }

    /// Releases start-side ownership after the caller has handled the native status.
    ///
    /// This may synchronously finalize the request and must be the caller's final request
    /// operation.
    pub fn release(self) -> (result: Option<NginxCall>)
        ensures
            result == (if self.release_required {
                Some(NginxCall::FinalizeRequest { request: self.request.raw, status: NGX_DONE })
            } else {
                None
            }),
    {
        if self.release_required {
            Some(NginxCall::FinalizeRequest { request: self.request.raw, status: NGX_DONE })
        } else {
            None
        }
    }
}

/// A registered read that nginx has yet to be asked for.
#[derive(Debug)]
pub struct PendingClientBodyRead {
    pub request: usize,
    /// Identity of the registered read.
    pub id: u64,
    /// The callback that completes the read, by its address.
    pub callback: usize,
}

/// How a client-body read begins.
#[derive(Debug)]
pub enum ClientBodyReadBegin {
    /// Nginx is not called.
    Started(ClientBodyReadStart),
    /// Nginx is to be called, and its answer handed to [`PendingClientBodyRead::finish`].
    Call(PendingClientBodyRead),
}

impl PendingClientBodyRead {
    /// The call that starts the read.
    pub fn call(&self) -> (result: NginxCall)
        ensures
            result == (NginxCall::ReadClientRequestBody {
                request: self.request,
                callback: self.callback,
            }),
    {
        NginxCall::ReadClientRequestBody { request: self.request, callback: self.callback }
    }

    /// Ends the start of a read that nginx answered with `status`.
    ///
    /// A special response or an error takes the registration back.
    pub fn finish(self, native: &mut NativeState, status: isize) -> (result: ClientBodyReadStart)
        requires
            old(native).requests@.contains_key(self.request),
            old(native).pool_resolves(self.request),
        ensures
            *final(native) == (NativeState { pools: final(native).pools, ..*old(native) }),
            result.request.raw == self.request,
            result.status == ClientBodyReadStatus::classified(status),
            result.release_required == !(result.status is Special),
            final(native).pools@ == (if result.status is Special || result.status is Error {
                old(native).without_body_read(self.request, self.id, self.callback)
            } else {
                old(native).pools@
            }),
    {
        let status = ClientBodyReadStatus::from_raw(status);
        let (release_required, failed) = match status {
            ClientBodyReadStatus::Special(_) => (false, true),
            ClientBodyReadStatus::Error(_) => (true, true),
            _ => (true, false),
        };
        if failed {
            clear_client_body_read(native, self.request, self.id, self.callback);
        }
        ClientBodyReadStart {
            request: RequestRefMut { raw: self.request },
            status,
            release_required,
        }
    }
}

impl RequestRefMut {
    /// Starts nginx client-body processing with one callback, by its address.
    ///
    /// An immediate special response is returned without invoking the callback. A read already
    /// pending from this or an older request generation returns [`ClientBodyReadStatus::Again`]
    /// without calling nginx again. A late callback from an older generation terminates the
    /// request rather than running against replacement state. The returned token must be released
    /// after its status has been handled.
    pub fn read_client_body(&mut self, native: &mut NativeState, callback: usize) -> (result:
        ClientBodyReadBegin)
        requires
            old(native).live(old(self).raw),
            old(native).pool_of(old(self).raw) is Ok ==> old(native).pool_resolves(old(self).raw),
        ensures
            *final(self) == *old(self),
            match result {
                ClientBodyReadBegin::Call(pending) => {
                    &&& pending.request == old(self).raw
                    &&& pending.callback == callback
                    &&& final(native).read_registered(
                        *old(native),
                        old(self).raw,
                        callback,
                        Ok(Some(pending.id)),
                    )
                },
                ClientBodyReadBegin::Started(start) => {
                    &&& start.request.raw == old(self).raw
                    &&& !start.release_required
                    &&& if start.status == ClientBodyReadStatus::Again {
                        final(native).read_registered(
                            *old(native),
                            old(self).raw,
                            callback,
                            Ok(None),
                        )
                    } else {
                        &&& start.status == ClientBodyReadStatus::Error(Status(NGX_ERROR))
                        &&& exists|error: RequestContextError| #[trigger]
                            final(native).read_registered(
                                *old(native),
                                old(self).raw,
                                callback,
                                Err(error),
                            )
                    }
                },
            },
    {
        let status = match register_client_body_read(native, self.raw, callback) {
            Ok(Some(id)) => {
                return ClientBodyReadBegin::Call(
                    PendingClientBodyRead { request: self.raw, id, callback },
                );
            },
            Ok(None) => ClientBodyReadStatus::Again,
            Err(_) => ClientBodyReadStatus::Error(Status(NGX_ERROR)),
        };
        ClientBodyReadBegin::Started(
            ClientBodyReadStart {
                request: RequestRefMut { raw: self.raw },
                status,
                release_required: false,
            },
        )
    }

    /// Discards the request body.
    pub fn discard_request_body(&mut self) -> (result: NginxCall)
        ensures
            *final(self) == *old(self),
            result == (NginxCall::DiscardRequestBody { request: old(self).raw }),
    {
        NginxCall::DiscardRequestBody { request: self.raw }
    }
}

/// A client-body callback whose request is kept alive while stale contexts are cancelled.
///
/// The caller cancels and drops each context of `cancellation` and then goes on with
/// [`resume`](Self::resume).
#[derive(Debug)]
pub struct ClientBodyCallback {
    pub request: usize,
    /// The callback, by its address.
    pub callback: usize,
    pub hold: Option<ContextCancellationHold>,
    pub cancellation: ContextCancellation,
}

/// How a client-body callback begins.
#[derive(Debug)]
pub enum ClientBodyCallbackBegin {
    /// The request cannot be used, and nothing was done.
    Ignored,
    /// The stale contexts could not be cancelled. The call, if any, gives up the request.
    Abandoned(Option<NginxCall>),
    /// The callback goes on once the stale contexts were cancelled.
    Cancel(ClientBodyCallback),
}

/// What is left to do in a client-body callback: perform the call, then run the body handler if
/// the callback is current and its owner still accepts it, then give up the reference.
#[derive(Debug)]
pub struct ClientBodyDispatch {
    pub call: Option<NginxCall>,
    pub run: bool,
    pub hold: Option<ContextCancellationHold>,
}

/// Begins the callback that nginx runs when a client-body read completes.
pub fn raw_client_body_handler(native: &mut NativeState, request: usize, callback: usize) -> (result:
    ClientBodyCallbackBegin)
    requires
        old(native).resolves(request),
        old(native).linked(),
        old(native).checked_request(request) is Ok ==> old(native).registry_ready(request),
    ensures
        match old(native).checked_request(request) {
            Err(_) => result is Ignored && final(native).unchanged(*old(native)),
            Ok(raw) => match old(native).retained(raw).1 {
                Err(_) => result is Ignored && final(native).unchanged(*old(native)),
                Ok(hold) => exists|middle: NativeState| #[trigger]
                    middle.holds_for(*old(native), raw) && final(native).callback_begun(
                        middle,
                        raw,
                        callback,
                        hold,
                        result,
                    ),
            },
        },
{
    let raw = match checked_request_ptr(native, request) {
        Ok(raw) => raw,
        Err(_) => return ClientBodyCallbackBegin::Ignored,
    };
    let ghost before = *native;
    let hold = match retain_request_for_context_cancellation(native, raw) {
        Ok(hold) => hold,
        Err(_) => return ClientBodyCallbackBegin::Ignored,
    };
    let ghost middle = *native;
    proof {
        assert(before.resolves(before.requests@[raw].main));
        lemma_held_is_live(before, middle, raw);
        assert(middle.holds_for(before, raw));
    }
    match cancel_stale_request_contexts(native, raw) {
        Ok(cancellation) => ClientBodyCallbackBegin::Cancel(
            ClientBodyCallback { request: raw, callback, hold, cancellation },
        ),
        Err(_) => {
            let call = release_hold(native, hold);
            ClientBodyCallbackBegin::Abandoned(call)
        },
    }
}

impl NativeState {
    /// What giving up an optional reference makes of `before`, and the call that this asks for.
    pub open spec fn gave_up(
        self,
        before: NativeState,
        hold: Option<ContextCancellationHold>,
        call: Option<NginxCall>,
    ) -> bool {
        &&& self == (NativeState { requests: self.requests, ..before })
        &&& match hold {
            None => self.requests@ == before.requests@ && call is None,
            Some(hold) => (self.requests@, call) == before.released(hold.request, hold.main),
        }
    }

    /// How a client-body callback goes on from `before`, in which its request is held.
    pub open spec fn callback_begun(
        self,
        before: NativeState,
        raw: usize,
        callback: usize,
        hold: Option<ContextCancellationHold>,
        result: ClientBodyCallbackBegin,
    ) -> bool {
        match result {
            ClientBodyCallbackBegin::Ignored => false,
            ClientBodyCallbackBegin::Abandoned(call) => exists|error: RequestError, middle: NativeState|
                #[trigger] middle.cancellation_begun(before, raw, Err(error)) && self.gave_up(
                    middle,
                    hold,
                    call,
                ),
            ClientBodyCallbackBegin::Cancel(begun) => {
                &&& begun.request == raw
                &&& begun.callback == callback
                &&& begun.hold == hold
                &&& self.cancellation_begun(before, raw, Ok(begun.cancellation))
            },
        }
    }
}

/// A request that is held stays live, with its registry.
proof fn lemma_held_is_live(before: NativeState, after: NativeState, raw: usize)
    requires
        before.live(raw),
        before.registry_ready(raw),
        after.holds_for(before, raw),
    ensures
        after.live(raw),
        after.registry_ready(raw),
        before.retained(raw).1 matches Ok(Some(hold)) ==> after.requests@.contains_key(hold.main),
{
    assert(before.resolves(before.requests@[raw].main));
    assert forall|r: usize| #[trigger] after.requests@.contains_key(r) implies {
        &&& after.resolves(after.requests@[r].main)
        &&& after.resolves(after.requests@[r].parent)
    } by {
        assert(before.requests@.contains_key(r));
        assert(before.resolves(before.requests@[r].main));
        assert(before.resolves(before.requests@[r].parent));
    }
    assert forall|r: usize, i: usize| #[trigger] after.has_slot(r, i) == before.has_slot(r, i) by {}
}

/// Gives up an optional reference.
fn release_hold(native: &mut NativeState, hold: Option<ContextCancellationHold>) -> (result: Option<
    NginxCall,
>)
    requires
        hold matches Some(hold) ==> old(native).requests@.contains_key(hold.main),
    ensures
        final(native).gave_up(*old(native), hold, result),
{
    match hold {
        None => None,
        Some(hold) => release_request_reference(native, hold.request, hold.main),
    }
}

impl ClientBodyCallback {
    /// Goes on once the stale contexts were cancelled and dropped.
    ///
    /// A read of an older generation finalizes the request with an error.
    pub fn resume(self, native: &mut NativeState) -> (result: ClientBodyDispatch)
        requires
            old(native).requests@.contains_key(self.request),
            old(native).pool_resolves(self.request),
            self.cancellation.walk.next is None,
            self.cancellation.walk.cancelled ==> old(native).pools@.contains_key(
                self.cancellation.walk.pool,
            ),
            self.cancellation.hold matches Some(hold) ==> old(native).requests@.contains_key(
                hold.main,
            ),
        ensures
            result.hold == self.hold,
            *final(native) == (NativeState {
                requests: final(native).requests,
                pools: final(native).pools,
                ..*old(native)
            }),
            final(native).requests@ == (match self.cancellation.hold {
                None => old(native).requests@,
                Some(hold) => old(native).released(hold.request, hold.main).0,
            }),
            ({
                let pools = old(native).settled_pools(self.cancellation.walk);
                let gone = self.cancellation.hold matches Some(hold) && old(
                    native,
                ).requests@[hold.main].count == 1;
                if gone {
                    &&& final(native).pools@ == pools
                    &&& result.call == old(native).released(
                        self.cancellation.hold->Some_0.request,
                        self.cancellation.hold->Some_0.main,
                    ).1
                    &&& !result.run
                } else {
                    let pool = old(native).requests@[self.request].pool;
                    let state = callback_state(pools, pool, self.callback);
                    &&& final(native).pools@ == (if state == ClientBodyCallbackState::Missing {
                        pools
                    } else {
                        without_pending_read(pools, pool)
                    })
                    &&& result.run == (state == ClientBodyCallbackState::Current)
                    &&& result.call == (if state == ClientBodyCallbackState::Stale {
                        Some(
                            NginxCall::FinalizeRequest { request: self.request, status: NGX_ERROR },
                        )
                    } else {
                        None
                    })
                }
            }),
    {
        let outcome = self.cancellation.finish(native);
        if outcome.settled.is_err() {
            return ClientBodyDispatch { call: outcome.call, run: false, hold: self.hold };
        }
        match take_client_body_read(native, self.request, self.callback) {
            ClientBodyCallbackState::Current => ClientBodyDispatch {
                call: None,
                run: true,
                hold: self.hold,
            },
            ClientBodyCallbackState::Stale => ClientBodyDispatch {
                call: Some(
                    NginxCall::FinalizeRequest { request: self.request, status: NGX_ERROR },
                ),
                run: false,
                hold: self.hold,
            },
            ClientBodyCallbackState::Missing => ClientBodyDispatch {
                call: None,
                run: false,
                hold: self.hold,
            },
        }
    }
}

/// What the callback `expected` finds registered in the pool at `pool`.
pub open spec fn callback_state(
    pools: Map<usize, NativePool>,
    pool: usize,
    expected: usize,
) -> ClientBodyCallbackState {
    if pool == 0 {
        ClientBodyCallbackState::Missing
    } else {
        match pools[pool].registry {
            None => ClientBodyCallbackState::Missing,
            Some(registry) => registry.body_callback(expected),
        }
    }
}

/// The pools once the registered read of the pool at `pool` was taken.
pub open spec fn without_pending_read(pools: Map<usize, NativePool>, pool: usize) -> Map<
    usize,
    NativePool,
> {
    pools.insert(
        pool,
        (NativePool {
            registry: Some(
                (crate::request::context::RequestContextRegistry {
                    client_body_read: None,
                    ..pools[pool].registry->Some_0
                }),
            ),
            ..pools[pool]
        }),
    )
}

/// Static callback invoked when nginx completes a client-body read.
///
/// Callbacks displaced by a safe request redirect are rejected before this trait is invoked. The
/// owner may additionally keep cancellation state in its pinned request context and override
/// [`is_active`](Self::is_active).
pub trait HttpClientBodyHandler {
    /// Returns whether the request owner still accepts a client-body callback.
    fn is_active(_request: RequestRef, _native: &NativeState) -> bool {
        true
    }

    /// Handles one callback-scoped client-body completion.
    fn body_read(request: &mut RequestRefMut, native: &mut NativeState);
}

impl ClientBodyDispatch {
    /// Runs the body handler of a current callback whose owner still accepts it, and says whether
    /// it ran.
    ///
    /// For a current callback the owner is asked with the request and the state as they are, and
    /// its answer is the result.
    pub fn run_handler<H: HttpClientBodyHandler>(
        &self,
        request: &mut RequestRefMut,
        native: &mut NativeState,
    ) -> (result: bool)
        ensures
            result ==> self.run,
            self.run ==> call_ensures(
                H::is_active,
                (RequestRef { raw: old(request).raw }, &*old(native)),
                result,
            ),
            if result {
                exists|handled: &mut RequestRefMut, state: &mut NativeState|
                    {
                        &&& #[trigger] call_ensures(H::body_read, (handled, state), ())
                        &&& *handled == *old(request) && *final(handled) == *final(request)
                        &&& *state == *old(native) && *final(state) == *final(native)
                    }
            } else {
                *final(native) == *old(native) && *final(request) == *old(request)
            },
    {
        if !self.run || !H::is_active(request.view(), native) {
            return false;
        }
        H::body_read(request, native);
        true
    }

    /// Gives up the reference that kept the request alive during the callback.
    pub fn end(self, native: &mut NativeState) -> (result: Option<NginxCall>)
        requires
            self.hold matches Some(hold) ==> old(native).requests@.contains_key(hold.main),
        ensures
            final(native).gave_up(*old(native), self.hold, result),
    {
        release_hold(native, self.hold)
    }
}

} // verus!
