//! Selection and release of upstream peers.

use vstd::prelude::*;

use crate::native::{is_aligned, NativeState, Pointer};
use crate::status::{NGX_AGAIN, NGX_BUSY, NGX_DECLINED, NGX_DONE, NGX_ERROR, NGX_OK};
use crate::upstream::callback::{
    HttpUpstreamPeerHandler, UpstreamAction, UpstreamCallbackError, UpstreamHandler,
    UpstreamLogRecord, NGX_LOG_ERR,
};

verus! {

/// Mark of peer data that this crate installed.
pub const PEER_DATA_MAGIC: u64 = 0x7d5a_1bc8_9e34_f602;

/// A native peer connection. Pointers, callbacks among them, are addresses.
#[derive(Clone, Copy, Debug, PartialEq, Eq, Structural)]
pub struct NativePeer {
    /// Address of the peer connection.
    pub address: usize,
    pub name: usize,
    pub sockaddr: usize,
    pub connection: usize,
    /// Peer attempts that are left.
    pub tries: usize,
    pub log: usize,
    pub get: Option<usize>,
    pub free: Option<usize>,
    pub notify: Option<usize>,
    pub set_session: Option<usize>,
    pub save_session: Option<usize>,
    /// Argument of the callbacks.
    pub data: usize,
}

/// The upstream of a request.
#[derive(Clone, Copy, Debug, PartialEq, Eq, Structural)]
pub struct NativeUpstream {
    pub peer: NativePeer,
}

/// Opaque proof that a native callback populated the fields required for a selected peer.
#[derive(Debug)]
pub struct SelectedUpstreamPeer {
    status: isize,
    generation: u64,
}

impl SelectedUpstreamPeer {
    #[verifier::type_invariant]
    spec fn inv(self) -> bool {
        UpstreamPeerSelection::selects(self.status)
    }

    /// The status that the native callback returned.
    pub closed spec fn status(self) -> isize {
        self.status
    }

    /// The selection that the peer belongs to.
    pub closed spec fn generation(self) -> u64 {
        self.generation
    }
}

/// Safe result of an upstream peer selection callback.
#[derive(Debug)]
pub enum UpstreamPeerSelection {
    /// Peer selection failed.
    Error,
    /// No live peer is currently available.
    Busy,
    /// This peer selection attempt was declined.
    Declined,
    /// A new, pending, or reused peer has all native fields required by nginx.
    Selected(SelectedUpstreamPeer),
}

impl UpstreamPeerSelection {
    /// Whether a native status says that a peer was selected.
    pub open spec fn selects(status: isize) -> bool {
        status == NGX_OK || status == NGX_AGAIN || status == NGX_DONE
    }

    /// The native status of the selection.
    pub open spec fn code(self) -> isize {
        match self {
            UpstreamPeerSelection::Error => NGX_ERROR,
            UpstreamPeerSelection::Busy => NGX_BUSY,
            UpstreamPeerSelection::Declined => NGX_DECLINED,
            UpstreamPeerSelection::Selected(selected) => selected.status(),
        }
    }

    /// The native status of the selection.
    pub fn status(&self) -> (result: isize)
        ensures
            result == self.code(),
    {
        match self {
            UpstreamPeerSelection::Error => NGX_ERROR,
            UpstreamPeerSelection::Busy => NGX_BUSY,
            UpstreamPeerSelection::Declined => NGX_DECLINED,
            UpstreamPeerSelection::Selected(selected) => selected.status,
        }
    }
}

/// Checked peer-connection callback view.
#[derive(Clone, Copy, Debug)]
pub struct UpstreamPeerConnection<'callback> {
    raw: &'callback NativePeer,
}

impl<'callback> UpstreamPeerConnection<'callback> {
    /// The peer connection behind the view.
    pub closed spec fn view(self) -> NativePeer {
        *self.raw
    }

    /// The peer connection that nginx supplied, or what is wrong with the pointer.
    pub open spec fn checked(peer: Pointer<NativePeer>) -> Result<
        NativePeer,
        UpstreamCallbackError,
    > {
        match peer {
            Pointer::Null => Err(UpstreamCallbackError::NullPeer),
            Pointer::Misaligned => Err(UpstreamCallbackError::MisalignedPeer),
            Pointer::To(value) => Ok(value),
        }
    }

    /// A checked view of the peer connection that nginx supplied.
    pub fn from_raw(peer: &'callback Pointer<NativePeer>) -> (result: Result<
        Self,
        UpstreamCallbackError,
    >)
        ensures
            match Self::checked(*peer) {
                Ok(value) => result matches Ok(view) && view@ == value,
                Err(error) => result matches Err(e) && e == error,
            },
    {
        match peer {
            Pointer::Null => Err(UpstreamCallbackError::NullPeer),
            Pointer::Misaligned => Err(UpstreamCallbackError::MisalignedPeer),
            Pointer::To(raw) => Ok(UpstreamPeerConnection { raw }),
        }
    }

    /// A view of a peer connection.
    pub fn of(raw: &'callback NativePeer) -> (result: Self)
        ensures
            result@ == *raw,
    {
        UpstreamPeerConnection { raw }
    }

    /// Returns the number of remaining peer attempts nginx recorded.
    pub fn tries(&self) -> (result: usize)
        ensures
            result == self@.tries,
    {
        self.raw.tries
    }

    /// Whether the peer connection has what its selection with `status` needs, or what it lacks.
    pub open spec fn selectable(peer: NativePeer, status: isize) -> Result<
        (),
        UpstreamCallbackError,
    > {
        if peer.name == 0 {
            Err(UpstreamCallbackError::MissingSelectedPeerName)
        } else if !NativeState::aligned(peer.name) {
            Err(UpstreamCallbackError::MisalignedSelectedPeerName)
        } else if status == NGX_OK {
            if peer.sockaddr == 0 {
                Err(UpstreamCallbackError::MissingSelectedPeerAddress)
            } else if peer.sockaddr % SOCKADDR_ALIGN != 0 {
                Err(UpstreamCallbackError::MisalignedSelectedPeerAddress)
            } else {
                Ok(())
            }
        } else if peer.connection == 0 {
            Err(UpstreamCallbackError::MissingSelectedPeerConnection)
        } else if !NativeState::aligned(peer.connection) {
            Err(UpstreamCallbackError::MisalignedSelectedPeerConnection)
        } else {
            Ok(())
        }
    }

    /// Checks that the peer connection has what its selection needs.
    fn selected(&self, status: isize, generation: u64) -> (result: Result<
        SelectedUpstreamPeer,
        UpstreamCallbackError,
    >)
        requires
            UpstreamPeerSelection::selects(status),
        ensures
            match Self::selectable(self@, status) {
                Ok(()) => result matches Ok(selected) && selected.status() == status
                    && selected.generation() == generation,
                Err(error) => result matches Err(e) && e == error,
            },
    {
        if self.raw.name == 0 {
            return Err(UpstreamCallbackError::MissingSelectedPeerName);
        }
        if !is_aligned(self.raw.name) {
            return Err(UpstreamCallbackError::MisalignedSelectedPeerName);
        }
        if status == NGX_OK {
            if self.raw.sockaddr == 0 {
                return Err(UpstreamCallbackError::MissingSelectedPeerAddress);
            }
            if self.raw.sockaddr % SOCKADDR_ALIGN != 0 {
                return Err(UpstreamCallbackError::MisalignedSelectedPeerAddress);
            }
        } else {
            if self.raw.connection == 0 {
                return Err(UpstreamCallbackError::MissingSelectedPeerConnection);
            }
            if !is_aligned(self.raw.connection) {
                return Err(UpstreamCallbackError::MisalignedSelectedPeerConnection);
            }
        }
        Ok(SelectedUpstreamPeer { status, generation })
    }

    /// The record of a failed peer callback, when the peer connection has a logger.
    pub open spec fn record(
        peer: NativePeer,
        action: UpstreamAction,
        error: UpstreamCallbackError,
    ) -> Option<UpstreamLogRecord> {
        if peer.log == 0 || !NativeState::aligned(peer.log) {
            None
        } else {
            Some(UpstreamLogRecord { level: NGX_LOG_ERR, log: peer.log, action, error })
        }
    }

    /// The record of a failed peer callback, when the peer connection has a logger.
    fn log_failure(&self, action: UpstreamAction, error: UpstreamCallbackError) -> (result: Option<
        UpstreamLogRecord,
    >)
        ensures
            result == Self::record(self@, action, error),
    {
        if self.raw.log == 0 || !is_aligned(self.raw.log) {
            return None;
        }
        Some(UpstreamLogRecord { level: NGX_LOG_ERR, log: self.raw.log, action, error })
    }
}

/// Alignment of a socket address.
pub const SOCKADDR_ALIGN: usize = 2;

/// Exact nginx peer release-state bits passed to a release callback.
#[derive(Clone, Copy, Debug, PartialEq, Eq, Structural)]
pub struct UpstreamPeerState(pub usize);

impl UpstreamPeerState {
    /// Returns the unchanged native state bits.
    pub fn bits(self) -> (result: usize)
        ensures
            result == self.0,
    {
        self.0
    }
}

/// The peer callbacks that were there before those of a handler.
#[derive(Clone, Copy, Debug, PartialEq, Eq, Structural)]
pub struct OriginalPeerCallbacks {
    pub get: Option<usize>,
    pub free: Option<usize>,
    pub notify: Option<usize>,
    pub set_session: Option<usize>,
    pub save_session: Option<usize>,
    /// Argument of the callbacks.
    pub data: usize,
}

/// A call of a saved peer callback with the argument that was saved with it.
#[derive(Clone, Copy, Debug, PartialEq, Eq, Structural)]
pub struct PeerCall {
    /// The callback, by its address.
    pub callback: usize,
    pub data: usize,
}

impl OriginalPeerCallbacks {
    /// The saved callbacks of a peer connection.
    pub open spec fn of(peer: NativePeer) -> OriginalPeerCallbacks {
        OriginalPeerCallbacks {
            get: peer.get,
            free: peer.free,
            notify: peer.notify,
            set_session: peer.set_session,
            save_session: peer.save_session,
            data: peer.data,
        }
    }

    /// The call of a saved callback, when there is one.
    pub open spec fn call_of(self, callback: Option<usize>) -> Option<PeerCall> {
        match callback {
            Some(callback) => Some(PeerCall { callback, data: self.data }),
            None => None,
        }
    }

    /// The call of a saved callback, when there is one.
    fn call_original(&self, callback: Option<usize>) -> (result: Option<PeerCall>)
        ensures
            result == self.call_of(callback),
    {
        match callback {
            Some(callback) => Some(PeerCall { callback, data: self.data }),
            None => None,
        }
    }
}

/// What the original peer selector did during one selection.
#[derive(Clone, Copy, Debug, PartialEq, Eq, Structural)]
pub enum OriginalPeerGetOutcome {
    /// It did not run.
    NotCalled,
    /// It ran and selected no peer.
    Unselected,
    /// It selected a peer.
    Selected,
}

/// One callback-local capability to invoke the saved original peer selector.
#[derive(Debug)]
pub struct OriginalPeerGet {
    original: OriginalPeerCallbacks,
    generation: u64,
    outcome: OriginalPeerGetOutcome,
    called: bool,
}

impl OriginalPeerGet {
    /// The saved callbacks.
    pub closed spec fn original(self) -> OriginalPeerCallbacks {
        self.original
    }

    /// The selection that the capability belongs to.
    pub closed spec fn generation(self) -> u64 {
        self.generation
    }

    /// What the original selector did.
    pub closed spec fn outcome(self) -> OriginalPeerGetOutcome {
        self.outcome
    }

    /// Whether the capability was used.
    pub closed spec fn called(self) -> bool {
        self.called
    }

    /// The outcome that a status of the original selector comes to.
    pub open spec fn outcome_of(status: isize) -> OriginalPeerGetOutcome {
        if UpstreamPeerSelection::selects(status) {
            OriginalPeerGetOutcome::Selected
        } else {
            OriginalPeerGetOutcome::Unselected
        }
    }

    /// Uses this capability to invoke the original peer selector once.
    ///
    /// What the selector returned is handed to [`OriginalPeerGet::finish`].
    pub fn call(&mut self) -> (result: Result<PeerCall, UpstreamCallbackError>)
        requires
            !old(self).called(),
        ensures
            final(self).original() == old(self).original(),
            final(self).generation() == old(self).generation(),
            final(self).outcome() == old(self).outcome(),
            final(self).called(),
            match old(self).original().get {
                Some(callback) => result == Ok::<PeerCall, UpstreamCallbackError>(
                    PeerCall { callback, data: old(self).original().data },
                ),
                None => result == Err::<PeerCall, UpstreamCallbackError>(
                    UpstreamCallbackError::MissingOriginalGetPeer,
                ),
            },
    {
        self.called = true;
        match self.original.call_original(self.original.get) {
            Some(call) => Ok(call),
            None => Err(UpstreamCallbackError::MissingOriginalGetPeer),
        }
    }

    /// Classifies the status that the original selector returned, and checks the peer that it
    /// selected.
    pub fn finish(&mut self, peer: &UpstreamPeerConnection, status: isize) -> (result: Result<
        UpstreamPeerSelection,
        UpstreamCallbackError,
    >)
        requires
            old(self).called(),
            old(self).original().get is Some,
            old(self).outcome() is NotCalled,
        ensures
            final(self).original() == old(self).original(),
            final(self).generation() == old(self).generation(),
            final(self).called(),
            final(self).outcome() == Self::outcome_of(status),
            if status == NGX_ERROR {
                result matches Ok(UpstreamPeerSelection::Error)
            } else if status == NGX_BUSY {
                result matches Ok(UpstreamPeerSelection::Busy)
            } else if status == NGX_DECLINED {
                result matches Ok(UpstreamPeerSelection::Declined)
            } else if Self::outcome_of(status) is Selected {
                match UpstreamPeerConnection::selectable(peer@, status) {
                    Ok(()) => {
                        &&& result matches Ok(UpstreamPeerSelection::Selected(selected))
                        &&& selected.status() == status
                        &&& selected.generation() == old(self).generation()
                    },
                    Err(error) => result matches Err(e) && e == error,
                }
            } else {
                result matches Err(e) && e == UpstreamCallbackError::InvalidOriginalGetStatus(status)
            },
    {
        if status == NGX_ERROR {
            self.outcome = OriginalPeerGetOutcome::Unselected;
            return Ok(UpstreamPeerSelection::Error);
        }
        if status == NGX_BUSY {
            self.outcome = OriginalPeerGetOutcome::Unselected;
            return Ok(UpstreamPeerSelection::Busy);
        }
        if status == NGX_DECLINED {
            self.outcome = OriginalPeerGetOutcome::Unselected;
            return Ok(UpstreamPeerSelection::Declined);
        }
        if status == NGX_OK || status == NGX_AGAIN || status == NGX_DONE {
            self.outcome = OriginalPeerGetOutcome::Selected;
            return match peer.selected(status, self.generation) {
                Ok(selected) => Ok(UpstreamPeerSelection::Selected(selected)),
                Err(error) => Err(error),
            };
        }
        self.outcome = OriginalPeerGetOutcome::Unselected;
        Err(UpstreamCallbackError::InvalidOriginalGetStatus(status))
    }
}

/// Which selections were made and whether the last one is still to be released.
#[derive(Clone, Copy, Debug, PartialEq, Eq, Structural)]
pub struct PeerSelectionState {
    /// Number of the last selection.
    pub generation: u64,
    /// The selection that has not been released.
    pub active_generation: Option<u64>,
}

impl PeerSelectionState {
    /// The number of the selection after this one; 0 is skipped.
    pub open spec fn next(self) -> u64 {
        if self.generation == u64::MAX {
            1
        } else {
            (self.generation + 1) as u64
        }
    }

    /// Whether no selected peer is still to be released.
    pub open spec fn can_begin(self) -> bool {
        self.active_generation is None
    }

    /// Whether a selected peer is still to be released.
    pub open spec fn can_release(self) -> bool {
        self.active_generation is Some
    }

    /// A state without selections.
    pub fn new() -> (result: Self)
        ensures
            result == (PeerSelectionState { generation: 0, active_generation: None }),
    {
        PeerSelectionState { generation: 0, active_generation: None }
    }

    /// The state once a selection has begun.
    pub open spec fn begun(self) -> PeerSelectionState {
        PeerSelectionState { generation: self.next(), ..self }
    }

    /// Begins a selection, unless a selected peer is still to be released.
    pub fn begin(&mut self) -> (result: Result<u64, UpstreamCallbackError>)
        ensures
            if old(self).active_generation is Some {
                &&& result == Err::<u64, UpstreamCallbackError>(
                    UpstreamCallbackError::PeerSelectionPendingRelease,
                )
                &&& *final(self) == *old(self)
            } else {
                &&& result == Ok::<u64, UpstreamCallbackError>(old(self).next())
                &&& *final(self) == old(self).begun()
            },
    {
        if self.active_generation.is_some() {
            return Err(UpstreamCallbackError::PeerSelectionPendingRelease);
        }
        if self.generation == u64::MAX {
            self.generation = 1;
        } else {
            self.generation = self.generation + 1;
        }
        Ok(self.generation)
    }

    /// Records that a selection ended with a peer.
    pub fn select(&mut self, generation: u64)
        ensures
            *final(self) == (PeerSelectionState {
                active_generation: Some(generation),
                ..*old(self)
            }),
    {
        self.active_generation = Some(generation);
    }

    /// Records that the selected peer was released.
    pub fn release(&mut self) -> (result: Result<(), UpstreamCallbackError>)
        ensures
            *final(self) == (PeerSelectionState { active_generation: None, ..*old(self) }),
            result == (if old(self).active_generation is Some {
                Ok::<(), UpstreamCallbackError>(())
            } else {
                Err::<(), UpstreamCallbackError>(UpstreamCallbackError::PeerReleaseWithoutSelection)
            }),
    {
        let selected = self.active_generation.is_some();
        self.active_generation = None;
        if selected {
            Ok(())
        } else {
            Err(UpstreamCallbackError::PeerReleaseWithoutSelection)
        }
    }
}

impl Default for PeerSelectionState {
    fn default() -> (result: Self)
        ensures
            result.generation == 0,
            result.active_generation is None,
    {
        PeerSelectionState::new()
    }
}

/// A selection never bears the number 0 nor that of the selection before it.
pub proof fn law_selections_are_numbered_anew(state: PeerSelectionState)
    ensures
        state.next() != 0,
        state.next() != state.generation,
        state.begun().generation == state.next(),
        state.begun().active_generation == state.active_generation,
{
}

/// Typed peer data that a request pool retains for a handler.
#[derive(Debug)]
pub struct HttpUpstreamPeerData<T> {
    pub magic: u64,
    /// Identity of the handler type.
    pub handler: usize,
    /// The peer connection that the data was installed for, by its address.
    pub peer: usize,
    pub value: T,
    pub original: OriginalPeerCallbacks,
    pub selection: PeerSelectionState,
}

/// What [`HttpUpstreamPeerData::complete_get`] decided.
#[derive(Clone, Copy, Debug, PartialEq, Eq)]
pub struct PeerGetDecision {
    /// The status for nginx, or what went wrong.
    pub result: Result<isize, UpstreamCallbackError>,
    /// The saved release callback to run with no state bits, because the handler did not keep the
    /// peer that the original selector selected.
    pub release: Option<PeerCall>,
}

impl<T> HttpUpstreamPeerData<T> {
    /// Peer data of a handler for a peer connection: it saves the callbacks that are there.
    pub open spec fn installed(handler: UpstreamHandler, peer: NativePeer, value: T) -> Self {
        HttpUpstreamPeerData {
            magic: PEER_DATA_MAGIC,
            handler: handler.id,
            peer: peer.address,
            value,
            original: OriginalPeerCallbacks::of(peer),
            selection: PeerSelectionState { generation: 0, active_generation: None },
        }
    }

    /// Peer data of a handler for a peer connection: it saves the callbacks that are there.
    pub fn new(handler: UpstreamHandler, peer: &NativePeer, value: T) -> (result: Self)
        ensures
            result == Self::installed(handler, *peer, value),
    {
        HttpUpstreamPeerData {
            magic: PEER_DATA_MAGIC,
            handler: handler.id,
            peer: peer.address,
            value,
            original: OriginalPeerCallbacks {
                get: peer.get,
                free: peer.free,
                notify: peer.notify,
                set_session: peer.set_session,
                save_session: peer.save_session,
                data: peer.data,
            },
            selection: PeerSelectionState::new(),
        }
    }

    /// Whether the data was installed by a handler for the peer connection at `peer`.
    pub open spec fn belongs(self, handler: UpstreamHandler, peer: usize) -> bool {
        self.magic == PEER_DATA_MAGIC && self.handler == handler.id && self.peer == peer
    }

    /// What is wrong with the data that nginx hands to a handler's callback, if anything.
    pub open spec fn refused(
        data: Pointer<HttpUpstreamPeerData<T>>,
        handler: UpstreamHandler,
        peer: usize,
    ) -> Option<UpstreamCallbackError> {
        match data {
            Pointer::Null => Some(UpstreamCallbackError::NullPeerData),
            Pointer::Misaligned => Some(UpstreamCallbackError::MisalignedPeerData),
            Pointer::To(value) => if value.belongs(handler, peer) {
                None
            } else {
                Some(UpstreamCallbackError::ForeignPeerData)
            },
        }
    }

    /// Begins a selection: the capability to invoke the saved selector for it.
    pub fn begin_get(&mut self) -> (result: Result<OriginalPeerGet, UpstreamCallbackError>)
        ensures
            if old(self).selection.active_generation is Some {
                &&& result matches Err(UpstreamCallbackError::PeerSelectionPendingRelease)
                &&& *final(self) == *old(self)
            } else {
                &&& *final(self) == (HttpUpstreamPeerData {
                    selection: old(self).selection.begun(),
                    ..*old(self)
                })
                &&& result matches Ok(original)
                &&& original.original() == old(self).original
                &&& original.generation() == old(self).selection.next()
                &&& original.outcome() is NotCalled
                &&& !original.called()
            },
    {
        match self.selection.begin() {
            Err(error) => Err(error),
            Ok(generation) => Ok(
                OriginalPeerGet {
                    original: self.original,
                    generation,
                    outcome: OriginalPeerGetOutcome::NotCalled,
                    called: false,
                },
            ),
        }
    }

    /// What a selection comes to, given what the original selector did and what the handler
    /// returned for it.
    pub open spec fn get_decision(
        self,
        outcome: OriginalPeerGetOutcome,
        generation: u64,
        returned: Result<UpstreamPeerSelection, UpstreamCallbackError>,
    ) -> PeerGetDecision {
        let release = if outcome is Selected {
            self.original.call_of(self.original.free)
        } else {
            None
        };
        match returned {
            Err(error) => PeerGetDecision { result: Err(error), release },
            Ok(UpstreamPeerSelection::Selected(selected)) => if outcome is Selected
                && selected.generation() == generation {
                PeerGetDecision { result: Ok(selected.status()), release: None }
            } else {
                PeerGetDecision { result: Err(UpstreamCallbackError::ForeignSelectedPeer), release }
            },
            Ok(selection) => if outcome is Selected {
                PeerGetDecision {
                    result: Err(UpstreamCallbackError::DiscardedOriginalPeerSelection),
                    release,
                }
            } else {
                PeerGetDecision { result: Ok(selection.code()), release: None }
            },
        }
    }

    /// Whether a selection ended with a peer of its own.
    pub open spec fn keeps(
        outcome: OriginalPeerGetOutcome,
        generation: u64,
        returned: Result<UpstreamPeerSelection, UpstreamCallbackError>,
    ) -> bool {
        &&& outcome is Selected
        &&& returned matches Ok(UpstreamPeerSelection::Selected(selected))
        &&& selected.generation() == generation
    }

    /// Ends a selection. A peer that the original selector selected is kept only when the handler
    /// returned that selection; otherwise it is to be released.
    pub fn complete_get(
        &mut self,
        outcome: OriginalPeerGetOutcome,
        generation: u64,
        returned: Result<UpstreamPeerSelection, UpstreamCallbackError>,
    ) -> (result: PeerGetDecision)
        ensures
            result == old(self).get_decision(outcome, generation, returned),
            (result.result is Ok && UpstreamPeerSelection::selects(result.result->Ok_0))
                == Self::keeps(outcome, generation, returned),
            *final(self) == (if Self::keeps(outcome, generation, returned) {
                HttpUpstreamPeerData {
                    selection: PeerSelectionState {
                        active_generation: Some(generation),
                        ..old(self).selection
                    },
                    ..*old(self)
                }
            } else {
                *old(self)
            }),
    {
        let chosen = match outcome {
            OriginalPeerGetOutcome::Selected => true,
            _ => false,
        };
        let release = if chosen {
            self.original.call_original(self.original.free)
        } else {
            None
        };
        match returned {
            Err(error) => PeerGetDecision { result: Err(error), release },
            Ok(UpstreamPeerSelection::Selected(selected)) => {
                proof {
                    use_type_invariant(&selected);
                }
                if chosen && selected.generation == generation {
                    self.selection.select(generation);
                    PeerGetDecision { result: Ok(selected.status), release: None }
                } else {
                    PeerGetDecision {
                        result: Err(UpstreamCallbackError::ForeignSelectedPeer),
                        release,
                    }
                }
            },
            Ok(selection) => {
                if chosen {
                    PeerGetDecision {
                        result: Err(UpstreamCallbackError::DiscardedOriginalPeerSelection),
                        release,
                    }
                } else {
                    PeerGetDecision { result: Ok(selection.status()), release: None }
                }
            },
        }
    }

    /// Begins a release: the saved release callback to run, when there is one.
    pub fn begin_free(&mut self) -> (result: Result<Option<PeerCall>, UpstreamCallbackError>)
        ensures
            *final(self) == (HttpUpstreamPeerData {
                selection: PeerSelectionState {
                    active_generation: None,
                    ..old(self).selection
                },
                ..*old(self)
            }),
            result == (if old(self).selection.active_generation is Some {
                Ok::<Option<PeerCall>, UpstreamCallbackError>(
                    old(self).original.call_of(old(self).original.free),
                )
            } else {
                Err::<Option<PeerCall>, UpstreamCallbackError>(
                    UpstreamCallbackError::PeerReleaseWithoutSelection,
                )
            }),
    {
        match self.selection.release() {
            Ok(()) => Ok(self.original.call_original(self.original.free)),
            Err(error) => Err(error),
        }
    }
}

/// While a selected peer is unreleased no selection begins and it can be released once; after
/// that the next selection can begin, with a number of its own.
pub proof fn law_selection_and_release_alternate(
    before: PeerSelectionState,
    kept: PeerSelectionState,
    released: PeerSelectionState,
)
    requires
        before.can_begin(),
        kept == (PeerSelectionState { active_generation: Some(before.next()), ..before.begun() }),
        released == (PeerSelectionState { active_generation: None, ..kept }),
    ensures
        !kept.can_begin(),
        kept.can_release(),
        released.can_begin(),
        !released.can_release(),
        released.next() != before.next(),
{
}

impl NativePeer {
    /// The peer connection once a handler's callbacks stand in for those it had.
    pub open spec fn installed(self, handler: UpstreamHandler, data: usize) -> NativePeer {
        NativePeer {
            data,
            get: Some(handler.get_peer),
            free: Some(handler.free_peer),
            notify: if self.notify is Some {
                Some(handler.notify_peer)
            } else {
                None
            },
            set_session: if self.set_session is Some {
                Some(handler.set_session)
            } else {
                None
            },
            save_session: if self.save_session is Some {
                Some(handler.save_session)
            } else {
                None
            },
            ..self
        }
    }

    /// Lets a handler's callbacks stand in for those of the peer connection.
    pub fn install(&mut self, handler: UpstreamHandler, data: usize)
        ensures
            *final(self) == old(self).installed(handler, data),
    {
        self.data = data;
        self.get = Some(handler.get_peer);
        self.free = Some(handler.free_peer);
        if self.notify.is_some() {
            self.notify = Some(handler.notify_peer);
        }
        if self.set_session.is_some() {
            self.set_session = Some(handler.set_session);
        }
        if self.save_session.is_some() {
            self.save_session = Some(handler.save_session);
        }
    }
}

/// Installed data is accepted by the handler that installed it, for its own peer connection, and
/// by no other; and what is delegated afterwards is what the peer connection had before.
pub proof fn law_installed_data_belongs_to_its_handler<T>(
    handler: UpstreamHandler,
    peer: NativePeer,
    value: T,
    other: UpstreamHandler,
    address: usize,
)
    ensures
        ({
            let data = HttpUpstreamPeerData::installed(handler, peer, value);
            &&& HttpUpstreamPeerData::refused(Pointer::To(data), handler, peer.address) is None
            &&& HttpUpstreamPeerData::refused(Pointer::To(data), other, address) is None ==> {
                &&& other.id == handler.id
                &&& address == peer.address
            }
            &&& data.original == OriginalPeerCallbacks::of(peer)
            &&& data.selection.can_begin()
            &&& !data.selection.can_release()
        }),
{
}

/// The typed data that nginx handed to a handler's callback.
fn peer_data<'a, T>(
    peer: &UpstreamPeerConnection,
    data: &'a Pointer<HttpUpstreamPeerData<T>>,
    handler: UpstreamHandler,
) -> (result: Result<&'a HttpUpstreamPeerData<T>, UpstreamCallbackError>)
    ensures
        match HttpUpstreamPeerData::refused(*data, handler, peer@.address) {
            Some(error) => result matches Err(e) && e == error,
            None => result matches Ok(value) && *data == Pointer::To(*value),
        },
{
    match data {
        Pointer::Null => Err(UpstreamCallbackError::NullPeerData),
        Pointer::Misaligned => Err(UpstreamCallbackError::MisalignedPeerData),
        Pointer::To(value) => {
            if value.magic != PEER_DATA_MAGIC || value.handler != handler.id || value.peer
                != peer.raw.address {
                return Err(UpstreamCallbackError::ForeignPeerData);
            }
            Ok(value)
        },
    }
}

/// How a peer selection ended.
#[derive(Clone, Copy, Debug, PartialEq, Eq, Structural)]
pub struct PeerGetOutcome {
    /// The status that nginx gets.
    pub status: isize,
    /// The failure to log, when there is one and the peer connection has a logger.
    pub record: Option<UpstreamLogRecord>,
    /// The saved release callback to run with no state bits first.
    pub release: Option<PeerCall>,
}

impl PeerGetOutcome {
    /// How a selection ends that failed with `error`.
    pub open spec fn failed(
        peer: NativePeer,
        error: UpstreamCallbackError,
        release: Option<PeerCall>,
    ) -> PeerGetOutcome {
        PeerGetOutcome {
            status: NGX_ERROR,
            record: UpstreamPeerConnection::record(peer, UpstreamAction::PeerSelection, error),
            release,
        }
    }

    /// What a decision about a selection comes to.
    pub open spec fn decided(peer: NativePeer, decision: PeerGetDecision) -> PeerGetOutcome {
        match decision.result {
            Ok(status) => PeerGetOutcome { status, record: None, release: decision.release },
            Err(error) => Self::failed(peer, error, decision.release),
        }
    }

    /// What a decision about a selection comes to.
    pub fn of(peer: &UpstreamPeerConnection, decision: PeerGetDecision) -> (result: Self)
        ensures
            result == Self::decided(peer@, decision),
    {
        match decision.result {
            Ok(status) => PeerGetOutcome { status, record: None, release: decision.release },
            Err(error) => PeerGetOutcome {
                status: NGX_ERROR,
                record: peer.log_failure(UpstreamAction::PeerSelection, error),
                release: decision.release,
            },
        }
    }
}

/// The adapter that nginx calls to select a peer.
///
/// Nginx gets the status of a selected peer exactly when the selection is recorded as unreleased.
/// The handler gets the peer connection and its data as they are and the saved selector; what nginx
/// gets is decided by what the handler returned and what the saved selector did.
pub fn raw_get_peer<H: HttpUpstreamPeerHandler>(
    peer: &mut Pointer<NativePeer>,
    data: &mut Pointer<HttpUpstreamPeerData<H::Data>>,
    handler: UpstreamHandler,
) -> (result: PeerGetOutcome)
    ensures
        match UpstreamPeerConnection::checked(*old(peer)) {
            Err(_) => {
                &&& result == (PeerGetOutcome { status: NGX_ERROR, record: None, release: None })
                &&& *final(peer) == *old(peer)
                &&& *final(data) == *old(data)
            },
            Ok(value) => match HttpUpstreamPeerData::refused(*old(data), handler, value.address) {
                Some(error) => {
                    &&& result == PeerGetOutcome::failed(value, error, None)
                    &&& *final(peer) == *old(peer)
                    &&& *final(data) == *old(data)
                },
                None => {
                    let before = old(data)->To_0;
                    let after = final(data)->To_0;
                    if before.selection.can_begin() {
                        &&& *final(peer) is To
                        &&& *final(data) is To
                        &&& after == (HttpUpstreamPeerData {
                            value: after.value,
                            selection: after.selection,
                            ..before
                        })
                        &&& after.selection.generation == before.selection.next()
                        &&& after.selection.active_generation == (
                        if UpstreamPeerSelection::selects(result.status) {
                            Some(before.selection.next())
                        } else {
                            None
                        })
                        &&& result.release is Some ==> {
                            &&& result.status == NGX_ERROR
                            &&& result.release == before.original.call_of(before.original.free)
                        }
                        &&& exists|
                            chosen: &mut NativePeer,
                            kept: &mut H::Data,
                            original: &mut OriginalPeerGet,
                            returned: Result<UpstreamPeerSelection, UpstreamCallbackError>,
                        |
                            {
                                &&& #[trigger] call_ensures(
                                    H::get,
                                    (chosen, kept, original),
                                    returned,
                                )
                                &&& *chosen == value && *final(peer) == Pointer::To(*final(chosen))
                                &&& *kept == before.value && *final(kept) == after.value
                                &&& original.original() == before.original
                                &&& original.generation() == before.selection.next()
                                &&& original.outcome() is NotCalled && !original.called()
                                &&& result == PeerGetOutcome::decided(
                                    *final(chosen),
                                    before.get_decision(
                                        final(original).outcome(),
                                        before.selection.next(),
                                        returned,
                                    ),
                                )
                            }
                    } else {
                        &&& result == PeerGetOutcome::failed(
                            value,
                            UpstreamCallbackError::PeerSelectionPendingRelease,
                            None,
                        )
                        &&& *final(peer) == *old(peer)
                        &&& *final(data) == *old(data)
                    }
                },
            },
        },
{
    let raw = match peer {
        Pointer::To(raw) => raw,
        _ => return PeerGetOutcome { status: NGX_ERROR, record: None, release: None },
    };
    match peer_data(&UpstreamPeerConnection::of(raw), data, handler) {
        Ok(_) => {},
        Err(error) => {
            let decision = PeerGetDecision { result: Err(error), release: None };
            return PeerGetOutcome::of(&UpstreamPeerConnection::of(raw), decision);
        },
    }
    let typed = match data {
        Pointer::To(typed) => typed,
        _ => return PeerGetOutcome { status: NGX_ERROR, record: None, release: None },
    };
    let mut original = match typed.begin_get() {
        Ok(original) => original,
        Err(error) => {
            let decision = PeerGetDecision { result: Err(error), release: None };
            return PeerGetOutcome::of(&UpstreamPeerConnection::of(raw), decision);
        },
    };
    let generation: u64 = original.generation;
    let returned = H::get(raw, &mut typed.value, &mut original);
    let decision = typed.complete_get(original.outcome, generation, returned);
    PeerGetOutcome::of(&UpstreamPeerConnection::of(raw), decision)
}

/// A release that nginx asked for.
#[derive(Clone, Copy, Debug, PartialEq, Eq, Structural)]
pub enum PeerFreeBegin {
    /// The release was refused, with the failure to log.
    Refused(Option<UpstreamLogRecord>),
    /// The saved release callback is to run with these state bits, when there is one; then the
    /// handler observes the release.
    Run { call: Option<PeerCall>, state: UpstreamPeerState },
}

/// The adapter that nginx calls to release a peer.
///
/// Only a selected peer is released, and each selected peer only once.
pub fn raw_free_peer<T>(
    peer: &Pointer<NativePeer>,
    data: &mut Pointer<HttpUpstreamPeerData<T>>,
    state: usize,
    handler: UpstreamHandler,
) -> (result: PeerFreeBegin)
    ensures
        match UpstreamPeerConnection::checked(*peer) {
            Err(_) => {
                &&& result == PeerFreeBegin::Refused(None)
                &&& *final(data) == *old(data)
            },
            Ok(value) => match HttpUpstreamPeerData::refused(*old(data), handler, value.address) {
                Some(error) => {
                    &&& result == PeerFreeBegin::Refused(
                        UpstreamPeerConnection::record(value, UpstreamAction::PeerRelease, error),
                    )
                    &&& *final(data) == *old(data)
                },
                None => {
                    let before = old(data)->To_0;
                    &&& *final(data) == Pointer::To(
                        HttpUpstreamPeerData {
                            selection: PeerSelectionState {
                                active_generation: None,
                                ..before.selection
                            },
                            ..before
                        },
                    )
                    &&& result == (if before.selection.can_release() {
                        PeerFreeBegin::Run {
                            call: before.original.call_of(before.original.free),
                            state: UpstreamPeerState(state),
                        }
                    } else {
                        PeerFreeBegin::Refused(
                            UpstreamPeerConnection::record(
                                value,
                                UpstreamAction::PeerRelease,
                                UpstreamCallbackError::PeerReleaseWithoutSelection,
                            ),
                        )
                    })
                },
            },
        },
{
    let connection = match UpstreamPeerConnection::from_raw(peer) {
        Ok(connection) => connection,
        Err(_) => return PeerFreeBegin::Refused(None),
    };
    match peer_data(&connection, data, handler) {
        Ok(_) => {},
        Err(error) => {
            return PeerFreeBegin::Refused(
                connection.log_failure(UpstreamAction::PeerRelease, error),
            );
        },
    }
    match data {
        Pointer::To(typed) => match typed.begin_free() {
            Ok(call) => PeerFreeBegin::Run { call, state: UpstreamPeerState(state) },
            Err(error) => PeerFreeBegin::Refused(
                connection.log_failure(UpstreamAction::PeerRelease, error),
            ),
        },
        _ => PeerFreeBegin::Refused(None),
    }
}

/// The record that a handler's result on a release comes to.
pub fn peer_free_record(
    peer: &UpstreamPeerConnection,
    returned: Result<(), UpstreamCallbackError>,
) -> (result: Option<UpstreamLogRecord>)
    ensures
        result == (match returned {
            Ok(()) => None,
            Err(error) => UpstreamPeerConnection::record(peer@, UpstreamAction::PeerRelease, error),
        }),
{
    match returned {
        Ok(()) => None,
        Err(error) => peer.log_failure(UpstreamAction::PeerRelease, error),
    }
}

/// Lets the handler observe a release whose saved callback has run: the failure to log.
///
/// The handler gets the peer connection, its own data and the state bits as they are. What comes
/// out is the record of what it returned.
pub fn observe_free_peer<H: HttpUpstreamPeerHandler>(
    peer: &mut NativePeer,
    data: &mut HttpUpstreamPeerData<H::Data>,
    state: UpstreamPeerState,
) -> (result: Option<UpstreamLogRecord>)
    ensures
        *final(data) == (HttpUpstreamPeerData { value: final(data).value, ..*old(data) }),
        exists|
            released: &mut NativePeer,
            value: &mut H::Data,
            returned: Result<(), UpstreamCallbackError>,
        |
            {
                &&& #[trigger] call_ensures(H::free, (released, value, state), returned)
                &&& *released == *old(peer) && *final(released) == *final(peer)
                &&& *value == old(data).value && *final(value) == final(data).value
                &&& result == (match returned {
                    Ok(()) => None,
                    Err(error) => UpstreamPeerConnection::record(
                        *final(peer),
                        UpstreamAction::PeerRelease,
                        error,
                    ),
                })
            },
{
    let returned = H::free(peer, &mut data.value, state);
    peer_free_record(&UpstreamPeerConnection::of(peer), returned)
}

/// A saved peer callback to run, or the failure to log.
#[derive(Clone, Copy, Debug, PartialEq, Eq, Structural)]
pub struct PeerDelegation {
    pub call: Option<PeerCall>,
    pub record: Option<UpstreamLogRecord>,
}

impl PeerDelegation {
    /// What delegating a callback comes to. `pick` is the saved callback of valid data.
    pub open spec fn of<T>(
        peer: Pointer<NativePeer>,
        data: Pointer<HttpUpstreamPeerData<T>>,
        handler: UpstreamHandler,
        action: UpstreamAction,
        pick: Option<usize>,
    ) -> PeerDelegation {
        match UpstreamPeerConnection::checked(peer) {
            Err(_) => PeerDelegation { call: None, record: None },
            Ok(value) => match HttpUpstreamPeerData::refused(data, handler, value.address) {
                Some(error) => PeerDelegation {
                    call: None,
                    record: UpstreamPeerConnection::record(value, action, error),
                },
                None => PeerDelegation {
                    call: data->To_0.original.call_of(pick),
                    record: None,
                },
            },
        }
    }
}

/// The adapter that nginx calls to notify a peer: the saved callback runs with the type that nginx
/// passed.
pub fn raw_notify_peer<T>(
    peer: &Pointer<NativePeer>,
    data: &Pointer<HttpUpstreamPeerData<T>>,
    handler: UpstreamHandler,
) -> (result: PeerDelegation)
    ensures
        result == PeerDelegation::of(
            *peer,
            *data,
            handler,
            UpstreamAction::PeerNotification,
            data->To_0.original.notify,
        ),
{
    let connection = match UpstreamPeerConnection::from_raw(peer) {
        Ok(connection) => connection,
        Err(_) => return PeerDelegation { call: None, record: None },
    };
    match peer_data(&connection, data, handler) {
        Ok(typed) => PeerDelegation {
            call: typed.original.call_original(typed.original.notify),
            record: None,
        },
        Err(error) => PeerDelegation {
            call: None,
            record: connection.log_failure(UpstreamAction::PeerNotification, error),
        },
    }
}

/// The adapter that nginx calls to look up a session. Without a saved callback to run, nginx gets
/// an error.
pub fn raw_set_session<T>(
    peer: &Pointer<NativePeer>,
    data: &Pointer<HttpUpstreamPeerData<T>>,
    handler: UpstreamHandler,
) -> (result: PeerDelegation)
    ensures
        result == PeerDelegation::of(
            *peer,
            *data,
            handler,
            UpstreamAction::PeerSessionLookup,
            data->To_0.original.set_session,
        ),
{
    let connection = match UpstreamPeerConnection::from_raw(peer) {
        Ok(connection) => connection,
        Err(_) => return PeerDelegation { call: None, record: None },
    };
    match peer_data(&connection, data, handler) {
        Ok(typed) => PeerDelegation {
            call: typed.original.call_original(typed.original.set_session),
            record: None,
        },
        Err(error) => PeerDelegation {
            call: None,
            record: connection.log_failure(UpstreamAction::PeerSessionLookup, error),
        },
    }
}

/// The status of a session lookup, given what the saved callback returned if it ran.
pub fn set_session_status(answer: Option<isize>) -> (result: isize)
    ensures
        result == (match answer {
            Some(status) => status,
            None => NGX_ERROR,
        }),
{
    match answer {
        Some(status) => status,
        None => NGX_ERROR,
    }
}

/// The adapter that nginx calls to save a session.
pub fn raw_save_session<T>(
    peer: &Pointer<NativePeer>,
    data: &Pointer<HttpUpstreamPeerData<T>>,
    handler: UpstreamHandler,
) -> (result: PeerDelegation)
    ensures
        result == PeerDelegation::of(
            *peer,
            *data,
            handler,
            UpstreamAction::PeerSessionSave,
            data->To_0.original.save_session,
        ),
{
    let connection = match UpstreamPeerConnection::from_raw(peer) {
        Ok(connection) => connection,
        Err(_) => return PeerDelegation { call: None, record: None },
    };
    match peer_data(&connection, data, handler) {
        Ok(typed) => PeerDelegation {
            call: typed.original.call_original(typed.original.save_session),
            record: None,
        },
        Err(error) => PeerDelegation {
            call: None,
            record: connection.log_failure(UpstreamAction::PeerSessionSave, error),
        },
    }
}

} // verus!
