//! Upstream peers: selection, release and the callbacks that a handler stands in for.

use vstd::prelude::*;

use crate::native::Pointer;
use crate::upstream::callback::{
    HttpUpstreamPeerHandler, UpstreamAction, UpstreamCallbackError, UpstreamHandler,
    UpstreamLogRecord,
};
use crate::upstream::peer::{
    observe_free_peer, peer_free_record, raw_free_peer, raw_get_peer, raw_notify_peer,
    raw_save_session, raw_set_session, set_session_status, HttpUpstreamPeerData, NativePeer,
    OriginalPeerGet, OriginalPeerGetOutcome, PeerCall, PeerDelegation, PeerFreeBegin,
    PeerGetDecision, PeerGetOutcome, PeerSelectionState, UpstreamPeerConnection,
    UpstreamPeerSelection, UpstreamPeerState,
};

verus! {

/// Whether a native selector's status says that it selected a peer: a new one, one that is still
/// connecting, or one that is reused.
pub open spec fn picks(status: isize) -> bool {
    status == 0 || status == -2 || status == -4
}

/// When the handler returns the selection that the saved selector made for the running selection,
/// nginx gets the status that the saved selector returned, and the peer stays selected. So the
/// three statuses of a selected peer stay apart.
pub proof fn law_kept_selections_keep_their_status<T>()
    ensures
        forall|
            original: &mut OriginalPeerGet,
            peer: &UpstreamPeerConnection,
            status: isize,
            found: Result<UpstreamPeerSelection, UpstreamCallbackError>,
            data: &mut HttpUpstreamPeerData<T>,
            outcome: OriginalPeerGetOutcome,
            generation: u64,
            decision: PeerGetDecision,
        |
            #![trigger call_ensures(OriginalPeerGet::finish, (original, peer, status), found),
                call_ensures(HttpUpstreamPeerData::<T>::complete_get, (data, outcome, generation, found), decision)]
            call_ensures(OriginalPeerGet::finish, (original, peer, status), found) && call_ensures(
                HttpUpstreamPeerData::<T>::complete_get,
                (data, outcome, generation, found),
                decision,
            ) && outcome == final(original).outcome() && generation == original.generation()
                && picks(status) && found is Ok ==> {
                &&& decision.result == Ok::<isize, UpstreamCallbackError>(status)
                &&& decision.release is None
                &&& final(data).selection.active_generation == Some(generation)
                &&& final(data).selection.generation == data.selection.generation
                &&& final(data).value == data.value && final(data).original == data.original
            },
        forall|
            first: &mut HttpUpstreamPeerData<T>,
            second: &mut HttpUpstreamPeerData<T>,
            generation: u64,
            one: UpstreamPeerSelection,
            other: UpstreamPeerSelection,
            decided_one: PeerGetDecision,
            decided_other: PeerGetDecision,
        |
            #![trigger call_ensures(HttpUpstreamPeerData::<T>::complete_get, (first, OriginalPeerGetOutcome::Selected, generation, Ok(one)), decided_one),
                call_ensures(HttpUpstreamPeerData::<T>::complete_get, (second, OriginalPeerGetOutcome::Selected, generation, Ok(other)), decided_other)]
            call_ensures(
                HttpUpstreamPeerData::<T>::complete_get,
                (first, OriginalPeerGetOutcome::Selected, generation, Ok(one)),
                decided_one,
            ) && call_ensures(
                HttpUpstreamPeerData::<T>::complete_get,
                (second, OriginalPeerGetOutcome::Selected, generation, Ok(other)),
                decided_other,
            ) && one is Selected && other is Selected && one->Selected_0.generation() == generation
                && other->Selected_0.generation() == generation ==> {
                &&& decided_one.result is Ok && decided_other.result is Ok
                &&& decided_one.result == decided_other.result <==> one->Selected_0.status()
                    == other->Selected_0.status()
            },
{
}

/// A peer that the saved selector selected is kept or released, never both nor neither: it is
/// released with the saved release callback and its own argument exactly if the handler did not
/// return that selection. Without such a peer nothing is released, and nginx gets the status that
/// the handler's answer stands for.
pub proof fn law_unkept_selections_are_released<T>()
    ensures
        forall|
            data: &mut HttpUpstreamPeerData<T>,
            outcome: OriginalPeerGetOutcome,
            generation: u64,
            returned: Result<UpstreamPeerSelection, UpstreamCallbackError>,
            decision: PeerGetDecision,
        |
            #![trigger call_ensures(HttpUpstreamPeerData::<T>::complete_get, (data, outcome, generation, returned), decision)]
            call_ensures(
                HttpUpstreamPeerData::<T>::complete_get,
                (data, outcome, generation, returned),
                decision,
            ) ==> {
                let kept = returned is Ok && returned->Ok_0 is Selected
                    && returned->Ok_0->Selected_0.generation() == generation
                    && outcome is Selected;
                &&& decision.release is Some <==> outcome is Selected && !kept
                    && data.original.free is Some
                &&& decision.release matches Some(call) ==> call.callback
                    == data.original.free->Some_0 && call.data == data.original.data
                &&& kept ==> decision.result is Ok && picks_kept(*data, *final(data), generation)
                &&& !kept ==> *final(data) == *data
                &&& outcome is Selected && !kept ==> decision.result is Err
                &&& returned matches Err(error) ==> decision.result == Err::<
                    isize,
                    UpstreamCallbackError,
                >(error)
                &&& returned is Ok && returned->Ok_0 is Selected && !kept ==> decision.result
                    == Err::<isize, UpstreamCallbackError>(
                    UpstreamCallbackError::ForeignSelectedPeer,
                )
                &&& outcome is Selected && returned is Ok && !(returned->Ok_0 is Selected)
                    ==> decision.result == Err::<isize, UpstreamCallbackError>(
                    UpstreamCallbackError::DiscardedOriginalPeerSelection,
                )
                &&& !(outcome is Selected) && returned is Ok ==> {
                    &&& returned->Ok_0 is Error ==> decision.result == Ok::<
                        isize,
                        UpstreamCallbackError,
                    >((-1) as isize)
                    &&& returned->Ok_0 is Busy ==> decision.result == Ok::<
                        isize,
                        UpstreamCallbackError,
                    >((-3) as isize)
                    &&& returned->Ok_0 is Declined ==> decision.result == Ok::<
                        isize,
                        UpstreamCallbackError,
                    >((-5) as isize)
                }
            },
{
}

/// Whether `after` is `before` with the selection `generation` still to be released.
pub open spec fn picks_kept<T>(
    before: HttpUpstreamPeerData<T>,
    after: HttpUpstreamPeerData<T>,
    generation: u64,
) -> bool {
    &&& after.selection.active_generation == Some(generation)
    &&& after.selection.generation == before.selection.generation
    &&& after.magic == before.magic
    &&& after.handler == before.handler
    &&& after.peer == before.peer
    &&& after.value == before.value
    &&& after.original == before.original
}

/// Each kind of selection has a native status of its own.
pub proof fn law_selections_have_their_status(selection: UpstreamPeerSelection)
    ensures
        forall|status: isize| #[trigger]
            call_ensures(UpstreamPeerSelection::status, (&selection,), status) ==> {
                &&& selection is Error ==> status == -1
                &&& selection is Busy ==> status == -3
                &&& selection is Declined ==> status == -5
                &&& selection matches UpstreamPeerSelection::Selected(selected) ==> status
                    == selected.status()
            },
{
}

/// What the saved selector returned is taken over as it is: a failure as that failure, a selected
/// peer with its status and under the running selection, provided that the peer connection has a
/// name and what its status says that it has: an address for a new peer, a connection otherwise.
pub proof fn law_saved_selectors_are_believed_as_far_as_they_show()
    ensures
        forall|
            original: &mut OriginalPeerGet,
            peer: &UpstreamPeerConnection,
            status: isize,
            found: Result<UpstreamPeerSelection, UpstreamCallbackError>,
        | #[trigger]
            call_ensures(OriginalPeerGet::finish, (original, peer, status), found) ==> {
                let named = peer@.name != 0 && peer@.name % 8 == 0;
                let addressed = peer@.sockaddr != 0 && peer@.sockaddr % 2 == 0;
                let connected = peer@.connection != 0 && peer@.connection % 8 == 0;
                let whole = named && (if status == 0 {
                    addressed
                } else {
                    connected
                });
                &&& status == -1 <==> found is Ok && found->Ok_0 is Error
                &&& status == -3 <==> found is Ok && found->Ok_0 is Busy
                &&& status == -5 <==> found is Ok && found->Ok_0 is Declined
                &&& picks(status) && whole <==> found is Ok && found->Ok_0 is Selected
                &&& found is Ok && found->Ok_0 is Selected ==> {
                    &&& found->Ok_0->Selected_0.status() == status
                    &&& found->Ok_0->Selected_0.generation() == original.generation()
                }
                &&& final(original).outcome() is Selected <==> picks(status)
                &&& final(original).outcome() is Unselected <==> !picks(status)
                &&& final(original).generation() == original.generation()
                &&& final(original).original() == original.original()
                &&& final(original).called()
                &&& found matches Err(error) ==> {
                    &&& !picks(status) ==> error == UpstreamCallbackError::InvalidOriginalGetStatus(
                        status,
                    )
                    &&& picks(status) && peer@.name == 0 ==> error
                        == UpstreamCallbackError::MissingSelectedPeerName
                    &&& picks(status) && peer@.name % 8 != 0 ==> error
                        == UpstreamCallbackError::MisalignedSelectedPeerName
                    &&& status == 0 && named && peer@.sockaddr == 0 ==> error
                        == UpstreamCallbackError::MissingSelectedPeerAddress
                    &&& status == 0 && named && peer@.sockaddr % 2 != 0 ==> error
                        == UpstreamCallbackError::MisalignedSelectedPeerAddress
                    &&& status != 0 && picks(status) && named && peer@.connection == 0 ==> error
                        == UpstreamCallbackError::MissingSelectedPeerConnection
                    &&& status != 0 && picks(status) && named && peer@.connection % 8 != 0
                        ==> error == UpstreamCallbackError::MisalignedSelectedPeerConnection
                }
            },
{
}

/// The saved selector is called with its own argument, and the call uses up the capability
/// whether or not there is a saved selector.
pub proof fn law_saved_selectors_are_called_once()
    ensures
        forall|original: &mut OriginalPeerGet, result: Result<PeerCall, UpstreamCallbackError>|
         #[trigger]
            call_ensures(OriginalPeerGet::call, (original,), result) ==> {
                &&& final(original).called()
                &&& final(original).generation() == original.generation()
                &&& final(original).outcome() == original.outcome()
                &&& final(original).original() == original.original()
                &&& result is Ok <==> original.original().get is Some
                &&& result matches Ok(call) ==> Some(call.callback) == original.original().get
                    && call.data == original.original().data
                &&& result matches Err(error) ==> error
                    == UpstreamCallbackError::MissingOriginalGetPeer
            },
        forall|original: &mut OriginalPeerGet| #[trigger]
            call_requires(OriginalPeerGet::call, (original,)) <== !original.called(),
{
}

/// A selection begins exactly if no selected peer is still to be released. Its number is the one
/// after that of the selection before, but for 0, which no selection bears. Releasing ends the
/// selection that was recorded, and only once.
pub proof fn law_selections_begin_and_end()
    ensures
        forall|state: &mut PeerSelectionState, result: Result<u64, UpstreamCallbackError>| #[trigger]
            call_ensures(PeerSelectionState::begin, (state,), result) ==> {
                &&& result is Ok <==> state.active_generation is None
                &&& final(state).active_generation == state.active_generation
                &&& result matches Ok(number) ==> {
                    &&& final(state).generation == number
                    &&& number != 0
                    &&& number == state.generation + 1 || number == 1 && state.generation
                        == 0xffff_ffff_ffff_ffff
                }
                &&& result matches Err(error) ==> final(state).generation == state.generation
                    && error == UpstreamCallbackError::PeerSelectionPendingRelease
            },
        forall|state: &mut PeerSelectionState, generation: u64, result: ()| #[trigger]
            call_ensures(PeerSelectionState::select, (state, generation), result) ==> {
                &&& final(state).active_generation == Some(generation)
                &&& final(state).generation == state.generation
            },
        forall|state: &mut PeerSelectionState, result: Result<(), UpstreamCallbackError>| #[trigger]
            call_ensures(PeerSelectionState::release, (state,), result) ==> {
                &&& result is Ok <==> state.active_generation is Some
                &&& final(state).active_generation is None
                &&& final(state).generation == state.generation
                &&& result matches Err(error) ==> error
                    == UpstreamCallbackError::PeerReleaseWithoutSelection
            },
        forall|state: PeerSelectionState| #[trigger]
            call_ensures(PeerSelectionState::new, (), state) ==> state.generation == 0
                && state.active_generation is None,
{
}

/// After a selection that began, ended with a kept peer and was released, another can begin; while
/// the peer is kept none can.
pub proof fn law_selections_take_turns<T>()
    ensures
        forall|
            data: &mut HttpUpstreamPeerData<T>,
            result: Result<OriginalPeerGet, UpstreamCallbackError>,
        | #[trigger]
            call_ensures(HttpUpstreamPeerData::<T>::begin_get, (data,), result) ==> {
                &&& result is Ok <==> data.selection.active_generation is None
                &&& final(data).value == data.value && final(data).original == data.original
                &&& final(data).magic == data.magic && final(data).handler == data.handler
                &&& final(data).peer == data.peer
                &&& final(data).selection.active_generation == data.selection.active_generation
                &&& result matches Ok(original) ==> {
                    &&& original.generation() == final(data).selection.generation
                    &&& original.generation() != data.selection.generation
                    &&& original.generation() != 0
                    &&& original.original() == data.original
                    &&& original.outcome() is NotCalled
                    &&& !original.called()
                }
                &&& result matches Err(error) ==> final(data).selection.generation
                    == data.selection.generation && error
                    == UpstreamCallbackError::PeerSelectionPendingRelease
            },
        forall|
            data: &mut HttpUpstreamPeerData<T>,
            result: Result<Option<PeerCall>, UpstreamCallbackError>,
        | #[trigger]
            call_ensures(HttpUpstreamPeerData::<T>::begin_free, (data,), result) ==> {
                &&& result is Ok <==> data.selection.active_generation is Some
                &&& result matches Err(error) ==> error
                    == UpstreamCallbackError::PeerReleaseWithoutSelection
                &&& result matches Ok(Some(call)) ==> Some(call.callback) == data.original.free
                    && call.data == data.original.data
                &&& result matches Ok(None) ==> data.original.free is None
                &&& final(data).selection.active_generation is None
                &&& final(data).selection.generation == data.selection.generation
                &&& final(data).value == data.value && final(data).original == data.original
                &&& final(data).magic == data.magic && final(data).handler == data.handler
                &&& final(data).peer == data.peer
            },
{
}

/// Whether peer data was installed by `handler` for the peer connection at `peer`.
pub open spec fn installed_by<T>(
    data: HttpUpstreamPeerData<T>,
    handler: UpstreamHandler,
    peer: usize,
) -> bool {
    data.magic == 0x7d5a_1bc8_9e34_f602 && data.handler == handler.id && data.peer == peer
}

/// New peer data bears its handler and its peer connection and saves every callback that the peer
/// connection has, each under its own name. Installing replaces the callbacks that nginx had, adds
/// a getter and a releaser, and leaves the rest of the peer connection alone.
pub proof fn law_installation_saves_what_it_replaces<T>()
    ensures
        forall|
            handler: UpstreamHandler,
            peer: &NativePeer,
            value: T,
            result: HttpUpstreamPeerData<T>,
        |
            #![trigger call_ensures(HttpUpstreamPeerData::<T>::new, (handler, peer, value), result)]
            call_ensures(HttpUpstreamPeerData::<T>::new, (handler, peer, value), result) ==> {
                &&& installed_by(result, handler, peer.address)
                &&& result.value == value
                &&& result.original.get == peer.get
                &&& result.original.free == peer.free
                &&& result.original.notify == peer.notify
                &&& result.original.set_session == peer.set_session
                &&& result.original.save_session == peer.save_session
                &&& result.original.data == peer.data
                &&& result.selection.active_generation is None
                &&& result.selection.generation == 0
            },
        forall|peer: &mut NativePeer, handler: UpstreamHandler, data: usize, result: ()| #[trigger]
            call_ensures(NativePeer::install, (peer, handler, data), result) ==> {
                &&& final(peer).get == Some(handler.get_peer)
                &&& final(peer).free == Some(handler.free_peer)
                &&& final(peer).notify is Some <==> peer.notify is Some
                &&& final(peer).notify matches Some(notify) ==> notify == handler.notify_peer
                &&& final(peer).set_session is Some <==> peer.set_session is Some
                &&& final(peer).set_session matches Some(set) ==> set == handler.set_session
                &&& final(peer).save_session is Some <==> peer.save_session is Some
                &&& final(peer).save_session matches Some(save) ==> save == handler.save_session
                &&& final(peer).data == data
                &&& final(peer).address == peer.address
                &&& final(peer).name == peer.name
                &&& final(peer).sockaddr == peer.sockaddr
                &&& final(peer).connection == peer.connection
                &&& final(peer).tries == peer.tries
                &&& final(peer).log == peer.log
            },
{
}

/// Whether `record` reports `error` to the peer connection's logger, when it has one.
pub open spec fn reported(
    record: Option<UpstreamLogRecord>,
    peer: NativePeer,
    action: UpstreamAction,
    error: UpstreamCallbackError,
) -> bool {
    &&& record is Some <==> peer.log != 0 && peer.log % 8 == 0
    &&& record matches Some(value) ==> value.level == 4 && value.log == peer.log && value.action
        == action && value.error == error
}

/// Whether the data that nginx hands to a callback is refused with `error`.
pub open spec fn data_refused<T>(
    data: Pointer<HttpUpstreamPeerData<T>>,
    handler: UpstreamHandler,
    peer: usize,
    error: UpstreamCallbackError,
) -> bool {
    match data {
        Pointer::Null => error == UpstreamCallbackError::NullPeerData,
        Pointer::Misaligned => error == UpstreamCallbackError::MisalignedPeerData,
        Pointer::To(value) => !installed_by(value, handler, peer) && error
            == UpstreamCallbackError::ForeignPeerData,
    }
}

/// Views of a peer connection exist exactly of those that can be read, and show them as they are.
pub proof fn law_peer_views_show_the_peer(peer: Pointer<NativePeer>, raw: NativePeer)
    ensures
        forall|result: Result<UpstreamPeerConnection, UpstreamCallbackError>| #[trigger]
            call_ensures(UpstreamPeerConnection::from_raw, (&peer,), result) ==> {
                &&& result is Ok <==> peer is To
                &&& result matches Ok(view) ==> peer == Pointer::To(view@)
                &&& peer is Null ==> result is Err && result->Err_0
                    == UpstreamCallbackError::NullPeer
                &&& peer is Misaligned ==> result is Err && result->Err_0
                    == UpstreamCallbackError::MisalignedPeer
            },
        forall|result: UpstreamPeerConnection| #[trigger]
            call_ensures(UpstreamPeerConnection::of, (&raw,), result) ==> result@ == raw,
        forall|view: &UpstreamPeerConnection, result: usize| #[trigger]
            call_ensures(UpstreamPeerConnection::tries, (view,), result) ==> result == view@.tries,
        forall|state: UpstreamPeerState, result: usize| #[trigger]
            call_ensures(UpstreamPeerState::bits, (state,), result) ==> result == state.0,
{
}

/// A selection that is refused before the handler runs leaves everything as it was, and nginx gets
/// an error: a peer connection that cannot be read, data that is not the handler's own for this
/// peer connection, or a selected peer that is still to be released.
pub proof fn law_refused_selections_change_nothing<H: HttpUpstreamPeerHandler>()
    ensures
        forall|
            peer: &mut Pointer<NativePeer>,
            data: &mut Pointer<HttpUpstreamPeerData<H::Data>>,
            handler: UpstreamHandler,
            result: PeerGetOutcome,
        |
            #![trigger call_ensures(raw_get_peer::<H>, (peer, data, handler), result)]
            call_ensures(raw_get_peer::<H>, (peer, data, handler), result) ==> {
                let readable = *peer is To;
                let own = readable && *data is To && installed_by(
                    data->To_0,
                    handler,
                    peer->To_0.address,
                );
                let refused = !own || data->To_0.selection.active_generation is Some;
                &&& refused ==> {
                    &&& result.status == -1
                    &&& result.release is None
                    &&& *final(peer) == *peer
                    &&& *final(data) == *data
                }
                &&& !readable ==> result.record is None
                &&& readable && !own ==> exists|error: UpstreamCallbackError|
                    #![trigger data_refused(*data, handler, peer->To_0.address, error)]
                    data_refused(*data, handler, peer->To_0.address, error) && reported(
                        result.record,
                        peer->To_0,
                        UpstreamAction::PeerSelection,
                        error,
                    )
                &&& own && refused ==> reported(
                    result.record,
                    peer->To_0,
                    UpstreamAction::PeerSelection,
                    UpstreamCallbackError::PeerSelectionPendingRelease,
                )
            },
{
    assert forall|
        peer: &mut Pointer<NativePeer>,
        data: &mut Pointer<HttpUpstreamPeerData<H::Data>>,
        handler: UpstreamHandler,
        result: PeerGetOutcome,
    |
        #![trigger call_ensures(raw_get_peer::<H>, (peer, data, handler), result)]
        call_ensures(raw_get_peer::<H>, (peer, data, handler), result) && *peer is To && !(
        *data is To && installed_by(
            data->To_0,
            handler,
            peer->To_0.address,
        )) implies exists|error: UpstreamCallbackError|
        #![trigger data_refused(*data, handler, peer->To_0.address, error)]
        data_refused(*data, handler, peer->To_0.address, error) && reported(
            result.record,
            peer->To_0,
            UpstreamAction::PeerSelection,
            error,
        ) by {
        let error = match *data {
            Pointer::Null => UpstreamCallbackError::NullPeerData,
            Pointer::Misaligned => UpstreamCallbackError::MisalignedPeerData,
            Pointer::To(_) => UpstreamCallbackError::ForeignPeerData,
        };
        assert(data_refused(*data, handler, peer->To_0.address, error));
    }
}

/// A selection that runs is recorded as unreleased exactly if nginx gets the status of a selected
/// peer, and that status is the one of the selection that the handler returned. A handler that
/// fails is reported, and what it changed is what it changed.
pub proof fn law_run_selections_answer_for_the_handler<H: HttpUpstreamPeerHandler>()
    ensures
        forall|
            peer: &mut Pointer<NativePeer>,
            data: &mut Pointer<HttpUpstreamPeerData<H::Data>>,
            handler: UpstreamHandler,
            result: PeerGetOutcome,
        |
            #![trigger call_ensures(raw_get_peer::<H>, (peer, data, handler), result)]
            call_ensures(raw_get_peer::<H>, (peer, data, handler), result) && *peer is To
                && *data is To && installed_by(data->To_0, handler, peer->To_0.address)
                && data->To_0.selection.active_generation is None ==> {
                let before = data->To_0;
                let after = final(data)->To_0;
                &&& *final(peer) is To && *final(data) is To
                &&& installed_by(after, handler, peer->To_0.address)
                &&& after.original == before.original
                &&& after.selection.generation != 0
                &&& after.selection.generation != before.selection.generation
                &&& after.selection.active_generation is Some <==> picks(result.status)
                &&& after.selection.active_generation matches Some(active) ==> active
                    == after.selection.generation
                &&& result.release matches Some(call) ==> {
                    &&& result.status == -1
                    &&& before.original.free == Some(call.callback)
                    &&& before.original.data == call.data
                }
                &&& exists|
                    chosen: &mut NativePeer,
                    kept: &mut H::Data,
                    original: &mut OriginalPeerGet,
                    returned: Result<UpstreamPeerSelection, UpstreamCallbackError>,
                |
                    {
                        &&& #[trigger] call_ensures(H::get, (chosen, kept, original), returned)
                        &&& *chosen == peer->To_0 && *final(chosen) == final(peer)->To_0
                        &&& *kept == before.value && *final(kept) == after.value
                        &&& original.original() == before.original
                        &&& original.generation() == after.selection.generation
                        &&& picks(result.status) ==> returned is Ok && returned->Ok_0 is Selected
                            && returned->Ok_0->Selected_0.status() == result.status
                            && final(original).outcome() is Selected
                        &&& final(original).outcome() is Selected && !(returned is Ok
                            && returned->Ok_0 is Selected
                            && returned->Ok_0->Selected_0.generation() == original.generation())
                            ==> (result.release is Some <==> before.original.free is Some)
                        &&& returned matches Err(error) ==> result.status == -1 && reported(
                            result.record,
                            *final(chosen),
                            UpstreamAction::PeerSelection,
                            error,
                        )
                    }
            },
{
    assert forall|
        peer: &mut Pointer<NativePeer>,
        data: &mut Pointer<HttpUpstreamPeerData<H::Data>>,
        handler: UpstreamHandler,
        result: PeerGetOutcome,
    |
        #![trigger call_ensures(raw_get_peer::<H>, (peer, data, handler), result)]
        call_ensures(raw_get_peer::<H>, (peer, data, handler), result) && *peer is To
            && *data is To && installed_by(data->To_0, handler, peer->To_0.address)
            && data->To_0.selection.active_generation is None implies exists|
        chosen: &mut NativePeer,
        kept: &mut H::Data,
        original: &mut OriginalPeerGet,
        returned: Result<UpstreamPeerSelection, UpstreamCallbackError>,
    |
        {
            &&& #[trigger] call_ensures(H::get, (chosen, kept, original), returned)
            &&& *chosen == peer->To_0 && *final(chosen) == final(peer)->To_0
            &&& *kept == data->To_0.value && *final(kept) == final(data)->To_0.value
            &&& original.original() == data->To_0.original
            &&& original.generation() == final(data)->To_0.selection.generation
            &&& picks(result.status) ==> returned is Ok && returned->Ok_0 is Selected
                && returned->Ok_0->Selected_0.status() == result.status
                && final(original).outcome() is Selected
            &&& final(original).outcome() is Selected && !(returned is Ok
                && returned->Ok_0 is Selected && returned->Ok_0->Selected_0.generation()
                == original.generation()) ==> (result.release is Some
                <==> data->To_0.original.free is Some)
            &&& returned matches Err(error) ==> result.status == -1 && reported(
                result.record,
                *final(chosen),
                UpstreamAction::PeerSelection,
                error,
            )
        } by {
    }
}

/// A peer is released exactly if its data is the handler's own and a selected peer is still to be
/// released; the saved releaser then gets its own argument and the state bits that nginx passed.
/// Everything else is refused and reported, and no data changes but that nothing stays selected.
pub proof fn law_releases_pass_the_state_on<T>()
    ensures
        forall|
            peer: &Pointer<NativePeer>,
            data: &mut Pointer<HttpUpstreamPeerData<T>>,
            state: usize,
            handler: UpstreamHandler,
            result: PeerFreeBegin,
        |
            #![trigger call_ensures(raw_free_peer::<T>, (peer, data, state, handler), result)]
            call_ensures(raw_free_peer::<T>, (peer, data, state, handler), result) ==> {
                let own = *peer is To && *data is To && installed_by(
                    data->To_0,
                    handler,
                    peer->To_0.address,
                );
                &&& result is Run <==> own && data->To_0.selection.active_generation is Some
                &&& result matches PeerFreeBegin::Run { call, state: bits } ==> {
                    &&& bits.0 == state
                    &&& call is Some <==> data->To_0.original.free is Some
                    &&& call matches Some(saved) ==> data->To_0.original.free == Some(
                        saved.callback,
                    ) && saved.data == data->To_0.original.data
                }
                &&& !own ==> *final(data) == *data
                &&& own ==> {
                    let before = data->To_0;
                    let after = final(data)->To_0;
                    &&& *final(data) is To
                    &&& installed_by(after, handler, peer->To_0.address)
                    &&& after.value == before.value && after.original == before.original
                    &&& after.selection.generation == before.selection.generation
                    &&& after.selection.active_generation is None
                }
                &&& *peer !is To ==> result == PeerFreeBegin::Refused(None)
                &&& own && result is Refused ==> reported(
                    result->Refused_0,
                    peer->To_0,
                    UpstreamAction::PeerRelease,
                    UpstreamCallbackError::PeerReleaseWithoutSelection,
                )
                &&& *peer is To && *data is To && !own ==> reported(
                    result->Refused_0,
                    peer->To_0,
                    UpstreamAction::PeerRelease,
                    UpstreamCallbackError::ForeignPeerData,
                )
                &&& *peer is To && *data is Null ==> reported(
                    result->Refused_0,
                    peer->To_0,
                    UpstreamAction::PeerRelease,
                    UpstreamCallbackError::NullPeerData,
                )
                &&& *peer is To && *data is Misaligned ==> reported(
                    result->Refused_0,
                    peer->To_0,
                    UpstreamAction::PeerRelease,
                    UpstreamCallbackError::MisalignedPeerData,
                )
            },
{
}

/// What a handler says of a release is reported exactly if it is an error.
pub proof fn law_observers_are_reported<H: HttpUpstreamPeerHandler>()
    ensures
        forall|
            peer: &UpstreamPeerConnection,
            returned: Result<(), UpstreamCallbackError>,
            record: Option<UpstreamLogRecord>,
        | #[trigger]
            call_ensures(peer_free_record, (peer, returned), record) ==> {
                &&& returned is Ok ==> record is None
                &&& returned matches Err(error) ==> reported(
                    record,
                    peer@,
                    UpstreamAction::PeerRelease,
                    error,
                )
            },
        forall|
            peer: &mut NativePeer,
            data: &mut HttpUpstreamPeerData<H::Data>,
            state: UpstreamPeerState,
            record: Option<UpstreamLogRecord>,
        |
            #![trigger call_ensures(observe_free_peer::<H>, (peer, data, state), record)]
            call_ensures(observe_free_peer::<H>, (peer, data, state), record) ==> {
                &&& final(data).original == data.original
                &&& final(data).selection == data.selection
                &&& final(data).magic == data.magic && final(data).handler == data.handler
                &&& final(data).peer == data.peer
                &&& record matches Some(value) ==> reported(
                    record,
                    *final(peer),
                    UpstreamAction::PeerRelease,
                    value.error,
                )
                &&& exists|
                    released: &mut NativePeer,
                    value: &mut H::Data,
                    returned: Result<(), UpstreamCallbackError>,
                |
                    {
                        &&& #[trigger] call_ensures(H::free, (released, value, state), returned)
                        &&& *released == *peer && *final(released) == *final(peer)
                        &&& *value == data.value && *final(value) == final(data).value
                        &&& returned is Ok ==> record is None
                        &&& returned matches Err(error) ==> reported(
                            record,
                            *final(peer),
                            UpstreamAction::PeerRelease,
                            error,
                        )
                    }
            },
{
    assert forall|
        peer: &mut NativePeer,
        data: &mut HttpUpstreamPeerData<H::Data>,
        state: UpstreamPeerState,
        record: Option<UpstreamLogRecord>,
    |
        #![trigger call_ensures(observe_free_peer::<H>, (peer, data, state), record)]
        call_ensures(observe_free_peer::<H>, (peer, data, state), record) implies exists|
        released: &mut NativePeer,
        value: &mut H::Data,
        returned: Result<(), UpstreamCallbackError>,
    |
        {
            &&& #[trigger] call_ensures(H::free, (released, value, state), returned)
            &&& *released == *peer && *final(released) == *final(peer)
            &&& *value == data.value && *final(value) == final(data).value
            &&& returned is Ok ==> record is None
            &&& returned matches Err(error) ==> reported(
                record,
                *final(peer),
                UpstreamAction::PeerRelease,
                error,
            )
        } by {
    }
}

/// Whether a callback goes to the saved callback `saved` with its own argument, or is refused and
/// reported.
pub open spec fn delegated<T>(
    peer: Pointer<NativePeer>,
    data: Pointer<HttpUpstreamPeerData<T>>,
    handler: UpstreamHandler,
    action: UpstreamAction,
    saved: Option<usize>,
    result: PeerDelegation,
) -> bool {
    let own = peer is To && data is To && installed_by(data->To_0, handler, peer->To_0.address);
    &&& result.call is Some <==> own && saved is Some
    &&& result.call matches Some(call) ==> saved == Some(call.callback) && call.data
        == data->To_0.original.data
    &&& own || peer !is To ==> result.record is None
    &&& peer is To && data is To && !own ==> reported(
        result.record,
        peer->To_0,
        action,
        UpstreamCallbackError::ForeignPeerData,
    )
    &&& peer is To && data is Null ==> reported(
        result.record,
        peer->To_0,
        action,
        UpstreamCallbackError::NullPeerData,
    )
    &&& peer is To && data is Misaligned ==> reported(
        result.record,
        peer->To_0,
        action,
        UpstreamCallbackError::MisalignedPeerData,
    )
}

/// Notifications, session lookups and session saves go to the saved callback of that very kind,
/// with the argument that was saved with it. A lookup that reaches no callback fails.
pub proof fn law_other_callbacks_reach_the_saved_ones<T>(
    peer: Pointer<NativePeer>,
    data: Pointer<HttpUpstreamPeerData<T>>,
    handler: UpstreamHandler,
)
    ensures
        forall|result: PeerDelegation|
            #![trigger call_ensures(raw_notify_peer::<T>, (&peer, &data, handler), result)]
            call_ensures(raw_notify_peer::<T>, (&peer, &data, handler), result) ==> delegated(
                peer,
                data,
                handler,
                UpstreamAction::PeerNotification,
                data->To_0.original.notify,
                result,
            ),
        forall|result: PeerDelegation|
            #![trigger call_ensures(raw_set_session::<T>, (&peer, &data, handler), result)]
            call_ensures(raw_set_session::<T>, (&peer, &data, handler), result) ==> delegated(
                peer,
                data,
                handler,
                UpstreamAction::PeerSessionLookup,
                data->To_0.original.set_session,
                result,
            ),
        forall|result: PeerDelegation|
            #![trigger call_ensures(raw_save_session::<T>, (&peer, &data, handler), result)]
            call_ensures(raw_save_session::<T>, (&peer, &data, handler), result) ==> delegated(
                peer,
                data,
                handler,
                UpstreamAction::PeerSessionSave,
                data->To_0.original.save_session,
                result,
            ),
        forall|answer: Option<isize>, status: isize| #[trigger]
            call_ensures(set_session_status, (answer,), status) ==> {
                &&& answer is None ==> status == -1
                &&& answer matches Some(answered) ==> status == answered
            },
{
}

/// What a decision about a selection comes to: the decided status as it is and no record, or -1 and
/// a record of what went wrong. Either way the release that was decided on is what is to be run.
pub proof fn law_decisions_are_answered_as_they_are(decision: PeerGetDecision)
    ensures
        forall|peer: &UpstreamPeerConnection, outcome: PeerGetOutcome| #[trigger]
            call_ensures(PeerGetOutcome::of, (peer, decision), outcome) ==> {
                &&& outcome.release == decision.release
                &&& decision.result matches Ok(status) ==> outcome.status == status
                    && outcome.record is None
                &&& decision.result matches Err(error) ==> outcome.status == -1 && reported(
                    outcome.record,
                    peer@,
                    UpstreamAction::PeerSelection,
                    error,
                )
            },
{
}

} // verus!
