//! Errors, installation slots and handler traits of upstream callbacks.

use vstd::prelude::*;
use vstd::string::StringExecFns;

use crate::native::{HttpConfigError, ModuleDescriptor, NativeState};
use crate::request::view::RequestError;
use crate::text::append_number;
use crate::upstream::init::{
    OriginalUpstreamInit, UpstreamConfiguration, UpstreamInitialization, UpstreamServerConf,
};
use crate::upstream::peer::{
    NativePeer, OriginalPeerGet, UpstreamPeerSelection, UpstreamPeerState,
};
use crate::upstream::peer_init::{OriginalPeerInit, UpstreamPeerInit, UpstreamPeerInitRequest};

verus! {

/// Failure while entering or delegating an HTTP upstream callback.
#[derive(Clone, Copy, Debug, PartialEq, Eq, Structural)]
pub enum UpstreamCallbackError {
    /// nginx supplied no configuration parser pointer.
    NullConfiguration,
    /// The configuration parser pointer is misaligned.
    MisalignedConfiguration,
    /// The configuration parser has no usable nginx pool.
    MissingConfigurationPool,
    /// nginx supplied no upstream server-configuration pointer.
    NullUpstream,
    /// The upstream server-configuration pointer is misaligned.
    MisalignedUpstream,
    /// The initializer owner has no module server configuration for this upstream.
    MissingInitializerConfiguration,
    /// This module slot already owns an upstream initializer for the current configuration.
    DuplicateUpstreamInitializer,
    /// This module slot already owns a peer initializer for the current configuration.
    DuplicatePeerInitializer,
    /// The upstream initializer slot does not own this callback invocation.
    ForeignUpstreamInitializer,
    /// The peer initializer slot does not own this callback invocation.
    ForeignPeerInitializer,
    /// The request has no active upstream object.
    MissingRequestUpstream,
    /// The request upstream pointer is misaligned.
    MisalignedRequestUpstream,
    /// The request pool was destroyed during peer initialization.
    RequestDestroyedDuringPeerInitialization,
    /// The request changed to a different upstream owner during peer initialization.
    ReplacedRequestUpstream,
    /// nginx supplied no peer-connection pointer.
    NullPeer,
    /// The peer-connection pointer is misaligned.
    MisalignedPeer,
    /// nginx supplied no peer callback data pointer.
    NullPeerData,
    /// The peer callback data pointer is misaligned.
    MisalignedPeerData,
    /// The peer callback data does not belong to this typed handler.
    ForeignPeerData,
    /// The saved original upstream initializer is absent.
    MissingOriginalInitUpstream,
    /// The saved original request peer initializer is absent.
    MissingOriginalInitPeer,
    /// The saved original peer getter is absent.
    MissingOriginalGetPeer,
    /// A selected peer has not yet been released.
    PeerSelectionPendingRelease,
    /// nginx tried to release a peer without a matching successful selection.
    PeerReleaseWithoutSelection,
    /// A handler discarded a peer selected by the original getter.
    DiscardedOriginalPeerSelection,
    /// A handler returned a selected-peer proof from another selection generation.
    ForeignSelectedPeer,
    /// A successful upstream initializer left the request peer initializer absent.
    MissingPeerInitializer,
    /// A successful original request peer initializer left the peer getter absent.
    MissingPeerGetter,
    /// The original peer getter returned a status outside nginx's supported set.
    InvalidOriginalGetStatus(isize),
    /// A newly selected peer has no socket address.
    MissingSelectedPeerAddress,
    /// A newly selected peer has a misaligned socket address.
    MisalignedSelectedPeerAddress,
    /// A selected peer has no display name.
    MissingSelectedPeerName,
    /// A selected peer has a misaligned display name.
    MisalignedSelectedPeerName,
    /// A reused or pending selected peer has no connection.
    MissingSelectedPeerConnection,
    /// A reused or pending selected peer has a misaligned connection.
    MisalignedSelectedPeerConnection,
    /// nginx could not retain handler data in the request pool.
    Allocation,
    /// Resolving a typed module configuration failed.
    Configuration(HttpConfigError),
    /// Resolving the active request pool failed.
    Request(RequestError),
}

impl UpstreamCallbackError {
    /// The text of the error.
    pub open spec fn text(self) -> Seq<char> {
        match self {
            UpstreamCallbackError::NullConfiguration => "upstream configuration is null"@,
            UpstreamCallbackError::MisalignedConfiguration => "upstream configuration is misaligned"@,
            UpstreamCallbackError::MissingConfigurationPool => "upstream configuration has no usable pool"@,
            UpstreamCallbackError::NullUpstream => "upstream server configuration is null"@,
            UpstreamCallbackError::MisalignedUpstream => "upstream server configuration is misaligned"@,
            UpstreamCallbackError::MissingInitializerConfiguration => "upstream initializer owner has no server configuration"@,
            UpstreamCallbackError::DuplicateUpstreamInitializer => "upstream initializer is already installed"@,
            UpstreamCallbackError::DuplicatePeerInitializer => "upstream peer initializer is already installed"@,
            UpstreamCallbackError::ForeignUpstreamInitializer => "upstream initializer belongs to another configuration"@,
            UpstreamCallbackError::ForeignPeerInitializer => "upstream peer initializer belongs to another configuration"@,
            UpstreamCallbackError::MissingRequestUpstream => "request has no upstream"@,
            UpstreamCallbackError::MisalignedRequestUpstream => "request upstream is misaligned"@,
            UpstreamCallbackError::RequestDestroyedDuringPeerInitialization => "request was destroyed during peer initialization"@,
            UpstreamCallbackError::ReplacedRequestUpstream => "request changed upstream owner during peer initialization"@,
            UpstreamCallbackError::NullPeer => "upstream peer is null"@,
            UpstreamCallbackError::MisalignedPeer => "upstream peer is misaligned"@,
            UpstreamCallbackError::NullPeerData => "upstream peer data is null"@,
            UpstreamCallbackError::MisalignedPeerData => "upstream peer data is misaligned"@,
            UpstreamCallbackError::ForeignPeerData => "upstream peer data belongs to another handler"@,
            UpstreamCallbackError::MissingOriginalInitUpstream => "upstream has no original initializer"@,
            UpstreamCallbackError::MissingOriginalInitPeer => "upstream has no original peer initializer"@,
            UpstreamCallbackError::MissingOriginalGetPeer => "upstream has no original peer getter"@,
            UpstreamCallbackError::PeerSelectionPendingRelease => "selected upstream peer has not been released"@,
            UpstreamCallbackError::PeerReleaseWithoutSelection => "upstream peer release has no matching selection"@,
            UpstreamCallbackError::DiscardedOriginalPeerSelection => "handler discarded the original selected peer"@,
            UpstreamCallbackError::ForeignSelectedPeer => "selected upstream peer belongs to another generation"@,
            UpstreamCallbackError::MissingPeerInitializer => "upstream initialization installed no peer initializer"@,
            UpstreamCallbackError::MissingPeerGetter => "peer initialization installed no peer getter"@,
            UpstreamCallbackError::InvalidOriginalGetStatus(status) => "original peer getter returned unsupported status "@
                + crate::text::number(status as int),
            UpstreamCallbackError::MissingSelectedPeerAddress => "selected upstream peer has no socket address"@,
            UpstreamCallbackError::MisalignedSelectedPeerAddress => "selected upstream peer socket address is misaligned"@,
            UpstreamCallbackError::MissingSelectedPeerName => "selected upstream peer has no name"@,
            UpstreamCallbackError::MisalignedSelectedPeerName => "selected upstream peer name is misaligned"@,
            UpstreamCallbackError::MissingSelectedPeerConnection => "selected upstream peer has no connection"@,
            UpstreamCallbackError::MisalignedSelectedPeerConnection => "selected upstream peer connection is misaligned"@,
            UpstreamCallbackError::Allocation => "failed to allocate upstream peer data"@,
            UpstreamCallbackError::Configuration(_) => "failed to resolve upstream configuration"@,
            UpstreamCallbackError::Request(_) => "failed to resolve upstream request state"@,
        }
    }

    /// The text of the error.
    pub fn message(&self) -> (result: String)
        ensures
            result@ == self.text(),
    {
        match self {
            UpstreamCallbackError::NullConfiguration => String::from_str(
                "upstream configuration is null",
            ),
            UpstreamCallbackError::MisalignedConfiguration => String::from_str(
                "upstream configuration is misaligned",
            ),
            UpstreamCallbackError::MissingConfigurationPool => String::from_str(
                "upstream configuration has no usable pool",
            ),
            UpstreamCallbackError::NullUpstream => String::from_str(
                "upstream server configuration is null",
            ),
            UpstreamCallbackError::MisalignedUpstream => String::from_str(
                "upstream server configuration is misaligned",
            ),
            UpstreamCallbackError::MissingInitializerConfiguration => String::from_str(
                "upstream initializer owner has no server configuration",
            ),
            UpstreamCallbackError::DuplicateUpstreamInitializer => String::from_str(
                "upstream initializer is already installed",
            ),
            UpstreamCallbackError::DuplicatePeerInitializer => String::from_str(
                "upstream peer initializer is already installed",
            ),
            UpstreamCallbackError::ForeignUpstreamInitializer => String::from_str(
                "upstream initializer belongs to another configuration",
            ),
            UpstreamCallbackError::ForeignPeerInitializer => String::from_str(
                "upstream peer initializer belongs to another configuration",
            ),
            UpstreamCallbackError::MissingRequestUpstream => String::from_str(
                "request has no upstream",
            ),
            UpstreamCallbackError::MisalignedRequestUpstream => String::from_str(
                "request upstream is misaligned",
            ),
            UpstreamCallbackError::RequestDestroyedDuringPeerInitialization => String::from_str(
                "request was destroyed during peer initialization",
            ),
            UpstreamCallbackError::ReplacedRequestUpstream => String::from_str(
                "request changed upstream owner during peer initialization",
            ),
            UpstreamCallbackError::NullPeer => String::from_str(
                "upstream peer is null",
            ),
            UpstreamCallbackError::MisalignedPeer => String::from_str(
                "upstream peer is misaligned",
            ),
            UpstreamCallbackError::NullPeerData => String::from_str(
                "upstream peer data is null",
            ),
            UpstreamCallbackError::MisalignedPeerData => String::from_str(
                "upstream peer data is misaligned",
            ),
            UpstreamCallbackError::ForeignPeerData => String::from_str(
                "upstream peer data belongs to another handler",
            ),
            UpstreamCallbackError::MissingOriginalInitUpstream => String::from_str(
                "upstream has no original initializer",
            ),
            UpstreamCallbackError::MissingOriginalInitPeer => String::from_str(
                "upstream has no original peer initializer",
            ),
            UpstreamCallbackError::MissingOriginalGetPeer => String::from_str(
                "upstream has no original peer getter",
            ),
            UpstreamCallbackError::PeerSelectionPendingRelease => String::from_str(
                "selected upstream peer has not been released",
            ),
            UpstreamCallbackError::PeerReleaseWithoutSelection => String::from_str(
                "upstream peer release has no matching selection",
            ),
            UpstreamCallbackError::DiscardedOriginalPeerSelection => String::from_str(
                "handler discarded the original selected peer",
            ),
            UpstreamCallbackError::ForeignSelectedPeer => String::from_str(
                "selected upstream peer belongs to another generation",
            ),
            UpstreamCallbackError::MissingPeerInitializer => String::from_str(
                "upstream initialization installed no peer initializer",
            ),
            UpstreamCallbackError::MissingPeerGetter => String::from_str(
                "peer initialization installed no peer getter",
            ),
            UpstreamCallbackError::InvalidOriginalGetStatus(status) => {
                let mut text = String::from_str(
                    "original peer getter returned unsupported status ",
                );
                append_number(&mut text, *status);
                text
            },
            UpstreamCallbackError::MissingSelectedPeerAddress => String::from_str(
                "selected upstream peer has no socket address",
            ),
            UpstreamCallbackError::MisalignedSelectedPeerAddress => String::from_str(
                "selected upstream peer socket address is misaligned",
            ),
            UpstreamCallbackError::MissingSelectedPeerName => String::from_str(
                "selected upstream peer has no name",
            ),
            UpstreamCallbackError::MisalignedSelectedPeerName => String::from_str(
                "selected upstream peer name is misaligned",
            ),
            UpstreamCallbackError::MissingSelectedPeerConnection => String::from_str(
                "selected upstream peer has no connection",
            ),
            UpstreamCallbackError::MisalignedSelectedPeerConnection => String::from_str(
                "selected upstream peer connection is misaligned",
            ),
            UpstreamCallbackError::Allocation => String::from_str(
                "failed to allocate upstream peer data",
            ),
            UpstreamCallbackError::Configuration(_) => String::from_str(
                "failed to resolve upstream configuration",
            ),
            UpstreamCallbackError::Request(_) => String::from_str(
                "failed to resolve upstream request state",
            ),
        }
    }
}

impl From<HttpConfigError> for UpstreamCallbackError {
    fn from(error: HttpConfigError) -> (result: Self) {
        UpstreamCallbackError::Configuration(error)
    }
}

impl vstd::std_specs::convert::FromSpecImpl<HttpConfigError> for UpstreamCallbackError {
    open spec fn obeys_from_spec() -> bool {
        true
    }

    open spec fn from_spec(error: HttpConfigError) -> Self {
        UpstreamCallbackError::Configuration(error)
    }
}

impl From<RequestError> for UpstreamCallbackError {
    fn from(error: RequestError) -> (result: Self) {
        UpstreamCallbackError::Request(error)
    }
}

impl vstd::std_specs::convert::FromSpecImpl<RequestError> for UpstreamCallbackError {
    open spec fn obeys_from_spec() -> bool {
        true
    }

    open spec fn from_spec(error: RequestError) -> Self {
        UpstreamCallbackError::Request(error)
    }
}

/// A typed handler: its identity, the module that owns its installation slots, and the native
/// adapters that nginx calls for it.
#[derive(Clone, Copy, Debug, PartialEq, Eq, Structural)]
pub struct UpstreamHandler {
    /// Identity of the handler type.
    pub id: usize,
    pub module: ModuleDescriptor,
    /// Adapter for upstream initialization, by its address.
    pub init_upstream: usize,
    /// Adapter for request peer initialization, by its address.
    pub init_peer: usize,
    /// Adapter for peer selection, by its address.
    pub get_peer: usize,
    /// Adapter for peer release, by its address.
    pub free_peer: usize,
    /// Adapter for peer notification, by its address.
    pub notify_peer: usize,
    /// Adapter for session lookup, by its address.
    pub set_session: usize,
    /// Adapter for session saving, by its address.
    pub save_session: usize,
}

/// Module-owned installation state for one upstream and peer initializer pair.
///
/// A fresh server configuration is also the generation boundary: successful installation records
/// the owning upstream before publishing the native adapter.
#[derive(Clone, Copy, Debug, PartialEq, Eq, Structural)]
pub struct UpstreamCallbackSlot {
    /// The upstream that an upstream initializer is installed for, by its address.
    pub upstream: Option<usize>,
    pub upstream_handler: Option<usize>,
    /// The initializer that was there before, by its address.
    pub original_upstream: Option<usize>,
    /// The upstream that a peer initializer is installed for, by its address.
    pub peer: Option<usize>,
    pub peer_handler: Option<usize>,
    /// The initializer that was there before, by its address.
    pub original_peer: Option<usize>,
}

impl UpstreamCallbackSlot {
    /// Creates an uninstalled callback slot.
    pub fn new() -> (result: Self)
        ensures
            result == (UpstreamCallbackSlot {
                upstream: None::<usize>,
                upstream_handler: None::<usize>,
                original_upstream: None::<usize>,
                peer: None::<usize>,
                peer_handler: None::<usize>,
                original_peer: None::<usize>,
            }),
    {
        UpstreamCallbackSlot {
            upstream: None,
            upstream_handler: None,
            original_upstream: None,
            peer: None,
            peer_handler: None,
            original_peer: None,
        }
    }

    /// Records the upstream that an upstream initializer is installed for.
    pub fn install_upstream(
        &mut self,
        handler: UpstreamHandler,
        upstream: usize,
        original: Option<usize>,
    ) -> (result: Result<(), UpstreamCallbackError>)
        ensures
            if old(self).upstream is Some {
                &&& result == Err::<(), UpstreamCallbackError>(
                    UpstreamCallbackError::DuplicateUpstreamInitializer,
                )
                &&& *final(self) == *old(self)
            } else {
                &&& result == Ok::<(), UpstreamCallbackError>(())
                &&& *final(self) == (UpstreamCallbackSlot {
                    upstream: Some(upstream),
                    upstream_handler: Some(handler.id),
                    original_upstream: original,
                    ..*old(self)
                })
            },
    {
        if self.upstream.is_some() {
            return Err(UpstreamCallbackError::DuplicateUpstreamInitializer);
        }
        self.upstream = Some(upstream);
        self.upstream_handler = Some(handler.id);
        self.original_upstream = original;
        Ok(())
    }

    /// Whether the slot holds an upstream initializer of a handler for an upstream.
    pub open spec fn owns_upstream(self, handler: UpstreamHandler, upstream: usize) -> bool {
        self.upstream == Some(upstream) && self.upstream_handler == Some(handler.id)
    }

    /// The initializer that was there before that of the handler.
    pub fn original_upstream(&self, handler: UpstreamHandler, upstream: usize) -> (result: Result<
        OriginalUpstreamInit,
        UpstreamCallbackError,
    >)
        ensures
            if self.owns_upstream(handler, upstream) {
                result matches Ok(original) && original.saved() == self.original_upstream
            } else {
                result matches Err(UpstreamCallbackError::ForeignUpstreamInitializer)
            },
    {
        if !same(self.upstream, upstream) || !same(self.upstream_handler, handler.id) {
            return Err(UpstreamCallbackError::ForeignUpstreamInitializer);
        }
        Ok(OriginalUpstreamInit::new(self.original_upstream))
    }

    /// Records the upstream that a peer initializer is installed for.
    pub fn install_peer(
        &mut self,
        handler: UpstreamHandler,
        upstream: usize,
        original: Option<usize>,
    ) -> (result: Result<(), UpstreamCallbackError>)
        ensures
            if old(self).peer is Some {
                &&& result == Err::<(), UpstreamCallbackError>(
                    UpstreamCallbackError::DuplicatePeerInitializer,
                )
                &&& *final(self) == *old(self)
            } else {
                &&& result == Ok::<(), UpstreamCallbackError>(())
                &&& *final(self) == (UpstreamCallbackSlot {
                    peer: Some(upstream),
                    peer_handler: Some(handler.id),
                    original_peer: original,
                    ..*old(self)
                })
            },
    {
        if self.peer.is_some() {
            return Err(UpstreamCallbackError::DuplicatePeerInitializer);
        }
        self.peer = Some(upstream);
        self.peer_handler = Some(handler.id);
        self.original_peer = original;
        Ok(())
    }

    /// Whether the slot holds a peer initializer of a handler for an upstream.
    pub open spec fn owns_peer(self, handler: UpstreamHandler, upstream: usize) -> bool {
        self.peer == Some(upstream) && self.peer_handler == Some(handler.id)
    }

    /// The initializer that was there before that of the handler.
    pub fn original_peer(&self, handler: UpstreamHandler, upstream: usize) -> (result: Result<
        OriginalPeerInit,
        UpstreamCallbackError,
    >)
        ensures
            if self.owns_peer(handler, upstream) {
                result matches Ok(original) && original.saved() == self.original_peer
            } else {
                result matches Err(UpstreamCallbackError::ForeignPeerInitializer)
            },
    {
        if !same(self.peer, upstream) || !same(self.peer_handler, handler.id) {
            return Err(UpstreamCallbackError::ForeignPeerInitializer);
        }
        Ok(OriginalPeerInit::new(self.original_peer))
    }
}

/// Whether an optional number is `value`.
fn same(number: Option<usize>, value: usize) -> (result: bool)
    ensures
        result == (number == Some(value)),
{
    match number {
        Some(found) => found == value,
        None => false,
    }
}

impl Default for UpstreamCallbackSlot {
    fn default() -> (result: Self)
        ensures
            result.upstream is None,
            result.upstream_handler is None,
            result.original_upstream is None,
            result.peer is None,
            result.peer_handler is None,
            result.original_peer is None,
    {
        UpstreamCallbackSlot::new()
    }
}

/// A slot that holds an initializer answers its owner with what was there before, and keeps out
/// every other handler and upstream.
pub proof fn law_slot_answers_its_owner(
    before: UpstreamCallbackSlot,
    after: UpstreamCallbackSlot,
    handler: UpstreamHandler,
    upstream: usize,
    original: Option<usize>,
    other_handler: UpstreamHandler,
    other_upstream: usize,
)
    requires
        before.upstream is None,
        after == (UpstreamCallbackSlot {
            upstream: Some(upstream),
            upstream_handler: Some(handler.id),
            original_upstream: original,
            ..before
        }),
    ensures
        after.owns_upstream(handler, upstream),
        after.original_upstream == original,
        after.owns_upstream(other_handler, other_upstream) == (other_handler.id == handler.id
            && other_upstream == upstream),
        after.owns_peer(other_handler, other_upstream) == before.owns_peer(
            other_handler,
            other_upstream,
        ),
{
}

/// What a callback was doing when it failed.
#[derive(Clone, Copy, Debug, PartialEq, Eq, Structural)]
pub enum UpstreamAction {
    /// Upstream initialization.
    Initialization,
    /// Request peer initialization.
    PeerInitialization,
    /// Peer selection.
    PeerSelection,
    /// Peer release.
    PeerRelease,
    /// Peer notification.
    PeerNotification,
    /// Peer session lookup.
    PeerSessionLookup,
    /// Peer session saving.
    PeerSessionSave,
}

impl UpstreamAction {
    /// The action as log records name it.
    pub open spec fn text(self) -> Seq<char> {
        match self {
            UpstreamAction::Initialization => "initialization"@,
            UpstreamAction::PeerInitialization => "peer initialization"@,
            UpstreamAction::PeerSelection => "peer selection"@,
            UpstreamAction::PeerRelease => "peer release"@,
            UpstreamAction::PeerNotification => "peer notification"@,
            UpstreamAction::PeerSessionLookup => "peer session lookup"@,
            UpstreamAction::PeerSessionSave => "peer session save"@,
        }
    }

    /// The action as log records name it.
    pub fn name(&self) -> (result: &'static str)
        ensures
            result@ == self.text(),
    {
        match self {
            UpstreamAction::Initialization => "initialization",
            UpstreamAction::PeerInitialization => "peer initialization",
            UpstreamAction::PeerSelection => "peer selection",
            UpstreamAction::PeerRelease => "peer release",
            UpstreamAction::PeerNotification => "peer notification",
            UpstreamAction::PeerSessionLookup => "peer session lookup",
            UpstreamAction::PeerSessionSave => "peer session save",
        }
    }
}

/// Log level of an emergency.
pub const NGX_LOG_EMERG: usize = 1;

/// Log level of an error.
pub const NGX_LOG_ERR: usize = 4;

/// A failure that a callback writes to the log of its owner.
#[derive(Clone, Copy, Debug, PartialEq, Eq, Structural)]
pub struct UpstreamLogRecord {
    pub level: usize,
    /// The logger, by its address.
    pub log: usize,
    pub action: UpstreamAction,
    pub error: UpstreamCallbackError,
}

impl UpstreamLogRecord {
    /// The text of the record.
    pub open spec fn text(self) -> Seq<char> {
        "HTTP upstream "@ + self.action.text() + " failed: "@ + self.error.text()
    }

    /// The text of the record.
    pub fn message(&self) -> (result: String)
        ensures
            result@ == self.text(),
    {
        let mut text = String::from_str("HTTP upstream ");
        text.append(self.action.name());
        text.append(" failed: ");
        let error = self.error.message();
        text.append(error.as_str());
        text
    }
}

/// How a callback that nginx runs for its status ended.
#[derive(Clone, Copy, Debug, PartialEq, Eq, Structural)]
pub struct UpstreamCallbackOutcome {
    /// The status that nginx gets.
    pub status: isize,
    /// The failure to log, when there is one and its owner has a logger.
    pub record: Option<UpstreamLogRecord>,
}

/// Typed HTTP upstream initializer.
pub trait HttpUpstreamInitializer {
    /// Initializes one configured upstream without exposing a forgeable success status.
    fn init(
        configuration: &UpstreamConfiguration,
        native: &mut NativeState,
        upstream: &mut UpstreamServerConf,
        original: OriginalUpstreamInit,
    ) -> Result<UpstreamInitialization, UpstreamCallbackError>;
}

/// Typed request peer initializer, getter, and releaser for one upstream implementation.
pub trait HttpUpstreamPeerHandler {
    /// Request-pool data retained while nginx uses this peer callback family.
    type Data;

    /// Initializes custom request peer data after any needed original initialization.
    ///
    /// Return [`UpstreamPeerInit::Unavailable`] when an original initializer does not succeed,
    /// without replacing the native peer callbacks.
    fn init(
        request: &mut UpstreamPeerInitRequest,
        native: &mut NativeState,
        upstream: &mut UpstreamServerConf,
        original: OriginalPeerInit,
    ) -> Result<UpstreamPeerInit<Self::Data>, UpstreamCallbackError>;

    /// Selects a peer or delegates selection to the saved original callback.
    fn get(
        peer: &mut NativePeer,
        data: &mut Self::Data,
        original: &mut OriginalPeerGet,
    ) -> Result<UpstreamPeerSelection, UpstreamCallbackError>;

    /// Observes a peer release after the saved original peer was released.
    fn free(
        peer: &mut NativePeer,
        data: &mut Self::Data,
        state: UpstreamPeerState,
    ) -> Result<(), UpstreamCallbackError>;
}

} // verus!
