//! Initialization of configured upstreams.

use vstd::prelude::*;

use crate::native::{
    is_aligned, HttpConfigError, ModuleDescriptor, NativeState, Pointer,
};
use crate::request::view::conf_slot;
use crate::status::{NGX_ERROR, NGX_OK};
use crate::upstream::callback::{
    HttpUpstreamInitializer, UpstreamAction, UpstreamCallbackError, UpstreamCallbackOutcome,
    UpstreamCallbackSlot, UpstreamHandler, UpstreamLogRecord, NGX_LOG_EMERG,
};

verus! {

/// Parser state that nginx hands to an upstream initializer.
#[derive(Clone, Copy, Debug, PartialEq, Eq, Structural)]
pub struct NativeConfiguration {
    /// Configuration pool, by its address.
    pub pool: usize,
    /// Logger, by its address.
    pub log: usize,
}

/// Checked configuration callback view supplied to an upstream initializer.
#[derive(Debug)]
pub struct UpstreamConfiguration {
    pub raw: NativeConfiguration,
}

impl UpstreamConfiguration {
    /// The view of parser state that nginx supplied, or what is wrong with the pointer.
    pub open spec fn checked(configuration: Pointer<NativeConfiguration>) -> Result<
        NativeConfiguration,
        UpstreamCallbackError,
    > {
        match configuration {
            Pointer::Null => Err(UpstreamCallbackError::NullConfiguration),
            Pointer::Misaligned => Err(UpstreamCallbackError::MisalignedConfiguration),
            Pointer::To(raw) => Ok(raw),
        }
    }

    /// A checked view of the parser state that nginx supplied.
    pub fn from_raw(configuration: &Pointer<NativeConfiguration>) -> (result: Result<
        Self,
        UpstreamCallbackError,
    >)
        ensures
            match Self::checked(*configuration) {
                Ok(raw) => result matches Ok(view) && view.raw == raw,
                Err(error) => result matches Err(e) && e == error,
            },
    {
        match configuration {
            Pointer::Null => Err(UpstreamCallbackError::NullConfiguration),
            Pointer::Misaligned => Err(UpstreamCallbackError::MisalignedConfiguration),
            Pointer::To(raw) => Ok(UpstreamConfiguration { raw: *raw }),
        }
    }

    /// Returns the nginx configuration pool for copied URL and module data, by its address.
    pub fn pool(&self) -> (result: Result<usize, UpstreamCallbackError>)
        ensures
            result == (if self.raw.pool == 0 || !NativeState::aligned(self.raw.pool) {
                Err(UpstreamCallbackError::MissingConfigurationPool)
            } else {
                Ok(self.raw.pool)
            }),
    {
        if self.raw.pool == 0 || !is_aligned(self.raw.pool) {
            return Err(UpstreamCallbackError::MissingConfigurationPool);
        }
        Ok(self.raw.pool)
    }

    /// The record of a failed initialization, when there is a logger.
    pub open spec fn record(raw: NativeConfiguration, error: UpstreamCallbackError) -> Option<
        UpstreamLogRecord,
    > {
        if raw.log == 0 {
            None
        } else {
            Some(
                UpstreamLogRecord {
                    level: NGX_LOG_EMERG,
                    log: raw.log,
                    action: UpstreamAction::Initialization,
                    error,
                },
            )
        }
    }

    /// How a failed initialization ends.
    pub open spec fn failed(
        raw: NativeConfiguration,
        error: UpstreamCallbackError,
    ) -> UpstreamCallbackOutcome {
        UpstreamCallbackOutcome { status: NGX_ERROR, record: Self::record(raw, error) }
    }

    /// The status and the record that a handler's result comes to.
    pub open spec fn decided(
        raw: NativeConfiguration,
        initialized: Result<UpstreamInitialization, UpstreamCallbackError>,
    ) -> UpstreamCallbackOutcome {
        match initialized {
            Ok(UpstreamInitialization::Initialized(_)) => UpstreamCallbackOutcome {
                status: NGX_OK,
                record: None,
            },
            Ok(UpstreamInitialization::Unavailable) => UpstreamCallbackOutcome {
                status: NGX_ERROR,
                record: None,
            },
            Err(error) => Self::failed(raw, error),
        }
    }

    /// Ends a failed initialization with a record for the logger.
    fn log_failure(&self, error: UpstreamCallbackError) -> (result: UpstreamCallbackOutcome)
        ensures
            result == Self::failed(self.raw, error),
    {
        let record = if self.raw.log == 0 {
            None
        } else {
            Some(
                UpstreamLogRecord {
                    level: NGX_LOG_EMERG,
                    log: self.raw.log,
                    action: UpstreamAction::Initialization,
                    error,
                },
            )
        };
        UpstreamCallbackOutcome { status: NGX_ERROR, record }
    }
}

/// An upstream server configuration.
#[derive(Debug)]
pub struct UpstreamServerConf {
    /// Address of the configuration.
    pub address: usize,
    /// Module server configurations, by their addresses.
    pub srv_conf: Pointer<Vec<usize>>,
    /// Upstream initializer, by its address.
    pub init_upstream: Option<usize>,
    /// Request peer initializer, by its address.
    pub init: Option<usize>,
}

impl NativeState {
    /// The module server configuration that holds a handler's slot, by its address.
    pub open spec fn slot_of(
        self,
        upstream: UpstreamServerConf,
        module: ModuleDescriptor,
    ) -> Result<usize, UpstreamCallbackError> {
        match self.conf_in(upstream.srv_conf, module) {
            Err(error) => Err(UpstreamCallbackError::Configuration(error)),
            Ok(None) => Err(UpstreamCallbackError::MissingInitializerConfiguration),
            Ok(Some(address)) => Ok(address),
        }
    }

    /// Whether the slot arrays of an upstream, and a handler's callback slot, can be read.
    pub open spec fn slot_ready(
        self,
        upstream: UpstreamServerConf,
        module: ModuleDescriptor,
    ) -> bool {
        &&& self.holds_every_slot(upstream.srv_conf)
        &&& self.slot_of(upstream, module) matches Ok(address)
            ==> self.callback_slots@.contains_key(address)
    }

    /// The saved initializer that a handler of the upstream may call, or why it may not.
    pub open spec fn saved_upstream(
        self,
        upstream: UpstreamServerConf,
        handler: UpstreamHandler,
    ) -> Result<Option<usize>, UpstreamCallbackError> {
        match self.slot_of(upstream, handler.module) {
            Err(error) => Err(error),
            Ok(address) => if self.callback_slots@[address].owns_upstream(
                handler,
                upstream.address,
            ) {
                Ok(self.callback_slots@[address].original_upstream)
            } else {
                Err(UpstreamCallbackError::ForeignUpstreamInitializer)
            },
        }
    }
}

impl UpstreamServerConf {
    /// The upstream that nginx supplied, or what is wrong with the pointer.
    pub open spec fn checked(upstream: Pointer<UpstreamServerConf>) -> Result<
        UpstreamServerConf,
        UpstreamCallbackError,
    > {
        match upstream {
            Pointer::Null => Err(UpstreamCallbackError::NullUpstream),
            Pointer::Misaligned => Err(UpstreamCallbackError::MisalignedUpstream),
            Pointer::To(value) => Ok(value),
        }
    }

    /// Resolves the server configuration of one module, by its address.
    pub fn module_conf(&self, native: &NativeState, module: ModuleDescriptor) -> (result: Result<
        Option<usize>,
        HttpConfigError,
    >)
        requires
            native.holds_every_slot(self.srv_conf),
        ensures
            result == native.conf_in(self.srv_conf, module),
    {
        conf_slot(native, &self.srv_conf, module)
    }

    /// Resolves the mutable server configuration of one module, by its address.
    pub fn module_conf_mut(&mut self, native: &NativeState, module: ModuleDescriptor) -> (result:
        Result<Option<usize>, HttpConfigError>)
        requires
            native.holds_every_slot(old(self).srv_conf),
        ensures
            *final(self) == *old(self),
            result == native.conf_in(old(self).srv_conf, module),
    {
        conf_slot(native, &self.srv_conf, module)
    }

    /// The module server configuration that holds the slot of a module, by its address.
    pub fn callback_slot(&self, native: &NativeState, module: ModuleDescriptor) -> (result: Result<
        usize,
        UpstreamCallbackError,
    >)
        requires
            native.holds_every_slot(self.srv_conf),
        ensures
            result == native.slot_of(*self, module),
    {
        match self.module_conf(native, module) {
            Err(error) => Err(UpstreamCallbackError::from(error)),
            Ok(None) => Err(UpstreamCallbackError::MissingInitializerConfiguration),
            Ok(Some(address)) => Ok(address),
        }
    }

    /// The initializer that was installed before that of the handler.
    pub fn original_upstream(&self, native: &NativeState, handler: UpstreamHandler) -> (result:
        Result<OriginalUpstreamInit, UpstreamCallbackError>)
        requires
            native.slot_ready(*self, handler.module),
        ensures
            match native.saved_upstream(*self, handler) {
                Ok(saved) => result matches Ok(original) && original.saved() == saved,
                Err(error) => result matches Err(e) && e == error,
            },
    {
        match self.callback_slot(native, handler.module) {
            Err(error) => Err(error),
            Ok(address) => native.callback_slot(address).original_upstream(handler, self.address),
        }
    }

    /// Installs the handler's upstream initializer.
    ///
    /// A slot that is in use is left alone, as is the native callback.
    pub fn install_upstream(&mut self, native: &mut NativeState, handler: UpstreamHandler) -> (result:
        Result<(), UpstreamCallbackError>)
        requires
            old(native).slot_ready(*old(self), handler.module),
        ensures
            *final(native) == (NativeState {
                callback_slots: final(native).callback_slots,
                ..*old(native)
            }),
            match old(native).slot_of(*old(self), handler.module) {
                Err(error) => {
                    &&& result == Err::<(), UpstreamCallbackError>(error)
                    &&& *final(self) == *old(self)
                    &&& *final(native) == *old(native)
                },
                Ok(address) => if old(native).callback_slots@[address].upstream is Some {
                    &&& result == Err::<(), UpstreamCallbackError>(
                        UpstreamCallbackError::DuplicateUpstreamInitializer,
                    )
                    &&& *final(self) == *old(self)
                    &&& *final(native) == *old(native)
                } else {
                    &&& result == Ok::<(), UpstreamCallbackError>(())
                    &&& *final(self) == (UpstreamServerConf {
                        init_upstream: Some(handler.init_upstream),
                        ..*old(self)
                    })
                    &&& final(native).callback_slots@ == old(native).callback_slots@.insert(
                        address,
                        (UpstreamCallbackSlot {
                            upstream: Some(old(self).address),
                            upstream_handler: Some(handler.id),
                            original_upstream: old(self).init_upstream,
                            ..old(native).callback_slots@[address]
                        }),
                    )
                },
            },
    {
        let address = match self.callback_slot(native, handler.module) {
            Ok(address) => address,
            Err(error) => return Err(error),
        };
        let mut slot = native.callback_slot(address);
        match slot.install_upstream(handler, self.address, self.init_upstream) {
            Ok(()) => {},
            Err(error) => return Err(error),
        }
        native.put_callback_slot(address, slot);
        self.init_upstream = Some(handler.init_upstream);
        Ok(())
    }

    /// Proves that this configured upstream has a request peer initializer.
    pub fn initialized(&self) -> (result: Result<UpstreamInitialized, UpstreamCallbackError>)
        ensures
            match self.init {
                Some(_) => result matches Ok(proof_of) && proof_of.upstream() == self.address,
                None => result matches Err(UpstreamCallbackError::MissingPeerInitializer),
            },
    {
        if self.init.is_none() {
            return Err(UpstreamCallbackError::MissingPeerInitializer);
        }
        Ok(UpstreamInitialized { upstream: self.address })
    }
}

/// Proof that a configured upstream has its mandatory request peer initializer.
///
/// Only [`UpstreamServerConf::initialized`] makes one.
#[derive(Debug)]
pub struct UpstreamInitialized {
    upstream: usize,
}

impl UpstreamInitialized {
    /// The upstream that has a request peer initializer, by its address.
    pub closed spec fn upstream(self) -> usize {
        self.upstream
    }
}

/// Checked result returned by a saved native upstream initializer.
#[derive(Clone, Copy, Debug, PartialEq, Eq, Structural)]
pub enum UpstreamInitStatus {
    /// The native initializer succeeded and installed a request peer initializer.
    Initialized,
    /// The native initializer returned a non-success status.
    Unavailable,
}

/// Result of typed upstream configuration initialization.
#[derive(Debug)]
pub enum UpstreamInitialization {
    /// The mandatory request peer initializer is installed.
    Initialized(UpstreamInitialized),
    /// Configuration initialization did not succeed.
    Unavailable,
}

/// Capability to invoke one saved upstream initializer.
///
/// The installation slot makes this capability only for its handler and upstream. Calling it
/// consumes the capability, so one handler invocation cannot delegate twice.
#[derive(Debug)]
pub struct OriginalUpstreamInit {
    callback: Option<usize>,
}

impl OriginalUpstreamInit {
    /// The saved initializer, by its address.
    pub closed spec fn saved(self) -> Option<usize> {
        self.callback
    }

    /// The capability to invoke a saved initializer.
    pub(crate) fn new(callback: Option<usize>) -> (result: Self)
        ensures
            result.saved() == callback,
    {
        OriginalUpstreamInit { callback }
    }

    /// Delegates to the saved initializer with its original nginx arguments.
    ///
    /// What the initializer returned is handed to [`PendingUpstreamInit::finish`].
    pub fn call(self) -> (result: Result<PendingUpstreamInit, UpstreamCallbackError>)
        ensures
            match self.saved() {
                Some(callback) => result matches Ok(pending) && pending.callback == callback,
                None => result matches Err(UpstreamCallbackError::MissingOriginalInitUpstream),
            },
    {
        match self.callback {
            Some(callback) => Ok(PendingUpstreamInit { callback }),
            None => Err(UpstreamCallbackError::MissingOriginalInitUpstream),
        }
    }
}

/// A saved upstream initializer that is about to run.
#[derive(Debug)]
pub struct PendingUpstreamInit {
    /// The initializer, by its address.
    pub callback: usize,
}

impl PendingUpstreamInit {
    /// Checks what the initializer left behind, given the status that it returned.
    pub fn finish(self, upstream: &UpstreamServerConf, status: isize) -> (result: Result<
        UpstreamInitStatus,
        UpstreamCallbackError,
    >)
        ensures
            result == (if status != NGX_OK {
                Ok(UpstreamInitStatus::Unavailable)
            } else if upstream.init is None {
                Err(UpstreamCallbackError::MissingPeerInitializer)
            } else {
                Ok(UpstreamInitStatus::Initialized)
            }),
    {
        if status != NGX_OK {
            return Ok(UpstreamInitStatus::Unavailable);
        }
        match upstream.initialized() {
            Ok(_) => Ok(UpstreamInitStatus::Initialized),
            Err(error) => Err(error),
        }
    }
}

/// Installs a typed HTTP upstream initializer in its module-owned configuration slot.
///
/// Call this from the upstream directive setup after resolving nginx's upstream server
/// configuration. Repeated installation in the same module configuration is rejected before the
/// native callback changes.
pub fn install_upstream_initializer(
    upstream: &mut UpstreamServerConf,
    native: &mut NativeState,
    handler: UpstreamHandler,
) -> (result: Result<(), UpstreamCallbackError>)
    requires
        old(native).slot_ready(*old(upstream), handler.module),
    ensures
        *final(native) == (NativeState {
            callback_slots: final(native).callback_slots,
            ..*old(native)
        }),
        match old(native).slot_of(*old(upstream), handler.module) {
            Err(error) => {
                &&& result == Err::<(), UpstreamCallbackError>(error)
                &&& *final(upstream) == *old(upstream)
                &&& *final(native) == *old(native)
            },
            Ok(address) => if old(native).callback_slots@[address].upstream is Some {
                &&& result == Err::<(), UpstreamCallbackError>(
                    UpstreamCallbackError::DuplicateUpstreamInitializer,
                )
                &&& *final(upstream) == *old(upstream)
                &&& *final(native) == *old(native)
            } else {
                &&& result == Ok::<(), UpstreamCallbackError>(())
                &&& *final(upstream) == (UpstreamServerConf {
                    init_upstream: Some(handler.init_upstream),
                    ..*old(upstream)
                })
                &&& final(native).callback_slots@ == old(native).callback_slots@.insert(
                    address,
                    (UpstreamCallbackSlot {
                        upstream: Some(old(upstream).address),
                        upstream_handler: Some(handler.id),
                        original_upstream: old(upstream).init_upstream,
                        ..old(native).callback_slots@[address]
                    }),
                )
            },
        },
{
    upstream.install_upstream(native, handler)
}

/// The status and the record that a handler's result comes to.
pub fn upstream_init_outcome(
    configuration: &UpstreamConfiguration,
    initialized: Result<UpstreamInitialization, UpstreamCallbackError>,
) -> (result: UpstreamCallbackOutcome)
    ensures
        result == UpstreamConfiguration::decided(configuration.raw, initialized),
{
    match initialized {
        Ok(UpstreamInitialization::Initialized(_)) => UpstreamCallbackOutcome {
            status: NGX_OK,
            record: None,
        },
        Ok(UpstreamInitialization::Unavailable) => UpstreamCallbackOutcome {
            status: NGX_ERROR,
            record: None,
        },
        Err(error) => configuration.log_failure(error),
    }
}

/// The adapter that nginx calls to initialize an upstream.
///
/// A handler runs only for the upstream that it was installed for. It gets the configuration, the
/// state and the upstream as they are and the saved initializer; nginx gets what its result comes
/// to.
pub fn raw_init_upstream<H: HttpUpstreamInitializer>(
    native: &mut NativeState,
    configuration: &Pointer<NativeConfiguration>,
    upstream: &mut Pointer<UpstreamServerConf>,
    handler: UpstreamHandler,
) -> (result: UpstreamCallbackOutcome)
    requires
        *old(upstream) matches Pointer::To(value) ==> old(native).slot_ready(value, handler.module),
    ensures
        result.status == NGX_OK || result.status == NGX_ERROR,
        result.status == NGX_OK ==> result.record is None,
        match UpstreamConfiguration::checked(*configuration) {
            Err(_) => {
                &&& result == (UpstreamCallbackOutcome { status: NGX_ERROR, record: None })
                &&& *final(native) == *old(native)
                &&& *final(upstream) == *old(upstream)
            },
            Ok(raw) => match UpstreamServerConf::checked(*old(upstream)) {
                Err(error) => {
                    &&& result == UpstreamConfiguration::failed(raw, error)
                    &&& *final(native) == *old(native)
                    &&& *final(upstream) == *old(upstream)
                },
                Ok(value) => match old(native).saved_upstream(value, handler) {
                    Err(error) => {
                        &&& result == UpstreamConfiguration::failed(raw, error)
                        &&& *final(native) == *old(native)
                        &&& *final(upstream) == *old(upstream)
                    },
                    Ok(saved) => exists|
                        parsed: &UpstreamConfiguration,
                        state: &mut NativeState,
                        server: &mut UpstreamServerConf,
                        original: OriginalUpstreamInit,
                        returned: Result<UpstreamInitialization, UpstreamCallbackError>,
                    |
                        {
                            &&& #[trigger] call_ensures(
                                H::init,
                                (parsed, state, server, original),
                                returned,
                            )
                            &&& parsed.raw == raw
                            &&& original.saved() == saved
                            &&& *state == *old(native) && *final(state) == *final(native)
                            &&& *server == value && *final(upstream) == Pointer::To(*final(server))
                            &&& result == UpstreamConfiguration::decided(raw, returned)
                        },
                },
            },
        },
{
    let configuration = match UpstreamConfiguration::from_raw(configuration) {
        Ok(configuration) => configuration,
        Err(_) => return UpstreamCallbackOutcome { status: NGX_ERROR, record: None },
    };
    match upstream {
        Pointer::Null => configuration.log_failure(UpstreamCallbackError::NullUpstream),
        Pointer::Misaligned => configuration.log_failure(UpstreamCallbackError::MisalignedUpstream),
        Pointer::To(server) => {
            let original = match server.original_upstream(native, handler) {
                Ok(original) => original,
                Err(error) => return configuration.log_failure(error),
            };
            let initialized = H::init(&configuration, native, server, original);
            upstream_init_outcome(&configuration, initialized)
        },
    }
}

} // verus!
