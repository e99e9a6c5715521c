//! HTTP variables: registration, lookup, output and cache invalidation.

use vstd::prelude::*;
use vstd::slice::{slice_subrange, slice_to_vec};

use crate::native::{
    HttpConfigError, NativePool, NativeRequest, NativeState, NativeString, NginxCall, Pointer,
};
use crate::request::context::{RequestContextError, RequestContextModule};
use crate::request::view::{RequestError, RequestRef, RequestRefMut};
use crate::status::{NGX_ERROR, NGX_OK};

verus! {

/// Another module may redefine the variable.
pub const NGX_HTTP_VAR_CHANGEABLE: usize = 1;

/// The variable is evaluated on every access.
pub const NGX_HTTP_VAR_NOCACHEABLE: usize = 2;

/// The variable has an index.
pub const NGX_HTTP_VAR_INDEXED: usize = 4;

/// The variable is not in the name hash.
pub const NGX_HTTP_VAR_NOHASH: usize = 8;

/// A later definition may replace the variable.
pub const NGX_HTTP_VAR_WEAK: usize = 16;

/// The variable stands for all names with its prefix.
pub const NGX_HTTP_VAR_PREFIX: usize = 32;

/// Size of one native variable definition.
pub const VARIABLE_SIZE: usize = 56;

/// Flags controlling HTTP variable registration and caching.
#[derive(Clone, Copy, Debug, PartialEq, Eq, Structural)]
pub struct HttpVariableFlags {
    pub bits: usize,
}

impl HttpVariableFlags {
    /// Allows another module to redefine the variable.
    pub const CHANGEABLE: usize = NGX_HTTP_VAR_CHANGEABLE;

    /// Re-evaluates the variable instead of caching its first value.
    pub const NOCACHEABLE: usize = NGX_HTTP_VAR_NOCACHEABLE;

    /// Excludes the variable from the name hash.
    pub const NOHASH: usize = NGX_HTTP_VAR_NOHASH;

    /// Lets a later non-weak definition replace this variable.
    pub const WEAK: usize = NGX_HTTP_VAR_WEAK;

    /// Native prefix marker applied automatically by [`add_prefix_variable`].
    pub const PREFIX: usize = NGX_HTTP_VAR_PREFIX;

    /// All bits that have a name.
    pub const ALL: usize = 59;

    /// No flags.
    pub fn empty() -> (result: Self)
        ensures
            result.bits == 0,
    {
        HttpVariableFlags { bits: 0 }
    }

    /// All flags that have a name.
    pub fn all() -> (result: Self)
        ensures
            result.bits == Self::ALL,
    {
        HttpVariableFlags { bits: Self::ALL }
    }

    /// The flags of some bits, whether or not all of them have a name.
    pub fn from_bits_retain(bits: usize) -> (result: Self)
        ensures
            result.bits == bits,
    {
        HttpVariableFlags { bits }
    }

    /// The bits of the flags.
    pub fn bits(&self) -> (result: usize)
        ensures
            result == self.bits,
    {
        self.bits
    }

    /// Whether all of `bits` are set.
    pub fn contains(&self, bits: usize) -> (result: bool)
        ensures
            result == (self.bits & bits == bits),
    {
        self.bits & bits == bits
    }

    /// Whether a variable may be registered with the flags: all of them have a name, and the prefix
    /// marker is not among them.
    pub open spec fn registrable(self) -> bool {
        self.bits & !Self::ALL == 0 && self.bits & Self::PREFIX != Self::PREFIX
    }

    /// Whether a variable may be registered with the flags.
    fn is_registrable(&self) -> (result: bool)
        ensures
            result == self.registrable(),
    {
        self.bits & !Self::ALL == 0 && !self.contains(Self::PREFIX)
    }

    /// A variable may be registered with any of the four public flags, and with no other.
    pub proof fn law_registrable_flags(self)
        ensures
            self.registrable() == (self.bits & !(Self::CHANGEABLE | Self::NOCACHEABLE | Self::NOHASH
                | Self::WEAK) == 0),
    {
        let bits = self.bits;
        assert((bits & !59usize == 0 && bits & 32usize != 32usize) == (bits & !(1usize | 2usize
            | 8usize | 16usize) == 0)) by (bit_vector);
    }
}

impl Default for HttpVariableFlags {
    fn default() -> (result: Self)
        ensures
            result.bits == 0,
    {
        HttpVariableFlags { bits: 0 }
    }
}

/// A variable definition as nginx holds it.
#[derive(Clone, Copy, Debug, PartialEq, Eq, Structural)]
pub struct VariableDefinition {
    /// Getter, by its address.
    pub get_handler: Option<usize>,
    /// Setter, by its address.
    pub set_handler: Option<usize>,
    pub data: usize,
    pub flags: usize,
}

/// A native array of variable definitions.
#[derive(Debug)]
pub struct VariableArray {
    pub elts: Pointer<Vec<VariableDefinition>>,
    pub nelts: usize,
    pub nalloc: usize,
    pub size: usize,
}

/// The HTTP core main configuration, as far as variables go.
#[derive(Debug)]
pub struct NativeCoreMain {
    /// Indexed variables.
    pub variables: VariableArray,
    /// Number of prefix variables.
    pub prefix_nelts: usize,
}

/// A variable value as nginx holds it.
#[derive(Debug)]
pub struct VariableValue {
    pub len: usize,
    pub valid: bool,
    pub no_cacheable: bool,
    pub not_found: bool,
    pub escape: bool,
    /// Bytes behind the data pointer, unless it is null.
    pub data: Option<Vec<u8>>,
}

/// The indexed variable values of a request.
#[derive(Debug)]
pub struct VariableStore {
    /// Where the values lie.
    pub address: usize,
    pub values: Vec<VariableValue>,
}

/// Error returned when nginx rejects an HTTP variable registration.
#[derive(Clone, Copy, Debug, PartialEq, Eq, Structural)]
pub struct HttpVariableRegistrationError;

impl HttpVariableRegistrationError {
    /// The text of the error.
    pub fn message(&self) -> (result: &'static str)
        ensures
            result@ == "failed to register HTTP variable"@,
    {
        "failed to register HTTP variable"
    }
}

/// Error returned when nginx cannot create an indexed HTTP variable reference.
#[derive(Clone, Copy, Debug, PartialEq, Eq, Structural)]
pub enum HttpVariableIndexError {
    /// The configuration cannot resolve the HTTP core main configuration.
    Configuration(HttpConfigError),
    /// The configuration has no HTTP core main configuration.
    MissingCoreMainConfiguration,
    /// Nginx rejected the variable name or could not allocate its index.
    Registration,
}

impl HttpVariableIndexError {
    /// The text of the error.
    pub fn message(&self) -> (result: &'static str)
        ensures
            result@ == (match *self {
                HttpVariableIndexError::Configuration(_) => "failed to resolve HTTP variable configuration"@,
                HttpVariableIndexError::MissingCoreMainConfiguration => "HTTP core main configuration is unavailable"@,
                HttpVariableIndexError::Registration => "failed to create HTTP variable index"@,
            }),
    {
        match self {
            HttpVariableIndexError::Configuration(_) => "failed to resolve HTTP variable configuration",
            HttpVariableIndexError::MissingCoreMainConfiguration => "HTTP core main configuration is unavailable",
            HttpVariableIndexError::Registration => "failed to create HTTP variable index",
        }
    }
}

impl From<HttpConfigError> for HttpVariableIndexError {
    fn from(error: HttpConfigError) -> (result: Self) {
        HttpVariableIndexError::Configuration(error)
    }
}

impl vstd::std_specs::convert::FromSpecImpl<HttpConfigError> for HttpVariableIndexError {
    open spec fn obeys_from_spec() -> bool {
        true
    }

    open spec fn from_spec(error: HttpConfigError) -> Self {
        HttpVariableIndexError::Configuration(error)
    }
}

/// Opaque index for one HTTP core configuration.
///
/// Create a new index during each configuration pass. An index is not interchangeable between
/// independently allocated HTTP core configurations.
#[derive(Clone, Copy, Debug, PartialEq, Eq, Structural)]
pub struct HttpVariableIndex {
    pub index: usize,
    /// The configuration, by its address.
    pub core_main: usize,
}

/// Error returned when nginx's indexed HTTP variable cache cannot be invalidated safely.
#[derive(Clone, Copy, Debug, PartialEq, Eq, Structural)]
pub enum HttpVariableCacheInvalidationError {
    /// The request cannot resolve the HTTP core main configuration.
    Configuration(HttpConfigError),
    /// The request has no HTTP core main configuration.
    MissingCoreMainConfiguration,
    /// A preserved index belongs to a different HTTP core configuration.
    ForeignIndex,
    /// A preserved index is outside the configured definition array.
    IndexOutOfBounds,
    /// Nginx's configured variable-definition array cannot be read safely.
    InvalidDefinitionArray,
    /// The request has no indexed-variable storage.
    MissingRequestVariables,
    /// The request's indexed-variable storage is misaligned.
    MisalignedRequestVariables,
    /// The invalidation was prepared for a different request.
    ForeignRequest,
}

impl HttpVariableCacheInvalidationError {
    /// The text of the error.
    pub open spec fn text(self) -> Seq<char> {
        match self {
            HttpVariableCacheInvalidationError::Configuration(_) => "failed to resolve HTTP variable configuration"@,
            HttpVariableCacheInvalidationError::MissingCoreMainConfiguration => "HTTP core main configuration is unavailable"@,
            HttpVariableCacheInvalidationError::ForeignIndex => "preserved HTTP variable index belongs to another configuration"@,
            HttpVariableCacheInvalidationError::IndexOutOfBounds => "preserved HTTP variable index is out of bounds"@,
            HttpVariableCacheInvalidationError::InvalidDefinitionArray => "HTTP variable definitions are invalid"@,
            HttpVariableCacheInvalidationError::MissingRequestVariables => "request has no indexed HTTP variable storage"@,
            HttpVariableCacheInvalidationError::MisalignedRequestVariables => "request HTTP variable storage is misaligned"@,
            HttpVariableCacheInvalidationError::ForeignRequest => "HTTP variable invalidation belongs to another request"@,
        }
    }

    /// The text of the error.
    pub fn message(&self) -> (result: &'static str)
        ensures
            result@ == self.text(),
    {
        match self {
            HttpVariableCacheInvalidationError::Configuration(_) => "failed to resolve HTTP variable configuration",
            HttpVariableCacheInvalidationError::MissingCoreMainConfiguration => "HTTP core main configuration is unavailable",
            HttpVariableCacheInvalidationError::ForeignIndex => "preserved HTTP variable index belongs to another configuration",
            HttpVariableCacheInvalidationError::IndexOutOfBounds => "preserved HTTP variable index is out of bounds",
            HttpVariableCacheInvalidationError::InvalidDefinitionArray => "HTTP variable definitions are invalid",
            HttpVariableCacheInvalidationError::MissingRequestVariables => "request has no indexed HTTP variable storage",
            HttpVariableCacheInvalidationError::MisalignedRequestVariables => "request HTTP variable storage is misaligned",
            HttpVariableCacheInvalidationError::ForeignRequest => "HTTP variable invalidation belongs to another request",
        }
    }
}

impl From<HttpConfigError> for HttpVariableCacheInvalidationError {
    fn from(error: HttpConfigError) -> (result: Self) {
        HttpVariableCacheInvalidationError::Configuration(error)
    }
}

impl vstd::std_specs::convert::FromSpecImpl<HttpConfigError> for HttpVariableCacheInvalidationError {
    open spec fn obeys_from_spec() -> bool {
        true
    }

    open spec fn from_spec(error: HttpConfigError) -> Self {
        HttpVariableCacheInvalidationError::Configuration(error)
    }
}

/// Error returned when an indexed HTTP variable cannot be looked up safely.
#[derive(Clone, Copy, Debug, PartialEq, Eq, Structural)]
pub enum HttpVariableLookupError {
    /// The request cannot resolve the HTTP core main configuration.
    Configuration(HttpConfigError),
    /// The request has no HTTP core main configuration.
    MissingCoreMainConfiguration,
    /// The index belongs to a different HTTP core configuration.
    ForeignConfiguration,
    /// The indexed variable is outside the configured definition array.
    IndexOutOfBounds,
    /// Nginx's configured variable-definition array cannot be read safely.
    InvalidDefinitionArray,
    /// The indexed variable has no getter that nginx can invoke.
    MissingHandler,
    /// The request has no indexed-variable storage.
    MissingRequestVariables,
    /// The request's indexed-variable storage is misaligned.
    MisalignedRequestVariables,
    /// Nginx returned no indexed value.
    NullResult,
    /// Nginx returned an indexed value with invalid pointer state.
    InvalidResult,
}

impl HttpVariableLookupError {
    /// The text of the error.
    pub open spec fn text(self) -> Seq<char> {
        match self {
            HttpVariableLookupError::Configuration(_) => "failed to resolve HTTP variable configuration"@,
            HttpVariableLookupError::MissingCoreMainConfiguration => "HTTP core main configuration is unavailable"@,
            HttpVariableLookupError::ForeignConfiguration => "HTTP variable index belongs to another configuration"@,
            HttpVariableLookupError::IndexOutOfBounds => "HTTP variable index is out of bounds"@,
            HttpVariableLookupError::InvalidDefinitionArray => "HTTP variable definitions are invalid"@,
            HttpVariableLookupError::MissingHandler => "HTTP variable has no getter"@,
            HttpVariableLookupError::MissingRequestVariables => "request has no indexed HTTP variable storage"@,
            HttpVariableLookupError::MisalignedRequestVariables => "request HTTP variable storage is misaligned"@,
            HttpVariableLookupError::NullResult => "nginx returned no HTTP variable value"@,
            HttpVariableLookupError::InvalidResult => "nginx returned an invalid HTTP variable value"@,
        }
    }

    /// The text of the error.
    pub fn message(&self) -> (result: &'static str)
        ensures
            result@ == self.text(),
    {
        match self {
            HttpVariableLookupError::Configuration(_) => "failed to resolve HTTP variable configuration",
            HttpVariableLookupError::MissingCoreMainConfiguration => "HTTP core main configuration is unavailable",
            HttpVariableLookupError::ForeignConfiguration => "HTTP variable index belongs to another configuration",
            HttpVariableLookupError::IndexOutOfBounds => "HTTP variable index is out of bounds",
            HttpVariableLookupError::InvalidDefinitionArray => "HTTP variable definitions are invalid",
            HttpVariableLookupError::MissingHandler => "HTTP variable has no getter",
            HttpVariableLookupError::MissingRequestVariables => "request has no indexed HTTP variable storage",
            HttpVariableLookupError::MisalignedRequestVariables => "request HTTP variable storage is misaligned",
            HttpVariableLookupError::NullResult => "nginx returned no HTTP variable value",
            HttpVariableLookupError::InvalidResult => "nginx returned an invalid HTTP variable value",
        }
    }
}

impl From<HttpConfigError> for HttpVariableLookupError {
    fn from(error: HttpConfigError) -> (result: Self) {
        HttpVariableLookupError::Configuration(error)
    }
}

impl vstd::std_specs::convert::FromSpecImpl<HttpConfigError> for HttpVariableLookupError {
    open spec fn obeys_from_spec() -> bool {
        true
    }

    open spec fn from_spec(error: HttpConfigError) -> Self {
        HttpVariableLookupError::Configuration(error)
    }
}

/// Error returned when HTTP variable output cannot be published safely.
#[derive(Clone, Copy, Debug, PartialEq, Eq, Structural)]
pub enum HttpVariableOutputError {
    /// The value exceeds nginx's 28-bit variable length field.
    TooLong,
    /// A nonempty value has no backing bytes.
    NullData,
    /// The request has no usable pool.
    Request(RequestError),
    /// Nginx could not allocate request-pool storage for copied bytes.
    Allocation,
    /// The supplied pool bytes belong to a different request pool.
    PoolMismatch,
}

impl HttpVariableOutputError {
    /// The text of the error.
    pub open spec fn text(self) -> Seq<char> {
        match self {
            HttpVariableOutputError::TooLong => "HTTP variable value is too long"@,
            HttpVariableOutputError::NullData => "HTTP variable value has null data"@,
            HttpVariableOutputError::Request(_) => "HTTP request has no usable pool"@,
            HttpVariableOutputError::Allocation => "failed to allocate HTTP variable bytes"@,
            HttpVariableOutputError::PoolMismatch => "HTTP variable bytes belong to another pool"@,
        }
    }

    /// The text of the error.
    pub fn message(&self) -> (result: &'static str)
        ensures
            result@ == self.text(),
    {
        match self {
            HttpVariableOutputError::TooLong => "HTTP variable value is too long",
            HttpVariableOutputError::NullData => "HTTP variable value has null data",
            HttpVariableOutputError::Request(_) => "HTTP request has no usable pool",
            HttpVariableOutputError::Allocation => "failed to allocate HTTP variable bytes",
            HttpVariableOutputError::PoolMismatch => "HTTP variable bytes belong to another pool",
        }
    }
}

impl From<RequestError> for HttpVariableOutputError {
    fn from(error: RequestError) -> (result: Self) {
        HttpVariableOutputError::Request(error)
    }
}

impl vstd::std_specs::convert::FromSpecImpl<RequestError> for HttpVariableOutputError {
    open spec fn obeys_from_spec() -> bool {
        true
    }

    open spec fn from_spec(error: RequestError) -> Self {
        HttpVariableOutputError::Request(error)
    }
}

impl VariableArray {
    /// Whether the array layout is invalid. An empty array needs no storage.
    pub open spec fn invalid(self) -> bool {
        ||| self.nelts > self.nalloc
        ||| self.size != VARIABLE_SIZE
        ||| self.nelts != 0 && !(self.elts is To)
    }

    /// Whether an array with a valid layout holds the definitions that it counts.
    pub open spec fn faithful(self) -> bool {
        self.elts matches Pointer::To(definitions) ==> self.nelts <= self.nalloc ==> self.nelts
            <= definitions@.len()
    }

    /// The definitions.
    pub open spec fn definitions(self) -> Seq<VariableDefinition> {
        match self.elts {
            Pointer::To(definitions) => definitions@,
            _ => Seq::empty(),
        }
    }

    /// Whether the storage pointer leads to definitions.
    fn has_storage(&self) -> (result: bool)
        ensures
            result == (self.elts is To),
    {
        match &self.elts {
            Pointer::To(_) => true,
            _ => false,
        }
    }

    /// The definition at `index`.
    fn get(&self, index: usize) -> (result: VariableDefinition)
        requires
            index < self.definitions().len(),
        ensures
            result == self.definitions()[index as int],
    {
        match &self.elts {
            Pointer::To(definitions) => definitions[index],
            _ => VariableDefinition { get_handler: None, set_handler: None, data: 0, flags: 0 },
        }
    }
}

impl NativeState {
    /// The HTTP core main configuration of a request, or what is wrong with it.
    pub open spec fn core_main_of(self, raw: usize) -> Result<Option<usize>, HttpConfigError> {
        self.conf_in(self.requests@[raw].main_conf, self.core_module)
    }

    /// Whether the native objects that variables are read from can be read.
    pub open spec fn variables_ready(self, raw: usize) -> bool {
        &&& self.requests@.contains_key(raw)
        &&& self.holds_every_slot(self.requests@[raw].main_conf)
        &&& self.core_main_of(raw) matches Ok(Some(core_main)) ==> {
            &&& self.core_mains@.contains_key(core_main)
            &&& self.core_mains@[core_main].variables.faithful()
            &&& self.requests@[raw].variables matches Pointer::To(store)
                ==> self.core_mains@[core_main].variables.nelts <= store.values@.len()
        }
    }
}

/// Checked one-shot invalidation of getter-backed indexed HTTP variable values.
///
/// Preparation validates every pointer and preserved index before request state changes. Commit
/// clears getter-backed cached values, including changeable computed variables such as maps, while
/// preserving explicitly listed indexes and native weak slots assigned directly by rewrite code.
#[derive(Debug)]
pub struct HttpVariableCacheInvalidation<'preserved> {
    pub request: usize,
    /// The configuration, by its address.
    pub core_main: usize,
    /// Where the values of the request lie.
    pub values: usize,
    pub count: usize,
    pub preserved: &'preserved [HttpVariableIndex],
}

impl NativeState {
    /// What is wrong with the first bad one of the preserved indexes.
    pub open spec fn preserved_fault(
        core_main: usize,
        nelts: usize,
        preserved: Seq<HttpVariableIndex>,
    ) -> Option<HttpVariableCacheInvalidationError>
        decreases preserved.len(),
    {
        if preserved.len() == 0 {
            None
        } else if preserved[0].core_main != core_main {
            Some(HttpVariableCacheInvalidationError::ForeignIndex)
        } else if preserved[0].index >= nelts {
            Some(HttpVariableCacheInvalidationError::IndexOutOfBounds)
        } else {
            Self::preserved_fault(core_main, nelts, preserved.drop_first())
        }
    }

    /// Why the variable cache of a request cannot be invalidated.
    pub open spec fn invalidation_fault(
        self,
        raw: usize,
        preserved: Seq<HttpVariableIndex>,
    ) -> Option<HttpVariableCacheInvalidationError> {
        match self.core_main_of(raw) {
            Err(error) => Some(HttpVariableCacheInvalidationError::Configuration(error)),
            Ok(None) => Some(HttpVariableCacheInvalidationError::MissingCoreMainConfiguration),
            Ok(Some(core_main)) => {
                let variables = self.core_mains@[core_main].variables;
                if variables.invalid() {
                    Some(HttpVariableCacheInvalidationError::InvalidDefinitionArray)
                } else {
                    match Self::preserved_fault(core_main, variables.nelts, preserved) {
                        Some(error) => Some(error),
                        None => if variables.nelts == 0 {
                            None
                        } else {
                            match self.requests@[raw].variables {
                                Pointer::Null => Some(
                                    HttpVariableCacheInvalidationError::MissingRequestVariables,
                                ),
                                Pointer::Misaligned => Some(
                                    HttpVariableCacheInvalidationError::MisalignedRequestVariables,
                                ),
                                Pointer::To(_) => None,
                            }
                        },
                    }
                }
            },
        }
    }
}

impl<'preserved> HttpVariableCacheInvalidation<'preserved> {
    /// Validates the request cache and indexes that must survive invalidation.
    pub fn prepare(
        request: &RequestRefMut,
        native: &NativeState,
        preserved: &'preserved [HttpVariableIndex],
    ) -> (result: Result<Self, HttpVariableCacheInvalidationError>)
        requires
            native.variables_ready(request.raw),
        ensures
            match native.invalidation_fault(request.raw, preserved@) {
                Some(error) => result matches Err(e) && e == error,
                None => {
                    &&& result matches Ok(invalidation)
                    &&& invalidation.request == request.raw
                    &&& Ok::<Option<usize>, HttpConfigError>(Some(invalidation.core_main))
                        == native.core_main_of(request.raw)
                    &&& invalidation.count
                        == native.core_mains@[invalidation.core_main].variables.nelts
                    &&& invalidation.preserved == preserved
                    &&& native.requests@[request.raw].variables matches Pointer::To(store)
                        ==> invalidation.values == store.address
                },
            },
    {
        let core_module = native.core_module;
        let core_main = match request.main_conf(native, core_module) {
            Ok(Some(core_main)) => core_main,
            Ok(None) => return Err(
                HttpVariableCacheInvalidationError::MissingCoreMainConfiguration,
            ),
            Err(error) => return Err(HttpVariableCacheInvalidationError::from(error)),
        };
        let variables = &native.core_main(core_main).variables;
        if variables.nelts > variables.nalloc || variables.size != VARIABLE_SIZE || (variables.nelts
            != 0 && !variables.has_storage()) {
            return Err(HttpVariableCacheInvalidationError::InvalidDefinitionArray);
        }
        let ghost all = preserved@;
        let mut next: usize = 0;
        assert(all.skip(0) =~= all);
        while next < preserved.len()
            invariant
                next <= all.len(),
                all == preserved@,
                NativeState::preserved_fault(core_main, variables.nelts, all)
                    == NativeState::preserved_fault(
                    core_main,
                    variables.nelts,
                    all.skip(next as int),
                ),
                native.core_main_of(request.raw) == Ok::<Option<usize>, HttpConfigError>(
                    Some(core_main),
                ),
                *variables == native.core_mains@[core_main].variables,
                !variables.invalid(),
            decreases all.len() - next,
        {
            assert(all.skip(next as int).drop_first() =~= all.skip(next + 1));
            let index = preserved[next];
            if index.core_main != core_main {
                return Err(HttpVariableCacheInvalidationError::ForeignIndex);
            }
            if index.index >= variables.nelts {
                return Err(HttpVariableCacheInvalidationError::IndexOutOfBounds);
            }
            next = next + 1;
        }
        assert(all.skip(next as int) =~= Seq::empty());
        let values = match &native.request(request.raw).variables {
            Pointer::To(store) => store.address,
            Pointer::Null => {
                if variables.nelts != 0 {
                    return Err(HttpVariableCacheInvalidationError::MissingRequestVariables);
                }
                0
            },
            Pointer::Misaligned => {
                if variables.nelts != 0 {
                    return Err(HttpVariableCacheInvalidationError::MisalignedRequestVariables);
                }
                0
            },
        };
        Ok(
            HttpVariableCacheInvalidation {
                request: request.raw,
                core_main,
                values,
                count: variables.nelts,
                preserved,
            },
        )
    }

    /// Whether a value is recomputed by the getter of its definition and may be dropped.
    pub open spec fn recomputable(self, definition: VariableDefinition, index: int) -> bool {
        &&& definition.get_handler is Some
        &&& definition.flags & NGX_HTTP_VAR_WEAK == 0
        &&& !exists|i: int|
            0 <= i < self.preserved@.len() && #[trigger] self.preserved@[i].index == index
    }

    /// Whether the invalidation does not belong to a request as it is now.
    pub open spec fn foreign(self, native: NativeState, raw: usize) -> bool {
        ||| raw != self.request
        ||| self.count != 0 && !(native.requests@[raw].variables matches Pointer::To(store)
            && store.address == self.values)
    }

    /// Whether these are the values of `before` once the recomputable ones were dropped.
    pub open spec fn invalidated(
        self,
        definitions: Seq<VariableDefinition>,
        before: Seq<VariableValue>,
        after: Seq<VariableValue>,
    ) -> bool {
        &&& after.len() == before.len()
        &&& forall|i: int|
            0 <= i < before.len() ==> #[trigger] after[i] == (if i < self.count
                && self.recomputable(definitions[i], i) {
                VariableValue { valid: false, not_found: false, ..before[i] }
            } else {
                before[i]
            })
    }

    /// Invalidates the prepared request's recomputable variable values.
    pub fn commit(self, request: &mut RequestRefMut, native: &mut NativeState) -> (result: Result<
        (),
        HttpVariableCacheInvalidationError,
    >)
        requires
            old(native).requests@.contains_key(old(request).raw),
            old(native).core_mains@.contains_key(self.core_main),
            self.count <= old(native).core_mains@[self.core_main].variables.definitions().len(),
            old(native).requests@[old(request).raw].variables matches Pointer::To(store)
                ==> self.count <= store.values@.len(),
        ensures
            *final(request) == *old(request),
            *final(native) == (NativeState { requests: final(native).requests, ..*old(native) }),
            ({
                let raw = old(request).raw;
                let before = old(native).requests@[raw];
                let after = final(native).requests@[raw];
                if self.foreign(*old(native), raw) {
                    &&& result == Err::<(), HttpVariableCacheInvalidationError>(
                        HttpVariableCacheInvalidationError::ForeignRequest,
                    )
                    &&& final(native).requests@ == old(native).requests@
                } else {
                    &&& result == Ok::<(), HttpVariableCacheInvalidationError>(())
                    &&& final(native).requests@ == old(native).requests@.insert(raw, after)
                    &&& after == (NativeRequest { variables: after.variables, ..before })
                    &&& match before.variables {
                        Pointer::To(store) => {
                            &&& after.variables matches Pointer::To(store_after)
                            &&& store_after.address == store.address
                            &&& self.invalidated(
                                old(native).core_mains@[self.core_main].variables.definitions(),
                                store.values@,
                                store_after.values@,
                            )
                        },
                        _ => after.variables == before.variables,
                    }
                }
            }),
    {
        let raw = request.raw;
        if raw != self.request {
            return Err(HttpVariableCacheInvalidationError::ForeignRequest);
        }
        let same = match &native.request(raw).variables {
            Pointer::To(store) => store.address == self.values,
            _ => false,
        };
        if self.count != 0 && !same {
            return Err(HttpVariableCacheInvalidationError::ForeignRequest);
        }
        if self.count == 0 {
            assert(native.requests@ =~= native.requests@.insert(raw, native.requests@[raw]));
            return Ok(());
        }
        let mut owner = native.take_request(raw);
        let variables = &native.core_main(self.core_main).variables;
        let ghost definitions = variables.definitions();
        let taken = owner.variables;
        owner.variables = Pointer::Null;
        match taken {
            Pointer::To(store) => {
                let mut store = store;
                let ghost before = store.values@;
                let ghost address = store.address;
                let mut index: usize = 0;
                while index < self.count
                    invariant
                        store.address == address,
                        index <= self.count <= before.len(),
                        self.count <= definitions.len(),
                        definitions == variables.definitions(),
                        store.values@.len() == before.len(),
                        forall|i: int|
                            0 <= i < before.len() ==> #[trigger] store.values@[i] == (if i < index
                                && self.recomputable(definitions[i], i) {
                                VariableValue { valid: false, not_found: false, ..before[i] }
                            } else {
                                before[i]
                            }),
                    decreases self.count - index,
                {
                    let definition = variables.get(index);
                    if definition.get_handler.is_some() && definition.flags & NGX_HTTP_VAR_WEAK == 0
                        && !self.preserves(index) {
                        let mut value = store.values.remove(index);
                        value.valid = false;
                        value.not_found = false;
                        store.values.insert(index, value);
                    }
                    index = index + 1;
                }
                assert(self.invalidated(definitions, before, store.values@));
                owner.variables = Pointer::To(store);
            },
            _ => {},
        }
        native.put_request(raw, owner);
        assert(native.requests@ =~= old(native).requests@.insert(raw, owner));
        Ok(())
    }

    /// Whether an index is among the preserved ones.
    fn preserves(&self, index: usize) -> (result: bool)
        ensures
            result == exists|i: int|
                0 <= i < self.preserved@.len() && #[trigger] self.preserved@[i].index == index,
    {
        let mut next: usize = 0;
        while next < self.preserved.len()
            invariant
                next <= self.preserved@.len(),
                forall|i: int| 0 <= i < next ==> #[trigger] self.preserved@[i].index != index,
            decreases self.preserved@.len() - next,
        {
            if self.preserved[next].index == index {
                return true;
            }
            next = next + 1;
        }
        false
    }
}

/// Bytes copied into the current HTTP request pool for a variable output.
#[derive(Debug)]
pub struct HttpVariablePoolBytes {
    pub data: Vec<u8>,
    /// The pool, by its address.
    pub pool: usize,
}

/// Longest value of a variable: its length field has 28 bits.
pub const VARIABLE_MAX_LEN: usize = 268_435_455;

impl HttpVariablePoolBytes {
    /// What copying bytes into the pool of a request makes of `before`.
    pub open spec fn copied(
        before: NativeState,
        after: NativeState,
        request: usize,
        value: Seq<u8>,
        result: Result<HttpVariablePoolBytes, HttpVariableOutputError>,
    ) -> bool {
        &&& after == (NativeState { pools: after.pools, ..before })
        &&& if value.len() > VARIABLE_MAX_LEN {
            &&& result matches Err(e) && e == HttpVariableOutputError::TooLong
            &&& after.pools@ == before.pools@
        } else {
            match before.pool_of(request) {
                Err(error) => {
                    &&& result matches Err(e) && e == HttpVariableOutputError::Request(error)
                    &&& after.pools@ == before.pools@
                },
                Ok(pool) => if value.len() == 0 {
                    &&& result matches Ok(bytes) && bytes.data@ == value && bytes.pool == pool
                    &&& after.pools@ == before.pools@
                } else if before.pools@[pool].blocks@.len() == 0 {
                    &&& result matches Err(e) && e == HttpVariableOutputError::Allocation
                    &&& after.drew_from(before, pool)
                } else {
                    &&& result matches Ok(bytes) && bytes.data@ == value && bytes.pool == pool
                    &&& after.drew(before, pool, 1)
                },
            }
        }
    }

    /// Copies bytes into the pool owned by `request`.
    pub fn copy_from_request(request: &RequestRefMut, native: &mut NativeState, value: &[u8]) -> (result:
        Result<Self, HttpVariableOutputError>)
        requires
            old(native).requests@.contains_key(request.raw),
            old(native).pool_resolves(request.raw),
        ensures
            Self::copied(*old(native), *final(native), request.raw, value@, result),
    {
        if value.len() > VARIABLE_MAX_LEN {
            return Err(HttpVariableOutputError::TooLong);
        }
        let address = match request.pool(native) {
            Ok(address) => address,
            Err(error) => return Err(HttpVariableOutputError::from(error)),
        };
        if value.len() > 0 {
            let mut pool = native.take_pool(address);
            proof {
                NativePool::lemma_spend(pool.blocks@, 1, 0);
            }
            let block = pool.allocate();
            native.put_pool(address, pool);
            assert(native.pools@ =~= old(native).pools@.insert(address, pool));
            if block.is_none() {
                return Err(HttpVariableOutputError::Allocation);
            }
        }
        Ok(HttpVariablePoolBytes { data: slice_to_vec(value), pool: address })
    }

    /// Returns the bytes retained by the request pool.
    pub fn bytes(&self) -> (result: &[u8])
        ensures
            result@ == self.data@,
    {
        self.data.as_slice()
    }
}

impl VariableValue {
    /// The found value of `bytes`.
    pub open spec fn is_found(self, bytes: Seq<u8>, cacheable: bool) -> bool {
        &&& self.len == bytes.len()
        &&& self.valid
        &&& self.no_cacheable == !cacheable
        &&& !self.not_found
        &&& !self.escape
        &&& if bytes.len() == 0 {
            self.data is None
        } else {
            self.data matches Some(data) && bytes.len() <= data@.len() && data@.take(
                bytes.len() as int,
            ) == bytes
        }
    }

    /// Nginx's not-found state.
    pub open spec fn is_absent(self) -> bool {
        &&& self.len == 0
        &&& !self.valid
        &&& self.no_cacheable
        &&& self.not_found
        &&& !self.escape
        &&& self.data is None
    }

    /// Whether the value has the bytes that its length promises, as far as it has data.
    pub open spec fn readable(self) -> bool {
        self.data matches Some(data) ==> self.len <= data@.len()
    }

    /// Whether a found value lacks its bytes.
    pub open spec fn broken(self) -> bool {
        !self.not_found && self.len != 0 && self.data is None
    }

    /// The found bytes, or `None` in the not-found state.
    pub open spec fn found(self) -> Option<Seq<u8>> {
        if self.not_found {
            None
        } else if self.len == 0 || self.data is None {
            Some(Seq::empty())
        } else {
            Some(self.data->Some_0@.take(self.len as int))
        }
    }

    /// Nginx's not-found state.
    fn absent() -> (result: VariableValue)
        ensures
            result.is_absent(),
    {
        VariableValue {
            len: 0,
            valid: false,
            no_cacheable: true,
            not_found: true,
            escape: false,
            data: None,
        }
    }

    /// A value that was set reads back as it was set.
    pub proof fn law_found_value_reads_back(self, bytes: Seq<u8>, cacheable: bool)
        requires
            self.is_found(bytes, cacheable),
        ensures
            self.found() == Some(bytes),
            self.readable(),
            !self.broken(),
            self.valid,
            !self.no_cacheable == cacheable,
    {
        assert(bytes.len() == 0 ==> bytes =~= Seq::empty());
    }
}

/// Write-only result supplied to an HTTP variable getter.
#[derive(Debug)]
pub struct HttpVariableOutput {
    pub candidate: Option<VariableValue>,
}

impl HttpVariableOutput {
    /// Longest value.
    pub const MAX_LEN: usize = VARIABLE_MAX_LEN;

    /// An output for the value that nginx supplied, if it can be written.
    pub fn from_raw(value: &Pointer<VariableValue>) -> (result: Option<HttpVariableOutput>)
        ensures
            match *value {
                Pointer::To(_) => result matches Some(output) && output.candidate is None,
                _ => result is None,
            },
    {
        match value {
            Pointer::To(_) => Some(HttpVariableOutput { candidate: None }),
            _ => None,
        }
    }

    /// What setting found bytes leads to.
    pub open spec fn set(
        self,
        before: HttpVariableOutput,
        len: usize,
        data: Option<Seq<u8>>,
        cacheable: bool,
        result: Result<(), HttpVariableOutputError>,
    ) -> bool {
        if len > VARIABLE_MAX_LEN {
            result == Err::<(), HttpVariableOutputError>(HttpVariableOutputError::TooLong) && self
                == before
        } else if len != 0 && data is None {
            result == Err::<(), HttpVariableOutputError>(HttpVariableOutputError::NullData) && self
                == before
        } else {
            &&& result == Ok::<(), HttpVariableOutputError>(())
            &&& self.candidate matches Some(value) && value.is_found(
                if len == 0 {
                    Seq::empty()
                } else {
                    data->Some_0.take(len as int)
                },
                cacheable,
            )
        }
    }

    /// Stores bytes whose static lifetime outlives every nginx request.
    pub fn set_static(&mut self, value: &'static [u8]) -> (result: Result<
        (),
        HttpVariableOutputError,
    >)
        ensures
            final(self).set(*old(self), value@.len() as usize, Some(value@), true, result),
    {
        self.set_found(value.len(), Some(slice_to_vec(value)), true)
    }

    /// Stores static bytes and asks nginx to evaluate the getter on every access.
    pub fn set_static_uncached(&mut self, value: &'static [u8]) -> (result: Result<
        (),
        HttpVariableOutputError,
    >)
        ensures
            final(self).set(*old(self), value@.len() as usize, Some(value@), false, result),
    {
        self.set_found(value.len(), Some(slice_to_vec(value)), false)
    }

    /// Stores a cacheable value backed by nginx-owned bytes.
    pub fn set_borrowed(&mut self, data: Option<Vec<u8>>, len: usize) -> (result: Result<
        (),
        HttpVariableOutputError,
    >)
        requires
            data matches Some(bytes) ==> len <= bytes@.len(),
        ensures
            final(self).set(
                *old(self),
                len,
                match data {
                    Some(bytes) => Some(bytes@),
                    None => None,
                },
                true,
                result,
            ),
    {
        self.set_found(len, data, true)
    }

    /// Stores a noncacheable value backed by nginx-owned bytes.
    pub fn set_borrowed_uncached(&mut self, data: Option<Vec<u8>>, len: usize) -> (result: Result<
        (),
        HttpVariableOutputError,
    >)
        requires
            data matches Some(bytes) ==> len <= bytes@.len(),
        ensures
            final(self).set(
                *old(self),
                len,
                match data {
                    Some(bytes) => Some(bytes@),
                    None => None,
                },
                false,
                result,
            ),
    {
        self.set_found(len, data, false)
    }

    /// Stores found bytes.
    fn set_found(&mut self, len: usize, data: Option<Vec<u8>>, cacheable: bool) -> (result: Result<
        (),
        HttpVariableOutputError,
    >)
        requires
            data matches Some(bytes) ==> len <= bytes@.len(),
        ensures
            final(self).set(
                *old(self),
                len,
                match data {
                    Some(bytes) => Some(bytes@),
                    None => None,
                },
                cacheable,
                result,
            ),
    {
        if len > VARIABLE_MAX_LEN {
            return Err(HttpVariableOutputError::TooLong);
        }
        if len != 0 && data.is_none() {
            return Err(HttpVariableOutputError::NullData);
        }
        self.write_found(len, data, cacheable);
        Ok(())
    }

    /// Stores found bytes that were checked.
    fn write_found(&mut self, len: usize, data: Option<Vec<u8>>, cacheable: bool)
        requires
            data matches Some(bytes) ==> len <= bytes@.len(),
            len != 0 ==> data is Some,
        ensures
            final(self).candidate matches Some(value) && value.is_found(
                if len == 0 {
                    Seq::empty()
                } else {
                    data->Some_0@.take(len as int)
                },
                cacheable,
            ),
    {
        let kept = if len == 0 {
            None
        } else {
            data
        };
        self.candidate = Some(
            VariableValue {
                len,
                valid: true,
                no_cacheable: !cacheable,
                not_found: false,
                escape: false,
                data: kept,
            },
        );
    }

    /// What setting request-pool bytes leads to.
    pub open spec fn set_from_pool(
        self,
        before: HttpVariableOutput,
        native: NativeState,
        request: usize,
        value: HttpVariablePoolBytes,
        cacheable: bool,
        result: Result<(), HttpVariableOutputError>,
    ) -> bool {
        match native.pool_of(request) {
            Err(error) => result == Err::<(), HttpVariableOutputError>(
                HttpVariableOutputError::Request(error),
            ) && self == before,
            Ok(pool) => if pool != value.pool {
                result == Err::<(), HttpVariableOutputError>(HttpVariableOutputError::PoolMismatch)
                    && self == before
            } else {
                self.set(
                    before,
                    value.data@.len() as usize,
                    Some(value.data@),
                    cacheable,
                    result,
                )
            },
        }
    }

    /// Stores bytes already retained by the current request pool.
    pub fn set_pool(
        &mut self,
        request: &RequestRefMut,
        native: &NativeState,
        value: HttpVariablePoolBytes,
    ) -> (result: Result<(), HttpVariableOutputError>)
        requires
            native.requests@.contains_key(request.raw),
        ensures
            final(self).set_from_pool(*old(self), *native, request.raw, value, true, result),
    {
        self.set_pool_with_cache(request, native, value, true)
    }

    /// Stores request-pool bytes and asks nginx to evaluate the getter on every access.
    pub fn set_pool_uncached(
        &mut self,
        request: &RequestRefMut,
        native: &NativeState,
        value: HttpVariablePoolBytes,
    ) -> (result: Result<(), HttpVariableOutputError>)
        requires
            native.requests@.contains_key(request.raw),
        ensures
            final(self).set_from_pool(*old(self), *native, request.raw, value, false, result),
    {
        self.set_pool_with_cache(request, native, value, false)
    }

    /// Stores request-pool bytes.
    fn set_pool_with_cache(
        &mut self,
        request: &RequestRefMut,
        native: &NativeState,
        value: HttpVariablePoolBytes,
        cacheable: bool,
    ) -> (result: Result<(), HttpVariableOutputError>)
        requires
            native.requests@.contains_key(request.raw),
        ensures
            final(self).set_from_pool(*old(self), *native, request.raw, value, cacheable, result),
    {
        let pool = match request.pool(native) {
            Ok(pool) => pool,
            Err(error) => return Err(HttpVariableOutputError::from(error)),
        };
        if pool != value.pool {
            return Err(HttpVariableOutputError::PoolMismatch);
        }
        let len = value.data.len();
        self.set_found(len, Some(value.data), cacheable)
    }

    /// What copying bytes into the pool of a request and setting them leads to.
    pub open spec fn set_copy(
        self,
        before: HttpVariableOutput,
        native_before: NativeState,
        native: NativeState,
        request: usize,
        value: Seq<u8>,
        cacheable: bool,
        result: Result<(), HttpVariableOutputError>,
    ) -> bool {
        match result {
            Err(error) => {
                &&& self == before
                &&& HttpVariablePoolBytes::copied(
                    native_before,
                    native,
                    request,
                    value,
                    Err(error),
                )
            },
            Ok(_) => {
                &&& self.candidate matches Some(found) && found.is_found(value, cacheable)
                &&& exists|bytes: HttpVariablePoolBytes| #[trigger]
                    HttpVariablePoolBytes::copied(
                        native_before,
                        native,
                        request,
                        value,
                        Ok(bytes),
                    )
            },
        }
    }

    /// Copies callback bytes into the current request pool before publishing a cacheable value.
    pub fn copy_from_request(
        &mut self,
        request: &RequestRefMut,
        native: &mut NativeState,
        value: &[u8],
    ) -> (result: Result<(), HttpVariableOutputError>)
        requires
            old(native).requests@.contains_key(request.raw),
            old(native).pool_resolves(request.raw),
        ensures
            final(self).set_copy(
                *old(self),
                *old(native),
                *final(native),
                request.raw,
                value@,
                true,
                result,
            ),
    {
        match HttpVariablePoolBytes::copy_from_request(request, native, value) {
            Ok(bytes) => {
                assert(value@.len() == value.len());
                assert(value@.take(value@.len() as int) =~= value@);
                assert(value@.len() == 0 ==> value@ =~= Seq::empty());
                self.set_pool(request, native, bytes)
            },
            Err(error) => Err(error),
        }
    }

    /// Copies callback bytes into the current request pool and marks the result noncacheable.
    pub fn copy_from_request_uncached(
        &mut self,
        request: &RequestRefMut,
        native: &mut NativeState,
        value: &[u8],
    ) -> (result: Result<(), HttpVariableOutputError>)
        requires
            old(native).requests@.contains_key(request.raw),
            old(native).pool_resolves(request.raw),
        ensures
            final(self).set_copy(
                *old(self),
                *old(native),
                *final(native),
                request.raw,
                value@,
                false,
                result,
            ),
    {
        match HttpVariablePoolBytes::copy_from_request(request, native, value) {
            Ok(bytes) => {
                assert(value@.len() == value.len());
                assert(value@.take(value@.len() as int) =~= value@);
                assert(value@.len() == 0 ==> value@ =~= Seq::empty());
                self.set_pool_uncached(request, native, bytes)
            },
            Err(error) => Err(error),
        }
    }

    /// Sets a cacheable found value with no bytes.
    pub fn set_empty(&mut self)
        ensures
            final(self).candidate matches Some(value) && value.is_found(Seq::empty(), true),
    {
        self.write_found(0, None, true);
    }

    /// Sets a noncacheable found value with no bytes.
    pub fn set_empty_uncached(&mut self)
        ensures
            final(self).candidate matches Some(value) && value.is_found(Seq::empty(), false),
    {
        self.write_found(0, None, false);
    }

    /// Sets nginx's exact noncacheable not-found state.
    pub fn set_not_found(&mut self)
        ensures
            final(self).candidate matches Some(value) && value.is_absent(),
    {
        self.candidate = Some(VariableValue::absent());
    }

    /// The value that a successful getter publishes. One that set nothing found nothing.
    pub fn publish_success(self) -> (result: VariableValue)
        ensures
            match self.candidate {
                Some(value) => result == value,
                None => result.is_absent(),
            },
    {
        match self.candidate {
            Some(value) => value,
            None => VariableValue::absent(),
        }
    }

    /// Ends a getter that answered `status`: only a success is published.
    pub fn complete(self, value: &mut Pointer<VariableValue>, status: isize) -> (result: isize)
        requires
            *old(value) is To,
        ensures
            result == status,
            if status == NGX_OK {
                *final(value) matches Pointer::To(published) && match self.candidate {
                    Some(candidate) => published == candidate,
                    None => published.is_absent(),
                }
            } else {
                *final(value) == *old(value)
            },
    {
        if status == NGX_OK {
            *value = Pointer::To(self.publish_success());
        }
        status
    }
}

/// Checked callback-bound view of an initialized HTTP variable value.
#[derive(Debug)]
pub struct HttpVariableValueRef<'value> {
    pub raw: &'value VariableValue,
}

impl<'value> HttpVariableValueRef<'value> {
    /// Whether the viewed value has its bytes.
    pub open spec fn wf(self) -> bool {
        self.raw.readable() && !self.raw.broken()
    }

    /// Views a value that nginx supplied, if it can be read.
    pub fn from_raw(value: &'value Pointer<VariableValue>) -> (result: Option<Self>)
        requires
            *value matches Pointer::To(raw) ==> raw.readable(),
        ensures
            match *value {
                Pointer::To(raw) => if raw.broken() {
                    result is None
                } else {
                    result matches Some(view) && *view.raw == raw && view.wf()
                },
                _ => result is None,
            },
    {
        match value {
            Pointer::To(raw) => {
                if !raw.not_found && raw.len != 0 && raw.data.is_none() {
                    return None;
                }
                Some(HttpVariableValueRef { raw })
            },
            _ => None,
        }
    }

    /// Returns the found bytes, or `None` for nginx's not-found state.
    pub fn bytes(&self) -> (result: Option<&'value [u8]>)
        requires
            self.wf(),
        ensures
            match self.raw.found() {
                Some(bytes) => result matches Some(found) && found@ == bytes,
                None => result is None,
            },
    {
        if self.raw.not_found {
            return None;
        }
        let raw: &'value VariableValue = self.raw;
        match &raw.data {
            Some(data) => {
                let found = slice_subrange(data.as_slice(), 0, raw.len);
                assert(raw.found() == Some(found@)) by {
                    assert(found@ =~= data@.take(raw.len as int));
                    assert(raw.len == 0 ==> found@ =~= Seq::empty());
                }
                Some(found)
            },
            None => {
                let empty: &[u8] = &[];
                assert(empty@ =~= Seq::empty());
                Some(empty)
            },
        }
    }

    /// Returns whether nginx can use this value without rerunning the getter.
    pub fn is_valid(&self) -> (result: bool)
        ensures
            result == self.raw.valid,
    {
        self.raw.valid
    }

    /// Returns whether nginx may cache this value.
    pub fn is_cacheable(&self) -> (result: bool)
        ensures
            result == !self.raw.no_cacheable,
    {
        !self.raw.no_cacheable
    }

    /// Returns whether the getter reported nginx's not-found state.
    pub fn is_not_found(&self) -> (result: bool)
        ensures
            result == self.raw.not_found,
    {
        self.raw.not_found
    }

    /// Returns whether nginx must escape this value before rendering it.
    pub fn is_escaped(&self) -> (result: bool)
        ensures
            result == self.raw.escape,
    {
        self.raw.escape
    }
}

impl HttpVariableIndex {
    /// Why the variable cannot be looked up for a request.
    pub open spec fn lookup_fault(self, native: NativeState, raw: usize) -> Option<
        HttpVariableLookupError,
    > {
        match native.core_main_of(raw) {
            Err(error) => Some(HttpVariableLookupError::Configuration(error)),
            Ok(None) => Some(HttpVariableLookupError::MissingCoreMainConfiguration),
            Ok(Some(core_main)) => {
                let variables = native.core_mains@[core_main].variables;
                if core_main != self.core_main {
                    Some(HttpVariableLookupError::ForeignConfiguration)
                } else if self.index >= variables.nelts {
                    Some(HttpVariableLookupError::IndexOutOfBounds)
                } else if variables.invalid() {
                    Some(HttpVariableLookupError::InvalidDefinitionArray)
                } else if variables.definitions()[self.index as int].get_handler is None {
                    Some(HttpVariableLookupError::MissingHandler)
                } else {
                    match native.requests@[raw].variables {
                        Pointer::Null => Some(HttpVariableLookupError::MissingRequestVariables),
                        Pointer::Misaligned => Some(
                            HttpVariableLookupError::MisalignedRequestVariables,
                        ),
                        Pointer::To(_) => None,
                    }
                }
            },
        }
    }

    /// Looks up the value currently cached for this request.
    ///
    /// Nginx is then to be called, and its answer handed to [`lookup_result`](Self::lookup_result).
    pub fn get_cached(&self, request: &mut RequestRefMut, native: &NativeState) -> (result: Result<
        NginxCall,
        HttpVariableLookupError,
    >)
        requires
            native.variables_ready(old(request).raw),
        ensures
            *final(request) == *old(request),
            result == (match self.lookup_fault(*native, old(request).raw) {
                Some(error) => Err::<NginxCall, HttpVariableLookupError>(error),
                None => Ok(
                    NginxCall::GetIndexedVariable { request: old(request).raw, index: self.index },
                ),
            }),
    {
        self.lookup(request, native, false)
    }

    /// Clears nginx's noncacheable value state before looking up this request's value.
    ///
    /// Nginx is then to be called, and its answer handed to [`lookup_result`](Self::lookup_result).
    pub fn get_flushed(&self, request: &mut RequestRefMut, native: &NativeState) -> (result: Result<
        NginxCall,
        HttpVariableLookupError,
    >)
        requires
            native.variables_ready(old(request).raw),
        ensures
            *final(request) == *old(request),
            result == (match self.lookup_fault(*native, old(request).raw) {
                Some(error) => Err::<NginxCall, HttpVariableLookupError>(error),
                None => Ok(
                    NginxCall::GetFlushedVariable { request: old(request).raw, index: self.index },
                ),
            }),
    {
        self.lookup(request, native, true)
    }

    /// Checks a lookup, and names the call that makes it.
    fn lookup(&self, request: &RequestRefMut, native: &NativeState, flushed: bool) -> (result: Result<
        NginxCall,
        HttpVariableLookupError,
    >)
        requires
            native.variables_ready(request.raw),
        ensures
            result == (match self.lookup_fault(*native, request.raw) {
                Some(error) => Err::<NginxCall, HttpVariableLookupError>(error),
                None => Ok(
                    if flushed {
                        NginxCall::GetFlushedVariable { request: request.raw, index: self.index }
                    } else {
                        NginxCall::GetIndexedVariable { request: request.raw, index: self.index }
                    },
                ),
            }),
    {
        let core_module = native.core_module;
        let core_main = match request.view().main_conf(native, core_module) {
            Ok(Some(core_main)) => core_main,
            Ok(None) => return Err(HttpVariableLookupError::MissingCoreMainConfiguration),
            Err(error) => return Err(HttpVariableLookupError::from(error)),
        };
        if core_main != self.core_main {
            return Err(HttpVariableLookupError::ForeignConfiguration);
        }
        let variables = &native.core_main(core_main).variables;
        if self.index >= variables.nelts {
            return Err(HttpVariableLookupError::IndexOutOfBounds);
        }
        if !variables.has_storage() || variables.nelts > variables.nalloc || variables.size
            != VARIABLE_SIZE {
            return Err(HttpVariableLookupError::InvalidDefinitionArray);
        }
        if variables.get(self.index).get_handler.is_none() {
            return Err(HttpVariableLookupError::MissingHandler);
        }
        match &native.request(request.raw).variables {
            Pointer::Null => return Err(HttpVariableLookupError::MissingRequestVariables),
            Pointer::Misaligned => return Err(HttpVariableLookupError::MisalignedRequestVariables),
            Pointer::To(_) => {},
        }
        Ok(
            if flushed {
                NginxCall::GetFlushedVariable { request: request.raw, index: self.index }
            } else {
                NginxCall::GetIndexedVariable { request: request.raw, index: self.index }
            },
        )
    }

    /// Views the value that nginx answered a lookup with.
    pub fn lookup_result<'value>(value: &'value Pointer<VariableValue>) -> (result: Result<
        HttpVariableValueRef<'value>,
        HttpVariableLookupError,
    >)
        requires
            *value matches Pointer::To(raw) ==> raw.readable(),
        ensures
            match *value {
                Pointer::Null => result matches Err(HttpVariableLookupError::NullResult),
                Pointer::Misaligned => result matches Err(HttpVariableLookupError::InvalidResult),
                Pointer::To(raw) => if raw.broken() {
                    result matches Err(HttpVariableLookupError::InvalidResult)
                } else {
                    result matches Ok(view) && *view.raw == raw && view.wf()
                },
            },
    {
        match value {
            Pointer::Null => return Err(HttpVariableLookupError::NullResult),
            _ => {},
        }
        match HttpVariableValueRef::from_raw(value) {
            Some(view) => Ok(view),
            None => Err(HttpVariableLookupError::InvalidResult),
        }
    }
}

/// Mutable variable-evaluation capability without terminal request authority.
#[derive(Debug)]
pub struct HttpVariableRequest {
    pub request: RequestRefMut,
}

impl HttpVariableRequest {
    /// A capability for a request.
    pub fn new(request: RequestRefMut) -> (result: Self)
        ensures
            result.request == request,
    {
        HttpVariableRequest { request }
    }

    /// Shared access to the request.
    pub fn view(&self) -> (result: RequestRef)
        ensures
            result.raw == self.request.raw,
    {
        self.request.view()
    }

    /// Exclusive access to a movable context of a module, by its address.
    ///
    /// `settled` is how cancelling the request's stale contexts ended; where it is `Ok`, none is
    /// left.
    pub fn module_context_mut(
        &mut self,
        native: &NativeState,
        module: RequestContextModule,
        settled: Result<(), RequestError>,
    ) -> (result: Result<Option<usize>, RequestContextError>)
        requires
            native.context_ready(old(self).request.raw, module),
            settled is Ok ==> native.contexts_settled(old(self).request.raw),
        ensures
            *final(self) == *old(self),
            result == native.settled_context(old(self).request.raw, module, settled),
    {
        self.request.module_context_mut(native, module, settled)
    }

    /// Pinned exclusive access to a context of a module, by its address.
    ///
    /// `settled` is how cancelling the request's stale contexts ended; where it is `Ok`, none is
    /// left.
    pub fn pinned_module_context_mut(
        &mut self,
        native: &NativeState,
        module: RequestContextModule,
        settled: Result<(), RequestError>,
    ) -> (result: Result<Option<usize>, RequestContextError>)
        requires
            native.context_ready(old(self).request.raw, module),
            settled is Ok ==> native.contexts_settled(old(self).request.raw),
        ensures
            *final(self) == *old(self),
            result == native.settled_context(old(self).request.raw, module, settled),
    {
        self.request.pinned_module_context_mut(native, module, settled)
    }

    /// Looks up the value currently cached for this request.
    pub fn get_cached(&mut self, native: &NativeState, index: &HttpVariableIndex) -> (result: Result<
        NginxCall,
        HttpVariableLookupError,
    >)
        requires
            native.variables_ready(old(self).request.raw),
        ensures
            *final(self) == *old(self),
            result == (match index.lookup_fault(*native, old(self).request.raw) {
                Some(error) => Err::<NginxCall, HttpVariableLookupError>(error),
                None => Ok(
                    NginxCall::GetIndexedVariable {
                        request: old(self).request.raw,
                        index: index.index,
                    },
                ),
            }),
    {
        index.get_cached(&mut self.request, native)
    }

    /// Clears a noncacheable value before looking it up for this request.
    pub fn get_flushed(&mut self, native: &NativeState, index: &HttpVariableIndex) -> (result: Result<
        NginxCall,
        HttpVariableLookupError,
    >)
        requires
            native.variables_ready(old(self).request.raw),
        ensures
            *final(self) == *old(self),
            result == (match index.lookup_fault(*native, old(self).request.raw) {
                Some(error) => Err::<NginxCall, HttpVariableLookupError>(error),
                None => Ok(
                    NginxCall::GetFlushedVariable {
                        request: old(self).request.raw,
                        index: index.index,
                    },
                ),
            }),
    {
        index.get_flushed(&mut self.request, native)
    }
}

/// A registration that nginx has yet to be asked for.
#[derive(Clone, Copy, Debug, PartialEq, Eq)]
pub struct VariableRegistration<'name> {
    /// Name that nginx gets.
    pub name: &'name [u8],
    /// Flags that nginx gets.
    pub flags: usize,
    /// Getter, by its address.
    pub getter: usize,
    /// Setter, by its address.
    pub setter: Option<usize>,
    pub data: usize,
}

impl<'name> VariableRegistration<'name> {
    /// Goes on with the definition that nginx answered with.
    pub fn finish(self, variable: &mut Option<VariableDefinition>) -> (result: Result<
        (),
        HttpVariableRegistrationError,
    >)
        ensures
            match *old(variable) {
                None => {
                    &&& result == Err::<(), HttpVariableRegistrationError>(
                        HttpVariableRegistrationError,
                    )
                    &&& *final(variable) == *old(variable)
                },
                Some(definition) => {
                    &&& result == Ok::<(), HttpVariableRegistrationError>(())
                    &&& *final(variable) == Some(
                        VariableDefinition {
                            get_handler: Some(self.getter),
                            set_handler: self.setter,
                            data: self.data,
                            ..definition
                        },
                    )
                },
            },
    {
        match variable {
            None => Err(HttpVariableRegistrationError),
            Some(definition) => {
                definition.get_handler = Some(self.getter);
                definition.set_handler = self.setter;
                definition.data = self.data;
                Ok(())
            },
        }
    }
}

/// Registers a typed read-only exact HTTP variable, with its getter by its address.
///
/// Use [`add_prefix_variable`] instead of passing [`HttpVariableFlags::PREFIX`]. Nginx is then to
/// be asked with the name and the flags of the registration, and its answer handed to
/// [`VariableRegistration::finish`].
pub fn add_variable(
    name: &[u8],
    flags: HttpVariableFlags,
    getter: usize,
    data: usize,
) -> (result: Result<VariableRegistration<'_>, HttpVariableRegistrationError>)
    ensures
        result == (if flags.registrable() {
            Ok::<VariableRegistration, HttpVariableRegistrationError>(
                VariableRegistration { name, flags: flags.bits, getter, setter: None, data },
            )
        } else {
            Err(HttpVariableRegistrationError)
        }),
{
    register_variable(name, flags, getter, None, data)
}

/// Registers a typed exact HTTP variable with a setter, by its address.
///
/// Prefix variables do not have an nginx assignment route and are rejected.
pub fn add_variable_with_setter(
    name: &[u8],
    flags: HttpVariableFlags,
    getter: usize,
    setter: usize,
    data: usize,
) -> (result: Result<VariableRegistration<'_>, HttpVariableRegistrationError>)
    ensures
        result == (if flags.registrable() {
            Ok::<VariableRegistration, HttpVariableRegistrationError>(
                VariableRegistration { name, flags: flags.bits, getter, setter: Some(setter), data },
            )
        } else {
            Err(HttpVariableRegistrationError)
        }),
{
    register_variable(name, flags, getter, Some(setter), data)
}

/// Checks the flags of an exact variable.
fn register_variable(
    name: &[u8],
    flags: HttpVariableFlags,
    getter: usize,
    setter: Option<usize>,
    data: usize,
) -> (result: Result<VariableRegistration<'_>, HttpVariableRegistrationError>)
    ensures
        result == (if flags.registrable() {
            Ok::<VariableRegistration, HttpVariableRegistrationError>(
                VariableRegistration { name, flags: flags.bits, getter, setter, data },
            )
        } else {
            Err(HttpVariableRegistrationError)
        }),
{
    if !flags.is_registrable() {
        return Err(HttpVariableRegistrationError);
    }
    Ok(VariableRegistration { name, flags: flags.bits(), getter, setter, data })
}

/// A prefix registration that nginx has yet to be asked for.
#[derive(Clone, Copy, Debug, PartialEq, Eq)]
pub struct PrefixRegistration<'name> {
    pub registration: VariableRegistration<'name>,
    /// The configuration, by its address.
    pub core_main: usize,
    /// Number of prefix variables before nginx is asked.
    pub original_nelts: usize,
}

/// Registers a typed prefix-matched HTTP variable, with its getter by its address.
///
/// `main` is the HTTP core main configuration of the parser. The flags must not include
/// [`HttpVariableFlags::PREFIX`], which this function applies. Nginx is then to be asked with the
/// name and the flags of the registration, and its answer handed to [`PrefixRegistration::finish`].
pub fn add_prefix_variable<'name>(
    native: &NativeState,
    main: Result<Option<usize>, HttpConfigError>,
    prefix: &'name [u8],
    flags: HttpVariableFlags,
    getter: usize,
) -> (result: Result<PrefixRegistration<'name>, HttpVariableRegistrationError>)
    requires
        main matches Ok(Some(core_main)) ==> native.core_mains@.contains_key(core_main),
    ensures
        result == (match main {
            Ok(Some(core_main)) if flags.registrable() => Ok::<
                PrefixRegistration,
                HttpVariableRegistrationError,
            >(
                PrefixRegistration {
                    registration: VariableRegistration {
                        name: prefix,
                        flags: flags.bits | NGX_HTTP_VAR_PREFIX,
                        getter,
                        setter: None,
                        data: 0,
                    },
                    core_main,
                    original_nelts: native.core_mains@[core_main].prefix_nelts,
                },
            ),
            _ => Err(HttpVariableRegistrationError),
        }),
{
    if !flags.is_registrable() {
        return Err(HttpVariableRegistrationError);
    }
    match main {
        Ok(Some(core_main)) => Ok(
            PrefixRegistration {
                registration: VariableRegistration {
                    name: prefix,
                    flags: flags.bits() | NGX_HTTP_VAR_PREFIX,
                    getter,
                    setter: None,
                    data: 0,
                },
                core_main,
                original_nelts: native.core_main(core_main).prefix_nelts,
            },
        ),
        _ => Err(HttpVariableRegistrationError),
    }
}

impl<'name> PrefixRegistration<'name> {
    /// Goes on with the definition that nginx answered with. A refusal takes back the slot that
    /// nginx reserved.
    pub fn finish(self, native: &mut NativeState, variable: &mut Option<VariableDefinition>) -> (result:
        Result<(), HttpVariableRegistrationError>)
        requires
            old(native).core_mains@.contains_key(self.core_main),
        ensures
            *final(native) == (NativeState {
                core_mains: final(native).core_mains,
                ..*old(native)
            }),
            match *old(variable) {
                None => {
                    &&& result == Err::<(), HttpVariableRegistrationError>(
                        HttpVariableRegistrationError,
                    )
                    &&& *final(variable) == *old(variable)
                    &&& final(native).core_mains@ == old(native).core_mains@.insert(
                        self.core_main,
                        (NativeCoreMain {
                            prefix_nelts: self.original_nelts,
                            ..old(native).core_mains@[self.core_main]
                        }),
                    )
                },
                Some(definition) => {
                    &&& result == Ok::<(), HttpVariableRegistrationError>(())
                    &&& *final(variable) == Some(
                        VariableDefinition {
                            get_handler: Some(self.registration.getter),
                            set_handler: self.registration.setter,
                            data: self.registration.data,
                            ..definition
                        },
                    )
                    &&& final(native).core_mains@ == old(native).core_mains@
                },
            },
    {
        if variable.is_none() {
            let mut core_main = native.take_core_main(self.core_main);
            core_main.prefix_nelts = self.original_nelts;
            native.put_core_main(self.core_main, core_main);
            assert(native.core_mains@ =~= old(native).core_mains@.insert(
                self.core_main,
                core_main,
            ));
        }
        self.registration.finish(variable)
    }
}

/// An index that nginx has yet to be asked for.
#[derive(Clone, Copy, Debug, PartialEq, Eq)]
pub struct PendingVariableIndex<'name> {
    /// Name that nginx gets.
    pub name: &'name [u8],
    /// The configuration, by its address.
    pub core_main: usize,
    /// Number of indexed variables before nginx is asked.
    pub original_nelts: usize,
}

/// Creates an opaque index for an HTTP variable.
///
/// `main` is the HTTP core main configuration of the parser. Nginx is then to be asked for the
/// index, and its answer handed to [`PendingVariableIndex::finish`].
pub fn get_variable_index<'name>(
    native: &NativeState,
    main: Result<Option<usize>, HttpConfigError>,
    name: &'name [u8],
) -> (result: Result<PendingVariableIndex<'name>, HttpVariableIndexError>)
    requires
        main matches Ok(Some(core_main)) ==> native.core_mains@.contains_key(core_main),
    ensures
        result == (match main {
            Err(error) => Err::<PendingVariableIndex, HttpVariableIndexError>(
                HttpVariableIndexError::Configuration(error),
            ),
            Ok(None) => Err(HttpVariableIndexError::MissingCoreMainConfiguration),
            Ok(Some(core_main)) => Ok(
                PendingVariableIndex {
                    name,
                    core_main,
                    original_nelts: native.core_mains@[core_main].variables.nelts,
                },
            ),
        }),
{
    match main {
        Err(error) => Err(HttpVariableIndexError::from(error)),
        Ok(None) => Err(HttpVariableIndexError::MissingCoreMainConfiguration),
        Ok(Some(core_main)) => Ok(
            PendingVariableIndex {
                name,
                core_main,
                original_nelts: native.core_main(core_main).variables.nelts,
            },
        ),
    }
}

impl<'name> PendingVariableIndex<'name> {
    /// Goes on with the index that nginx answered with. A refusal takes back the slot that nginx
    /// reserved.
    pub fn finish(self, native: &mut NativeState, index: isize) -> (result: Result<
        HttpVariableIndex,
        HttpVariableIndexError,
    >)
        requires
            old(native).core_mains@.contains_key(self.core_main),
        ensures
            *final(native) == (NativeState {
                core_mains: final(native).core_mains,
                ..*old(native)
            }),
            result == (if index < 0 {
                Err::<HttpVariableIndex, HttpVariableIndexError>(
                    HttpVariableIndexError::Registration,
                )
            } else {
                Ok(HttpVariableIndex { index: index as usize, core_main: self.core_main })
            }),
            final(native).core_mains@ == (if index == NGX_ERROR {
                old(native).core_mains@.insert(
                    self.core_main,
                    (NativeCoreMain {
                        variables: VariableArray {
                            nelts: self.original_nelts,
                            ..old(native).core_mains@[self.core_main].variables
                        },
                        ..old(native).core_mains@[self.core_main]
                    }),
                )
            } else {
                old(native).core_mains@
            }),
    {
        if index == NGX_ERROR {
            let mut core_main = native.take_core_main(self.core_main);
            core_main.variables.nelts = self.original_nelts;
            native.put_core_main(self.core_main, core_main);
            assert(native.core_mains@ =~= old(native).core_mains@.insert(
                self.core_main,
                core_main,
            ));
            return Err(HttpVariableIndexError::Registration);
        }
        if index < 0 {
            return Err(HttpVariableIndexError::Registration);
        }
        Ok(HttpVariableIndex { index: index as usize, core_main: self.core_main })
    }
}

/// The full queried name that nginx hands to a prefix getter, if it can be read.
pub fn prefix_name_from_data<'callback>(data: &'callback Pointer<NativeString>) -> (result: Option<
    &'callback [u8],
>)
    requires
        *data matches Pointer::To(name) ==> name.readable(),
    ensures
        match *data {
            Pointer::To(name) => if name.len == 0 || name.len > isize::MAX || name.data is None {
                result is None
            } else {
                result matches Some(bytes) && bytes@ == name.bytes()
            },
            _ => result is None,
        },
{
    match data {
        Pointer::To(name) => {
            if name.len == 0 || name.len > isize::MAX as usize || name.data.is_none() {
                return None;
            }
            Some(name.as_bytes())
        },
        _ => None,
    }
}

/// Typed getter for a registered HTTP variable.
///
/// Getters receive access that cannot terminate or redirect the request while nginx is still
/// evaluating its variable. The result is an nginx status.
pub trait HttpVariableHandler {
    /// Evaluates the variable for one active request.
    fn get(
        request: &mut HttpVariableRequest,
        native: &mut NativeState,
        value: &mut HttpVariableOutput,
        data: usize,
    ) -> isize;
}

/// Typed getter for a prefix-matched HTTP variable.
pub trait HttpPrefixVariableHandler {
    /// Evaluates the variable for one active request and the full queried variable name.
    fn get(
        request: &mut HttpVariableRequest,
        native: &mut NativeState,
        value: &mut HttpVariableOutput,
        name: &[u8],
    ) -> isize;
}

/// Typed setter for a registered HTTP variable.
///
/// Setters receive only shared request access, so they cannot flush or re-evaluate a variable while
/// retaining the assigned value.
pub trait HttpVariableSetter {
    /// Receives an assignment for one active request.
    fn set(request: &RequestRef, native: &NativeState, value: HttpVariableValueRef<'_>, data: usize);
}

/// Whether `after` is what a getter that answered `status` leaves of the value that nginx supplied.
pub open spec fn getter_left(
    before: Pointer<VariableValue>,
    after: Pointer<VariableValue>,
    status: isize,
) -> bool {
    match before {
        Pointer::To(_) => if status == NGX_OK {
            after is To
        } else {
            after == before
        },
        _ => status == NGX_ERROR && after == before,
    }
}

/// Whether `after` is the value that a successful getter left in its output.
pub open spec fn getter_published(after: Pointer<VariableValue>, output: HttpVariableOutput) -> bool {
    after matches Pointer::To(published) && match output.candidate {
        Some(candidate) => published == candidate,
        None => published.is_absent(),
    }
}

/// Evaluates a variable for nginx. Only the value of a successful getter is published, and a value
/// that cannot be written is an error.
///
/// The getter gets the request, the state as it is, an output without a value, and the data of the
/// registration; nginx gets its status.
pub fn raw_get_handler<H: HttpVariableHandler>(
    request: RequestRefMut,
    native: &mut NativeState,
    value: &mut Pointer<VariableValue>,
    data: usize,
) -> (result: isize)
    ensures
        getter_left(*old(value), *final(value), result),
        if *old(value) is To {
            exists|
                evaluated: &mut HttpVariableRequest,
                state: &mut NativeState,
                output: &mut HttpVariableOutput,
            |
                {
                    &&& #[trigger] call_ensures(H::get, (evaluated, state, output, data), result)
                    &&& evaluated.request == request
                    &&& output.candidate is None
                    &&& *state == *old(native) && *final(state) == *final(native)
                    &&& result == NGX_OK ==> getter_published(*final(value), *final(output))
                }
        } else {
            *final(native) == *old(native)
        },
{
    let mut output = match HttpVariableOutput::from_raw(value) {
        Some(output) => output,
        None => return NGX_ERROR,
    };
    let mut request = HttpVariableRequest::new(request);
    let status = H::get(&mut request, native, &mut output, data);
    output.complete(value, status)
}

/// Evaluates a prefix-matched variable for nginx. Only the value of a successful getter is
/// published, and a value that cannot be written or a name that cannot be read is an error.
///
/// The getter gets the request, the state as it is, an output without a value, and the full queried
/// name; nginx gets its status.
pub fn raw_prefix_get_handler<H: HttpPrefixVariableHandler>(
    request: RequestRefMut,
    native: &mut NativeState,
    value: &mut Pointer<VariableValue>,
    data: &Pointer<NativeString>,
) -> (result: isize)
    requires
        *data matches Pointer::To(name) ==> name.readable(),
    ensures
        getter_left(*old(value), *final(value), result),
        if *old(value) is To && (*data matches Pointer::To(name) && 0 < name.len <= isize::MAX
            && name.data is Some) {
            exists|
                evaluated: &mut HttpVariableRequest,
                state: &mut NativeState,
                output: &mut HttpVariableOutput,
                name: &[u8],
            |
                {
                    &&& #[trigger] call_ensures(H::get, (evaluated, state, output, name), result)
                    &&& name@ == data->To_0.bytes()
                    &&& evaluated.request == request
                    &&& output.candidate is None
                    &&& *state == *old(native) && *final(state) == *final(native)
                    &&& result == NGX_OK ==> getter_published(*final(value), *final(output))
                }
        } else {
            result == NGX_ERROR && *final(value) == *old(value) && *final(native) == *old(native)
        },
{
    let mut output = match HttpVariableOutput::from_raw(value) {
        Some(output) => output,
        None => return NGX_ERROR,
    };
    let name = match prefix_name_from_data(data) {
        Some(name) => name,
        None => return NGX_ERROR,
    };
    let mut request = HttpVariableRequest::new(request);
    let status = H::get(&mut request, native, &mut output, name);
    output.complete(value, status)
}

/// Hands an assignment to a setter, with the request, the value and the data of the registration.
/// The result tells whether the value could be read.
pub fn raw_set_handler<S: HttpVariableSetter>(
    request: &RequestRefMut,
    native: &NativeState,
    value: &Pointer<VariableValue>,
    data: usize,
) -> (result: isize)
    requires
        *value matches Pointer::To(raw) ==> raw.readable(),
    ensures
        result == (if *value matches Pointer::To(raw) && !raw.broken() {
            NGX_OK
        } else {
            NGX_ERROR
        }),
        result == NGX_OK ==> exists|shared: &RequestRef, assigned: HttpVariableValueRef<'_>|
            {
                &&& #[trigger] call_ensures(S::set, (shared, native, assigned, data), ())
                &&& shared.raw == request.raw
                &&& *assigned.raw == value->To_0
            },
{
    match HttpVariableValueRef::from_raw(value) {
        Some(view) => {
            S::set(&request.view(), native, view, data);
            NGX_OK
        },
        None => NGX_ERROR,
    }
}

} // verus!
