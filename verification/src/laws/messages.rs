//! Texts of errors and log records.

use vstd::prelude::*;

use crate::native::ConnectionError;
use crate::request::headers::HeaderListError;
use crate::request::method::InvalidMethod;
use crate::request::temp_file::NativeTempFile;
use crate::request::view::RequestError;
use crate::subrequest::SubRequestError;
use crate::text::number;
use crate::upstream::callback::{UpstreamAction, UpstreamCallbackError, UpstreamLogRecord};
use crate::upstream::state::UpstreamStateError;
use crate::upstream::url::{UpstreamUrlParseError, UpstreamUrlViewError};
use crate::variable::{
    HttpVariableCacheInvalidationError, HttpVariableIndexError, HttpVariableLookupError,
    HttpVariableOutputError, HttpVariableRegistrationError,
};

verus! {

/// A failure to view a URL says what is wrong with it.
pub proof fn law_url_view_errors_have_their_text(error: UpstreamUrlViewError)
    ensures
        forall|result: &str| #[trigger]
            call_ensures(UpstreamUrlViewError::message, (&error,), result) ==> {
                &&& error is MissingStringData ==> result@ == "upstream URL string has no data"@
                &&& error is AddressCountOverflow ==> result@ == "upstream URL address count is too large"@
                &&& error is MissingAddresses ==> result@ == "upstream URL has no address array"@
                &&& error is MisalignedAddresses ==> result@ == "upstream URL address array is misaligned"@
                &&& error is SocketAddress ==> result@ == "upstream URL has an invalid address"@
            },
{
}

/// A failure to read attempts says what is wrong with them.
pub proof fn law_attempt_errors_have_their_text(error: UpstreamStateError)
    ensures
        forall|result: &str| #[trigger]
            call_ensures(UpstreamStateError::message, (&error,), result) ==> {
                &&& error is MisalignedArray ==> result@ == "upstream state array is misaligned"@
                &&& error is InvalidArray ==> result@ == "upstream state array is invalid"@
                &&& error is MissingPeerData ==> result@ == "upstream state peer has no data"@
                &&& error is MisalignedPeer ==> result@ == "upstream state peer is misaligned"@
            },
{
}

/// A failure to make an index says what was missing.
pub proof fn law_index_errors_have_their_text(error: HttpVariableIndexError)
    ensures
        forall|result: &str| #[trigger]
            call_ensures(HttpVariableIndexError::message, (&error,), result) ==> {
                &&& error is Configuration ==> result@ == "failed to resolve HTTP variable configuration"@
                &&& error is MissingCoreMainConfiguration ==> result@ == "HTTP core main configuration is unavailable"@
                &&& error is Registration ==> result@ == "failed to create HTTP variable index"@
            },
{
}

/// A failure to invalidate says what stood in the way.
pub proof fn law_invalidation_errors_have_their_text(error: HttpVariableCacheInvalidationError)
    ensures
        forall|result: &str| #[trigger]
            call_ensures(HttpVariableCacheInvalidationError::message, (&error,), result) ==> {
                &&& error is Configuration ==> result@ == "failed to resolve HTTP variable configuration"@
                &&& error is MissingCoreMainConfiguration ==> result@ == "HTTP core main configuration is unavailable"@
                &&& error is ForeignIndex ==> result@ == "preserved HTTP variable index belongs to another configuration"@
                &&& error is IndexOutOfBounds ==> result@ == "preserved HTTP variable index is out of bounds"@
                &&& error is InvalidDefinitionArray ==> result@ == "HTTP variable definitions are invalid"@
                &&& error is MissingRequestVariables ==> result@ == "request has no indexed HTTP variable storage"@
                &&& error is MisalignedRequestVariables ==> result@ == "request HTTP variable storage is misaligned"@
                &&& error is ForeignRequest ==> result@ == "HTTP variable invalidation belongs to another request"@
            },
{
}

/// A failure to look a variable up says what stood in the way.
pub proof fn law_lookup_errors_have_their_text(error: HttpVariableLookupError)
    ensures
        forall|result: &str| #[trigger]
            call_ensures(HttpVariableLookupError::message, (&error,), result) ==> {
                &&& error is Configuration ==> result@ == "failed to resolve HTTP variable configuration"@
                &&& error is MissingCoreMainConfiguration ==> result@ == "HTTP core main configuration is unavailable"@
                &&& error is ForeignConfiguration ==> result@ == "HTTP variable index belongs to another configuration"@
                &&& error is IndexOutOfBounds ==> result@ == "HTTP variable index is out of bounds"@
                &&& error is InvalidDefinitionArray ==> result@ == "HTTP variable definitions are invalid"@
                &&& error is MissingHandler ==> result@ == "HTTP variable has no getter"@
                &&& error is MissingRequestVariables ==> result@ == "request has no indexed HTTP variable storage"@
                &&& error is MisalignedRequestVariables ==> result@ == "request HTTP variable storage is misaligned"@
                &&& error is NullResult ==> result@ == "nginx returned no HTTP variable value"@
                &&& error is InvalidResult ==> result@ == "nginx returned an invalid HTTP variable value"@
            },
{
}

/// A failure to publish a value says what is wrong with it.
pub proof fn law_output_errors_have_their_text(error: HttpVariableOutputError)
    ensures
        forall|result: &str| #[trigger]
            call_ensures(HttpVariableOutputError::message, (&error,), result) ==> {
                &&& error is TooLong ==> result@ == "HTTP variable value is too long"@
                &&& error is NullData ==> result@ == "HTTP variable value has null data"@
                &&& error is Request ==> result@ == "HTTP request has no usable pool"@
                &&& error is Allocation ==> result@ == "failed to allocate HTTP variable bytes"@
                &&& error is PoolMismatch ==> result@ == "HTTP variable bytes belong to another pool"@
            },
{
}

/// An action has the name by which log records call it.
pub proof fn law_upstream_actions_have_their_text(action: UpstreamAction)
    ensures
        forall|result: &str| #[trigger]
            call_ensures(UpstreamAction::name, (&action,), result) ==> {
                &&& action is Initialization ==> result@ == "initialization"@
                &&& action is PeerInitialization ==> result@ == "peer initialization"@
                &&& action is PeerSelection ==> result@ == "peer selection"@
                &&& action is PeerRelease ==> result@ == "peer release"@
                &&& action is PeerNotification ==> result@ == "peer notification"@
                &&& action is PeerSessionLookup ==> result@ == "peer session lookup"@
                &&& action is PeerSessionSave ==> result@ == "peer session save"@
            },
{
}

/// An error of a connection is shown by its name.
pub proof fn law_connection_errors_have_their_text(error: ConnectionError)
    ensures
        forall|result: &str| #[trigger]
            call_ensures(ConnectionError::name, (error,), result) ==> {
                &&& error is NullConnection ==> result@ == "NullConnection"@
                &&& error is MisalignedConnection ==> result@ == "MisalignedConnection"@
                &&& error is MisalignedLog ==> result@ == "MisalignedLog"@
                &&& error is NegativeBytesSent ==> result@ == "NegativeBytesSent"@
                &&& error is MissingWriteEvent ==> result@ == "MissingWriteEvent"@
                &&& error is MisalignedWriteEvent ==> result@ == "MisalignedWriteEvent"@
            },
{
}

/// An error of a header list is shown by its name.
pub proof fn law_header_list_errors_have_their_text(error: HeaderListError)
    ensures
        forall|result: &str| #[trigger]
            call_ensures(HeaderListError::name, (error,), result) ==> {
                &&& error is InvalidList ==> result@ == "InvalidList"@
                &&& error is MissingKeyData ==> result@ == "MissingKeyData"@
                &&& error is MissingValueData ==> result@ == "MissingValueData"@
                &&& error is KeyTooLong ==> result@ == "KeyTooLong"@
                &&& error is ValueTooLong ==> result@ == "ValueTooLong"@
            },
{
}

/// A failure of an upstream callback says what is wrong; an unsupported status is named.
pub proof fn law_upstream_callback_errors_have_their_text(error: UpstreamCallbackError)
    ensures
        forall|result: String| #[trigger]
            call_ensures(UpstreamCallbackError::message, (&error,), result) ==> {
                &&& error is NullConfiguration ==> result@ == "upstream configuration is null"@
                &&& error is MisalignedConfiguration ==> result@ == "upstream configuration is misaligned"@
                &&& error is MissingConfigurationPool ==> result@ == "upstream configuration has no usable pool"@
                &&& error is NullUpstream ==> result@ == "upstream server configuration is null"@
                &&& error is MisalignedUpstream ==> result@ == "upstream server configuration is misaligned"@
                &&& error is MissingInitializerConfiguration ==> result@ == "upstream initializer owner has no server configuration"@
                &&& error is DuplicateUpstreamInitializer ==> result@ == "upstream initializer is already installed"@
                &&& error is DuplicatePeerInitializer ==> result@ == "upstream peer initializer is already installed"@
                &&& error is ForeignUpstreamInitializer ==> result@ == "upstream initializer belongs to another configuration"@
                &&& error is ForeignPeerInitializer ==> result@ == "upstream peer initializer belongs to another configuration"@
                &&& error is MissingRequestUpstream ==> result@ == "request has no upstream"@
                &&& error is MisalignedRequestUpstream ==> result@ == "request upstream is misaligned"@
                &&& error is RequestDestroyedDuringPeerInitialization ==> result@ == "request was destroyed during peer initialization"@
                &&& error is ReplacedRequestUpstream ==> result@ == "request changed upstream owner during peer initialization"@
                &&& error is NullPeer ==> result@ == "upstream peer is null"@
                &&& error is MisalignedPeer ==> result@ == "upstream peer is misaligned"@
                &&& error is NullPeerData ==> result@ == "upstream peer data is null"@
                &&& error is MisalignedPeerData ==> result@ == "upstream peer data is misaligned"@
                &&& error is ForeignPeerData ==> result@ == "upstream peer data belongs to another handler"@
                &&& error is MissingOriginalInitUpstream ==> result@ == "upstream has no original initializer"@
                &&& error is MissingOriginalInitPeer ==> result@ == "upstream has no original peer initializer"@
                &&& error is MissingOriginalGetPeer ==> result@ == "upstream has no original peer getter"@
                &&& error is PeerSelectionPendingRelease ==> result@ == "selected upstream peer has not been released"@
                &&& error is PeerReleaseWithoutSelection ==> result@ == "upstream peer release has no matching selection"@
                &&& error is DiscardedOriginalPeerSelection ==> result@ == "handler discarded the original selected peer"@
                &&& error is ForeignSelectedPeer ==> result@ == "selected upstream peer belongs to another generation"@
                &&& error is MissingPeerInitializer ==> result@ == "upstream initialization installed no peer initializer"@
                &&& error is MissingPeerGetter ==> result@ == "peer initialization installed no peer getter"@
                &&& error is MissingSelectedPeerAddress ==> result@ == "selected upstream peer has no socket address"@
                &&& error is MisalignedSelectedPeerAddress ==> result@ == "selected upstream peer socket address is misaligned"@
                &&& error is MissingSelectedPeerName ==> result@ == "selected upstream peer has no name"@
                &&& error is MisalignedSelectedPeerName ==> result@ == "selected upstream peer name is misaligned"@
                &&& error is MissingSelectedPeerConnection ==> result@ == "selected upstream peer has no connection"@
                &&& error is MisalignedSelectedPeerConnection ==> result@ == "selected upstream peer connection is misaligned"@
                &&& error is Allocation ==> result@ == "failed to allocate upstream peer data"@
                &&& error is Configuration ==> result@ == "failed to resolve upstream configuration"@
                &&& error is Request ==> result@ == "failed to resolve upstream request state"@
                &&& error matches UpstreamCallbackError::InvalidOriginalGetStatus(status)
                    ==> result@ == "original peer getter returned unsupported status "@ + number(
                    status as int,
                )
            },
{
}

/// A log record names its action and its error.
pub proof fn law_log_records_name_action_and_error(record: UpstreamLogRecord)
    ensures
        forall|result: String, action: &str, error: String|
            #![trigger call_ensures(UpstreamLogRecord::message, (&record,), result),
                call_ensures(UpstreamAction::name, (&record.action,), action),
                call_ensures(UpstreamCallbackError::message, (&record.error,), error)]
            call_ensures(UpstreamLogRecord::message, (&record,), result) && call_ensures(
                UpstreamAction::name,
                (&record.action,),
                action,
            ) && call_ensures(UpstreamCallbackError::message, (&record.error,), error) ==> result@
                == "HTTP upstream "@ + action@ + " failed: "@ + error@,
{
}

/// A failure to parse a URL says so, with the parser's own words where they are text.
pub proof fn law_url_parse_errors_have_their_text(error: UpstreamUrlParseError)
    ensures
        forall|result: String| #[trigger]
            call_ensures(UpstreamUrlParseError::message, (&error,), result) ==> {
                &&& error is EmptyInput ==> result@ == "upstream URL is empty"@
                &&& error is Allocation ==> result@ == "failed to allocate upstream URL data"@
                &&& error is Native ==> result@ == "nginx rejected upstream URL"@
                &&& error matches UpstreamUrlParseError::Invalid(message)
                    ==> vstd::utf8::valid_utf8(message@) ==> result@
                    == "nginx rejected upstream URL: "@ + vstd::utf8::decode_utf8(message@)
                &&& error matches UpstreamUrlParseError::Invalid(message)
                    ==> !vstd::utf8::valid_utf8(message@) ==> result@
                    == "nginx rejected upstream URL: "@ + "invalid"@
            },
{
}

/// A failure of a subrequest says what failed, with the status of nginx or the error of the request.
pub proof fn law_subrequest_errors_have_their_text(error: SubRequestError)
    ensures
        forall|result: String| #[trigger]
            call_ensures(SubRequestError::message, (&error,), result) ==> {
                &&& error is Alloc ==> result@ == "subrequest allocation failed"@
                &&& error is Canceled ==> result@ == "subrequest canceled"@
                &&& error matches SubRequestError::Create(status) ==> result@
                    == "subrequest creation failed with status "@ + number(status as int)
                &&& error matches SubRequestError::Request(inner) ==> result@
                    == "invalid request: "@ + inner.shown()
            },
{
}

/// An error of a request is shown by its name, with the name of the error that it is about, behind
/// the text that is there.
pub proof fn law_request_errors_are_shown_by_name(error: RequestError)
    ensures
        error is NullRequest ==> error.shown() == "NullRequest"@,
        error is MisalignedRequest ==> error.shown() == "MisalignedRequest"@,
        error is InvalidRequestSignature ==> error.shown() == "InvalidRequestSignature"@,
        error is MissingMain ==> error.shown() == "MissingMain"@,
        error is MisalignedMain ==> error.shown() == "MisalignedMain"@,
        error is InvalidMainSignature ==> error.shown() == "InvalidMainSignature"@,
        error is ForeignMain ==> error.shown() == "ForeignMain"@,
        error is MissingPool ==> error.shown() == "MissingPool"@,
        error is ReferenceCountOverflow ==> error.shown() == "ReferenceCountOverflow"@,
        error is MisalignedPool ==> error.shown() == "MisalignedPool"@,
        error is ForeignPool ==> error.shown() == "ForeignPool"@,
        error is MissingStringData ==> error.shown() == "MissingStringData"@,
        error is NegativeStartTime ==> error.shown() == "NegativeStartTime"@,
        error is NegativeCounter ==> error.shown() == "NegativeCounter"@,
        error is ContentLengthTooLarge ==> error.shown() == "ContentLengthTooLarge"@,
        error is ManagedOutputFraming ==> error.shown() == "ManagedOutputFraming"@,
        error is Allocation ==> error.shown() == "Allocation"@,
        error matches RequestError::Connection(inner) ==> error.shown() == "Connection("@
            + inner.shown() + ")"@,
        error matches RequestError::InvalidHeaderList(inner) ==> error.shown()
            == "InvalidHeaderList("@ + inner.shown() + ")"@,
        forall|text: &mut String, result: ()| #[trigger]
            call_ensures(RequestError::append_to, (error, text), result) ==> final(text)@ == text@
                + error.shown(),
{
}

/// The other messages.
pub proof fn law_other_messages_have_their_text(
    file: NativeTempFile,
    method: InvalidMethod,
    registration: HttpVariableRegistrationError,
)
    ensures
        forall|result: &str| #[trigger]
            call_ensures(NativeTempFile::warning, (&file,), result) ==> result@
                == "an HTTP body is buffered to a temporary file"@,
        forall|result: &str| #[trigger]
            call_ensures(InvalidMethod::message, (&method,), result) ==> result@
                == "invalid HTTP method"@,
        forall|result: &str| #[trigger]
            call_ensures(HttpVariableRegistrationError::message, (&registration,), result)
                ==> result@ == "failed to register HTTP variable"@,
{
}

} // verus!
