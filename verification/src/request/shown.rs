//! How error values are shown in messages.

use vstd::prelude::*;
use vstd::string::StringExecFns;

use crate::native::ConnectionError;
use crate::request::headers::HeaderListError;
use crate::request::view::RequestError;

verus! {

impl ConnectionError {
    /// The name of the error.
    pub open spec fn shown(self) -> Seq<char> {
        match self {
            ConnectionError::NullConnection => "NullConnection"@,
            ConnectionError::MisalignedConnection => "MisalignedConnection"@,
            ConnectionError::MisalignedLog => "MisalignedLog"@,
            ConnectionError::NegativeBytesSent => "NegativeBytesSent"@,
            ConnectionError::MissingWriteEvent => "MissingWriteEvent"@,
            ConnectionError::MisalignedWriteEvent => "MisalignedWriteEvent"@,
        }
    }

    /// The name of the error.
    pub fn name(self) -> (result: &'static str)
        ensures
            result@ == self.shown(),
    {
        match self {
            ConnectionError::NullConnection => "NullConnection",
            ConnectionError::MisalignedConnection => "MisalignedConnection",
            ConnectionError::MisalignedLog => "MisalignedLog",
            ConnectionError::NegativeBytesSent => "NegativeBytesSent",
            ConnectionError::MissingWriteEvent => "MissingWriteEvent",
            ConnectionError::MisalignedWriteEvent => "MisalignedWriteEvent",
        }
    }
}

impl HeaderListError {
    /// The name of the error.
    pub open spec fn shown(self) -> Seq<char> {
        match self {
            HeaderListError::InvalidList => "InvalidList"@,
            HeaderListError::MissingKeyData => "MissingKeyData"@,
            HeaderListError::MissingValueData => "MissingValueData"@,
            HeaderListError::KeyTooLong => "KeyTooLong"@,
            HeaderListError::ValueTooLong => "ValueTooLong"@,
        }
    }

    /// The name of the error.
    pub fn name(self) -> (result: &'static str)
        ensures
            result@ == self.shown(),
    {
        match self {
            HeaderListError::InvalidList => "InvalidList",
            HeaderListError::MissingKeyData => "MissingKeyData",
            HeaderListError::MissingValueData => "MissingValueData",
            HeaderListError::KeyTooLong => "KeyTooLong",
            HeaderListError::ValueTooLong => "ValueTooLong",
        }
    }
}

impl RequestError {
    /// The error as messages show it: its name, with the name of the error that it is about.
    pub open spec fn shown(self) -> Seq<char> {
        match self {
            RequestError::NullRequest => "NullRequest"@,
            RequestError::MisalignedRequest => "MisalignedRequest"@,
            RequestError::InvalidRequestSignature => "InvalidRequestSignature"@,
            RequestError::MissingMain => "MissingMain"@,
            RequestError::MisalignedMain => "MisalignedMain"@,
            RequestError::InvalidMainSignature => "InvalidMainSignature"@,
            RequestError::ForeignMain => "ForeignMain"@,
            RequestError::MissingPool => "MissingPool"@,
            RequestError::ReferenceCountOverflow => "ReferenceCountOverflow"@,
            RequestError::MisalignedPool => "MisalignedPool"@,
            RequestError::ForeignPool => "ForeignPool"@,
            RequestError::MissingStringData => "MissingStringData"@,
            RequestError::NegativeStartTime => "NegativeStartTime"@,
            RequestError::NegativeCounter => "NegativeCounter"@,
            RequestError::ContentLengthTooLarge => "ContentLengthTooLarge"@,
            RequestError::ManagedOutputFraming => "ManagedOutputFraming"@,
            RequestError::Allocation => "Allocation"@,
            RequestError::Connection(error) => "Connection("@ + error.shown() + ")"@,
            RequestError::InvalidHeaderList(error) => "InvalidHeaderList("@ + error.shown() + ")"@,
        }
    }

    /// Appends the error as messages show it.
    pub fn append_to(self, text: &mut String)
        ensures
            final(text)@ == old(text)@ + self.shown(),
    {
        let ghost before = text@;
        match self {
            RequestError::NullRequest => text.append("NullRequest"),
            RequestError::MisalignedRequest => text.append("MisalignedRequest"),
            RequestError::InvalidRequestSignature => text.append("InvalidRequestSignature"),
            RequestError::MissingMain => text.append("MissingMain"),
            RequestError::MisalignedMain => text.append("MisalignedMain"),
            RequestError::InvalidMainSignature => text.append("InvalidMainSignature"),
            RequestError::ForeignMain => text.append("ForeignMain"),
            RequestError::MissingPool => text.append("MissingPool"),
            RequestError::ReferenceCountOverflow => text.append("ReferenceCountOverflow"),
            RequestError::MisalignedPool => text.append("MisalignedPool"),
            RequestError::ForeignPool => text.append("ForeignPool"),
            RequestError::MissingStringData => text.append("MissingStringData"),
            RequestError::NegativeStartTime => text.append("NegativeStartTime"),
            RequestError::NegativeCounter => text.append("NegativeCounter"),
            RequestError::ContentLengthTooLarge => text.append("ContentLengthTooLarge"),
            RequestError::ManagedOutputFraming => text.append("ManagedOutputFraming"),
            RequestError::Allocation => text.append("Allocation"),
            RequestError::Connection(error) => {
                text.append("Connection(");
                text.append(error.name());
                text.append(")");
                assert(text@ =~= before + self.shown());
            },
            RequestError::InvalidHeaderList(error) => {
                text.append("InvalidHeaderList(");
                text.append(error.name());
                text.append(")");
                assert(text@ =~= before + self.shown());
            },
        }
    }
}

} // verus!
