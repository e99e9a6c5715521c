//! Request-scoped state of upstream connection attempts.

use vstd::prelude::*;

use crate::native::{NativeString, Pointer};

verus! {

/// Size of one native attempt record.
pub const UPSTREAM_STATE_SIZE: usize = 72;

/// Failure while reading request-scoped upstream attempt state.
#[derive(Clone, Copy, Debug, PartialEq, Eq, Structural)]
pub enum UpstreamStateError {
    /// The request state-array pointer is misaligned.
    MisalignedArray,
    /// The nginx state array has incompatible element size, capacity, or storage alignment.
    InvalidArray,
    /// A state has a nonempty peer string without backing bytes.
    MissingPeerData,
    /// A state peer string does not satisfy native alignment.
    MisalignedPeer,
}

impl UpstreamStateError {
    /// The text of the error.
    pub open spec fn text(self) -> Seq<char> {
        match self {
            UpstreamStateError::MisalignedArray => "upstream state array is misaligned"@,
            UpstreamStateError::InvalidArray => "upstream state array is invalid"@,
            UpstreamStateError::MissingPeerData => "upstream state peer has no data"@,
            UpstreamStateError::MisalignedPeer => "upstream state peer is misaligned"@,
        }
    }

    /// The text of the error.
    pub fn message(&self) -> (result: &'static str)
        ensures
            result@ == self.text(),
    {
        match self {
            UpstreamStateError::MisalignedArray => "upstream state array is misaligned",
            UpstreamStateError::InvalidArray => "upstream state array is invalid",
            UpstreamStateError::MissingPeerData => "upstream state peer has no data",
            UpstreamStateError::MisalignedPeer => "upstream state peer is misaligned",
        }
    }
}

/// A native attempt record.
#[derive(Debug)]
pub struct NativeUpstreamState {
    pub status: usize,
    pub response_time: usize,
    pub connect_time: usize,
    pub header_time: usize,
    pub queue_time: usize,
    pub response_length: i64,
    pub bytes_received: i64,
    pub bytes_sent: i64,
    pub peer: Pointer<NativeString>,
}

impl NativeUpstreamState {
    /// The record as nginx clears it.
    pub fn zeroed() -> (result: Self)
        ensures
            result == (NativeUpstreamState {
                status: 0,
                response_time: 0,
                connect_time: 0,
                header_time: 0,
                queue_time: 0,
                response_length: 0,
                bytes_received: 0,
                bytes_sent: 0,
                peer: Pointer::Null,
            }),
    {
        NativeUpstreamState {
            status: 0,
            response_time: 0,
            connect_time: 0,
            header_time: 0,
            queue_time: 0,
            response_length: 0,
            bytes_received: 0,
            bytes_sent: 0,
            peer: Pointer::Null,
        }
    }
}

/// State recorded for one upstream connection attempt.
#[derive(Debug)]
pub struct UpstreamState(pub NativeUpstreamState);

impl UpstreamState {
    /// Whether the bytes of the peer string can be read.
    pub open spec fn readable(self) -> bool {
        self.0.peer matches Pointer::To(peer) ==> peer.readable()
    }

    /// Address of the attempted peer, when nginx selected one.
    pub fn peer(&self) -> (result: Result<Option<&[u8]>, UpstreamStateError>)
        requires
            self.readable(),
        ensures
            match self.0.peer {
                Pointer::Null => result matches Ok(None),
                Pointer::Misaligned => result matches Err(UpstreamStateError::MisalignedPeer),
                Pointer::To(peer) => if peer.missing() {
                    result matches Err(UpstreamStateError::MissingPeerData)
                } else {
                    result matches Ok(Some(bytes)) && bytes@ == peer.bytes()
                },
            },
    {
        match &self.0.peer {
            Pointer::Null => Ok(None),
            Pointer::Misaligned => Err(UpstreamStateError::MisalignedPeer),
            Pointer::To(peer) => {
                if peer.len > 0 && peer.data.is_none() {
                    return Err(UpstreamStateError::MissingPeerData);
                }
                Ok(Some(peer.as_bytes()))
            },
        }
    }

    /// HTTP status received from the peer, or `None` before a response status is available.
    pub fn status(&self) -> (result: Option<u16>)
        ensures
            result == (if 1 <= self.0.status <= u16::MAX {
                Some(self.0.status as u16)
            } else {
                None
            }),
    {
        if self.0.status == 0 || self.0.status > 0xffff {
            return None;
        }
        Some(self.0.status as u16)
    }

    /// Milliseconds spent on the attempt.
    ///
    /// The value is `usize::MAX` while the attempt is still in progress.
    pub fn response_time(&self) -> (result: usize)
        ensures
            result == self.0.response_time,
    {
        self.0.response_time
    }

    /// Milliseconds spent establishing the upstream connection.
    ///
    /// The value is `usize::MAX` until nginx records the connection result.
    pub fn connect_time(&self) -> (result: usize)
        ensures
            result == self.0.connect_time,
    {
        self.0.connect_time
    }

    /// Milliseconds until nginx received the upstream response headers.
    ///
    /// The value is `usize::MAX` until nginx receives the headers.
    pub fn header_time(&self) -> (result: usize)
        ensures
            result == self.0.header_time,
    {
        self.0.header_time
    }

    /// Milliseconds the request spent waiting in an upstream queue.
    pub fn queue_time(&self) -> (result: usize)
        ensures
            result == self.0.queue_time,
    {
        self.0.queue_time
    }

    /// Bytes written to the upstream connection.
    pub fn bytes_sent(&self) -> (result: i64)
        ensures
            result == self.0.bytes_sent,
    {
        self.0.bytes_sent
    }

    /// Bytes read from the upstream connection.
    pub fn bytes_received(&self) -> (result: i64)
        ensures
            result == self.0.bytes_received,
    {
        self.0.bytes_received
    }

    /// Response body bytes received from the upstream connection.
    pub fn response_length(&self) -> (result: i64)
        ensures
            result == self.0.response_length,
    {
        self.0.response_length
    }
}

/// A native array of attempt records.
#[derive(Debug)]
pub struct NativeStateArray {
    /// The records that can be read through the element pointer.
    pub elts: Pointer<Vec<UpstreamState>>,
    /// Number of records in use.
    pub nelts: usize,
    /// Size of one element.
    pub size: usize,
    /// Number of records that the storage holds.
    pub nalloc: usize,
}

impl NativeStateArray {
    /// Whether every record that the array says is in use can be read.
    pub open spec fn readable(self) -> bool {
        self.elts matches Pointer::To(states) ==> self.nelts <= states.len()
    }

    /// Whether size, capacity and storage of the array fit its records.
    pub open spec fn valid(self) -> bool {
        &&& self.size == UPSTREAM_STATE_SIZE
        &&& self.nelts <= self.nalloc
        &&& self.elts !is Misaligned
        &&& self.nelts > 0 ==> self.elts is To
    }

    /// The records in use, in nginx's recorded order.
    pub open spec fn states(self) -> Seq<UpstreamState> {
        match self.elts {
            Pointer::To(states) => states@.take(self.nelts as int),
            _ => Seq::empty(),
        }
    }
}

/// Checked request-scoped upstream attempt states.
#[derive(Clone, Copy, Debug)]
pub struct UpstreamStates<'request> {
    raw: &'request NativeStateArray,
}

impl<'request> UpstreamStates<'request> {
    /// The attempts, in nginx's recorded order.
    pub closed spec fn view(self) -> Seq<UpstreamState> {
        self.raw.states()
    }

    /// Whether the array behind the view was checked.
    pub closed spec fn wf(self) -> bool {
        self.raw.valid() && self.raw.readable()
    }

    /// A checked view of a request's state array, unless nginx recorded none.
    pub fn from_raw(array: &'request Pointer<NativeStateArray>) -> (result: Result<
        Option<Self>,
        UpstreamStateError,
    >)
        requires
            *array matches Pointer::To(value) ==> value.readable(),
        ensures
            match *array {
                Pointer::Null => result matches Ok(None),
                Pointer::Misaligned => result matches Err(UpstreamStateError::MisalignedArray),
                Pointer::To(value) => if value.valid() {
                    result matches Ok(Some(states)) && states.wf() && states@ == value.states()
                } else {
                    result matches Err(UpstreamStateError::InvalidArray)
                },
            },
    {
        let raw = match array {
            Pointer::Null => return Ok(None),
            Pointer::Misaligned => return Err(UpstreamStateError::MisalignedArray),
            Pointer::To(raw) => raw,
        };
        if raw.size != UPSTREAM_STATE_SIZE || raw.nelts > raw.nalloc {
            return Err(UpstreamStateError::InvalidArray);
        }
        match &raw.elts {
            Pointer::Null => {
                if raw.nelts > 0 {
                    return Err(UpstreamStateError::InvalidArray);
                }
            },
            Pointer::Misaligned => return Err(UpstreamStateError::InvalidArray),
            Pointer::To(_) => {},
        }
        Ok(Some(UpstreamStates { raw }))
    }

    /// Returns the number of upstream attempts nginx recorded.
    pub fn len(&self) -> (result: usize)
        requires
            self.wf(),
        ensures
            result == self@.len(),
    {
        self.raw.nelts
    }

    /// Returns whether nginx recorded no upstream attempts.
    pub fn is_empty(&self) -> (result: bool)
        requires
            self.wf(),
        ensures
            result == (self@.len() == 0),
    {
        self.raw.nelts == 0
    }

    /// Returns one upstream attempt by index.
    pub fn get(&self, index: usize) -> (result: Option<&'request UpstreamState>)
        requires
            self.wf(),
        ensures
            match result {
                Some(state) => index < self@.len() && *state == self@[index as int],
                None => index >= self@.len(),
            },
    {
        if index >= self.raw.nelts {
            return None;
        }
        match &self.raw.elts {
            Pointer::To(states) => Some(&states[index]),
            _ => None,
        }
    }

    /// Iterates over upstream attempts in nginx's recorded order.
    pub fn iter(&self) -> (result: UpstreamStateIter<'request>)
        requires
            self.wf(),
        ensures
            result.wf(),
            result@ == self@,
    {
        let iter = UpstreamStateIter { states: *self, index: 0 };
        assert(self@.skip(0) =~= self@);
        iter
    }
}

/// The attempts of [`UpstreamStates`] that are still to come.
#[derive(Clone, Copy, Debug)]
pub struct UpstreamStateIter<'request> {
    states: UpstreamStates<'request>,
    index: usize,
}

impl<'request> UpstreamStateIter<'request> {
    /// The attempts that are still to come.
    pub closed spec fn view(self) -> Seq<UpstreamState> {
        self.states@.skip(self.index as int)
    }

    /// Whether the iterator stands within a checked array.
    pub closed spec fn wf(self) -> bool {
        self.states.wf() && self.index <= self.states@.len()
    }

    /// The next attempt.
    pub fn next(&mut self) -> (result: Option<&'request UpstreamState>)
        requires
            old(self).wf(),
        ensures
            final(self).wf(),
            match result {
                Some(state) => {
                    &&& old(self)@.len() > 0
                    &&& *state == old(self)@[0]
                    &&& final(self)@ == old(self)@.skip(1)
                },
                None => old(self)@.len() == 0 && *final(self) == *old(self),
            },
    {
        match self.states.get(self.index) {
            Some(state) => {
                self.index = self.index + 1;
                assert(self@ =~= old(self)@.skip(1));
                Some(state)
            },
            None => None,
        }
    }
}

} // verus!
