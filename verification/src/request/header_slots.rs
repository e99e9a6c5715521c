//! The header slots that nginx keeps beside its header lists.

use vstd::prelude::*;

use crate::bytes::equal_ignoring_case;
use crate::native::NativeString;
use crate::request::headers::{EntryAt, NativeHeader, NativeList};

verus! {

/// Number of header slots.
pub const HEADER_SLOTS: usize = 29;

/// A header that nginx finds without searching its lists.
#[derive(Clone, Copy, Debug, PartialEq, Eq, Structural)]
pub enum HeaderSlot {
    Host,
    ContentLength,
    ContentType,
    UserAgent,
    Referer,
    Authorization,
    ProxyAuthorization,
    Cookie,
    Expect,
    Range,
    IfModifiedSince,
    IfUnmodifiedSince,
    IfMatch,
    IfNoneMatch,
    IfRange,
    ContentRange,
    Server,
    Date,
    ContentEncoding,
    Location,
    Refresh,
    LastModified,
    AcceptRanges,
    WwwAuthenticate,
    ProxyAuthenticate,
    Expires,
    Etag,
    CacheControl,
    Link,
}

impl HeaderSlot {
    /// Number of the slot.
    pub open spec fn index(self) -> int {
        match self {
            HeaderSlot::Host => 0,
            HeaderSlot::ContentLength => 1,
            HeaderSlot::ContentType => 2,
            HeaderSlot::UserAgent => 3,
            HeaderSlot::Referer => 4,
            HeaderSlot::Authorization => 5,
            HeaderSlot::ProxyAuthorization => 6,
            HeaderSlot::Cookie => 7,
            HeaderSlot::Expect => 8,
            HeaderSlot::Range => 9,
            HeaderSlot::IfModifiedSince => 10,
            HeaderSlot::IfUnmodifiedSince => 11,
            HeaderSlot::IfMatch => 12,
            HeaderSlot::IfNoneMatch => 13,
            HeaderSlot::IfRange => 14,
            HeaderSlot::ContentRange => 15,
            HeaderSlot::Server => 16,
            HeaderSlot::Date => 17,
            HeaderSlot::ContentEncoding => 18,
            HeaderSlot::Location => 19,
            HeaderSlot::Refresh => 20,
            HeaderSlot::LastModified => 21,
            HeaderSlot::AcceptRanges => 22,
            HeaderSlot::WwwAuthenticate => 23,
            HeaderSlot::ProxyAuthenticate => 24,
            HeaderSlot::Expires => 25,
            HeaderSlot::Etag => 26,
            HeaderSlot::CacheControl => 27,
            HeaderSlot::Link => 28,
        }
    }

    /// Name of the header that the slot is for.
    pub open spec fn title(self) -> Seq<u8> {
        match self {
            HeaderSlot::Host => vstd::utf8::encode_utf8("Host"@),
            HeaderSlot::ContentLength => vstd::utf8::encode_utf8("Content-Length"@),
            HeaderSlot::ContentType => vstd::utf8::encode_utf8("Content-Type"@),
            HeaderSlot::UserAgent => vstd::utf8::encode_utf8("User-Agent"@),
            HeaderSlot::Referer => vstd::utf8::encode_utf8("Referer"@),
            HeaderSlot::Authorization => vstd::utf8::encode_utf8("Authorization"@),
            HeaderSlot::ProxyAuthorization => vstd::utf8::encode_utf8("Proxy-Authorization"@),
            HeaderSlot::Cookie => vstd::utf8::encode_utf8("Cookie"@),
            HeaderSlot::Expect => vstd::utf8::encode_utf8("Expect"@),
            HeaderSlot::Range => vstd::utf8::encode_utf8("Range"@),
            HeaderSlot::IfModifiedSince => vstd::utf8::encode_utf8("If-Modified-Since"@),
            HeaderSlot::IfUnmodifiedSince => vstd::utf8::encode_utf8("If-Unmodified-Since"@),
            HeaderSlot::IfMatch => vstd::utf8::encode_utf8("If-Match"@),
            HeaderSlot::IfNoneMatch => vstd::utf8::encode_utf8("If-None-Match"@),
            HeaderSlot::IfRange => vstd::utf8::encode_utf8("If-Range"@),
            HeaderSlot::ContentRange => vstd::utf8::encode_utf8("Content-Range"@),
            HeaderSlot::Server => vstd::utf8::encode_utf8("Server"@),
            HeaderSlot::Date => vstd::utf8::encode_utf8("Date"@),
            HeaderSlot::ContentEncoding => vstd::utf8::encode_utf8("Content-Encoding"@),
            HeaderSlot::Location => vstd::utf8::encode_utf8("Location"@),
            HeaderSlot::Refresh => vstd::utf8::encode_utf8("Refresh"@),
            HeaderSlot::LastModified => vstd::utf8::encode_utf8("Last-Modified"@),
            HeaderSlot::AcceptRanges => vstd::utf8::encode_utf8("Accept-Ranges"@),
            HeaderSlot::WwwAuthenticate => vstd::utf8::encode_utf8("WWW-Authenticate"@),
            HeaderSlot::ProxyAuthenticate => vstd::utf8::encode_utf8("Proxy-Authenticate"@),
            HeaderSlot::Expires => vstd::utf8::encode_utf8("Expires"@),
            HeaderSlot::Etag => vstd::utf8::encode_utf8("ETag"@),
            HeaderSlot::CacheControl => vstd::utf8::encode_utf8("Cache-Control"@),
            HeaderSlot::Link => vstd::utf8::encode_utf8("Link"@),
        }
    }

    /// Whether the slot is for headers with the key `key`.
    pub open spec fn names(self, key: Seq<u8>) -> bool {
        crate::bytes::same_ignoring_case(key, self.title())
    }

    /// Whether the slot belongs to the input headers.
    pub open spec fn input(self) -> bool {
        match self {
            HeaderSlot::Host => true,
            HeaderSlot::ContentLength => true,
            HeaderSlot::ContentType => true,
            HeaderSlot::UserAgent => true,
            HeaderSlot::Referer => true,
            HeaderSlot::Authorization => true,
            HeaderSlot::ProxyAuthorization => true,
            HeaderSlot::Cookie => true,
            HeaderSlot::Expect => true,
            HeaderSlot::Range => true,
            HeaderSlot::IfModifiedSince => true,
            HeaderSlot::IfUnmodifiedSince => true,
            HeaderSlot::IfMatch => true,
            HeaderSlot::IfNoneMatch => true,
            HeaderSlot::IfRange => true,
            HeaderSlot::ContentRange => true,
            _ => false,
        }
    }

    /// Whether the slot belongs to the output headers.
    pub open spec fn output(self) -> bool {
        match self {
            HeaderSlot::ContentLength => true,
            HeaderSlot::ContentRange => true,
            HeaderSlot::Server => true,
            HeaderSlot::Date => true,
            HeaderSlot::ContentEncoding => true,
            HeaderSlot::Location => true,
            HeaderSlot::Refresh => true,
            HeaderSlot::LastModified => true,
            HeaderSlot::AcceptRanges => true,
            HeaderSlot::WwwAuthenticate => true,
            HeaderSlot::ProxyAuthenticate => true,
            HeaderSlot::Expires => true,
            HeaderSlot::Etag => true,
            HeaderSlot::CacheControl => true,
            HeaderSlot::Link => true,
            _ => false,
        }
    }

    /// Number of the slot.
    pub fn number(self) -> (result: usize)
        ensures
            result == self.index(),
            result < HEADER_SLOTS,
    {
        match self {
            HeaderSlot::Host => 0,
            HeaderSlot::ContentLength => 1,
            HeaderSlot::ContentType => 2,
            HeaderSlot::UserAgent => 3,
            HeaderSlot::Referer => 4,
            HeaderSlot::Authorization => 5,
            HeaderSlot::ProxyAuthorization => 6,
            HeaderSlot::Cookie => 7,
            HeaderSlot::Expect => 8,
            HeaderSlot::Range => 9,
            HeaderSlot::IfModifiedSince => 10,
            HeaderSlot::IfUnmodifiedSince => 11,
            HeaderSlot::IfMatch => 12,
            HeaderSlot::IfNoneMatch => 13,
            HeaderSlot::IfRange => 14,
            HeaderSlot::ContentRange => 15,
            HeaderSlot::Server => 16,
            HeaderSlot::Date => 17,
            HeaderSlot::ContentEncoding => 18,
            HeaderSlot::Location => 19,
            HeaderSlot::Refresh => 20,
            HeaderSlot::LastModified => 21,
            HeaderSlot::AcceptRanges => 22,
            HeaderSlot::WwwAuthenticate => 23,
            HeaderSlot::ProxyAuthenticate => 24,
            HeaderSlot::Expires => 25,
            HeaderSlot::Etag => 26,
            HeaderSlot::CacheControl => 27,
            HeaderSlot::Link => 28,
        }
    }

    /// Name of the header that the slot is for.
    pub fn name(self) -> (result: &'static str)
        ensures
            vstd::utf8::encode_utf8(result@) == self.title(),
    {
        match self {
            HeaderSlot::Host => "Host",
            HeaderSlot::ContentLength => "Content-Length",
            HeaderSlot::ContentType => "Content-Type",
            HeaderSlot::UserAgent => "User-Agent",
            HeaderSlot::Referer => "Referer",
            HeaderSlot::Authorization => "Authorization",
            HeaderSlot::ProxyAuthorization => "Proxy-Authorization",
            HeaderSlot::Cookie => "Cookie",
            HeaderSlot::Expect => "Expect",
            HeaderSlot::Range => "Range",
            HeaderSlot::IfModifiedSince => "If-Modified-Since",
            HeaderSlot::IfUnmodifiedSince => "If-Unmodified-Since",
            HeaderSlot::IfMatch => "If-Match",
            HeaderSlot::IfNoneMatch => "If-None-Match",
            HeaderSlot::IfRange => "If-Range",
            HeaderSlot::ContentRange => "Content-Range",
            HeaderSlot::Server => "Server",
            HeaderSlot::Date => "Date",
            HeaderSlot::ContentEncoding => "Content-Encoding",
            HeaderSlot::Location => "Location",
            HeaderSlot::Refresh => "Refresh",
            HeaderSlot::LastModified => "Last-Modified",
            HeaderSlot::AcceptRanges => "Accept-Ranges",
            HeaderSlot::WwwAuthenticate => "WWW-Authenticate",
            HeaderSlot::ProxyAuthenticate => "Proxy-Authenticate",
            HeaderSlot::Expires => "Expires",
            HeaderSlot::Etag => "ETag",
            HeaderSlot::CacheControl => "Cache-Control",
            HeaderSlot::Link => "Link",
        }
    }

    /// Whether the slot belongs to the input headers.
    pub fn is_input(self) -> (result: bool)
        ensures
            result == self.input(),
    {
        match self {
            HeaderSlot::Host => true,
            HeaderSlot::ContentLength => true,
            HeaderSlot::ContentType => true,
            HeaderSlot::UserAgent => true,
            HeaderSlot::Referer => true,
            HeaderSlot::Authorization => true,
            HeaderSlot::ProxyAuthorization => true,
            HeaderSlot::Cookie => true,
            HeaderSlot::Expect => true,
            HeaderSlot::Range => true,
            HeaderSlot::IfModifiedSince => true,
            HeaderSlot::IfUnmodifiedSince => true,
            HeaderSlot::IfMatch => true,
            HeaderSlot::IfNoneMatch => true,
            HeaderSlot::IfRange => true,
            HeaderSlot::ContentRange => true,
            _ => false,
        }
    }

    /// Whether the slot belongs to the output headers.
    pub fn is_output(self) -> (result: bool)
        ensures
            result == self.output(),
    {
        match self {
            HeaderSlot::ContentLength => true,
            HeaderSlot::ContentRange => true,
            HeaderSlot::Server => true,
            HeaderSlot::Date => true,
            HeaderSlot::ContentEncoding => true,
            HeaderSlot::Location => true,
            HeaderSlot::Refresh => true,
            HeaderSlot::LastModified => true,
            HeaderSlot::AcceptRanges => true,
            HeaderSlot::WwwAuthenticate => true,
            HeaderSlot::ProxyAuthenticate => true,
            HeaderSlot::Expires => true,
            HeaderSlot::Etag => true,
            HeaderSlot::CacheControl => true,
            HeaderSlot::Link => true,
            _ => false,
        }
    }

    /// Whether the slot is for headers with the key `key`.
    pub fn is_for(self, key: &[u8]) -> (result: bool)
        ensures
            result == self.names(key@),
    {
        equal_ignoring_case(key, self.name().as_bytes())
    }

    /// The slot for headers with the key `key`.
    pub fn for_key(key: &[u8]) -> (result: Option<HeaderSlot>)
        ensures
            match result {
                Some(slot) => slot.names(key@) && forall|other: HeaderSlot| #[trigger]
                    other.names(key@) ==> other == slot,
                None => forall|other: HeaderSlot| !#[trigger] other.names(key@),
            },
    {
        proof {
            assert forall|a: HeaderSlot, b: HeaderSlot| #[trigger]
                a.names(key@) && #[trigger] b.names(key@) implies a == b by {
                law_slot_names_are_distinct(key@, a, b);
            }
        }
        if HeaderSlot::Host.is_for(key) {
            return Some(HeaderSlot::Host);
        }
        if HeaderSlot::ContentLength.is_for(key) {
            return Some(HeaderSlot::ContentLength);
        }
        if HeaderSlot::ContentType.is_for(key) {
            return Some(HeaderSlot::ContentType);
        }
        if HeaderSlot::UserAgent.is_for(key) {
            return Some(HeaderSlot::UserAgent);
        }
        if HeaderSlot::Referer.is_for(key) {
            return Some(HeaderSlot::Referer);
        }
        if HeaderSlot::Authorization.is_for(key) {
            return Some(HeaderSlot::Authorization);
        }
        if HeaderSlot::ProxyAuthorization.is_for(key) {
            return Some(HeaderSlot::ProxyAuthorization);
        }
        if HeaderSlot::Cookie.is_for(key) {
            return Some(HeaderSlot::Cookie);
        }
        if HeaderSlot::Expect.is_for(key) {
            return Some(HeaderSlot::Expect);
        }
        if HeaderSlot::Range.is_for(key) {
            return Some(HeaderSlot::Range);
        }
        if HeaderSlot::IfModifiedSince.is_for(key) {
            return Some(HeaderSlot::IfModifiedSince);
        }
        if HeaderSlot::IfUnmodifiedSince.is_for(key) {
            return Some(HeaderSlot::IfUnmodifiedSince);
        }
        if HeaderSlot::IfMatch.is_for(key) {
            return Some(HeaderSlot::IfMatch);
        }
        if HeaderSlot::IfNoneMatch.is_for(key) {
            return Some(HeaderSlot::IfNoneMatch);
        }
        if HeaderSlot::IfRange.is_for(key) {
            return Some(HeaderSlot::IfRange);
        }
        if HeaderSlot::ContentRange.is_for(key) {
            return Some(HeaderSlot::ContentRange);
        }
        if HeaderSlot::Server.is_for(key) {
            return Some(HeaderSlot::Server);
        }
        if HeaderSlot::Date.is_for(key) {
            return Some(HeaderSlot::Date);
        }
        if HeaderSlot::ContentEncoding.is_for(key) {
            return Some(HeaderSlot::ContentEncoding);
        }
        if HeaderSlot::Location.is_for(key) {
            return Some(HeaderSlot::Location);
        }
        if HeaderSlot::Refresh.is_for(key) {
            return Some(HeaderSlot::Refresh);
        }
        if HeaderSlot::LastModified.is_for(key) {
            return Some(HeaderSlot::LastModified);
        }
        if HeaderSlot::AcceptRanges.is_for(key) {
            return Some(HeaderSlot::AcceptRanges);
        }
        if HeaderSlot::WwwAuthenticate.is_for(key) {
            return Some(HeaderSlot::WwwAuthenticate);
        }
        if HeaderSlot::ProxyAuthenticate.is_for(key) {
            return Some(HeaderSlot::ProxyAuthenticate);
        }
        if HeaderSlot::Expires.is_for(key) {
            return Some(HeaderSlot::Expires);
        }
        if HeaderSlot::Etag.is_for(key) {
            return Some(HeaderSlot::Etag);
        }
        if HeaderSlot::CacheControl.is_for(key) {
            return Some(HeaderSlot::CacheControl);
        }
        if HeaderSlot::Link.is_for(key) {
            return Some(HeaderSlot::Link);
        }
        None
    }
}

/// Length, first and fourth byte of the lowercase name of a slot: these tell the slots apart.
spec fn fingerprint(slot: HeaderSlot) -> (nat, u8, u8) {
    match slot {
        HeaderSlot::Host => (4, 104, 116),
        HeaderSlot::ContentLength => (14, 99, 116),
        HeaderSlot::ContentType => (12, 99, 116),
        HeaderSlot::UserAgent => (10, 117, 114),
        HeaderSlot::Referer => (7, 114, 101),
        HeaderSlot::Authorization => (13, 97, 104),
        HeaderSlot::ProxyAuthorization => (19, 112, 120),
        HeaderSlot::Cookie => (6, 99, 107),
        HeaderSlot::Expect => (6, 101, 101),
        HeaderSlot::Range => (5, 114, 103),
        HeaderSlot::IfModifiedSince => (17, 105, 109),
        HeaderSlot::IfUnmodifiedSince => (19, 105, 117),
        HeaderSlot::IfMatch => (8, 105, 109),
        HeaderSlot::IfNoneMatch => (13, 105, 110),
        HeaderSlot::IfRange => (8, 105, 114),
        HeaderSlot::ContentRange => (13, 99, 116),
        HeaderSlot::Server => (6, 115, 118),
        HeaderSlot::Date => (4, 100, 101),
        HeaderSlot::ContentEncoding => (16, 99, 116),
        HeaderSlot::Location => (8, 108, 97),
        HeaderSlot::Refresh => (7, 114, 114),
        HeaderSlot::LastModified => (13, 108, 116),
        HeaderSlot::AcceptRanges => (13, 97, 101),
        HeaderSlot::WwwAuthenticate => (16, 119, 45),
        HeaderSlot::ProxyAuthenticate => (18, 112, 120),
        HeaderSlot::Expires => (7, 101, 105),
        HeaderSlot::Etag => (4, 101, 103),
        HeaderSlot::CacheControl => (13, 99, 104),
        HeaderSlot::Link => (4, 108, 107),
    }
}

/// The fingerprint of a slot is read off its name.
proof fn lemma_fingerprint(slot: HeaderSlot)
    ensures
        slot.title().len() == fingerprint(slot).0,
        crate::bytes::lower(slot.title()[0]) == fingerprint(slot).1,
        crate::bytes::lower(slot.title()[3]) == fingerprint(slot).2,
{
    match slot {
        HeaderSlot::Host => {
            reveal_strlit("Host");
            vstd::utf8::is_ascii_chars_encode_utf8("Host"@);
        },
        HeaderSlot::ContentLength => {
            reveal_strlit("Content-Length");
            vstd::utf8::is_ascii_chars_encode_utf8("Content-Length"@);
        },
        HeaderSlot::ContentType => {
            reveal_strlit("Content-Type");
            vstd::utf8::is_ascii_chars_encode_utf8("Content-Type"@);
        },
        HeaderSlot::UserAgent => {
            reveal_strlit("User-Agent");
            vstd::utf8::is_ascii_chars_encode_utf8("User-Agent"@);
        },
        HeaderSlot::Referer => {
            reveal_strlit("Referer");
            vstd::utf8::is_ascii_chars_encode_utf8("Referer"@);
        },
        HeaderSlot::Authorization => {
            reveal_strlit("Authorization");
            vstd::utf8::is_ascii_chars_encode_utf8("Authorization"@);
        },
        HeaderSlot::ProxyAuthorization => {
            reveal_strlit("Proxy-Authorization");
            vstd::utf8::is_ascii_chars_encode_utf8("Proxy-Authorization"@);
        },
        HeaderSlot::Cookie => {
            reveal_strlit("Cookie");
            vstd::utf8::is_ascii_chars_encode_utf8("Cookie"@);
        },
        HeaderSlot::Expect => {
            reveal_strlit("Expect");
            vstd::utf8::is_ascii_chars_encode_utf8("Expect"@);
        },
        HeaderSlot::Range => {
            reveal_strlit("Range");
            vstd::utf8::is_ascii_chars_encode_utf8("Range"@);
        },
        HeaderSlot::IfModifiedSince => {
            reveal_strlit("If-Modified-Since");
            vstd::utf8::is_ascii_chars_encode_utf8("If-Modified-Since"@);
        },
        HeaderSlot::IfUnmodifiedSince => {
            reveal_strlit("If-Unmodified-Since");
            vstd::utf8::is_ascii_chars_encode_utf8("If-Unmodified-Since"@);
        },
        HeaderSlot::IfMatch => {
            reveal_strlit("If-Match");
            vstd::utf8::is_ascii_chars_encode_utf8("If-Match"@);
        },
        HeaderSlot::IfNoneMatch => {
            reveal_strlit("If-None-Match");
            vstd::utf8::is_ascii_chars_encode_utf8("If-None-Match"@);
        },
        HeaderSlot::IfRange => {
            reveal_strlit("If-Range");
            vstd::utf8::is_ascii_chars_encode_utf8("If-Range"@);
        },
        HeaderSlot::ContentRange => {
            reveal_strlit("Content-Range");
            vstd::utf8::is_ascii_chars_encode_utf8("Content-Range"@);
        },
        HeaderSlot::Server => {
            reveal_strlit("Server");
            vstd::utf8::is_ascii_chars_encode_utf8("Server"@);
        },
        HeaderSlot::Date => {
            reveal_strlit("Date");
            vstd::utf8::is_ascii_chars_encode_utf8("Date"@);
        },
        HeaderSlot::ContentEncoding => {
            reveal_strlit("Content-Encoding");
            vstd::utf8::is_ascii_chars_encode_utf8("Content-Encoding"@);
        },
        HeaderSlot::Location => {
            reveal_strlit("Location");
            vstd::utf8::is_ascii_chars_encode_utf8("Location"@);
        },
        HeaderSlot::Refresh => {
            reveal_strlit("Refresh");
            vstd::utf8::is_ascii_chars_encode_utf8("Refresh"@);
        },
        HeaderSlot::LastModified => {
            reveal_strlit("Last-Modified");
            vstd::utf8::is_ascii_chars_encode_utf8("Last-Modified"@);
        },
        HeaderSlot::AcceptRanges => {
            reveal_strlit("Accept-Ranges");
            vstd::utf8::is_ascii_chars_encode_utf8("Accept-Ranges"@);
        },
        HeaderSlot::WwwAuthenticate => {
            reveal_strlit("WWW-Authenticate");
            vstd::utf8::is_ascii_chars_encode_utf8("WWW-Authenticate"@);
        },
        HeaderSlot::ProxyAuthenticate => {
            reveal_strlit("Proxy-Authenticate");
            vstd::utf8::is_ascii_chars_encode_utf8("Proxy-Authenticate"@);
        },
        HeaderSlot::Expires => {
            reveal_strlit("Expires");
            vstd::utf8::is_ascii_chars_encode_utf8("Expires"@);
        },
        HeaderSlot::Etag => {
            reveal_strlit("ETag");
            vstd::utf8::is_ascii_chars_encode_utf8("ETag"@);
        },
        HeaderSlot::CacheControl => {
            reveal_strlit("Cache-Control");
            vstd::utf8::is_ascii_chars_encode_utf8("Cache-Control"@);
        },
        HeaderSlot::Link => {
            reveal_strlit("Link");
            vstd::utf8::is_ascii_chars_encode_utf8("Link"@);
        },
    }
}

/// No slot is for a header as long as `Transfer-Encoding` that starts with the same letter.
pub proof fn lemma_no_slot_like_transfer_encoding(slot: HeaderSlot)
    ensures
        slot.title().len() != 17 || crate::bytes::lower(slot.title()[0]) != 116,
{
    lemma_fingerprint(slot);
}

/// No key belongs to two slots.
pub proof fn law_slot_names_are_distinct(key: Seq<u8>, a: HeaderSlot, b: HeaderSlot)
    requires
        a.names(key),
        b.names(key),
    ensures
        a == b,
{
    lemma_fingerprint(a);
    lemma_fingerprint(b);
    let lowercase = crate::bytes::lowercase(key);
    assert(lowercase == crate::bytes::lowercase(a.title()));
    assert(lowercase == crate::bytes::lowercase(b.title()));
    assert(lowercase.len() == a.title().len());
    assert(lowercase[0] == crate::bytes::lower(a.title()[0]));
    assert(lowercase[0] == crate::bytes::lower(b.title()[0]));
    assert(lowercase[3] == crate::bytes::lower(a.title()[3]));
    assert(lowercase[3] == crate::bytes::lower(b.title()[3]));
}

/// The chains of entries that the header slots lead to.
#[derive(Debug)]
pub struct HeaderSlots {
    pub chains: Vec<Vec<EntryAt>>,
}

impl HeaderSlots {
    /// Whether there is a chain for every slot.
    pub open spec fn wf(self) -> bool {
        self.chains@.len() == HEADER_SLOTS
    }

    /// The chain of a slot: where the entries lie that the slot leads to.
    pub open spec fn chain(self, slot: HeaderSlot) -> Seq<EntryAt> {
        self.chains@[slot.index()]@
    }

    /// Slots that lead nowhere.
    pub fn empty() -> (result: HeaderSlots)
        ensures
            result.wf(),
            forall|slot: HeaderSlot| (#[trigger] result.chain(slot)) == Seq::<EntryAt>::empty(),
    {
        let mut chains: Vec<Vec<EntryAt>> = Vec::new();
        while chains.len() < HEADER_SLOTS
            invariant
                chains@.len() <= HEADER_SLOTS,
                forall|i: int| 0 <= i < chains@.len() ==> (#[trigger] chains@[i])@.len() == 0,
            decreases HEADER_SLOTS - chains@.len(),
        {
            chains.push(Vec::new());
        }
        let slots = HeaderSlots { chains };
        assert forall|slot: HeaderSlot| (#[trigger] slots.chain(slot)) == Seq::<
            EntryAt,
        >::empty() by {
            assert(slots.chains@[slot.index()]@.len() == 0);
            assert(slots.chain(slot) =~= Seq::<EntryAt>::empty());
        }
        slots
    }

    /// Where the entries lie that a slot leads to.
    pub fn get(&self, slot: HeaderSlot) -> (result: &Vec<EntryAt>)
        requires
            self.wf(),
        ensures
            result@ == self.chain(slot),
    {
        &self.chains[slot.number()]
    }

    /// Replaces the chain of a slot.
    pub fn set(&mut self, slot: HeaderSlot, chain: Vec<EntryAt>)
        requires
            old(self).wf(),
        ensures
            final(self).wf(),
            final(self).chain(slot) == chain@,
            forall|other: HeaderSlot|
                other != slot ==> #[trigger] final(self).chain(other) == old(self).chain(other),
    {
        let ghost before = *self;
        self.chains.set(slot.number(), chain);
        assert forall|other: HeaderSlot| other != slot implies #[trigger] self.chain(other)
            == before.chain(other) by {
            assert(other.index() != slot.index());
        }
    }

    /// Appends an entry to the chain of a slot.
    pub fn append_header_slot(&mut self, slot: HeaderSlot, header: EntryAt)
        requires
            old(self).wf(),
        ensures
            final(self).wf(),
            final(self).chain(slot) == old(self).chain(slot).push(header),
            forall|other: HeaderSlot|
                other != slot ==> #[trigger] final(self).chain(other) == old(self).chain(other),
    {
        let ghost before = *self;
        let number = slot.number();
        let mut chain = self.chains.remove(number);
        chain.push(header);
        self.chains.insert(number, chain);
        assert forall|other: HeaderSlot| other != slot implies #[trigger] self.chain(other)
            == before.chain(other) by {
            assert(other.index() != slot.index());
        }
    }
}

/// Input headers as nginx holds them.
#[derive(Debug)]
pub struct NativeHeadersIn {
    pub headers: NativeList,
    pub slots: HeaderSlots,
    /// Chain of the Transfer-Encoding slot, which nginx's own parser fills.
    pub transfer_encoding: Vec<EntryAt>,
    /// Name of the requested server.
    pub server: NativeString,
    /// Number of input headers.
    pub count: usize,
    pub content_length_n: i64,
    pub keep_alive_n: i64,
    pub chunked: bool,
}

/// Output headers as nginx holds them.
#[derive(Debug)]
pub struct NativeHeadersOut {
    pub headers: NativeList,
    pub trailers: NativeList,
    pub slots: HeaderSlots,
    pub status: usize,
    pub status_line: NativeString,
    /// Charset that replaces the configured one, unless the pointer is null.
    pub override_charset: Option<NativeString>,
    pub content_type_len: usize,
    pub content_type: NativeString,
    pub charset: NativeString,
    /// Bytes behind the lowercase content-type pointer, unless it is null.
    pub content_type_lowcase: Option<Vec<u8>>,
    pub content_type_hash: usize,
    pub content_length_n: i64,
    pub content_offset: i64,
    pub date_time: i64,
    pub last_modified_time: i64,
}

impl HeaderSlots {
    /// Whether no slot leads anywhere.
    pub open spec fn cleared(self) -> bool {
        &&& self.wf()
        &&& forall|slot: HeaderSlot| #[trigger] self.chain(slot) == Seq::<EntryAt>::empty()
    }
}

impl NativeHeadersIn {
    /// Whether the input headers are as nginx clears them.
    pub open spec fn cleared(self) -> bool {
        &&& self.headers.cleared()
        &&& self.slots.cleared()
        &&& self.transfer_encoding@.len() == 0
        &&& self == (NativeHeadersIn {
            headers: self.headers,
            slots: self.slots,
            transfer_encoding: self.transfer_encoding,
            server: NativeString { len: 0, data: None },
            count: 0,
            content_length_n: 0,
            keep_alive_n: 0,
            chunked: false,
        })
    }

    /// The input headers as nginx clears them.
    pub fn zeroed() -> (result: NativeHeadersIn)
        ensures
            result.cleared(),
    {
        NativeHeadersIn {
            headers: NativeList::zeroed(),
            slots: HeaderSlots::empty(),
            transfer_encoding: Vec::new(),
            server: NativeString::empty(),
            count: 0,
            content_length_n: 0,
            keep_alive_n: 0,
            chunked: false,
        }
    }
}

impl NativeHeadersOut {
    /// Whether the output headers are as nginx clears them.
    pub open spec fn cleared(self) -> bool {
        &&& self.headers.cleared()
        &&& self.trailers.cleared()
        &&& self.slots.cleared()
        &&& self == (NativeHeadersOut {
            headers: self.headers,
            trailers: self.trailers,
            slots: self.slots,
            status: 0,
            status_line: NativeString { len: 0, data: None },
            override_charset: None,
            content_type_len: 0,
            content_type: NativeString { len: 0, data: None },
            charset: NativeString { len: 0, data: None },
            content_type_lowcase: None,
            content_type_hash: 0,
            content_length_n: 0,
            content_offset: 0,
            date_time: 0,
            last_modified_time: 0,
        })
    }

    /// The output headers as nginx clears them.
    pub fn zeroed() -> (result: NativeHeadersOut)
        ensures
            result.cleared(),
    {
        NativeHeadersOut {
            headers: NativeList::zeroed(),
            trailers: NativeList::zeroed(),
            slots: HeaderSlots::empty(),
            status: 0,
            status_line: NativeString::empty(),
            override_charset: None,
            content_type_len: 0,
            content_type: NativeString::empty(),
            charset: NativeString::empty(),
            content_type_lowcase: None,
            content_type_hash: 0,
            content_length_n: 0,
            content_offset: 0,
            date_time: 0,
            last_modified_time: 0,
        }
    }
}

impl NativeList {
    /// Where the enabled ones of `entries` lie that a slot is for.
    pub open spec fn named_of(entries: Seq<(EntryAt, NativeHeader)>, slot: HeaderSlot) -> Seq<
        EntryAt,
    >
        decreases entries.len(),
    {
        if entries.len() == 0 {
            Seq::empty()
        } else {
            let earlier = Self::named_of(entries.drop_last(), slot);
            if entries.last().1.hash != 0 && slot.names(entries.last().1.key.bytes()) {
                earlier.push(entries.last().0)
            } else {
                earlier
            }
        }
    }

    /// Where the enabled entries of the list lie that a slot is for, in list order.
    pub open spec fn named(self, slot: HeaderSlot) -> Seq<EntryAt> {
        Self::named_of(self.placed_entries(), slot)
    }
}

impl NativeHeadersIn {
    /// Whether every input slot leads to the entries of the list that it is for, in list order.
    pub open spec fn slots_match(self) -> bool {
        &&& self.slots.wf()
        &&& forall|slot: HeaderSlot| #[trigger]
            self.slots.chain(slot) == (if slot.input() {
                self.headers.named(slot)
            } else {
                Seq::empty()
            })
    }

    /// Whether the server name is the value of the first Host header.
    pub open spec fn server_matches(self) -> bool {
        let hosts = self.headers.named(HeaderSlot::Host);
        if hosts.len() == 0 {
            self.server.len == 0 && self.server.data is None
        } else {
            self.server.same(self.headers.at(hosts[0]).value)
        }
    }
}

impl NativeHeadersOut {
    /// Whether every output slot leads to the entries of the list that it is for, in list order.
    pub open spec fn slots_match(self) -> bool {
        &&& self.slots.wf()
        &&& forall|slot: HeaderSlot| #[trigger]
            self.slots.chain(slot) == (if slot.output() {
                self.headers.named(slot)
            } else {
                Seq::empty()
            })
    }
}

/// Makes a header of the list known to its input slot. A disabled header has none.
pub fn bind_headers_in(headers: &mut NativeHeadersIn, header: EntryAt)
    requires
        old(headers).slots.wf(),
        old(headers).headers.has(header),
        old(headers).headers.at(header).readable(),
        !old(headers).headers.at(header).key.missing(),
    ensures
        *final(headers) == (NativeHeadersIn {
            slots: final(headers).slots,
            server: final(headers).server,
            ..*old(headers)
        }),
        final(headers).slots.wf(),
        ({
            let entry = old(headers).headers.at(header);
            let enabled = entry.hash != 0;
            &&& forall|slot: HeaderSlot| #[trigger]
                final(headers).slots.chain(slot) == (if enabled && slot.input() && slot.names(
                    entry.key.bytes(),
                ) {
                    old(headers).slots.chain(slot).push(header)
                } else {
                    old(headers).slots.chain(slot)
                })
            &&& if enabled && HeaderSlot::Host.names(entry.key.bytes()) && old(
                headers,
            ).slots.chain(HeaderSlot::Host).len() == 0 {
                final(headers).server.same(entry.value)
            } else {
                final(headers).server == old(headers).server
            }
        }),
{
    let entry = headers.headers.get(header);
    if entry.hash == 0 {
        return;
    }
    match HeaderSlot::for_key(entry.key.as_bytes()) {
        Some(slot) => if slot.is_input() {
            if slot == HeaderSlot::Host && headers.slots.get(slot).len() == 0 {
                headers.server = entry.value.duplicate();
            }
            headers.slots.append_header_slot(slot, header);
        },
        None => {},
    }
}

/// Makes a header of the list known to its output slot. A disabled header has none.
pub fn bind_headers_out(slots: &mut HeaderSlots, list: &NativeList, header: EntryAt)
    requires
        old(slots).wf(),
        list.has(header),
        list.at(header).readable(),
        !list.at(header).key.missing(),
    ensures
        final(slots).wf(),
        forall|slot: HeaderSlot| #[trigger]
            final(slots).chain(slot) == (if list.at(header).hash != 0 && slot.output()
                && slot.names(list.at(header).key.bytes()) {
                old(slots).chain(slot).push(header)
            } else {
                old(slots).chain(slot)
            }),
{
    let entry = list.get(header);
    if entry.hash == 0 {
        return;
    }
    match HeaderSlot::for_key(entry.key.as_bytes()) {
        Some(slot) => if slot.is_output() {
            slots.append_header_slot(slot, header);
        },
        None => {},
    }
}

} // verus!
