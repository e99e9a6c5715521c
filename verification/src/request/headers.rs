//! HTTP header lists and the builders that replace them.

use vstd::prelude::*;
use vstd::slice::slice_subrange;

use crate::native::NativeString;
use crate::request::view::RequestError;

verus! {

/// Size of one native header entry.
pub const HEADER_ENTRY_SIZE: usize = 56;

/// Failure returned while validating an nginx HTTP header list.
#[derive(Clone, Copy, Debug, PartialEq, Eq, Structural)]
pub enum HeaderListError {
    /// The nginx list layout, part bounds, or part chain is invalid.
    InvalidList,
    /// A header key has a nonzero length but no data pointer.
    MissingKeyData,
    /// A header value has a nonzero length but no data pointer.
    MissingValueData,
    /// A header key is too long to create a Rust slice.
    KeyTooLong,
    /// A header value is too long to create a Rust slice.
    ValueTooLong,
}

/// Where a list holds an entry.
#[derive(Clone, Copy, Debug, PartialEq, Eq, Structural)]
pub struct EntryAt {
    pub part: usize,
    pub index: usize,
}

/// A native header entry.
#[derive(Debug)]
pub struct NativeHeader {
    /// Zero disables the entry.
    pub hash: usize,
    pub key: NativeString,
    pub value: NativeString,
    /// Bytes behind the lowercase-key pointer, unless it is null.
    pub lowcase_key: Option<Vec<u8>>,
}

/// One part of a native list.
#[derive(Debug)]
pub struct NativeListPart {
    /// The initialized entries, unless the element pointer is null.
    pub elts: Option<Vec<NativeHeader>>,
    pub nelts: usize,
    /// The part that the next pointer leads to.
    pub next: Option<usize>,
}

/// A native list of header entries. Its parts are numbered; the first one is part of the list.
#[derive(Debug)]
pub struct NativeList {
    pub parts: Vec<NativeListPart>,
    /// The part that the last pointer leads to.
    pub last: usize,
    pub size: usize,
    /// Entries that each part has room for.
    pub nalloc: usize,
}

impl NativeList {
    /// Whether the list is as nginx clears it.
    pub open spec fn cleared(self) -> bool {
        &&& self.parts@ == seq![NativeListPart { elts: None, nelts: 0, next: None }]
        &&& self.last == 0
        &&& self.size == 0
        &&& self.nalloc == 0
    }

    /// The list as nginx clears it: it was never initialized.
    pub fn zeroed() -> (result: NativeList)
        ensures
            result.cleared(),
    {
        let mut parts: Vec<NativeListPart> = Vec::new();
        parts.push(NativeListPart { elts: None, nelts: 0, next: None });
        assert(parts@ =~= seq![NativeListPart { elts: None, nelts: 0, next: None }]);
        NativeList { parts, last: 0, size: 0, nalloc: 0 }
    }
}

/// What a header entry says.
#[verifier::ext_equal]
pub struct HeaderView {
    pub hash: usize,
    pub key: Seq<u8>,
    pub value: Seq<u8>,
    pub lowercase_key: Option<Seq<u8>>,
}

impl NativeHeader {
    /// Whether every byte that the entry promises can be read.
    pub open spec fn readable(self) -> bool {
        &&& self.key.readable()
        &&& self.value.readable()
        &&& self.lowcase_key matches Some(bytes) ==> self.key.len <= bytes@.len()
    }

    /// What the entry says.
    pub open spec fn view(&self) -> HeaderView {
        HeaderView {
            hash: self.hash,
            key: self.key.bytes(),
            value: self.value.bytes(),
            lowercase_key: match self.lowcase_key {
                Some(bytes) => Some(bytes@.take(self.key.len as int)),
                None => None,
            },
        }
    }

    /// What is wrong with an entry. A disabled one may be uninitialized.
    pub open spec fn check(self) -> Result<(), HeaderListError> {
        if self.hash == 0 {
            Ok(())
        } else if self.key.len > isize::MAX {
            Err(HeaderListError::KeyTooLong)
        } else if self.key.missing() {
            Err(HeaderListError::MissingKeyData)
        } else if self.value.len > isize::MAX {
            Err(HeaderListError::ValueTooLong)
        } else if self.value.missing() {
            Err(HeaderListError::MissingValueData)
        } else {
            Ok(())
        }
    }
}

impl NativeListPart {
    /// The entries of the part.
    pub open spec fn entries(self) -> Seq<NativeHeader> {
        match self.elts {
            Some(entries) => entries@,
            None => Seq::empty(),
        }
    }
}

impl NativeList {
    /// The entries of `parts` in list order, each with its place.
    pub open spec fn flat(parts: Seq<NativeListPart>) -> Seq<(EntryAt, NativeHeader)>
        decreases parts.len(),
    {
        if parts.len() == 0 {
            Seq::empty()
        } else {
            Self::flat(parts.drop_last()) + Self::placed(
                parts.last().entries(),
                (parts.len() - 1) as usize,
            )
        }
    }

    /// The entries of part `part`, each with its place.
    pub open spec fn placed(entries: Seq<NativeHeader>, part: usize) -> Seq<(EntryAt, NativeHeader)> {
        Seq::new(entries.len(), |i: int| (EntryAt { part, index: i as usize }, entries[i]))
    }

    /// The entries of the list in list order, each with its place.
    pub open spec fn placed_entries(self) -> Seq<(EntryAt, NativeHeader)> {
        Self::flat(self.parts@)
    }

    /// The entries of the list in list order.
    pub open spec fn entries(self) -> Seq<NativeHeader> {
        self.placed_entries().map_values(|placed: (EntryAt, NativeHeader)| placed.1)
    }

    /// Whether the list has an entry at `at`.
    pub open spec fn has(self, at: EntryAt) -> bool {
        at.part < self.parts@.len() && at.index < self.parts@[at.part as int].entries().len()
    }

    /// The entry at `at`.
    pub open spec fn at(self, at: EntryAt) -> NativeHeader {
        self.parts@[at.part as int].entries()[at.index as int]
    }

    /// Whether the parts are chained in their order.
    pub open spec fn chained(self) -> bool {
        &&& self.parts@.len() > 0
        &&& forall|i: int|
            0 <= i < self.parts@.len() ==> (#[trigger] self.parts@[i]).next == (if i + 1
                < self.parts@.len() {
                Some((i + 1) as usize)
            } else {
                None
            })
    }

    /// Whether each part holds the entries that it counts, and every entry can be read.
    pub open spec fn faithful(self) -> bool {
        forall|i: int|
            0 <= i < self.parts@.len() ==> {
                let part = #[trigger] self.parts@[i];
                &&& part.elts is Some && part.nelts <= self.nalloc ==> part.entries().len()
                    == part.nelts
                &&& forall|j: int|
                    0 <= j < part.entries().len() ==> (#[trigger] part.entries()[j]).readable()
            }
    }

    /// Whether the list layout, its part bounds and its part chain are valid.
    pub open spec fn valid(self) -> bool {
        &&& self.size == HEADER_ENTRY_SIZE
        &&& self.chained()
        &&& self.last == self.parts@.len() - 1
        &&& forall|i: int|
            0 <= i < self.parts@.len() ==> {
                &&& (#[trigger] self.parts@[i]).nelts <= self.nalloc
                &&& self.parts@[i].elts is None ==> self.parts@[i].nelts == 0
            }
    }

    /// What is wrong with the entries from `index` on, when `seen` enabled ones came before.
    pub open spec fn check_from(
        entries: Seq<(EntryAt, NativeHeader)>,
        index: int,
        seen: nat,
    ) -> Result<(), HeaderListError>
        decreases entries.len() - index,
    {
        if index >= entries.len() {
            Ok(())
        } else if entries[index].1.hash == 0 {
            Self::check_from(entries, index + 1, seen)
        } else {
            match entries[index].1.check() {
                Err(error) => Err(error),
                Ok(_) => if seen == usize::MAX {
                    Err(HeaderListError::InvalidList)
                } else {
                    Self::check_from(entries, index + 1, seen + 1)
                },
            }
        }
    }

    /// What is wrong with the list.
    pub open spec fn check(self) -> Result<(), HeaderListError> {
        if !self.valid() {
            Err(HeaderListError::InvalidList)
        } else {
            Self::check_from(self.placed_entries(), 0, 0)
        }
    }

    /// What the enabled ones of `entries` say.
    pub open spec fn enabled_of(entries: Seq<(EntryAt, NativeHeader)>) -> Seq<HeaderView>
        decreases entries.len(),
    {
        if entries.len() == 0 {
            Seq::empty()
        } else {
            let earlier = Self::enabled_of(entries.drop_last());
            if entries.last().1.hash == 0 {
                earlier
            } else {
                earlier.push(entries.last().1.view())
            }
        }
    }

    /// What the enabled entries of the list say.
    pub open spec fn enabled(self) -> Seq<HeaderView> {
        Self::enabled_of(self.placed_entries())
    }

    /// Number of entries in the parts before `part`.
    pub open spec fn offset(self, part: int) -> nat {
        Self::flat(self.parts@.take(part)).len()
    }

    /// Where a part's entries lie in list order.
    pub proof fn lemma_offset(self, part: int)
        requires
            0 <= part < self.parts@.len(),
        ensures
            self.offset(0) == 0,
            self.offset(part + 1) == self.offset(part) + self.parts@[part].entries().len(),
            self.offset(self.parts@.len() as int) == self.placed_entries().len(),
            self.offset(part + 1) <= self.placed_entries().len(),
            forall|i: int|
                0 <= i < self.parts@[part].entries().len() ==> #[trigger] self.placed_entries()[(
                self.offset(part) + i) as int] == (
                    EntryAt { part: part as usize, index: i as usize },
                    self.parts@[part].entries()[i],
                ),
        decreases self.parts@.len(),
    {
        assert(self.parts@.len() == self.parts.len());
        assert(self.parts@.take(self.parts@.len() as int) =~= self.parts@);
        assert(self.parts@.take(part + 1).drop_last() =~= self.parts@.take(part));
        assert(self.parts@.take(part + 1).last() == self.parts@[part]);
        Self::lemma_flat_prefix(self.parts@, part + 1);
        Self::lemma_flat_prefix(self.parts@, part);
        assert forall|i: int| 0 <= i < self.parts@[part].entries().len() implies #[trigger]
            self.placed_entries()[(self.offset(part) + i) as int] == (
            EntryAt { part: part as usize, index: i as usize },
            self.parts@[part].entries()[i],
        ) by {
            let k = self.offset(part) + i;
            assert(Self::flat(self.parts@)[k as int] == Self::flat(self.parts@.take(part + 1))[k as int]);
        }
    }

    /// The entries of the first parts come first.
    proof fn lemma_flat_prefix(parts: Seq<NativeListPart>, count: int)
        requires
            0 <= count <= parts.len(),
        ensures
            Self::flat(parts.take(count)).len() <= Self::flat(parts).len(),
            forall|k: int|
                0 <= k < Self::flat(parts.take(count)).len() ==> #[trigger] Self::flat(parts)[k]
                    == Self::flat(parts.take(count))[k],
        decreases parts.len(),
    {
        if count == parts.len() {
            assert(parts.take(count) =~= parts);
        } else {
            Self::lemma_flat_prefix(parts.drop_last(), count);
            assert(parts.drop_last().take(count) =~= parts.take(count));
        }
    }

    /// Every placed entry is where its place says.
    pub proof fn lemma_placed(self, k: int)
        requires
            0 <= k < self.placed_entries().len(),
        ensures
            self.has(self.placed_entries()[k].0),
            self.at(self.placed_entries()[k].0) == self.placed_entries()[k].1,
    {
        assert(self.parts@.len() == self.parts.len());
        assert forall|i: int| 0 <= i < self.parts@.len() implies (
        #[trigger] self.parts@[i]).entries().len() <= usize::MAX by {
            let part = self.parts@[i];
            if part.elts is Some {
                assert(part.entries().len() == part.elts->0.len());
            }
        }
        Self::lemma_placed_in(self.parts@, k);
    }

    /// Every placed entry of `parts` is where its place says.
    pub proof fn lemma_placed_in(parts: Seq<NativeListPart>, k: int)
        requires
            0 <= k < Self::flat(parts).len(),
            parts.len() <= usize::MAX,
            forall|i: int|
                0 <= i < parts.len() ==> (#[trigger] parts[i]).entries().len() <= usize::MAX,
        ensures
            Self::flat(parts)[k].0.part < parts.len(),
            Self::flat(parts)[k].0.index < parts[Self::flat(
                parts,
            )[k].0.part as int].entries().len(),
            parts[Self::flat(parts)[k].0.part as int].entries()[Self::flat(parts)[k].0.index as int]
                == Self::flat(parts)[k].1,
        decreases parts.len(),
    {
        let earlier = Self::flat(parts.drop_last());
        if k < earlier.len() {
            Self::lemma_placed_in(parts.drop_last(), k);
        } else {
            let i = k - earlier.len();
            assert(Self::flat(parts)[k] == Self::placed(
                parts.last().entries(),
                (parts.len() - 1) as usize,
            )[i]);
        }
    }

    /// Whether the list layout, its part bounds and its part chain are valid.
    pub fn is_valid(&self) -> (result: bool)
        ensures
            result == self.valid(),
    {
        if self.size != HEADER_ENTRY_SIZE || self.parts.len() == 0 || self.last != self.parts.len()
            - 1 {
            return false;
        }
        let mut index: usize = 0;
        while index < self.parts.len()
            invariant
                index <= self.parts@.len(),
                self.parts@.len() > 0,
                forall|i: int|
                    0 <= i < index ==> {
                        &&& (#[trigger] self.parts@[i]).next == (if i + 1 < self.parts@.len() {
                            Some((i + 1) as usize)
                        } else {
                            None
                        })
                        &&& self.parts@[i].nelts <= self.nalloc
                        &&& self.parts@[i].elts is None ==> self.parts@[i].nelts == 0
                    },
            decreases self.parts@.len() - index,
        {
            let part = &self.parts[index];
            let chained = match part.next {
                Some(next) => index + 1 < self.parts.len() && next == index + 1,
                None => index + 1 == self.parts.len(),
            };
            if !chained || part.nelts > self.nalloc || (part.elts.is_none() && part.nelts != 0) {
                assert(self.parts@[index as int] == *part);
                return false;
            }
            index = index + 1;
        }
        true
    }

    /// The places of the list's entries in list order.
    pub fn places(&self) -> (result: Vec<EntryAt>)
        ensures
            result@.len() == self.placed_entries().len(),
            forall|k: int| 0 <= k < result@.len() ==> result@[k] == self.placed_entries()[k].0,
    {
        let mut places: Vec<EntryAt> = Vec::new();
        let mut part: usize = 0;
        proof {
            assert(self.parts@.take(0) =~= Seq::empty());
            assert(self.parts@.take(self.parts@.len() as int) =~= self.parts@);
        }
        while part < self.parts.len()
            invariant
                part <= self.parts@.len(),
                places@.len() == self.offset(part as int),
                self.offset(self.parts@.len() as int) == self.placed_entries().len(),
                places@.len() <= self.placed_entries().len(),
                forall|k: int| 0 <= k < places@.len() ==> places@[k] == self.placed_entries()[k].0,
            decreases self.parts@.len() - part,
        {
            proof {
                self.lemma_offset(part as int);
            }
            let count = match &self.parts[part].elts {
                Some(entries) => entries.len(),
                None => 0,
            };
            let mut index: usize = 0;
            while index < count
                invariant
                    part < self.parts@.len(),
                    index <= count,
                    count == self.parts@[part as int].entries().len(),
                    places@.len() == self.offset(part as int) + index,
                    self.offset(part as int) + count <= self.placed_entries().len(),
                    forall|i: int|
                        0 <= i < count ==> #[trigger] self.placed_entries()[(self.offset(
                            part as int,
                        ) + i) as int] == (
                            EntryAt { part: part, index: i as usize },
                            self.parts@[part as int].entries()[i],
                        ),
                    forall|k: int|
                        0 <= k < places@.len() ==> places@[k] == self.placed_entries()[k].0,
                decreases count - index,
            {
                places.push(EntryAt { part, index });
                assert(self.placed_entries()[(self.offset(part as int) + index) as int].0 == (
                EntryAt { part, index }));
                index = index + 1;
            }
            part = part + 1;
        }
        places
    }

    /// The entry at `at`.
    pub fn get(&self, at: EntryAt) -> (result: &NativeHeader)
        requires
            self.has(at),
        ensures
            *result == self.at(at),
    {
        let entries = self.parts[at.part].elts.as_ref().unwrap();
        &entries[at.index]
    }
}

/// Failure returned while preparing a replacement nginx HTTP header set.
#[derive(Clone, Copy, Debug, PartialEq, Eq, Structural)]
pub enum HeaderBuildError {
    /// The request could not provide a usable pool.
    Request(RequestError),
    /// The existing output-trailer list is not safe to clone into a candidate.
    InvalidSource(HeaderListError),
    /// The requested initial list capacity is zero or cannot describe a list allocation.
    InvalidCapacity,
    /// Nginx could not allocate request-pool storage.
    Allocation,
    /// A response content length cannot be represented by nginx's file offset.
    ContentLengthTooLarge,
    /// Content-Length and Transfer-Encoding require the typed output framing API.
    ManagedOutputFraming,
    /// The input header count cannot be represented by nginx.
    CountOverflow,
}

impl From<RequestError> for HeaderBuildError {
    fn from(error: RequestError) -> (result: Self) {
        HeaderBuildError::Request(error)
    }
}

impl vstd::std_specs::convert::FromSpecImpl<RequestError> for HeaderBuildError {
    open spec fn obeys_from_spec() -> bool {
        true
    }

    open spec fn from_spec(error: RequestError) -> Self {
        HeaderBuildError::Request(error)
    }
}

/// One checked byte-oriented nginx HTTP header entry.
#[derive(Clone, Copy, Debug, PartialEq, Eq)]
pub struct HttpHeaderRef<'header> {
    pub key: &'header [u8],
    pub value: &'header [u8],
    pub lowercase_key: Option<&'header [u8]>,
    pub hash: usize,
}

impl<'header> HttpHeaderRef<'header> {
    /// What the entry says.
    pub open spec fn view(&self) -> HeaderView {
        HeaderView {
            hash: self.hash,
            key: self.key@,
            value: self.value@,
            lowercase_key: match self.lowercase_key {
                Some(bytes) => Some(bytes@),
                None => None,
            },
        }
    }

    /// Returns the raw header-name bytes.
    pub fn key(&self) -> (result: &'header [u8])
        ensures
            result@ == self.view().key,
    {
        self.key
    }

    /// Returns the raw header-value bytes.
    pub fn value(&self) -> (result: &'header [u8])
        ensures
            result@ == self.view().value,
    {
        self.value
    }

    /// Returns nginx's lowercase header-name bytes when they are available.
    pub fn lowercase_key(&self) -> (result: Option<&'header [u8]>)
        ensures
            result is Some == self.view().lowercase_key is Some,
            result matches Some(bytes) ==> Some(bytes@) == self.view().lowercase_key,
    {
        self.lowercase_key
    }

    /// Returns nginx's header hash.
    pub fn hash(&self) -> (result: usize)
        ensures
            result == self.view().hash,
    {
        self.hash
    }

    /// Returns whether nginx has not disabled this header.
    pub fn is_enabled(&self) -> (result: bool)
        ensures
            result == (self.view().hash != 0),
    {
        self.hash != 0
    }
}

/// Which of a request's lists an entry comes from.
#[derive(Clone, Copy, Debug, PartialEq, Eq, Structural)]
pub enum HttpHeaderSource {
    /// Input headers, which have lowercase keys.
    Input,
    /// Output headers and trailers.
    Output,
}

impl HttpHeaderSource {
    /// What a checked view of an entry shows: an output entry has no lowercase key.
    pub open spec fn shows(self, header: HeaderView) -> HeaderView {
        match self {
            HttpHeaderSource::Input => header,
            HttpHeaderSource::Output => HeaderView { lowercase_key: None, ..header },
        }
    }
}

/// Checked byte-oriented view over enabled entries in an nginx HTTP header list.
#[derive(Debug)]
pub struct HttpHeaderList<'header> {
    pub headers: &'header NativeList,
    pub source: HttpHeaderSource,
    pub len: usize,
}

impl<'header> HttpHeaderList<'header> {
    /// Whether the view was made from a checked list.
    pub open spec fn wf(self) -> bool {
        &&& self.headers.check() is Ok
        &&& self.headers.faithful()
        &&& self.len == self.headers.enabled().len()
    }

    /// Returns the number of enabled entries across all nginx list parts.
    pub fn len(&self) -> (result: usize)
        requires
            self.wf(),
        ensures
            result == self.headers.enabled().len(),
    {
        self.len
    }

    /// Returns whether the list contains no enabled entries.
    pub fn is_empty(&self) -> (result: bool)
        requires
            self.wf(),
        ensures
            result == (self.headers.enabled().len() == 0),
    {
        self.len == 0
    }

    /// Walks over checked enabled header entries in list order.
    pub fn iter(&self) -> (result: HttpHeaderIter<'header>)
        requires
            self.wf(),
        ensures
            result.wf(),
            result.source == self.source,
            result.pending() == self.headers.enabled(),
    {
        let places = self.headers.places();
        proof {
            assert(self.headers.placed_entries().skip(0) =~= self.headers.placed_entries());
        }
        HttpHeaderIter {
            headers: self.headers,
            source: self.source,
            places,
            index: 0,
            remaining: self.len,
        }
    }
}

/// Walk over enabled [`HttpHeaderList`] entries.
#[derive(Debug)]
pub struct HttpHeaderIter<'header> {
    pub headers: &'header NativeList,
    pub source: HttpHeaderSource,
    pub places: Vec<EntryAt>,
    pub index: usize,
    pub remaining: usize,
}

impl<'header> HttpHeaderIter<'header> {
    /// What the entries say that are still to come.
    pub open spec fn pending(self) -> Seq<HeaderView> {
        NativeList::enabled_of(self.headers.placed_entries().skip(self.index as int))
    }

    /// Whether the walk is over a checked list.
    pub open spec fn wf(self) -> bool {
        &&& self.headers.check() is Ok
        &&& self.headers.faithful()
        &&& self.index <= self.places@.len() == self.headers.placed_entries().len()
        &&& forall|k: int|
            0 <= k < self.places@.len() ==> self.places@[k] == self.headers.placed_entries()[k].0
        &&& self.remaining == self.pending().len()
    }

    /// Number of entries that are still to come.
    pub fn len(&self) -> (result: usize)
        requires
            self.wf(),
        ensures
            result == self.pending().len(),
    {
        self.remaining
    }

    /// The next enabled entry.
    pub fn next(&mut self) -> (result: Option<HttpHeaderRef<'header>>)
        requires
            old(self).wf(),
        ensures
            final(self).wf(),
            final(self).headers == old(self).headers,
            final(self).source == old(self).source,
            match result {
                None => old(self).pending().len() == 0 && final(self).pending().len() == 0,
                Some(header) => {
                    &&& old(self).pending().len() > 0
                    &&& header.view() == old(self).source.shows(old(self).pending()[0])
                    &&& final(self).pending() == old(self).pending().drop_first()
                },
            },
    {
        let ghost entries = self.headers.placed_entries();
        while self.index < self.places.len()
            invariant
                self.wf(),
                entries == self.headers.placed_entries(),
                self.headers == old(self).headers,
                self.source == old(self).source,
                self.pending() == old(self).pending(),
            decreases self.places@.len() - self.index,
        {
            let at = self.places[self.index];
            proof {
                self.headers.lemma_placed(self.index as int);
                lemma_enabled_of_first(entries.skip(self.index as int));
                assert(entries.skip(self.index as int).drop_first() =~= entries.skip(
                    self.index + 1,
                ));
                lemma_checked_entry(entries, 0, 0, self.index as int);
                self.headers.lemma_readable(at);
            }
            let headers: &'header NativeList = self.headers;
            let header = headers.get(at);
            self.index = self.index + 1;
            if header.hash != 0 {
                proof {
                    assert(old(self).pending().drop_first() =~= self.pending());
                }
                self.remaining = self.remaining - 1;
                return Some(http_header_from_raw(header, self.source));
            }
        }
        assert(entries.skip(self.index as int) =~= Seq::empty());
        None
    }
}

/// The enabled entries of a nonempty sequence start with its first one, if that is enabled.
proof fn lemma_enabled_of_first(entries: Seq<(EntryAt, NativeHeader)>)
    requires
        entries.len() > 0,
    ensures
        NativeList::enabled_of(entries) == (if entries[0].1.hash == 0 {
            NativeList::enabled_of(entries.drop_first())
        } else {
            seq![entries[0].1.view()] + NativeList::enabled_of(entries.drop_first())
        }),
    decreases entries.len(),
{
    if entries.len() == 1 {
        assert(entries.drop_last() =~= Seq::empty());
        assert(entries.drop_first() =~= Seq::empty());
        assert(Seq::<HeaderView>::empty().push(entries[0].1.view()) =~= seq![entries[0].1.view()]
            + Seq::<HeaderView>::empty());
    } else {
        lemma_enabled_of_first(entries.drop_last());
        assert(entries.drop_first().drop_last() =~= entries.drop_last().drop_first());
        assert(entries.drop_first().last() == entries.last());
        let rest = NativeList::enabled_of(entries.drop_first().drop_last());
        assert((seq![entries[0].1.view()] + rest).push(entries.last().1.view()) =~= seq![
            entries[0].1.view(),
        ] + rest.push(entries.last().1.view()));
    }
}

/// In a checked sequence every entry passes its own check.
pub proof fn lemma_checked_entry(
    entries: Seq<(EntryAt, NativeHeader)>,
    index: int,
    seen: nat,
    k: int,
)
    requires
        0 <= index <= k < entries.len(),
        NativeList::check_from(entries, index, seen) is Ok,
    ensures
        entries[k].1.check() is Ok,
    decreases entries.len() - index,
{
    if index < k {
        if entries[index].1.hash == 0 {
            lemma_checked_entry(entries, index + 1, seen, k);
        } else {
            lemma_checked_entry(entries, index + 1, seen + 1, k);
        }
    }
}

/// The first entries of a sequence hold no more enabled ones than all of it.
proof fn lemma_enabled_of_prefix(entries: Seq<(EntryAt, NativeHeader)>, count: int)
    requires
        0 <= count <= entries.len(),
    ensures
        NativeList::enabled_of(entries.take(count)).len() <= NativeList::enabled_of(entries).len(),
    decreases entries.len(),
{
    if count == entries.len() {
        assert(entries.take(count) =~= entries);
    } else {
        lemma_enabled_of_prefix(entries.drop_last(), count);
        assert(entries.drop_last().take(count) =~= entries.take(count));
    }
}

/// A sequence passes where each entry passes its own check and the enabled ones can be counted.
pub proof fn lemma_checked_entries(entries: Seq<(EntryAt, NativeHeader)>, index: int)
    requires
        0 <= index <= entries.len(),
        forall|k: int| 0 <= k < entries.len() ==> (#[trigger] entries[k]).1.check() is Ok,
        NativeList::enabled_of(entries).len() <= usize::MAX,
    ensures
        NativeList::check_from(
            entries,
            index,
            NativeList::enabled_of(entries.take(index)).len(),
        ) is Ok,
    decreases entries.len() - index,
{
    if index < entries.len() {
        lemma_enabled_of_prefix(entries, index + 1);
        lemma_checked_entries(entries, index + 1);
        assert(entries.take(index + 1).drop_last() =~= entries.take(index));
        assert(entries.take(index + 1).last() == entries[index]);
    }
}

impl NativeList {
    /// An entry of a faithful list can be read.
    pub proof fn lemma_readable(self, at: EntryAt)
        requires
            self.faithful(),
            self.has(at),
        ensures
            self.at(at).readable(),
    {
        let part = self.parts@[at.part as int];
        assert(part.entries()[at.index as int].readable());
    }
}

/// The bytes of a header string.
pub fn checked_header_bytes<'header>(
    value: &'header NativeString,
    missing: HeaderListError,
    too_long: HeaderListError,
) -> (result: Result<&'header [u8], HeaderListError>)
    requires
        value.readable(),
    ensures
        match result {
            Err(error) => if value.len > isize::MAX {
                error == too_long
            } else {
                value.missing() && error == missing
            },
            Ok(bytes) => value.len <= isize::MAX && !value.missing() && bytes@ == value.bytes(),
        },
{
    if value.len > isize::MAX as usize {
        return Err(too_long);
    }
    if value.len > 0 && value.data.is_none() {
        return Err(missing);
    }
    Ok(value.as_bytes())
}

/// The checked view of an enabled entry.
pub fn http_header_from_raw<'header>(
    header: &'header NativeHeader,
    source: HttpHeaderSource,
) -> (result: HttpHeaderRef<'header>)
    requires
        header.readable(),
        header.hash != 0,
        header.check() is Ok,
    ensures
        result.view() == source.shows(header.view()),
{
    let lowercase_key = match source {
        HttpHeaderSource::Input => match &header.lowcase_key {
            Some(bytes) => {
                let key = slice_subrange(bytes.as_slice(), 0, header.key.len);
                assert(key@ =~= bytes@.take(header.key.len as int));
                Some(key)
            },
            None => None,
        },
        HttpHeaderSource::Output => None,
    };
    HttpHeaderRef {
        key: header.key.as_bytes(),
        value: header.value.as_bytes(),
        lowercase_key,
        hash: header.hash,
    }
}

/// Checks a header list and counts its enabled entries.
pub fn checked_header_list<'header>(
    headers: &'header NativeList,
    source: HttpHeaderSource,
) -> (result: Result<HttpHeaderList<'header>, HeaderListError>)
    requires
        headers.faithful(),
    ensures
        match headers.check() {
            Err(error) => result matches Err(e) && e == error,
            Ok(_) => result matches Ok(list) && list.wf() && list.headers == headers && list.source
                == source,
        },
{
    if !headers.is_valid() {
        return Err(HeaderListError::InvalidList);
    }
    let ghost entries = headers.placed_entries();
    let places = headers.places();
    let mut len: usize = 0;
    let mut index: usize = 0;
    proof {
        assert(entries.take(0) =~= Seq::empty());
    }
    while index < places.len()
        invariant
            index <= places@.len() == entries.len(),
            entries == headers.placed_entries(),
            headers.faithful(),
            forall|k: int| 0 <= k < places@.len() ==> places@[k] == entries[k].0,
            len == NativeList::enabled_of(entries.take(index as int)).len(),
            NativeList::check_from(entries, 0, 0) == NativeList::check_from(
                entries,
                index as int,
                len as nat,
            ),
            headers.valid(),
        decreases places@.len() - index,
    {
        let at = places[index];
        proof {
            headers.lemma_placed(index as int);
            headers.lemma_readable(at);
            assert(entries.take(index + 1).drop_last() =~= entries.take(index as int));
            assert(entries.take(index + 1).last() == entries[index as int]);
        }
        let header = headers.get(at);
        if header.hash != 0 {
            match checked_header_bytes(
                &header.key,
                HeaderListError::MissingKeyData,
                HeaderListError::KeyTooLong,
            ) {
                Ok(_) => {},
                Err(error) => return Err(error),
            }
            match checked_header_bytes(
                &header.value,
                HeaderListError::MissingValueData,
                HeaderListError::ValueTooLong,
            ) {
                Ok(_) => {},
                Err(error) => return Err(error),
            }
            match len.checked_add(1) {
                Some(next) => {
                    len = next;
                },
                None => return Err(HeaderListError::InvalidList),
            }
        }
        index = index + 1;
    }
    assert(entries.take(index as int) =~= entries);
    Ok(HttpHeaderList { headers, source, len })
}

} // verus!
