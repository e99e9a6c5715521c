//! Header lists: what they list, how they grow, and the slots beside them.

use vstd::prelude::*;

use crate::bytes::{lower, lowercase, same_ignoring_case};
use crate::native::{NativePool, NativeRequest, NativeState, NativeString};
use crate::request::header_access::{disable_output_framing_headers, list_iterator, NgxListIterator};
use crate::request::header_list::{
    append_header, append_pool_header, build_pool_header, copy_pool_bytes, create_header_list,
    disable_framing_headers, hash_lowercase, is_framing_key, ngx_hash_strlow,
    repair_header_list_last,
};
use crate::request::header_slots::{
    bind_headers_in, bind_headers_out, HeaderSlot, HeaderSlots, NativeHeadersIn, NativeHeadersOut,
};
use crate::request::headers::{
    checked_header_bytes, checked_header_list, http_header_from_raw, EntryAt, HeaderBuildError,
    HeaderListError, HeaderView, HttpHeaderIter, HttpHeaderList, HttpHeaderRef, HttpHeaderSource,
    NativeHeader, NativeList, NativeListPart,
};
use crate::request::view::{RequestError, RequestRef, RequestRefMut};

verus! {

/// What a list lists is, in their order, the entries that are not disabled.
pub proof fn law_lists_skip_disabled_entries(entries: Seq<(EntryAt, NativeHeader)>)
    ensures
        NativeList::enabled_of(entries) == entries.filter(
            |entry: (EntryAt, NativeHeader)| entry.1.hash != 0,
        ).map_values(|entry: (EntryAt, NativeHeader)| entry.1.view()),
    decreases entries.len(),
{
    reveal(Seq::filter);
    let enabled = |entry: (EntryAt, NativeHeader)| entry.1.hash != 0;
    let shown = |entry: (EntryAt, NativeHeader)| entry.1.view();
    if entries.len() > 0 {
        let earlier = entries.drop_last();
        law_lists_skip_disabled_entries(earlier);
        assert(NativeList::enabled_of(entries) =~= entries.filter(enabled).map_values(shown));
    } else {
        assert(NativeList::enabled_of(entries) =~= entries.filter(enabled).map_values(shown));
    }
}

/// The key-value pairs of a list are, in their order, those of the entries that are not disabled.
pub proof fn law_pairs_skip_disabled_entries(entries: Seq<(EntryAt, NativeHeader)>)
    ensures
        NativeList::pairs_of(entries) == entries.filter(
            |entry: (EntryAt, NativeHeader)| entry.1.hash != 0,
        ).map_values(
            |entry: (EntryAt, NativeHeader)| (entry.1.key.bytes(), entry.1.value.bytes()),
        ),
    decreases entries.len(),
{
    let enabled = |entry: (EntryAt, NativeHeader)| entry.1.hash != 0;
    let shown = |entry: (EntryAt, NativeHeader)| (entry.1.key.bytes(), entry.1.value.bytes());
    if entries.len() > 0 {
        let first = seq![entries[0]];
        let later = entries.drop_first();
        law_pairs_skip_disabled_entries(later);
        assert(entries =~= first + later);
        Seq::filter_distributes_over_add(first, later, enabled);
        assert(first.drop_last() =~= Seq::<(EntryAt, NativeHeader)>::empty());
        assert(first.filter(enabled) =~= if entries[0].1.hash != 0 {
            first
        } else {
            Seq::empty()
        }) by {
            reveal_with_fuel(Seq::filter, 3);
        }
        assert(NativeList::pairs_of(entries) =~= entries.filter(enabled).map_values(shown));
    } else {
        reveal(Seq::filter);
        assert(NativeList::pairs_of(entries) =~= entries.filter(enabled).map_values(shown));
    }
}

/// The entries of a list with the name of a slot are, in their order, the places of those that are
/// not disabled and bear that name.
pub proof fn law_named_entries_bear_the_name(
    entries: Seq<(EntryAt, NativeHeader)>,
    slot: HeaderSlot,
)
    ensures
        NativeList::named_of(entries, slot) == entries.filter(
            |entry: (EntryAt, NativeHeader)| entry.1.hash != 0 && slot.names(entry.1.key.bytes()),
        ).map_values(|entry: (EntryAt, NativeHeader)| entry.0),
    decreases entries.len(),
{
    reveal(Seq::filter);
    let named = |entry: (EntryAt, NativeHeader)|
        entry.1.hash != 0 && slot.names(entry.1.key.bytes());
    let place = |entry: (EntryAt, NativeHeader)| entry.0;
    if entries.len() > 0 {
        law_named_entries_bear_the_name(entries.drop_last(), slot);
        assert(NativeList::named_of(entries, slot) =~= entries.filter(named).map_values(place));
    } else {
        assert(NativeList::named_of(entries, slot) =~= entries.filter(named).map_values(place));
    }
}

/// A header shows its own hash, key, value and lowercase key; the key and the value are the bytes
/// that their lengths promise, and the lowercase key has the length of the key.
pub proof fn law_headers_show_their_own_parts(header: NativeHeader)
    ensures
        header.view().hash == header.hash,
        header.key.data matches Some(data) ==> header.view().key =~= data@.take(
            header.key.len as int,
        ) || header.key.len == 0 && header.view().key.len() == 0,
        header.value.data matches Some(data) ==> header.view().value =~= data@.take(
            header.value.len as int,
        ) || header.value.len == 0 && header.view().value.len() == 0,
        header.view().lowercase_key is Some <==> header.lowcase_key is Some,
        header.lowcase_key matches Some(bytes) ==> header.view().lowercase_key->0 == bytes@.take(
            header.key.len as int,
        ),
{
}

/// The entries of a list are those of its parts, part by part and in the order of each part.
pub proof fn law_entries_are_those_of_the_parts(list: NativeList, at: EntryAt, k: int)
    ensures
        list.has(at) <==> at.part < list.parts@.len() && list.parts@[at.part as int].elts is Some
            && at.index < list.parts@[at.part as int].elts->0@.len(),
        list.has(at) ==> list.at(at) == list.parts@[at.part as int].elts->0@[at.index as int],
        list.has(at) ==> list.placed_entries()[list.offset(at.part as int) + at.index] == (
            at,
            list.at(at),
        ),
        0 <= k < list.placed_entries().len() ==> list.has(list.placed_entries()[k].0)
            && list.placed_entries()[k].1 == list.at(list.placed_entries()[k].0),
        0 <= k < list.parts@.len() ==> list.offset(k + 1) == list.offset(k)
            + list.parts@[k].entries().len(),
        list.offset(0) == 0,
        list.parts@.len() > 0 ==> list.offset(list.parts@.len() as int)
            == list.placed_entries().len(),
{
    if list.has(at) {
        list.lemma_offset(at.part as int);
    }
    if 0 <= k < list.placed_entries().len() {
        list.lemma_placed(k);
    }
    if 0 <= k < list.parts@.len() {
        list.lemma_offset(k);
    }
    if list.parts@.len() > 0 {
        list.lemma_offset(list.parts@.len() - 1);
    }
    assert(list.parts@.take(0) =~= Seq::<NativeListPart>::empty());
}

/// Whether the parts of a list hang together, hold entries of the right size and no more than they
/// have room for.
pub open spec fn well_linked(list: NativeList) -> bool {
    &&& list.size == 56
    &&& list.parts@.len() > 0
    &&& list.last == list.parts@.len() - 1
    &&& forall|i: int|
        0 <= i < list.parts@.len() ==> {
            let part = #[trigger] list.parts@[i];
            &&& part.nelts <= list.nalloc
            &&& part.elts is None ==> part.nelts == 0
            &&& i + 1 < list.parts@.len() ==> part.next == Some((i + 1) as usize)
            &&& i + 1 == list.parts@.len() ==> part.next is None
        }
}

/// Whether an entry is disabled or has a key and a value that can be read.
pub open spec fn sound_entry(header: NativeHeader) -> bool {
    header.hash == 0 || header.key.len <= isize::MAX && header.value.len <= isize::MAX && (
    header.key.len == 0 || header.key.data is Some) && (header.value.len == 0
        || header.value.data is Some)
}

/// A list is shown exactly if it is well linked and each enabled entry can be read; then it is
/// that list, for the side that it was asked for.
pub proof fn law_lists_are_shown_if_sound(headers: NativeList, source: HttpHeaderSource)
    ensures
        headers.valid() <==> well_linked(headers),
        forall|result: Result<HttpHeaderList, HeaderListError>| #[trigger]
            call_ensures(checked_header_list, (&headers, source), result) ==> {
                &&& result matches Ok(list) ==> {
                    &&& *list.headers == headers
                    &&& list.source == source
                    &&& well_linked(headers)
                    &&& forall|k: int|
                        0 <= k < headers.placed_entries().len() ==> sound_entry(
                            (#[trigger] headers.placed_entries()[k]).1,
                        )
                }
                &&& !well_linked(headers) ==> result is Err && result->Err_0
                    == HeaderListError::InvalidList
                &&& well_linked(headers) && headers.enabled().len() <= usize::MAX && (forall|
                    k: int,
                |
                    0 <= k < headers.placed_entries().len() ==> sound_entry(
                        (#[trigger] headers.placed_entries()[k]).1,
                    )) ==> result is Ok
            },
        forall|result: bool| #[trigger]
            call_ensures(NativeList::is_valid, (&headers,), result) ==> (result <==> well_linked(
                headers,
            )),
{
    let entries = headers.placed_entries();
    assert forall|k: int| 0 <= k < entries.len() implies (sound_entry((#[trigger] entries[k]).1)
        <==> entries[k].1.check() is Ok) by {}
    if NativeList::check_from(entries, 0, 0) is Ok {
        assert forall|k: int| 0 <= k < entries.len() implies sound_entry(
            (#[trigger] entries[k]).1,
        ) by {
            crate::request::headers::lemma_checked_entry(entries, 0, 0, k);
        }
    }
    if headers.enabled().len() <= usize::MAX && (forall|k: int|
        0 <= k < entries.len() ==> sound_entry((#[trigger] entries[k]).1)) {
        crate::request::headers::lemma_checked_entries(entries, 0);
        assert(entries.take(0) =~= Seq::<(EntryAt, NativeHeader)>::empty());
    }
}

/// What is wrong with an entry is told by its first fault: a key too long, a key without data, a
/// value too long, a value without data. A disabled entry has none.
pub proof fn law_entry_faults_come_in_their_order(header: NativeHeader)
    ensures
        header.check() is Ok <==> sound_entry(header),
        header.check() matches Err(error) ==> {
            &&& error == HeaderListError::KeyTooLong <==> header.key.len > isize::MAX
            &&& error == HeaderListError::MissingKeyData <==> header.key.len <= isize::MAX
                && header.key.len > 0 && header.key.data is None
            &&& error == HeaderListError::ValueTooLong <==> header.key.len <= isize::MAX && (
            header.key.len == 0 || header.key.data is Some) && header.value.len > isize::MAX
            &&& error == HeaderListError::MissingValueData <==> header.key.len <= isize::MAX && (
            header.key.len == 0 || header.key.data is Some) && header.value.len <= isize::MAX
                && header.value.len > 0 && header.value.data is None
        },
{
}

/// Bytes of a header are shown exactly if they are not too many and there.
pub proof fn law_header_bytes_are_shown(
    value: NativeString,
    missing: HeaderListError,
    too_long: HeaderListError,
)
    ensures
        forall|result: Result<&[u8], HeaderListError>| #[trigger]
            call_ensures(checked_header_bytes, (&value, missing, too_long), result) ==> {
                &&& result is Ok <==> value.len <= isize::MAX && (value.len == 0
                    || value.data is Some)
                &&& result matches Ok(bytes) ==> bytes@ == value.bytes()
                &&& result matches Err(error) ==> error == (if value.len > isize::MAX {
                    too_long
                } else {
                    missing
                })
            },
{
}

/// Headers of a list are handed out in turn, each with its own parts; an output header shows no
/// lowercase key. A list counts the headers that it hands out.
pub proof fn law_listed_headers_come_in_turn(list: HttpHeaderList, header: HttpHeaderRef)
    ensures
        forall|result: usize| #[trigger]
            call_ensures(HttpHeaderList::len, (&list,), result) ==> result
                == list.headers.enabled().len(),
        forall|result: bool| #[trigger]
            call_ensures(HttpHeaderList::is_empty, (&list,), result) ==> (result
                <==> list.headers.enabled().len() == 0),
        forall|result: HttpHeaderIter| #[trigger]
            call_ensures(HttpHeaderList::iter, (&list,), result) ==> result.pending()
                == list.headers.enabled() && result.source == list.source,
        forall|iter: &HttpHeaderIter, result: usize| #[trigger]
            call_ensures(HttpHeaderIter::len, (iter,), result) ==> result == iter.pending().len(),
        forall|iter: &mut HttpHeaderIter, result: Option<HttpHeaderRef>| #[trigger]
            call_ensures(HttpHeaderIter::next, (iter,), result) ==> {
                &&& result is Some <==> iter.pending().len() > 0
                &&& result matches Some(shown) ==> {
                    &&& shows(shown, iter.pending()[0], iter.source)
                    &&& final(iter).pending().len() == iter.pending().len() - 1
                    &&& forall|i: int|
                        0 <= i < final(iter).pending().len() ==> #[trigger] final(iter).pending()[i]
                            == iter.pending()[i + 1]
                }
                &&& final(iter).source == iter.source
            },
        forall|raw: &NativeHeader, source: HttpHeaderSource, result: HttpHeaderRef| #[trigger]
            call_ensures(http_header_from_raw, (raw, source), result) ==> shows(
                result,
                raw.view(),
                source,
            ),
        forall|result: &[u8]| #[trigger]
            call_ensures(HttpHeaderRef::key, (&header,), result) ==> result@ == header.key@,
        forall|result: &[u8]| #[trigger]
            call_ensures(HttpHeaderRef::value, (&header,), result) ==> result@ == header.value@,
        forall|result: usize| #[trigger]
            call_ensures(HttpHeaderRef::hash, (&header,), result) ==> result == header.hash,
        forall|result: bool| #[trigger]
            call_ensures(HttpHeaderRef::is_enabled, (&header,), result) ==> (result
                <==> header.hash != 0),
        forall|result: Option<&[u8]>| #[trigger]
            call_ensures(HttpHeaderRef::lowercase_key, (&header,), result) ==> {
                &&& result is Some <==> header.lowercase_key is Some
                &&& result matches Some(bytes) ==> bytes@ == header.lowercase_key->0@
            },
{
}

/// Whether a shown header has the parts of `view`, as its side shows them.
pub open spec fn shows(shown: HttpHeaderRef, view: HeaderView, source: HttpHeaderSource) -> bool {
    &&& shown.key@ == view.key
    &&& shown.value@ == view.value
    &&& shown.hash == view.hash
    &&& source == HttpHeaderSource::Output ==> shown.lowercase_key is None
    &&& source == HttpHeaderSource::Input ==> (shown.lowercase_key is Some
        <==> view.lowercase_key is Some)
    &&& source == HttpHeaderSource::Input && shown.lowercase_key is Some
        ==> shown.lowercase_key->0@ == view.lowercase_key->0
}

/// Pairs of a list are handed out in turn, those of the entries that are not disabled.
pub proof fn law_pairs_come_in_turn(list: NativeList)
    ensures
        forall|result: NgxListIterator| #[trigger]
            call_ensures(list_iterator, (&list,), result) ==> result.pending()
                == NativeList::pairs_of(list.placed_entries()),
        forall|iter: &mut NgxListIterator, result: Option<(&[u8], &[u8])>| #[trigger]
            call_ensures(NgxListIterator::next, (iter,), result) ==> {
                &&& result is Some <==> iter.pending().len() > 0
                &&& result matches Some(pair) ==> {
                    &&& iter.pending()[0].0 == pair.0@
                    &&& iter.pending()[0].1 == pair.1@
                    &&& final(iter).pending().len() == iter.pending().len() - 1
                    &&& forall|i: int|
                        0 <= i < final(iter).pending().len() ==> #[trigger] final(iter).pending()[i]
                            == iter.pending()[i + 1]
                }
            },
{
}

/// Hashing lowercases the key and mixes in one byte after another; keys that differ in case alone
/// have the same hash.
pub proof fn law_hashes_ignore_case(key: Seq<u8>, byte: u8, other: Seq<u8>)
    ensures
        hash_lowercase(Seq::empty()) == 0,
        hash_lowercase(key.push(byte)) == (hash_lowercase(key) * 31 + lower(byte)) % (usize::MAX
            + 1),
        same_ignoring_case(key, other) ==> hash_lowercase(key) == hash_lowercase(other),
    decreases key.len(),
{
    assert(key.push(byte).drop_last() =~= key);
    let whole = (hash_lowercase(key) as nat * 31 + lower(byte) as nat) % (usize::MAX as nat + 1);
    assert(whole < usize::MAX as nat + 1);
    if same_ignoring_case(key, other) && key.len() > 0 {
        crate::laws::values::law_case_is_all_that_is_ignored(key, other);
        crate::laws::values::law_case_is_all_that_is_ignored(key.drop_last(), other.drop_last());
        law_hashes_ignore_case(key.drop_last(), byte, other.drop_last());
        assert(key.last() == key[key.len() - 1] && other.last() == other[other.len() - 1]);
    } else if same_ignoring_case(key, other) {
        crate::laws::values::law_case_is_all_that_is_ignored(key, other);
        assert(key =~= other);
    }
}

/// The lowercase key and its hash are those of the key.
pub proof fn law_lowered_keys_keep_their_length(key: &[u8])
    ensures
        forall|result: (Vec<u8>, usize)| #[trigger]
            call_ensures(ngx_hash_strlow, (key,), result) ==> {
                &&& result.0@.len() == key@.len()
                &&& forall|i: int| 0 <= i < key@.len() ==> #[trigger] result.0@[i] == lower(key@[i])
                &&& result.1 == hash_lowercase(key@)
            },
{
}

/// Whether an entry was built from a key and a value: it holds copies of both, with a zero behind
/// each, the lowercase key and its hash.
pub open spec fn built_from(header: NativeHeader, key: Seq<u8>, value: Seq<u8>) -> bool {
    &&& header.hash == hash_lowercase(key)
    &&& header.key.len == key.len() && header.key.data is Some
    &&& header.key.data->0@ == key.push(0)
    &&& header.value.len == value.len() && header.value.data is Some
    &&& header.value.data->0@ == value.push(0)
    &&& header.lowcase_key is Some <==> key.len() > 0
    &&& header.lowcase_key matches Some(bytes) ==> bytes@.take(key.len() as int) == lowercase(key)
}

/// Blocks that an entry takes: two copies, the lowercase key of a key that has bytes, and a new
/// part with its storage where the last part is full.
pub open spec fn entry_blocks(list: NativeList, key: Seq<u8>) -> nat {
    (if key.len() == 0 {
        2nat
    } else {
        3
    }) + (if list.parts@.last().nelts == list.nalloc {
        2nat
    } else {
        0
    })
}

/// Whether `after` lists what `before` lists, with one more entry behind it that was built from a
/// key and a value.
pub open spec fn grown(
    before: NativeList,
    after: NativeList,
    key: Seq<u8>,
    value: Seq<u8>,
) -> bool {
    &&& after.placed_entries().len() == before.placed_entries().len() + 1
    &&& after.placed_entries().drop_last() == before.placed_entries()
    &&& built_from(after.placed_entries().last().1, key, value)
    &&& after.nalloc == before.nalloc
}

/// Copies hold their bytes with a zero behind them; an entry is built from copies of its key and
/// its value.
pub proof fn law_built_entries_hold_copies(bytes: &[u8], key: &[u8], value: &[u8])
    ensures
        forall|pool: &mut NativePool, result: Result<NativeString, HeaderBuildError>| #[trigger]
            call_ensures(copy_pool_bytes, (pool, bytes), result) ==> {
                &&& result is Ok <==> bytes@.len() < usize::MAX && pool.blocks@.len() > 0
                &&& result matches Ok(copy) ==> copy.len == bytes@.len() && copy.data is Some
                    && copy.data->0@ == bytes@.push(0) && final(pool).blocks@.len()
                    == pool.blocks@.len() - 1
                &&& result matches Err(error) ==> error == HeaderBuildError::Allocation
            },
        forall|pool: &mut NativePool, result: Result<NativeHeader, HeaderBuildError>| #[trigger]
            call_ensures(build_pool_header, (pool, key, value), result) ==> {
                let needed: nat = if key@.len() == 0 {
                    2
                } else {
                    3
                };
                &&& result is Ok <==> key@.len() < usize::MAX && value@.len() < usize::MAX
                    && pool.blocks@.len() >= needed
                &&& result matches Ok(header) ==> built_from(header, key@, value@) && final(pool).blocks@.len() == pool.blocks@.len() - needed
                &&& result matches Err(error) ==> error == HeaderBuildError::Allocation
            },
{
    assert forall|pool: &mut NativePool, result: Result<NativeHeader, HeaderBuildError>| #[trigger]
        call_ensures(build_pool_header, (pool, key, value), result) && result is Ok implies built_from(
        result->Ok_0,
        key@,
        value@,
    ) by {
        let header = result->Ok_0;
        let view = header.view();
        assert(view.key.len() == key@.len() && view.value.len() == value@.len());
        assert(header.key.bytes() == key@);
        assert(header.value.bytes() == value@);
    }
}

/// Appending puts an entry behind all others and leaves those as they are, provided that the pool
/// can hold it; a new list has room for what was asked and nothing in it.
pub proof fn law_lists_grow_at_their_end(key: &[u8], value: &[u8], capacity: usize)
    ensures
        forall|
            headers: &mut NativeList,
            pool: &mut NativePool,
            header: NativeHeader,
            result: Result<EntryAt, HeaderBuildError>,
        | #[trigger]
            call_ensures(append_header, (headers, pool, header), result) ==> {
                let needed: nat = if headers.parts@.last().nelts == headers.nalloc {
                    2
                } else {
                    0
                };
                &&& result is Ok <==> pool.blocks@.len() >= needed
                &&& result matches Ok(at) ==> {
                    &&& final(headers).placed_entries().len() == headers.placed_entries().len() + 1
                    &&& final(headers).placed_entries().drop_last() =~= headers.placed_entries()
                    &&& final(headers).placed_entries().last() == (at, header)
                    &&& final(headers).at(at) == header
                    &&& !headers.has(at)
                    &&& final(pool).blocks@.len() == pool.blocks@.len() - needed
                }
                &&& result matches Err(error) ==> error == HeaderBuildError::Allocation
                    && final(headers).parts == headers.parts && (headers.parts.len() > 0
                    ==> final(headers).last == headers.parts.len() - 1)
            },
        forall|
            headers: &mut NativeList,
            pool: &mut NativePool,
            result: Result<EntryAt, HeaderBuildError>,
        | #[trigger]
            call_ensures(append_pool_header, (headers, pool, key, value), result) ==> {
                &&& result is Ok <==> key@.len() < usize::MAX && value@.len() < usize::MAX
                    && pool.blocks@.len() >= entry_blocks(*headers, key@)
                &&& result matches Ok(at) ==> {
                    &&& final(headers).placed_entries().len() == headers.placed_entries().len() + 1
                    &&& final(headers).placed_entries().drop_last() =~= headers.placed_entries()
                    &&& final(headers).placed_entries().last().0 == at
                    &&& final(headers).placed_entries().last().1.key.bytes() == key@
                    &&& final(headers).placed_entries().last().1.value.bytes() == value@
                    &&& final(headers).placed_entries().last().1.hash == hash_lowercase(key@)
                    &&& final(pool).blocks@.len() == pool.blocks@.len() - entry_blocks(
                        *headers,
                        key@,
                    )
                }
                &&& result matches Err(error) ==> error == HeaderBuildError::Allocation
                    && final(headers).parts == headers.parts
            },
        forall|pool: &mut NativePool, result: Result<NativeList, HeaderBuildError>| #[trigger]
            call_ensures(create_header_list, (pool, capacity), result) ==> {
                let fits = capacity > 0 && capacity * 56 <= isize::MAX;
                &&& result is Ok <==> fits && pool.blocks@.len() > 0
                &&& result matches Ok(list) ==> list.placed_entries().len() == 0 && list.nalloc
                    == capacity && list.parts@.len() == 1 && list.parts@[0].nelts == 0
                    && well_linked(list) && final(pool).blocks@.len() == pool.blocks@.len() - 1
                &&& result matches Err(error) ==> error == (if fits {
                    HeaderBuildError::Allocation
                } else {
                    HeaderBuildError::InvalidCapacity
                })
            },
        forall|headers: &mut NativeList, result: ()| #[trigger]
            call_ensures(repair_header_list_last, (headers,), result) && headers.parts.len() > 0
                ==> {
                &&& final(headers).last + 1 == headers.parts.len()
                &&& final(headers).parts == headers.parts
                &&& final(headers).size == headers.size
                &&& final(headers).nalloc == headers.nalloc
            },
{
}

/// Whether a key is one of the two that frame a message.
pub open spec fn frames(key: Seq<u8>) -> bool {
    ||| same_ignoring_case(key, vstd::utf8::encode_utf8("Content-Length"@))
    ||| same_ignoring_case(key, vstd::utf8::encode_utf8("Transfer-Encoding"@))
}

/// Whether `after` has the entries of `before`, but that those that frame the message are disabled.
pub open spec fn framing_gone(before: NativeList, after: NativeList) -> bool {
    &&& after.placed_entries().len() == before.placed_entries().len()
    &&& forall|k: int|
        0 <= k < before.placed_entries().len() ==> {
            let earlier = before.placed_entries()[k];
            let later = #[trigger] after.placed_entries()[k];
            &&& later.0 == earlier.0
            &&& frames(earlier.1.key.bytes()) ==> later.1.hash == 0
            &&& !frames(earlier.1.key.bytes()) ==> later.1.hash == earlier.1.hash
            &&& later.1.key == earlier.1.key
            &&& later.1.value == earlier.1.value
            &&& later.1.lowcase_key == earlier.1.lowcase_key
        }
}

/// Whether `result` is an error exactly if `check` is, and the same one.
pub open spec fn refused_as<T>(
    check: Result<T, HeaderListError>,
    result: Result<(), HeaderListError>,
) -> bool {
    match check {
        Ok(_) => result is Ok,
        Err(error) => result == Err::<(), HeaderListError>(error),
    }
}

/// Disabling the framing disables the headers that frame a message, whatever their case, and leaves
/// every other as it is.
pub proof fn law_framing_headers_are_disabled_alone(key: &[u8], source: HttpHeaderSource)
    ensures
        forall|result: bool| #[trigger]
            call_ensures(is_framing_key, (key,), result) ==> (result <==> frames(key@)),
        forall|headers: &mut NativeList, result: Result<(), HeaderListError>| #[trigger]
            call_ensures(disable_framing_headers, (headers, source), result) && headers.parts.len()
                > 0 ==> {
                &&& result is Ok ==> framing_gone(*headers, *final(headers))
                &&& result is Err ==> final(headers).parts == headers.parts
                &&& refused_as(
                    (NativeList { last: (headers.parts.len() - 1) as usize, ..*headers }).check(),
                    result,
                )
                &&& final(headers).last + 1 == headers.parts.len()
                &&& final(headers).size == headers.size
                &&& final(headers).nalloc == headers.nalloc
            },
{
}

/// The name of a slot.
pub open spec fn slot_title(slot: HeaderSlot) -> Seq<char> {
    match slot {
        HeaderSlot::Host => "Host"@,
        HeaderSlot::ContentLength => "Content-Length"@,
        HeaderSlot::ContentType => "Content-Type"@,
        HeaderSlot::UserAgent => "User-Agent"@,
        HeaderSlot::Referer => "Referer"@,
        HeaderSlot::Authorization => "Authorization"@,
        HeaderSlot::ProxyAuthorization => "Proxy-Authorization"@,
        HeaderSlot::Cookie => "Cookie"@,
        HeaderSlot::Expect => "Expect"@,
        HeaderSlot::Range => "Range"@,
        HeaderSlot::IfModifiedSince => "If-Modified-Since"@,
        HeaderSlot::IfUnmodifiedSince => "If-Unmodified-Since"@,
        HeaderSlot::IfMatch => "If-Match"@,
        HeaderSlot::IfNoneMatch => "If-None-Match"@,
        HeaderSlot::IfRange => "If-Range"@,
        HeaderSlot::ContentRange => "Content-Range"@,
        HeaderSlot::Server => "Server"@,
        HeaderSlot::Date => "Date"@,
        HeaderSlot::ContentEncoding => "Content-Encoding"@,
        HeaderSlot::Location => "Location"@,
        HeaderSlot::Refresh => "Refresh"@,
        HeaderSlot::LastModified => "Last-Modified"@,
        HeaderSlot::AcceptRanges => "Accept-Ranges"@,
        HeaderSlot::WwwAuthenticate => "WWW-Authenticate"@,
        HeaderSlot::ProxyAuthenticate => "Proxy-Authenticate"@,
        HeaderSlot::Expires => "Expires"@,
        HeaderSlot::Etag => "ETag"@,
        HeaderSlot::CacheControl => "Cache-Control"@,
        HeaderSlot::Link => "Link"@,
    }
}

/// Whether nginx has a slot among its input headers.
pub open spec fn input_slot(slot: HeaderSlot) -> bool {
    ||| slot == HeaderSlot::Host
    ||| slot == HeaderSlot::ContentLength
    ||| slot == HeaderSlot::ContentType
    ||| slot == HeaderSlot::UserAgent
    ||| slot == HeaderSlot::Referer
    ||| slot == HeaderSlot::Authorization
    ||| slot == HeaderSlot::ProxyAuthorization
    ||| slot == HeaderSlot::Cookie
    ||| slot == HeaderSlot::Expect
    ||| slot == HeaderSlot::Range
    ||| slot == HeaderSlot::IfModifiedSince
    ||| slot == HeaderSlot::IfUnmodifiedSince
    ||| slot == HeaderSlot::IfMatch
    ||| slot == HeaderSlot::IfNoneMatch
    ||| slot == HeaderSlot::IfRange
    ||| slot == HeaderSlot::ContentRange
}

/// Whether nginx has a slot among its output headers.
pub open spec fn output_slot(slot: HeaderSlot) -> bool {
    ||| slot == HeaderSlot::ContentLength
    ||| slot == HeaderSlot::ContentRange
    ||| slot == HeaderSlot::Server
    ||| slot == HeaderSlot::Date
    ||| slot == HeaderSlot::ContentEncoding
    ||| slot == HeaderSlot::Location
    ||| slot == HeaderSlot::Refresh
    ||| slot == HeaderSlot::LastModified
    ||| slot == HeaderSlot::AcceptRanges
    ||| slot == HeaderSlot::WwwAuthenticate
    ||| slot == HeaderSlot::ProxyAuthenticate
    ||| slot == HeaderSlot::Expires
    ||| slot == HeaderSlot::Etag
    ||| slot == HeaderSlot::CacheControl
    ||| slot == HeaderSlot::Link
}

/// A slot is for the headers that bear its name in any case; each slot has a place of its own, and
/// belongs to the input, to the output or to both.
pub proof fn law_slots_are_known_by_their_name(slot: HeaderSlot, other: HeaderSlot, key: &[u8])
    ensures
        forall|result: bool| #[trigger]
            call_ensures(HeaderSlot::is_for, (slot, key), result) ==> (result
                <==> same_ignoring_case(key@, vstd::utf8::encode_utf8(slot_title(slot)))),
        forall|result: Option<HeaderSlot>| #[trigger]
            call_ensures(HeaderSlot::for_key, (key,), result) ==> {
                &&& result matches Some(found) ==> same_ignoring_case(
                    key@,
                    vstd::utf8::encode_utf8(slot_title(found)),
                )
                &&& result is None ==> !same_ignoring_case(
                    key@,
                    vstd::utf8::encode_utf8(slot_title(slot)),
                )
            },
        forall|result: &str| #[trigger]
            call_ensures(HeaderSlot::name, (slot,), result) ==> vstd::utf8::encode_utf8(result@)
                == vstd::utf8::encode_utf8(slot_title(slot)),
        forall|result: bool| #[trigger]
            call_ensures(HeaderSlot::is_input, (slot,), result) ==> (result <==> input_slot(slot)),
        forall|result: bool| #[trigger]
            call_ensures(HeaderSlot::is_output, (slot,), result) ==> (result <==> output_slot(
                slot,
            )),
        forall|result: usize| #[trigger]
            call_ensures(HeaderSlot::number, (slot,), result) ==> result < 29,
        slot.names(key@) <==> same_ignoring_case(
            key@,
            vstd::utf8::encode_utf8(slot_title(slot)),
        ),
        slot.index() == other.index() ==> slot == other,
        0 <= slot.index() < 29,
        slot.input() <==> input_slot(slot),
        slot.output() <==> output_slot(slot),
        input_slot(slot) || output_slot(slot),
{
    assert(vstd::utf8::encode_utf8(slot_title(slot)) == slot.title());
    assert forall|found: HeaderSlot| #[trigger]
        vstd::utf8::encode_utf8(slot_title(found)) == found.title() by {}
    assert forall|result: Option<HeaderSlot>| #[trigger]
        call_ensures(HeaderSlot::for_key, (key,), result) implies {
        &&& result matches Some(found) ==> same_ignoring_case(
            key@,
            vstd::utf8::encode_utf8(slot_title(found)),
        )
        &&& result is None ==> !same_ignoring_case(
            key@,
            vstd::utf8::encode_utf8(slot_title(slot)),
        )
    } by {
        let arguments = (key,);
        assert(arguments.0@ == key@);
        assert(slot.names(arguments.0@) ==> result == Some(slot));
    }
}

/// A slot is set, and grows, by itself.
pub proof fn law_slots_change_alone(slot: HeaderSlot, header: EntryAt, chain: Vec<EntryAt>)
    ensures
        forall|slots: HeaderSlots, other: HeaderSlot|
            #![trigger call_ensures(HeaderSlots::empty, (), slots), slots.chain(other)]
            call_ensures(HeaderSlots::empty, (), slots) ==> slots.chain(other).len() == 0
                && slots.chains@.len() == 29,
        forall|slots: &HeaderSlots, result: &Vec<EntryAt>| #[trigger]
            call_ensures(HeaderSlots::get, (slots, slot), result) ==> result@ == slots.chain(slot),
        forall|slots: &mut HeaderSlots, result: (), other: HeaderSlot|
            #![trigger call_ensures(HeaderSlots::set, (slots, slot, chain), result), slots.chain(other)]
            call_ensures(HeaderSlots::set, (slots, slot, chain), result) ==> final(slots).chain(
                other,
            ) == (if other == slot {
                chain@
            } else {
                slots.chain(other)
            }),
        forall|slots: &mut HeaderSlots, result: (), other: HeaderSlot|
            #![trigger call_ensures(HeaderSlots::append_header_slot, (slots, slot, header), result), slots.chain(other)]
            call_ensures(HeaderSlots::append_header_slot, (slots, slot, header), result) ==> final(slots).chain(other) == (if other == slot {
                slots.chain(other).push(header)
            } else {
                slots.chain(other)
            }),
{
}

/// A header that is bound goes behind those in the slot of its name, if nginx has that slot on its
/// side and the header is not disabled; the first Host header names the server.
pub proof fn law_bound_headers_go_to_their_slot(header: EntryAt, list: NativeList)
    ensures
        forall|headers: &mut NativeHeadersIn, result: (), slot: HeaderSlot|
            #![trigger call_ensures(bind_headers_in, (headers, header), result), headers.slots.chain(slot)]
            call_ensures(bind_headers_in, (headers, header), result) ==> {
                let entry = headers.headers.at(header);
                let bound = entry.hash != 0 && input_slot(slot) && same_ignoring_case(
                    entry.key.bytes(),
                    vstd::utf8::encode_utf8(slot_title(slot)),
                );
                &&& bound ==> final(headers).slots.chain(slot) == headers.slots.chain(slot).push(
                    header,
                )
                &&& !bound ==> final(headers).slots.chain(slot) == headers.slots.chain(slot)
                &&& slot == HeaderSlot::Host && bound && headers.slots.chain(slot).len() == 0
                    ==> final(headers).server.len == entry.value.len && (
                final(headers).server.data is Some <==> entry.value.data is Some) && (
                entry.value.data is Some ==> final(headers).server.data->0@
                    == entry.value.data->0@)
                &&& slot == HeaderSlot::Host && !(bound && headers.slots.chain(slot).len() == 0)
                    ==> final(headers).server == headers.server
                &&& final(headers).headers == headers.headers
                &&& final(headers).count == headers.count
                &&& final(headers).content_length_n == headers.content_length_n
                &&& final(headers).chunked == headers.chunked
            },
        forall|slots: &mut HeaderSlots, result: (), slot: HeaderSlot|
            #![trigger call_ensures(bind_headers_out, (slots, &list, header), result), slots.chain(slot)]
            call_ensures(bind_headers_out, (slots, &list, header), result) ==> {
                let entry = list.at(header);
                let bound = entry.hash != 0 && output_slot(slot) && same_ignoring_case(
                    entry.key.bytes(),
                    vstd::utf8::encode_utf8(slot_title(slot)),
                );
                &&& bound ==> final(slots).chain(slot) == slots.chain(slot).push(header)
                &&& !bound ==> final(slots).chain(slot) == slots.chain(slot)
            },
{
    assert forall|slot: HeaderSlot| #[trigger]
        vstd::utf8::encode_utf8(slot_title(slot)) == slot.title() by {}
    assert forall|slot: HeaderSlot| #[trigger] slot.input() == input_slot(slot) by {}
    assert forall|slot: HeaderSlot| #[trigger] slot.output() == output_slot(slot) by {}
}

/// Input headers, output headers and trailers of a request are its own three lists, whichever view
/// asks.
pub proof fn law_requests_show_their_own_lists(
    native: NativeState,
    view: RequestRef,
    exclusive: RequestRefMut,
)
    ensures
        forall|result: Result<HttpHeaderList, HeaderListError>| #[trigger]
            call_ensures(RequestRef::headers_in, (&view, &native), result) ==> list_shown(
                native.requests@[view.raw].headers_in.headers,
                HttpHeaderSource::Input,
                result,
            ),
        forall|result: Result<HttpHeaderList, HeaderListError>| #[trigger]
            call_ensures(RequestRef::headers_out, (&view, &native), result) ==> list_shown(
                native.requests@[view.raw].headers_out.headers,
                HttpHeaderSource::Output,
                result,
            ),
        forall|result: Result<HttpHeaderList, HeaderListError>| #[trigger]
            call_ensures(RequestRef::trailers_out, (&view, &native), result) ==> list_shown(
                native.requests@[view.raw].headers_out.trailers,
                HttpHeaderSource::Output,
                result,
            ),
        forall|result: Result<HttpHeaderList, HeaderListError>| #[trigger]
            call_ensures(RequestRefMut::headers_in, (&exclusive, &native), result) ==> list_shown(
                native.requests@[exclusive.raw].headers_in.headers,
                HttpHeaderSource::Input,
                result,
            ),
        forall|result: Result<HttpHeaderList, HeaderListError>| #[trigger]
            call_ensures(RequestRefMut::headers_out, (&exclusive, &native), result) ==> list_shown(
                native.requests@[exclusive.raw].headers_out.headers,
                HttpHeaderSource::Output,
                result,
            ),
        forall|result: Result<HttpHeaderList, HeaderListError>| #[trigger]
            call_ensures(RequestRefMut::trailers_out, (&exclusive, &native), result) ==> list_shown(
                native.requests@[exclusive.raw].headers_out.trailers,
                HttpHeaderSource::Output,
                result,
            ),
        forall|result: NgxListIterator| #[trigger]
            call_ensures(RequestRef::headers_in_iterator, (&view, &native), result)
                ==> result.pending() == NativeList::pairs_of(
                native.requests@[view.raw].headers_in.headers.placed_entries(),
            ),
        forall|result: NgxListIterator| #[trigger]
            call_ensures(RequestRef::headers_out_iterator, (&view, &native), result)
                ==> result.pending() == NativeList::pairs_of(
                native.requests@[view.raw].headers_out.headers.placed_entries(),
            ),
        forall|result: NgxListIterator| #[trigger]
            call_ensures(RequestRefMut::headers_in_iterator, (&exclusive, &native), result)
                ==> result.pending() == NativeList::pairs_of(
                native.requests@[exclusive.raw].headers_in.headers.placed_entries(),
            ),
        forall|result: NgxListIterator| #[trigger]
            call_ensures(RequestRefMut::headers_out_iterator, (&exclusive, &native), result)
                ==> result.pending() == NativeList::pairs_of(
                native.requests@[exclusive.raw].headers_out.headers.placed_entries(),
            ),
{
}

/// Whether `result` is `list` for a side, or says that it cannot be shown.
pub open spec fn list_shown(
    list: NativeList,
    source: HttpHeaderSource,
    result: Result<HttpHeaderList, HeaderListError>,
) -> bool {
    &&& result is Ok <==> list.check() is Ok
    &&& result matches Ok(shown) ==> *shown.headers == list && shown.source == source && shown.len
        == list.enabled().len()
    &&& result matches Err(error) ==> list.check() == Err::<(), HeaderListError>(error)
}

/// The user agent of a request is the value of the first header in its slot.
pub proof fn law_user_agents_come_from_their_slot(
    native: NativeState,
    view: RequestRef,
    exclusive: RequestRefMut,
)
    ensures
        forall|result: Result<Option<&[u8]>, RequestError>| #[trigger]
            call_ensures(RequestRef::user_agent, (&view, &native), result) ==> user_agent_shown(
                native.requests@[view.raw].headers_in,
                result,
            ),
        forall|result: Result<Option<&[u8]>, RequestError>| #[trigger]
            call_ensures(RequestRefMut::user_agent, (&exclusive, &native), result)
                ==> user_agent_shown(native.requests@[exclusive.raw].headers_in, result),
{
}

/// Whether `result` is the value of the first header in the slot of the user agent.
pub open spec fn user_agent_shown(
    headers: NativeHeadersIn,
    result: Result<Option<&[u8]>, RequestError>,
) -> bool {
    let chain = headers.slots.chains@[3]@;
    let value = headers.headers.at(chain[0]).value;
    &&& chain.len() == 0 <==> result is Ok && result->Ok_0 is None
    &&& chain.len() > 0 && (value.len == 0 || value.data is Some) ==> result is Ok
        && result->Ok_0 is Some && result->Ok_0->0@ == value.bytes()
    &&& chain.len() > 0 && value.len > 0 && value.data is None ==> result is Err && result->Err_0
        == RequestError::MissingStringData
}

/// Whether a list grew by one entry, or could not because the pool cannot hold it.
pub open spec fn added(
    native: NativeState,
    after: NativeState,
    pool: usize,
    before: NativeList,
    list: NativeList,
    key: Seq<u8>,
    value: Seq<u8>,
    result: Result<(), RequestError>,
) -> bool {
    let blocks = native.pools@[pool].blocks@.len();
    &&& result is Ok <==> key.len() < usize::MAX && value.len() < usize::MAX && blocks
        >= entry_blocks(before, key)
    &&& result is Ok ==> {
        &&& list.placed_entries().len() == before.placed_entries().len() + 1
        &&& list.placed_entries().drop_last() == before.placed_entries()
        &&& list.placed_entries().last().1.key.bytes() == key
        &&& list.placed_entries().last().1.value.bytes() == value
        &&& list.placed_entries().last().1.hash == hash_lowercase(key)
        &&& after.pools@[pool].blocks@.len() == blocks - entry_blocks(before, key)
        &&& list.last == list.parts@.len() - 1
    }
    &&& result matches Err(error) ==> error == RequestError::Allocation && list.parts
        == before.parts
}

/// An added header stands behind all others in the list of its side, and nothing else of the
/// request changes. A header that frames the message is refused on the output side.
pub proof fn law_added_headers_stand_last(key: &str, value: &str)
    ensures
        forall|
            request: &mut RequestRefMut,
            native: &mut NativeState,
            result: Result<(), RequestError>,
        | #[trigger]
            call_ensures(RequestRefMut::add_header_in, (request, native, key, value), result)
                ==> {
                let before = native.requests@[request.raw];
                let after = final(native).requests@[request.raw];
                let pool = before.pool;
                &&& pool != 0 && pool % 8 == 0 ==> added(
                    *native,
                    *final(native),
                    pool,
                    before.headers_in.headers,
                    after.headers_in.headers,
                    vstd::utf8::encode_utf8(key@),
                    vstd::utf8::encode_utf8(value@),
                    result,
                )
                &&& pool == 0 || pool % 8 != 0 ==> result is Err && after == before
                &&& after == (NativeRequest { headers_in: after.headers_in, ..before })
                &&& after.headers_in == (NativeHeadersIn {
                    headers: after.headers_in.headers,
                    ..before.headers_in
                })
                &&& final(native).requests@ == native.requests@.insert(request.raw, after)
                &&& *final(request) == *request
            },
        forall|
            request: &mut RequestRefMut,
            native: &mut NativeState,
            result: Result<(), RequestError>,
        | #[trigger]
            call_ensures(RequestRefMut::add_header_out, (request, native, key, value), result)
                ==> {
                let before = native.requests@[request.raw];
                let after = final(native).requests@[request.raw];
                let pool = before.pool;
                let framing = frames(vstd::utf8::encode_utf8(key@));
                &&& framing ==> result is Err && result->Err_0 == RequestError::ManagedOutputFraming
                    && after == before
                &&& !framing && pool != 0 && pool % 8 == 0 ==> added(
                    *native,
                    *final(native),
                    pool,
                    before.headers_out.headers,
                    after.headers_out.headers,
                    vstd::utf8::encode_utf8(key@),
                    vstd::utf8::encode_utf8(value@),
                    result,
                )
                &&& pool == 0 || pool % 8 != 0 ==> result is Err && after == before
                &&& after == (NativeRequest { headers_out: after.headers_out, ..before })
                &&& after.headers_out == (crate::request::header_slots::NativeHeadersOut {
                    headers: after.headers_out.headers,
                    ..before.headers_out
                })
                &&& final(native).requests@ == native.requests@.insert(request.raw, after)
                &&& *final(request) == *request
            },
{
}

/// Resetting leaves a request with the list that was given and no derived value; repairing leads
/// the last pointer to the last part and changes nothing else.
pub proof fn law_resets_forget_what_was_derived(headers: NativeList)
    ensures
        forall|request: &mut RequestRefMut, native: &mut NativeState, result: ()| #[trigger]
            call_ensures(RequestRefMut::reset_headers_in, (request, native, headers), result) ==> {
                let before = native.requests@[request.raw];
                let after = final(native).requests@[request.raw];
                &&& after.headers_in.headers.parts == headers.parts
                &&& after.headers_in.headers.nalloc == headers.nalloc
                &&& after.headers_in.headers.size == headers.size
                &&& after.headers_in.headers.last == 0
                &&& forall|slot: HeaderSlot|
                    (#[trigger] after.headers_in.slots.chain(slot)).len() == 0
                &&& after.headers_in.transfer_encoding@.len() == 0
                &&& after.headers_in.server.len == 0 && after.headers_in.server.data is None
                &&& after.headers_in.count == 0
                &&& after.headers_in.content_length_n == -1
                &&& after.headers_in.keep_alive_n == -1
                &&& !after.headers_in.chunked
                &&& after == (NativeRequest { headers_in: after.headers_in, ..before })
                &&& final(native).requests@ == native.requests@.insert(request.raw, after)
            },
        forall|request: &mut RequestRefMut, native: &mut NativeState, result: ()| #[trigger]
            call_ensures(RequestRefMut::repair_headers_in_last, (request, native), result)
                && native.requests@[request.raw].headers_in.headers.parts.len() > 0 ==> {
                let before = native.requests@[request.raw];
                let after = final(native).requests@[request.raw];
                &&& after.headers_in.headers.last + 1 == before.headers_in.headers.parts.len()
                &&& after.headers_in.headers.parts == before.headers_in.headers.parts
                &&& after.headers_in.headers.nalloc == before.headers_in.headers.nalloc
                &&& after.headers_in.headers.size == before.headers_in.headers.size
                &&& after.headers_in.slots == before.headers_in.slots
                &&& after.headers_in.count == before.headers_in.count
                &&& after.headers_in.server == before.headers_in.server
                &&& after == (NativeRequest { headers_in: after.headers_in, ..before })
                &&& final(native).requests@ == native.requests@.insert(request.raw, after)
            },
{
}

/// Setting the length of the output is its only framing: the length is the one that was given, no
/// enabled header frames the message any more, and the output is not chunked. Everything else stays.
pub proof fn law_content_lengths_replace_the_framing(length: usize)
    ensures
        forall|
            request: &mut RequestRefMut,
            native: &mut NativeState,
            result: Result<(), RequestError>,
        | #[trigger]
            call_ensures(RequestRefMut::set_content_length_n, (request, native, length), result)
                && native.requests@[request.raw].headers_out.headers.parts.len() > 0 ==> {
                let before = native.requests@[request.raw];
                let after = final(native).requests@[request.raw];
                &&& length > 0x7fff_ffff_ffff_ffff ==> result is Err && result->Err_0
                    == RequestError::ContentLengthTooLarge && after == before
                &&& length <= 0x7fff_ffff_ffff_ffff ==> {
                    let list = before.headers_out.headers;
                    let sound = (NativeList { last: (list.parts.len() - 1) as usize, ..list }).check();
                    &&& result is Ok <==> sound is Ok
                    &&& result matches Err(error) ==> error == RequestError::InvalidHeaderList(
                        sound->Err_0,
                    )
                    &&& after.headers_out.headers.last + 1 == list.parts.len()
                }
                &&& result is Ok ==> {
                    &&& after.headers_out.content_length_n == length
                    &&& !after.chunked
                    &&& framing_gone(before.headers_out.headers, after.headers_out.headers)
                    &&& after.headers_out.slots.chains@[1]@.len() == 0
                    &&& forall|slot: HeaderSlot|
                        slot != HeaderSlot::ContentLength ==> (
                        #[trigger] after.headers_out.slots.chain(slot))
                            == before.headers_out.slots.chain(slot)
                }
                &&& result is Err ==> after.headers_out.content_length_n
                    == before.headers_out.content_length_n && after.chunked == before.chunked
                    && after.headers_out.headers.parts == before.headers_out.headers.parts
                &&& after.headers_out.trailers == before.headers_out.trailers
                &&& after.headers_out.status == before.headers_out.status
                &&& after.headers_out.content_type == before.headers_out.content_type
                &&& after.headers_in == before.headers_in
                &&& after.request_body == before.request_body
                &&& after.count == before.count
                &&& final(native).requests@ == native.requests@.insert(request.raw, after)
            },
{
}

/// Disabling the framing of the output disables the headers that frame it and empties the
/// Content-Length slot; a refusal leaves entries and slots, and every other part stays in any case.
pub proof fn law_output_framing_is_disabled_with_its_slot()
    ensures
        forall|headers: &mut NativeHeadersOut, result: Result<(), HeaderListError>| #[trigger]
            call_ensures(disable_output_framing_headers, (headers,), result)
                && headers.headers.parts.len() > 0 ==> {
                &&& result is Ok ==> {
                    &&& framing_gone(headers.headers, final(headers).headers)
                    &&& final(headers).slots.chains@[1]@.len() == 0
                    &&& forall|slot: HeaderSlot|
                        slot != HeaderSlot::ContentLength ==> (
                        #[trigger] final(headers).slots.chain(slot)) == headers.slots.chain(slot)
                }
                &&& final(headers).headers.last + 1 == headers.headers.parts.len()
                &&& result is Err ==> final(headers).headers.parts == headers.headers.parts
                    && final(headers).slots == headers.slots
                &&& refused_as(
                    (NativeList {
                        last: (headers.headers.parts.len() - 1) as usize,
                        ..headers.headers
                    }).check(),
                    result,
                )
                &&& final(headers).trailers == headers.trailers
                &&& final(headers).status == headers.status
                &&& final(headers).content_length_n == headers.content_length_n
                &&& final(headers).content_type == headers.content_type
            },
{
}

/// An entry is found at its place, and the places of a list are those of its entries, in their
/// order.
pub proof fn law_entries_are_found_at_their_places(list: NativeList)
    ensures
        forall|at: EntryAt, header: &NativeHeader| #[trigger]
            call_ensures(NativeList::get, (&list, at), header) && at.part < list.parts@.len()
                && list.parts@[at.part as int].elts is Some && at.index < list.parts@[
                at.part as int].nelts ==> *header == list.parts@[at.part as int].elts->0@[at.index as int],
        forall|places: Vec<EntryAt>| #[trigger]
            call_ensures(NativeList::places, (&list,), places) ==> {
                &&& places@.len() == list.placed_entries().len()
                &&& forall|k: int|
                    0 <= k < places@.len() ==> #[trigger] places@[k] == list.placed_entries()[k].0
            },
{
}

/// Cleared headers and lists are what nginx allocates: one empty part without storage, no slot that
/// leads anywhere, and zero for every number and flag.
pub proof fn law_cleared_headers_say_nothing()
    ensures
        forall|list: NativeList| #[trigger] call_ensures(NativeList::zeroed, (), list) ==> blank(list),
        forall|headers: NativeHeadersIn| #[trigger]
            call_ensures(NativeHeadersIn::zeroed, (), headers) ==> {
                &&& blank(headers.headers)
                &&& forall|slot: HeaderSlot| (#[trigger] headers.slots.chain(slot)).len() == 0
                &&& headers.transfer_encoding@.len() == 0
                &&& headers.server.len == 0
                &&& headers.count == 0
                &&& headers.content_length_n == 0
                &&& headers.keep_alive_n == 0
                &&& !headers.chunked
            },
        forall|headers: NativeHeadersOut| #[trigger]
            call_ensures(NativeHeadersOut::zeroed, (), headers) ==> {
                &&& blank(headers.headers)
                &&& blank(headers.trailers)
                &&& forall|slot: HeaderSlot| (#[trigger] headers.slots.chain(slot)).len() == 0
                &&& headers.status == 0
                &&& headers.content_length_n == 0
                &&& headers.content_type.len == 0
                &&& headers.content_type_len == 0
            },
        forall|request: NativeRequest| #[trigger]
            call_ensures(NativeRequest::zeroed, (), request) ==> {
                &&& blank(request.headers_in.headers)
                &&& blank(request.headers_out.headers)
                &&& request.signature == 0
                &&& request.main == 0 && request.parent == 0 && request.pool == 0
                &&& request.count == 0
                &&& request.connection is Null
                &&& request.request_body is Null
                &&& request.ctx is Null
                &&& request.main_conf is Null && request.srv_conf is Null && request.loc_conf is Null
                &&& request.core_location is None
                &&& request.variables is Null
                &&& request.upstream == 0
                &&& request.upstream_states is Null
                &&& request.write_event_handler is None
                &&& request.phase_handler == 0
                &&& request.subrequests == 0
                &&& request.uri.len == 0 && request.unparsed_uri.len == 0
                &&& request.cleanup@.len() == 0
                &&& !request.internal && !request.header_only && !request.keepalive
                &&& !request.header_sent && !request.expect_trailers && !request.chunked
                &&& !request.terminated
            },
{
}

/// Whether a list is as nginx clears it.
pub open spec fn blank(list: NativeList) -> bool {
    &&& list.parts@.len() == 1
    &&& list.parts@[0].elts is None
    &&& list.parts@[0].nelts == 0
    &&& list.parts@[0].next is None
    &&& list.last == 0
    &&& list.size == 0
    &&& list.nalloc == 0
}

} // verus!
