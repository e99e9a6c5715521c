//! Appending to header lists and disabling their entries.

use vstd::prelude::*;
use vstd::slice::slice_to_vec;

use crate::bytes::{equal_ignoring_case, to_lower};
use crate::native::{NativePool, NativeString};
use crate::request::headers::{
    checked_header_list, EntryAt, HeaderBuildError, HeaderListError, HeaderView, HttpHeaderSource,
    NativeHeader, NativeList, NativeListPart, HEADER_ENTRY_SIZE,
};

verus! {

impl NativeList {
    /// Whether entries can be appended to the list, whatever its last pointer is.
    pub open spec fn appendable(self) -> bool {
        &&& self.size == HEADER_ENTRY_SIZE
        &&& self.nalloc > 0
        &&& self.chained()
        &&& self.faithful()
        &&& forall|i: int|
            0 <= i < self.parts@.len() ==> {
                &&& (#[trigger] self.parts@[i]).nelts <= self.nalloc
                &&& self.parts@[i].elts is None ==> self.parts@[i].nelts == 0
            }
        &&& self.parts@.last().elts is Some
    }

    /// Blocks that appending an entry takes: a full last part asks for a new one with its storage.
    pub open spec fn append_blocks(self) -> nat {
        if self.parts@.last().nelts == self.nalloc {
            2
        } else {
            0
        }
    }

    /// The list once a header was refused: where the header itself could be copied, the last
    /// pointer leads to the last part.
    pub open spec fn refused(self, blocks: Seq<usize>, key: Seq<u8>, value: Seq<u8>) -> NativeList {
        if header_fits(key, value) && blocks.len() >= header_blocks(key) {
            NativeList { last: (self.parts@.len() - 1) as usize, ..self }
        } else {
            self
        }
    }

    /// Whether this list is `before` with `header` appended at `at`.
    pub open spec fn appended(self, before: NativeList, at: EntryAt, header: NativeHeader) -> bool {
        &&& self.appendable()
        &&& self.last == self.parts@.len() - 1
        &&& self.nalloc == before.nalloc
        &&& if before.append_blocks() == 0 {
            &&& self.parts@.len() == before.parts@.len()
            &&& self.parts@.last().nelts == before.parts@.last().nelts + 1
        } else {
            &&& self.parts@.len() == before.parts@.len() + 1
            &&& self.parts@.last().nelts == 1
        }
        &&& self.placed_entries() == before.placed_entries().push((at, header))
        &&& !before.has(at)
        &&& self.has(at)
        &&& self.at(at) == header
        &&& forall|earlier: EntryAt| #[trigger]
            before.has(earlier) ==> self.has(earlier) && self.at(earlier) == before.at(earlier)
    }
}

/// Points the list's last pointer at its last part.
pub fn repair_header_list_last(headers: &mut NativeList)
    requires
        old(headers).chained(),
    ensures
        *final(headers) == (NativeList {
            last: (old(headers).parts@.len() - 1) as usize,
            ..*old(headers)
        }),
{
    let mut last: usize = 0;
    let mut walking = headers.parts[0].next.is_some();
    while walking
        invariant
            headers.chained(),
            *headers == *old(headers),
            last < headers.parts@.len(),
            walking == (headers.parts@[last as int].next is Some),
        decreases headers.parts@.len() - last,
    {
        assert(headers.parts@.len() == headers.parts.len());
        match headers.parts[last].next {
            Some(next) => {
                last = next;
            },
            None => {},
        }
        walking = headers.parts[last].next.is_some();
    }
    headers.last = last;
}

/// An empty list whose parts have room for `capacity` entries.
pub fn create_header_list(pool: &mut NativePool, capacity: usize) -> (result: Result<
    NativeList,
    HeaderBuildError,
>)
    ensures
        *final(pool) == (NativePool { blocks: final(pool).blocks, ..*old(pool) }),
        NativePool::spent_from(final(pool).blocks@, old(pool).blocks@),
        match result {
            Err(error) => if !NativeList::capacity_fits(capacity) {
                &&& error == HeaderBuildError::InvalidCapacity
                &&& final(pool).blocks@ == old(pool).blocks@
            } else {
                &&& error == HeaderBuildError::Allocation
                &&& old(pool).blocks@.len() == 0
            },
            Ok(list) => {
                &&& NativeList::capacity_fits(capacity)
                &&& old(pool).blocks@.len() > 0
                &&& final(pool).blocks@ == NativePool::spend(old(pool).blocks@, 1)
                &&& list.fresh(capacity)
            },
        },
{
    proof {
        NativePool::lemma_spend(pool.blocks@, 1, 0);
        NativePool::lemma_spend(pool.blocks@, 0, 0);
    }
    if capacity == 0 || capacity > isize::MAX as usize / HEADER_ENTRY_SIZE {
        proof {
            if capacity > 0 {
                assert(capacity * HEADER_ENTRY_SIZE > isize::MAX) by (nonlinear_arith)
                    requires
                        capacity > isize::MAX / 56,
                        HEADER_ENTRY_SIZE == 56,
                ;
            }
        }
        return Err(HeaderBuildError::InvalidCapacity);
    }
    proof {
        assert(capacity * HEADER_ENTRY_SIZE <= isize::MAX) by (nonlinear_arith)
            requires
                capacity <= isize::MAX / 56,
                HEADER_ENTRY_SIZE == 56,
        ;
    }
    match pool.allocate() {
        None => Err(HeaderBuildError::Allocation),
        Some(_) => {
            let mut parts: Vec<NativeListPart> = Vec::new();
            parts.push(NativeListPart { elts: Some(Vec::new()), nelts: 0, next: None });
            let list = NativeList { parts, last: 0, size: HEADER_ENTRY_SIZE, nalloc: capacity };
            proof {
                list.lemma_empty();
            }
            Ok(list)
        },
    }
}

impl NativeList {
    /// Whether a part of `capacity` entries can be described: there is one, and its storage is no
    /// larger than an object can be.
    pub open spec fn capacity_fits(capacity: usize) -> bool {
        capacity > 0 && capacity * HEADER_ENTRY_SIZE <= isize::MAX
    }

    /// Whether the list is empty, with one part that has room for `capacity` entries.
    pub open spec fn fresh(self, capacity: usize) -> bool {
        &&& self.appendable()
        &&& self.last == self.parts@.len() - 1
        &&& self.parts@.len() == 1
        &&& self.parts@[0].nelts == 0
        &&& self.nalloc == capacity
        &&& self.placed_entries().len() == 0
    }

    /// A list of one part without entries has none.
    pub proof fn lemma_empty(self)
        requires
            self.parts@.len() == 1,
            self.parts@[0].entries().len() == 0,
        ensures
            self.placed_entries().len() == 0,
    {
        assert(self.parts@.drop_last() =~= Seq::empty());
        reveal_with_fuel(NativeList::flat, 2);
    }

    /// Appends an entry.
    fn push(&mut self, pool: &mut NativePool, header: NativeHeader) -> (result: Result<
        EntryAt,
        HeaderBuildError,
    >)
        requires
            old(self).appendable(),
            old(self).last == old(self).parts@.len() - 1,
            header.readable(),
        ensures
            *final(pool) == (NativePool { blocks: final(pool).blocks, ..*old(pool) }),
            NativePool::spent_from(final(pool).blocks@, old(pool).blocks@),
            match result {
                Err(error) => {
                    &&& error == HeaderBuildError::Allocation
                    &&& old(pool).blocks@.len() < old(self).append_blocks()
                    &&& *final(self) == *old(self)
                },
                Ok(at) => {
                    &&& old(pool).blocks@.len() >= old(self).append_blocks()
                    &&& final(pool).blocks@ == NativePool::spend(
                        old(pool).blocks@,
                        old(self).append_blocks(),
                    )
                    &&& final(self).appended(*old(self), at, header)
                },
            },
    {
        proof {
            NativePool::lemma_spend(pool.blocks@, 1, 1);
            NativePool::lemma_spend(pool.blocks@, 0, 0);
            assert(self.parts@.len() == self.parts.len());
        }
        let ghost before = *self;
        let full = self.parts[self.last].nelts == self.nalloc;
        if full {
            if pool.allocate().is_none() {
                return Err(HeaderBuildError::Allocation);
            }
            if pool.allocate().is_none() {
                return Err(HeaderBuildError::Allocation);
            }
            let part = self.parts.len();
            let mut previous = self.parts.pop().unwrap();
            previous.next = Some(part);
            self.parts.push(previous);
            let mut elts: Vec<NativeHeader> = Vec::new();
            elts.push(header);
            self.parts.push(NativeListPart { elts: Some(elts), nelts: 1, next: None });
            self.last = part;
            let at = EntryAt { part, index: 0 };
            proof {
                assert(self.parts@.drop_last().len() == before.parts@.len());
                assert forall|i: int| 0 <= i < before.parts@.len() implies (
                #[trigger] self.parts@.drop_last()[i]).entries() == before.parts@[i].entries() by {}
                Self::lemma_flat_by_entries(self.parts@.drop_last(), before.parts@);
                assert(self.parts@.last().entries() =~= seq![header]);
                assert(self.placed_entries() =~= before.placed_entries().push((at, header)));
            }
            Ok(at)
        } else {
            let part = self.last;
            let mut tail = self.parts.pop().unwrap();
            let index = tail.nelts;
            let mut elts = tail.elts.take().unwrap();
            elts.push(header);
            tail.elts = Some(elts);
            tail.nelts = index + 1;
            self.parts.push(tail);
            let at = EntryAt { part, index };
            proof {
                assert(before.parts@.last() == before.parts@[before.parts@.len() - 1]);
                assert(before.parts@.last().entries().len() == index);
                assert(self.parts@.drop_last() =~= before.parts@.drop_last());
                assert(self.parts@.last().entries() =~= before.parts@.last().entries().push(
                    header,
                ));
                assert(Self::placed(self.parts@.last().entries(), part) =~= Self::placed(
                    before.parts@.last().entries(),
                    part,
                ).push((at, header)));
                assert(self.placed_entries() =~= before.placed_entries().push((at, header)));
            }
            Ok(at)
        }
    }

    /// The entries of parts in list order depend on the entries of each part alone.
    proof fn lemma_flat_by_entries(a: Seq<NativeListPart>, b: Seq<NativeListPart>)
        requires
            a.len() == b.len(),
            forall|i: int| 0 <= i < a.len() ==> (#[trigger] a[i]).entries() == b[i].entries(),
        ensures
            Self::flat(a) == Self::flat(b),
        decreases a.len(),
    {
        if a.len() > 0 {
            assert(a.last() == a[a.len() - 1]);
            Self::lemma_flat_by_entries(a.drop_last(), b.drop_last());
        }
    }
}

/// Appends an entry to a list.
pub fn append_header(headers: &mut NativeList, pool: &mut NativePool, value: NativeHeader) -> (result:
    Result<EntryAt, HeaderBuildError>)
    requires
        old(headers).appendable(),
        value.readable(),
    ensures
        *final(pool) == (NativePool { blocks: final(pool).blocks, ..*old(pool) }),
        NativePool::spent_from(final(pool).blocks@, old(pool).blocks@),
        match result {
            Err(error) => {
                &&& error == HeaderBuildError::Allocation
                &&& old(pool).blocks@.len() < old(headers).append_blocks()
                &&& *final(headers) == (NativeList {
                    last: (old(headers).parts@.len() - 1) as usize,
                    ..*old(headers)
                })
            },
            Ok(at) => {
                &&& old(pool).blocks@.len() >= old(headers).append_blocks()
                &&& final(pool).blocks@ == NativePool::spend(
                    old(pool).blocks@,
                    old(headers).append_blocks(),
                )
                &&& final(headers).appended(*old(headers), at, value)
            },
        },
{
    assert(headers.parts@.len() == headers.parts.len());
    repair_header_list_last(headers);
    let ghost repaired = *headers;
    let result = headers.push(pool, value);
    proof {
        assert forall|earlier: EntryAt| #[trigger] old(headers).has(earlier) && result is Ok implies
            headers.has(earlier) && headers.at(earlier) == old(headers).at(earlier) by {
            assert(repaired.has(earlier));
        }
    }
    result
}

/// The hash that nginx gives to the lowercase form of a key.
pub open spec fn hash_lowercase(key: Seq<u8>) -> usize
    decreases key.len(),
{
    if key.len() == 0 {
        0
    } else {
        ((hash_lowercase(key.drop_last()) as nat * 31 + crate::bytes::lower(key.last()) as nat) % (
        usize::MAX as nat + 1)) as usize
    }
}

/// The lowercase form of a key and its hash.
pub fn ngx_hash_strlow(key: &[u8]) -> (result: (Vec<u8>, usize))
    ensures
        result.0@ == crate::bytes::lowercase(key@),
        result.1 == hash_lowercase(key@),
{
    let mut lowercase: Vec<u8> = Vec::new();
    let mut hash: usize = 0;
    let mut index: usize = 0;
    assert(key@.take(0) =~= Seq::empty());
    while index < key.len()
        invariant
            index <= key@.len(),
            lowercase@.len() == index,
            forall|i: int| 0 <= i < index ==> lowercase@[i] == crate::bytes::lower(key@[i]),
            hash == hash_lowercase(key@.take(index as int)),
        decreases key@.len() - index,
    {
        let byte = to_lower(key[index]);
        proof {
            assert(key@.take(index + 1).drop_last() =~= key@.take(index as int));
            lemma_wrapping_step(hash, byte);
        }
        hash = hash.wrapping_mul(31).wrapping_add(byte as usize);
        lowercase.push(byte);
        index = index + 1;
    }
    assert(key@.take(index as int) =~= key@);
    assert(lowercase@ =~= crate::bytes::lowercase(key@));
    (lowercase, hash)
}

/// One step of the hash, as wrapping arithmetic.
proof fn lemma_wrapping_step(hash: usize, byte: u8)
    ensures
        vstd::wrapping::usize_specs::wrapping_add(
            vstd::wrapping::usize_specs::wrapping_mul(hash, 31),
            byte as usize,
        ) == (hash as nat * 31 + byte as nat) % (usize::MAX as nat + 1),
{
    let range = usize::MAX as int + 1;
    let product = hash as int * 31;
    let wrapped = product % range;
    assert(0 <= wrapped < range) by (nonlinear_arith)
        requires
            wrapped == product % range,
            range > 0,
    ;
    assert((product + byte as int) % range == (if wrapped + byte as int >= range {
        wrapped + byte as int - range
    } else {
        wrapped + byte as int
    })) by {
        vstd::arithmetic::div_mod::lemma_add_mod_noop(product, byte as int, range);
        vstd::arithmetic::div_mod::lemma_small_mod(byte as nat, range as nat);
        if wrapped + byte as int >= range {
            vstd::arithmetic::div_mod::lemma_small_mod(
                (wrapped + byte as int - range) as nat,
                range as nat,
            );
            vstd::arithmetic::div_mod::lemma_mod_multiples_vanish(
                1,
                wrapped + byte as int - range,
                range,
            );
        } else {
            vstd::arithmetic::div_mod::lemma_small_mod(
                (wrapped + byte as int) as nat,
                range as nat,
            );
        }
    }
}

/// The hash of a key modulo four.
spec fn hash_residue(key: Seq<u8>) -> int
    decreases key.len(),
{
    if key.len() == 0 {
        0
    } else {
        (3 * hash_residue(key.drop_last()) + crate::bytes::lower(key.last())) % 4
    }
}

/// Wrapping keeps the residue of the hash, because four divides the number of hashes.
proof fn lemma_hash_residue(key: Seq<u8>)
    ensures
        hash_lowercase(key) % 4 == hash_residue(key),
    decreases key.len(),
{
    if key.len() > 0 {
        lemma_hash_residue(key.drop_last());
        let earlier = hash_lowercase(key.drop_last()) as int;
        let byte = crate::bytes::lower(key.last()) as int;
        assert((usize::MAX as int + 1) % 4 == 0) by {
            assert(usize::MAX == 0xffff_ffff || usize::MAX == 0xffff_ffff_ffff_ffff);
        }
        lemma_residue_of_wrapped(earlier, byte, usize::MAX as int + 1);
    }
}

/// One step of the hash, modulo four.
proof fn lemma_residue_of_wrapped(earlier: int, byte: int, range: int)
    requires
        range > 0,
        range % 4 == 0,
    ensures
        ((earlier * 31 + byte) % range) % 4 == (3 * (earlier % 4) + byte) % 4,
{
    let sum = earlier * 31 + byte;
    let quarter = range / 4;
    vstd::arithmetic::div_mod::lemma_fundamental_div_mod(sum, range);
    let laps = sum / range;
    assert(range * laps == 4 * (quarter * laps)) by (nonlinear_arith)
        requires
            range == 4 * quarter,
    ;
    assert((sum % range) % 4 == sum % 4);
    assert(sum % 4 == (3 * (earlier % 4) + byte) % 4);
}

/// A Content-Length header is enabled: its hash is not zero.
pub proof fn lemma_content_length_is_enabled()
    ensures
        hash_lowercase(vstd::utf8::encode_utf8("Content-Length"@)) != 0,
{
    let key = vstd::utf8::encode_utf8("Content-Length"@);
    reveal_strlit("Content-Length");
    vstd::utf8::is_ascii_chars_encode_utf8("Content-Length"@);
    lemma_hash_residue(key);
    assert(key.len() == 14);
    lemma_residue_step(key, 1);
    lemma_residue_step(key, 2);
    lemma_residue_step(key, 3);
    lemma_residue_step(key, 4);
    lemma_residue_step(key, 5);
    lemma_residue_step(key, 6);
    lemma_residue_step(key, 7);
    lemma_residue_step(key, 8);
    lemma_residue_step(key, 9);
    lemma_residue_step(key, 10);
    lemma_residue_step(key, 11);
    lemma_residue_step(key, 12);
    lemma_residue_step(key, 13);
    lemma_residue_step(key, 14);
    assert(key.take(0) =~= Seq::empty());
    assert(key.take(14) =~= key);
}

/// The residue of a prefix from that of the prefix before it.
proof fn lemma_residue_step(key: Seq<u8>, count: int)
    requires
        0 < count <= key.len(),
    ensures
        hash_residue(key.take(count)) == (3 * hash_residue(key.take(count - 1))
            + crate::bytes::lower(key[count - 1])) % 4,
{
    assert(key.take(count).drop_last() =~= key.take(count - 1));
}

/// A copy of bytes in pool storage, with a zero behind it.
pub fn copy_pool_bytes(pool: &mut NativePool, bytes: &[u8]) -> (result: Result<
    NativeString,
    HeaderBuildError,
>)
    ensures
        *final(pool) == (NativePool { blocks: final(pool).blocks, ..*old(pool) }),
        NativePool::spent_from(final(pool).blocks@, old(pool).blocks@),
        match result {
            Err(error) => {
                &&& error == HeaderBuildError::Allocation
                &&& bytes@.len() == usize::MAX || old(pool).blocks@.len() == 0
            },
            Ok(copy) => {
                &&& bytes@.len() < usize::MAX
                &&& old(pool).blocks@.len() > 0
                &&& final(pool).blocks@ == NativePool::spend(old(pool).blocks@, 1)
                &&& copy.len == bytes@.len()
                &&& copy.data matches Some(data) && data@ == bytes@.push(0)
                &&& copy.readable()
                &&& !copy.missing()
                &&& copy.bytes() == bytes@
            },
        },
{
    proof {
        NativePool::lemma_spend(pool.blocks@, 1, 0);
        NativePool::lemma_spend(pool.blocks@, 0, 0);
    }
    if bytes.len() == usize::MAX {
        return Err(HeaderBuildError::Allocation);
    }
    match pool.allocate() {
        None => Err(HeaderBuildError::Allocation),
        Some(_) => {
            let mut data = slice_to_vec(bytes);
            data.push(0);
            let copy = NativeString { len: bytes.len(), data: Some(data) };
            assert(copy.bytes() =~= bytes@);
            Ok(copy)
        },
    }
}

/// What a header entry made for `key` and `value` says.
pub open spec fn built_header(key: Seq<u8>, value: Seq<u8>) -> HeaderView {
    HeaderView {
        hash: hash_lowercase(key),
        key,
        value,
        lowercase_key: if key.len() == 0 {
            None
        } else {
            Some(crate::bytes::lowercase(key))
        },
    }
}

/// Blocks that a header entry takes: copies of key and value, and of a nonempty lowercase key.
pub open spec fn header_blocks(key: Seq<u8>) -> nat {
    if key.len() == 0 {
        2
    } else {
        3
    }
}

/// Whether a header can be copied at all.
pub open spec fn header_fits(key: Seq<u8>, value: Seq<u8>) -> bool {
    key.len() < usize::MAX && value.len() < usize::MAX
}

/// Whether an entry is a complete copy of `key` and `value`, each with a zero behind it.
pub open spec fn is_built(header: NativeHeader, key: Seq<u8>, value: Seq<u8>) -> bool {
    &&& header.view() == built_header(key, value)
    &&& header.readable()
    &&& !header.key.missing()
    &&& !header.value.missing()
    &&& header.key.data matches Some(data) && data@ == key.push(0)
    &&& header.value.data matches Some(data) && data@ == value.push(0)
}

/// Copies a header into pool storage.
pub fn build_pool_header(pool: &mut NativePool, key: &[u8], value: &[u8]) -> (result: Result<
    NativeHeader,
    HeaderBuildError,
>)
    ensures
        *final(pool) == (NativePool { blocks: final(pool).blocks, ..*old(pool) }),
        NativePool::spent_from(final(pool).blocks@, old(pool).blocks@),
        match result {
            Err(error) => {
                &&& error == HeaderBuildError::Allocation
                &&& !header_fits(key@, value@) || old(pool).blocks@.len() < header_blocks(key@)
            },
            Ok(header) => {
                &&& header_fits(key@, value@)
                &&& old(pool).blocks@.len() >= header_blocks(key@)
                &&& final(pool).blocks@ == NativePool::spend(old(pool).blocks@, header_blocks(key@))
                &&& is_built(header, key@, value@)
            },
        },
{
    let ghost blocks = pool.blocks@;
    proof {
        NativePool::lemma_spend(blocks, 1, 1);
        NativePool::lemma_spend(blocks, 2, 1);
    }
    let key_copy = match copy_pool_bytes(pool, key) {
        Ok(copy) => copy,
        Err(error) => return Err(error),
    };
    let ghost middle = pool.blocks@;
    let value_copy = match copy_pool_bytes(pool, value) {
        Ok(copy) => copy,
        Err(error) => {
            proof {
                lemma_spent_twice(pool.blocks@, middle, blocks);
            }
            return Err(error);
        },
    };
    if key.len() == 0 {
        let header = NativeHeader { hash: 0, key: key_copy, value: value_copy, lowcase_key: None };
        assert(header.view() =~= built_header(key@, value@));
        return Ok(header);
    }
    if pool.allocate().is_none() {
        return Err(HeaderBuildError::Allocation);
    }
    let (lowercase, hash) = ngx_hash_strlow(key);
    let header = NativeHeader {
        hash,
        key: key_copy,
        value: value_copy,
        lowcase_key: Some(lowercase),
    };
    proof {
        assert(lowercase@.take(key@.len() as int) =~= crate::bytes::lowercase(key@));
        assert(header.view() =~= built_header(key@, value@));
    }
    Ok(header)
}

/// Part of a part of the blocks is a part of the blocks.
pub proof fn lemma_spent_twice(last: Seq<usize>, middle: Seq<usize>, first: Seq<usize>)
    requires
        NativePool::spent_from(last, middle),
        NativePool::spent_from(middle, first),
    ensures
        NativePool::spent_from(last, first),
{
    assert(last =~= first.take(last.len() as int));
}

/// Copies a header into pool storage and appends it to a list.
pub fn append_pool_header(
    headers: &mut NativeList,
    pool: &mut NativePool,
    key: &[u8],
    value: &[u8],
) -> (result: Result<EntryAt, HeaderBuildError>)
    requires
        old(headers).appendable(),
    ensures
        *final(pool) == (NativePool { blocks: final(pool).blocks, ..*old(pool) }),
        NativePool::spent_from(final(pool).blocks@, old(pool).blocks@),
        match result {
            Err(error) => {
                &&& error == HeaderBuildError::Allocation
                &&& !header_fits(key@, value@) || old(pool).blocks@.len() < header_blocks(key@)
                    + old(headers).append_blocks()
                &&& *final(headers) == old(headers).refused(old(pool).blocks@, key@, value@)
            },
            Ok(at) => {
                &&& header_fits(key@, value@)
                &&& old(pool).blocks@.len() >= header_blocks(key@) + old(headers).append_blocks()
                &&& final(pool).blocks@ == NativePool::spend(
                    old(pool).blocks@,
                    header_blocks(key@) + old(headers).append_blocks(),
                )
                &&& is_built(final(headers).at(at), key@, value@)
                &&& final(headers).appended(*old(headers), at, final(headers).at(at))
            },
        },
{
    let ghost blocks = pool.blocks@;
    let header = match build_pool_header(pool, key, value) {
        Ok(header) => header,
        Err(error) => return Err(error),
    };
    let ghost middle = pool.blocks@;
    proof {
        NativePool::lemma_spend(blocks, header_blocks(key@), headers.append_blocks());
        assert(headers.parts@.len() == headers.parts.len());
    }
    match append_header(headers, pool, header) {
        Ok(at) => Ok(at),
        Err(error) => {
            proof {
                lemma_spent_twice(pool.blocks@, middle, blocks);
            }
            Err(error)
        },
    }
}

/// Whether a key belongs to the framing of a message.
pub open spec fn is_framing(key: Seq<u8>) -> bool {
    ||| crate::bytes::same_ignoring_case(key, vstd::utf8::encode_utf8("Content-Length"@))
    ||| crate::bytes::same_ignoring_case(key, vstd::utf8::encode_utf8("Transfer-Encoding"@))
}

/// Whether a key belongs to the framing of a message.
pub fn is_framing_key(key: &[u8]) -> (result: bool)
    ensures
        result == is_framing(key@),
{
    equal_ignoring_case(key, "Content-Length".as_bytes()) || equal_ignoring_case(
        key,
        "Transfer-Encoding".as_bytes(),
    )
}

/// An entry once framing entries were disabled.
pub open spec fn unframed(header: NativeHeader) -> NativeHeader {
    if header.hash != 0 && is_framing(header.key.bytes()) {
        NativeHeader { hash: 0, ..header }
    } else {
        header
    }
}

impl NativeList {
    /// Whether the parts of this list hold as many entries as those of `other`.
    pub open spec fn same_shape(self, other: NativeList) -> bool {
        &&& self == (NativeList { parts: self.parts, ..other })
        &&& self.parts@.len() == other.parts@.len()
        &&& forall|i: int|
            0 <= i < self.parts@.len() ==> {
                &&& (#[trigger] self.parts@[i]).entries().len() == other.parts@[i].entries().len()
                &&& self.parts@[i].elts is Some == other.parts@[i].elts is Some
                &&& self.parts@[i].nelts == other.parts@[i].nelts
                &&& self.parts@[i].next == other.parts@[i].next
            }
    }

    /// Lists of one shape have their entries in the same places.
    pub proof fn lemma_same_shape(self, other: NativeList)
        requires
            self.same_shape(other),
        ensures
            self.placed_entries().len() == other.placed_entries().len(),
            forall|k: int|
                0 <= k < self.placed_entries().len() ==> #[trigger] self.placed_entries()[k].0
                    == other.placed_entries()[k].0,
            self.valid() == other.valid(),
            self.chained() == other.chained(),
    {
        Self::lemma_places_by_shape(self.parts@, other.parts@);
        if self.chained() {
            assert forall|i: int| 0 <= i < other.parts@.len() implies (
            #[trigger] other.parts@[i]).next == (if i + 1 < other.parts@.len() {
                Some((i + 1) as usize)
            } else {
                None
            }) by {
                assert(self.parts@[i].next == other.parts@[i].next);
            }
        }
        if self.valid() {
            assert forall|i: int| 0 <= i < other.parts@.len() implies {
                &&& (#[trigger] other.parts@[i]).nelts <= other.nalloc
                &&& other.parts@[i].elts is None ==> other.parts@[i].nelts == 0
            } by {
                assert(self.parts@[i].nelts == other.parts@[i].nelts);
            }
        }
    }

    /// A list of the shape of an appendable one can be appended to as that one can.
    pub proof fn lemma_appendable_by_shape(self, other: NativeList)
        requires
            self.same_shape(other),
            self.faithful(),
            other.appendable(),
        ensures
            self.appendable(),
            self.append_blocks() == other.append_blocks(),
    {
        self.lemma_same_shape(other);
        assert(self.parts@.last() == self.parts@[self.parts@.len() - 1]);
        assert forall|i: int| 0 <= i < self.parts@.len() implies {
            &&& (#[trigger] self.parts@[i]).nelts <= self.nalloc
            &&& self.parts@[i].elts is None ==> self.parts@[i].nelts == 0
        } by {
            assert(self.parts@[i].nelts == other.parts@[i].nelts);
        }
    }

    proof fn lemma_places_by_shape(a: Seq<NativeListPart>, b: Seq<NativeListPart>)
        requires
            a.len() == b.len(),
            forall|i: int|
                0 <= i < a.len() ==> (#[trigger] a[i]).entries().len() == b[i].entries().len(),
        ensures
            Self::flat(a).len() == Self::flat(b).len(),
            forall|k: int|
                0 <= k < Self::flat(a).len() ==> (#[trigger] Self::flat(a)[k]).0 == Self::flat(
                    b,
                )[k].0,
        decreases a.len(),
    {
        if a.len() > 0 {
            assert(a.last() == a[a.len() - 1]);
            Self::lemma_places_by_shape(a.drop_last(), b.drop_last());
        }
    }

    /// Disables the entry at `at`.
    fn disable(&mut self, at: EntryAt)
        requires
            old(self).has(at),
        ensures
            final(self).same_shape(*old(self)),
            final(self).at(at) == (NativeHeader { hash: 0, ..old(self).at(at) }),
            forall|other: EntryAt| #[trigger]
                old(self).has(other) && other != at ==> final(self).at(other) == old(self).at(
                    other,
                ),
    {
        let ghost before = *self;
        let mut part = self.parts.remove(at.part);
        let mut elts = part.elts.take().unwrap();
        let mut header = elts.remove(at.index);
        header.hash = 0;
        elts.insert(at.index, header);
        part.elts = Some(elts);
        self.parts.insert(at.part, part);
        proof {
            assert(self.parts@.len() == before.parts@.len());
            assert forall|i: int| 0 <= i < self.parts@.len() implies {
                &&& (#[trigger] self.parts@[i]).entries().len() == before.parts@[i].entries().len()
                &&& self.parts@[i].elts is Some == before.parts@[i].elts is Some
                &&& self.parts@[i].nelts == before.parts@[i].nelts
                &&& self.parts@[i].next == before.parts@[i].next
            } by {
                if i != at.part {
                    assert(self.parts@[i] == before.parts@[i]);
                }
            }
            assert forall|other: EntryAt| #[trigger]
                before.has(other) && other != at implies self.at(other) == before.at(other) by {
                if other.part != at.part {
                    assert(self.parts@[other.part as int] == before.parts@[other.part as int]);
                }
            }
        }
    }
}

/// Disables the enabled Content-Length and Transfer-Encoding entries of a list.
pub fn disable_framing_headers(headers: &mut NativeList, source: HttpHeaderSource) -> (result: Result<
    (),
    HeaderListError,
>)
    requires
        old(headers).chained(),
        old(headers).faithful(),
    ensures
        ({
            let repaired = NativeList {
                last: (old(headers).parts@.len() - 1) as usize,
                ..*old(headers)
            };
            match repaired.check() {
                Err(error) => result == Err::<(), HeaderListError>(error) && *final(headers)
                    == repaired,
                Ok(_) => {
                    &&& result == Ok::<(), HeaderListError>(())
                    &&& final(headers).framing_disabled(repaired, repaired.placed_entries().len())
                },
            }
        }),
{
    repair_header_list_last(headers);
    let ghost repaired = *headers;
    match checked_header_list(headers, source) {
        Ok(_) => {},
        Err(error) => return Err(error),
    }
    let places = headers.places();
    proof {
        assert forall|k: int| 0 <= k < places@.len() implies {
            &&& #[trigger] places@[k] == repaired.placed_entries()[k].0
            &&& repaired.placed_entries()[k].1.check() is Ok
        } by {
            crate::request::headers::lemma_checked_entry(repaired.placed_entries(), 0, 0, k);
        }
    }
    disable_framing_before(headers, places);
    Ok(())
}

impl NativeList {
    /// Whether this list is `before` with the framing entries among the first `count` disabled.
    pub open spec fn framing_disabled(self, before: NativeList, count: nat) -> bool {
        &&& self.same_shape(before)
        &&& self.faithful()
        &&& self.placed_entries().len() == before.placed_entries().len()
        &&& forall|k: int|
            0 <= k < before.placed_entries().len() ==> #[trigger] self.placed_entries()[k] == (
                before.placed_entries()[k].0,
                if k < count {
                    unframed(before.placed_entries()[k].1)
                } else {
                    before.placed_entries()[k].1
                },
            )
    }
}

/// Disables the framing entries at the first places of a checked list.
pub fn disable_framing_before(headers: &mut NativeList, places: Vec<EntryAt>)
    requires
        old(headers).faithful(),
        places@.len() <= old(headers).placed_entries().len(),
        forall|k: int|
            0 <= k < places@.len() ==> {
                &&& #[trigger] places@[k] == old(headers).placed_entries()[k].0
                &&& old(headers).placed_entries()[k].1.check() is Ok
            },
    ensures
        final(headers).framing_disabled(*old(headers), places@.len()),
{
    let ghost before = *headers;
    let ghost entries = before.placed_entries();
    proof {
        assert forall|k: int| 0 <= k < places@.len() implies {
            &&& #[trigger] places@[k] == entries[k].0
            &&& entries[k].1.check() is Ok
        } by {
            assert(places@[k] == old(headers).placed_entries()[k].0);
            assert(old(headers).placed_entries()[k].1.check() is Ok);
        }
    }
    let mut index: usize = 0;
    while index < places.len()
        invariant
            index <= places@.len() <= entries.len(),
            before == *old(headers),
            before.faithful(),
            entries == before.placed_entries(),
            forall|k: int|
                0 <= k < places@.len() ==> {
                    &&& #[trigger] places@[k] == entries[k].0
                    &&& entries[k].1.check() is Ok
                },
            headers.framing_disabled(before, index as nat),
        decreases places@.len() - index,
    {
        let at = places[index];
        let ghost middle = *headers;
        proof {
            headers.lemma_placed(index as int);
            headers.lemma_readable(at);
            assert(headers.placed_entries()[index as int] == entries[index as int]);
        }
        let header = headers.get(at);
        if header.hash != 0 && is_framing_key(header.key.as_bytes()) {
            headers.disable(at);
        }
        proof {
            headers.lemma_same_shape(middle);
            assert forall|k: int| 0 <= k < entries.len() implies #[trigger] headers.placed_entries()[k]
                == (
                entries[k].0,
                if k < index + 1 {
                    unframed(entries[k].1)
                } else {
                    entries[k].1
                },
            ) by {
                headers.lemma_placed(k);
                middle.lemma_placed(k);
                assert(headers.placed_entries()[k].0 == middle.placed_entries()[k].0);
                if k != index {
                    before.lemma_places_differ(k, index as int);
                    assert(middle.has(middle.placed_entries()[k].0));
                }
            }
            assert(headers.faithful()) by {
                assert forall|i: int| 0 <= i < headers.parts@.len() implies {
                    let part = #[trigger] headers.parts@[i];
                    &&& part.elts is Some && part.nelts <= headers.nalloc ==> part.entries().len()
                        == part.nelts
                    &&& forall|j: int|
                        0 <= j < part.entries().len() ==> (#[trigger] part.entries()[j]).readable()
                } by {
                    let part = headers.parts@[i];
                    assert(middle.parts@[i].entries().len() == part.entries().len());
                    assert forall|j: int| 0 <= j < part.entries().len() implies (
                    #[trigger] part.entries()[j]).readable() by {
                        let place = EntryAt { part: i as usize, index: j as usize };
                        assert(headers.parts@.len() == headers.parts.len());
                        assert(part.entries().len() == part.elts->0.len());
                        assert(middle.has(place));
                        middle.lemma_readable(place);
                        if place != at {
                            assert(headers.at(place) == middle.at(place));
                        }
                    }
                }
            }
        }
        index = index + 1;
    }
}

impl NativeList {
    /// No two entries are in the same place.
    pub proof fn lemma_places_differ(self, a: int, b: int)
        requires
            0 <= a < self.placed_entries().len(),
            0 <= b < self.placed_entries().len(),
            a != b,
        ensures
            self.placed_entries()[a].0 != self.placed_entries()[b].0,
    {
        assert(self.parts@.len() == self.parts.len());
        assert forall|i: int| 0 <= i < self.parts@.len() implies (
        #[trigger] self.parts@[i]).entries().len() <= usize::MAX by {
            if self.parts@[i].elts is Some {
                assert(self.parts@[i].entries().len() == self.parts@[i].elts->0.len());
            }
        }
        Self::lemma_flat_places_differ(self.parts@, a, b);
    }

    proof fn lemma_flat_places_differ(parts: Seq<NativeListPart>, a: int, b: int)
        requires
            parts.len() <= usize::MAX,
            forall|i: int|
                0 <= i < parts.len() ==> (#[trigger] parts[i]).entries().len() <= usize::MAX,
            0 <= a < Self::flat(parts).len(),
            0 <= b < Self::flat(parts).len(),
            a != b,
        ensures
            Self::flat(parts)[a].0 != Self::flat(parts)[b].0,
        decreases parts.len(),
    {
        let earlier = Self::flat(parts.drop_last());
        if a < earlier.len() && b < earlier.len() {
            Self::lemma_flat_places_differ(parts.drop_last(), a, b);
        } else if a < earlier.len() {
            Self::lemma_placed_in(parts.drop_last(), a);
        } else if b < earlier.len() {
            Self::lemma_placed_in(parts.drop_last(), b);
        }
    }
}

} // verus!
