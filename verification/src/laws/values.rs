//! Plain values: bytes, numbers in texts, methods and buffers.

use vstd::prelude::*;

use crate::buffer::{
    BufferError, BufferFlags, BufferView, ChainError, FileRange, FileView, NativeBuffer, PoolBuffer,
    PoolChain,
};
use crate::bytes::{equal, equal_ignoring_case, lower, lowercase, same_ignoring_case, to_lower};
use crate::native::{NativePool, NativeState};
use crate::request::method::{InvalidMethod, Method};
use crate::request::view::{RequestRef, RequestRefMut};
use crate::text::{append_number, digits, number};

verus! {

/// Whether two bytes are the same, or the same Latin letter in its two cases.
pub open spec fn same_letter(a: u8, b: u8) -> bool {
    ||| a == b
    ||| 65 <= a <= 90 && b == a + 32
    ||| 65 <= b <= 90 && a == b + 32
}

/// Lowercasing changes exactly the capital Latin letters, each to its small one.
pub proof fn law_capitals_become_small(byte: u8)
    ensures
        65 <= byte <= 90 ==> lower(byte) == byte + 32,
        byte < 65 || byte > 90 ==> lower(byte) == byte,
        lower(lower(byte)) == lower(byte),
        forall|result: u8| #[trigger]
            call_ensures(to_lower, (byte,), result) ==> result == (if 65 <= byte <= 90 {
                byte + 32
            } else {
                byte as int
            }),
{
}

/// Byte strings are the same but for case exactly if they have the same length and, byte by byte,
/// the same bytes or letters.
pub proof fn law_case_is_all_that_is_ignored(a: Seq<u8>, b: Seq<u8>)
    ensures
        same_ignoring_case(a, b) <==> a.len() == b.len() && forall|i: int|
            0 <= i < a.len() ==> same_letter(#[trigger] a[i], b[i]),
        lowercase(a).len() == a.len(),
        lowercase(lowercase(a)) == lowercase(a),
        a == b ==> same_ignoring_case(a, b),
{
    if same_ignoring_case(a, b) {
        assert(lowercase(a).len() == lowercase(b).len());
        assert forall|i: int| 0 <= i < a.len() implies same_letter(#[trigger] a[i], b[i]) by {
            assert(lowercase(a)[i] == lowercase(b)[i]);
        }
    }
    if a.len() == b.len() && forall|i: int|
        0 <= i < a.len() ==> same_letter(#[trigger] a[i], b[i]) {
        assert(lowercase(a) =~= lowercase(b));
    }
    assert(lowercase(lowercase(a)) =~= lowercase(a));
}

/// Comparing says whether the bytes are the same, or the same but for case.
pub proof fn law_comparisons_look_at_every_byte(a: &[u8], b: &[u8])
    ensures
        forall|result: bool| #[trigger]
            call_ensures(equal, (a, b), result) ==> (result <==> a@.len() == b@.len() && forall|
                i: int,
            |
                0 <= i < a@.len() ==> #[trigger] a@[i] == b@[i]),
        forall|result: bool| #[trigger]
            call_ensures(equal_ignoring_case, (a, b), result) ==> (result <==> a@.len() == b@.len()
                && forall|i: int| 0 <= i < a@.len() ==> same_letter(#[trigger] a@[i], b@[i])),
{
    law_case_is_all_that_is_ignored(a@, b@);
    if a@.len() == b@.len() && forall|i: int| 0 <= i < a@.len() ==> #[trigger] a@[i] == b@[i] {
        assert(a@ =~= b@);
    }
}

/// The number that decimal digits spell.
pub open spec fn spelled(text: Seq<char>) -> int
    decreases text.len(),
{
    if text.len() == 0 {
        0
    } else {
        10 * spelled(text.drop_last()) + (text.last() as int - 48)
    }
}

/// The digits of a number are decimal, spell that number and begin with no idle zero.
pub proof fn law_digits_spell_the_number(value: nat)
    ensures
        spelled(digits(value)) == value,
        digits(value).len() > 0,
        forall|i: int|
            0 <= i < digits(value).len() ==> 48 <= (#[trigger] digits(value)[i]) as int <= 57,
        digits(value).len() > 1 ==> digits(value)[0] as int != 48,
        value > 0 ==> digits(value)[0] as int != 48,
    decreases value,
{
    if value < 10 {
        assert(digits(value).drop_last() =~= Seq::<char>::empty());
        assert(spelled(digits(value).drop_last()) == 0);
    } else {
        law_digits_spell_the_number(value / 10);
        assert(digits(value).drop_last() =~= digits(value / 10));
    }
}

/// An appended number follows the text as it was: a minus sign if it is negative, then its digits.
pub proof fn law_appended_numbers_can_be_read_back(value: isize)
    ensures
        forall|text: &mut String, result: ()| #[trigger]
            call_ensures(append_number, (text, value), result) ==> {
                let before = text@.len() as int;
                let shown = final(text)@.skip(before);
                &&& before < final(text)@.len()
                &&& final(text)@.take(before) == text@
                &&& value >= 0 ==> spelled(shown) == value && shown == digits(value as nat)
                &&& value < 0 ==> shown[0] as int == 45 && spelled(shown.skip(1)) == -value
            },
{
    reveal_strlit("-");
    assert forall|text: &mut String, result: ()| #[trigger]
        call_ensures(append_number, (text, value), result) implies {
        let before = text@.len() as int;
        let shown = final(text)@.skip(before);
        &&& before < final(text)@.len()
        &&& final(text)@.take(before) == text@
        &&& value >= 0 ==> spelled(shown) == value && shown == digits(value as nat)
        &&& value < 0 ==> shown[0] as int == 45 && spelled(shown.skip(1)) == -value
    } by {
        let before = text@.len() as int;
        let shown = final(text)@.skip(before);
        let rest = number(value as int);
        assert(shown =~= rest);
        assert(final(text)@.take(before) =~= text@);
        if value < 0 {
            law_digits_spell_the_number((-value) as nat);
            assert(rest.skip(1) =~= digits((-value) as nat));
        } else {
            law_digits_spell_the_number(value as nat);
        }
    }
}

/// The bit by which nginx marks a method.
pub open spec fn method_bit(method: Method) -> usize {
    match method {
        Method::Get => 0x2,
        Method::Head => 0x4,
        Method::Post => 0x8,
        Method::Put => 0x10,
        Method::Delete => 0x20,
        Method::Mkcol => 0x40,
        Method::Copy => 0x80,
        Method::Move => 0x100,
        Method::Options => 0x200,
        Method::Propfind => 0x400,
        Method::Proppatch => 0x800,
        Method::Lock => 0x1000,
        Method::Unlock => 0x2000,
        Method::Patch => 0x4000,
        Method::Trace => 0x8000,
        Method::Connect => 0x10000,
        Method::Unknown => 1,
    }
}

/// The word that stands for a method in a request line.
pub open spec fn method_word(method: Method) -> Seq<char> {
    match method {
        Method::Get => "GET"@,
        Method::Head => "HEAD"@,
        Method::Post => "POST"@,
        Method::Put => "PUT"@,
        Method::Delete => "DELETE"@,
        Method::Mkcol => "MKCOL"@,
        Method::Copy => "COPY"@,
        Method::Move => "MOVE"@,
        Method::Options => "OPTIONS"@,
        Method::Propfind => "PROPFIND"@,
        Method::Proppatch => "PROPPATCH"@,
        Method::Lock => "LOCK"@,
        Method::Unlock => "UNLOCK"@,
        Method::Patch => "PATCH"@,
        Method::Trace => "TRACE"@,
        Method::Connect => "CONNECT"@,
        Method::Unknown => "UNKNOWN"@,
    }
}

/// A mark is a known method exactly if it is the bit of that method alone, and a request has the
/// method that its mark stands for.
pub proof fn law_methods_are_known_by_their_bit(
    mark: usize,
    native: NativeState,
    view: RequestRef,
    exclusive: RequestRefMut,
)
    ensures
        forall|method: Method| #[trigger]
            call_ensures(Method::from_ngx, (mark,), method) ==> marks(mark, method),
        forall|method: Method| #[trigger]
            call_ensures(RequestRef::method, (&view, &native), method) ==> marks(
                native.requests@[view.raw].method,
                method,
            ),
        forall|method: Method| #[trigger]
            call_ensures(RequestRefMut::method, (&exclusive, &native), method) ==> marks(
                native.requests@[exclusive.raw].method,
                method,
            ),
{
}

/// Whether `mark` stands for `method`: it is the bit of a known method, or of none.
pub open spec fn marks(mark: usize, method: Method) -> bool {
    &&& method != Method::Unknown ==> mark == method_bit(method)
    &&& method == Method::Unknown ==> forall|known: Method|
        known != Method::Unknown ==> mark != #[trigger] method_bit(known)
}

/// A method is shown by its word, and a word is read as the method that shows it; no other word is
/// a method.
pub proof fn law_methods_are_known_by_their_word(method: Method, bytes: &[u8], text: &str)
    ensures
        forall|shown: &str| #[trigger]
            call_ensures(Method::as_str, (&method,), shown) ==> shown@ == method_word(method),
        forall|same: bool| #[trigger]
            call_ensures(Method::eq_str, (&method, text), same) ==> (same
                <==> vstd::utf8::encode_utf8(method_word(method)) == vstd::utf8::encode_utf8(text@)),
        forall|result: Result<Method, InvalidMethod>| #[trigger]
            call_ensures(Method::from_bytes, (bytes,), result) ==> spells(bytes@, result),
        spells(
            vstd::utf8::encode_utf8(text@),
            Method::parsed(vstd::utf8::encode_utf8(text@)),
        ),
{
    assert forall|known: Method| #[trigger] method_word(known) == known.name()@ by {}
    assert forall|known: Method|
        known != Method::Unknown implies Method::parsed(#[trigger] known.token()) == Ok::<
        Method,
        InvalidMethod,
    >(known) by {
        crate::request::method::law_parsing_inverts_the_token(known);
    }
    crate::request::method::law_parsed_token_is_the_input(bytes@);
    crate::request::method::law_parsed_token_is_the_input(vstd::utf8::encode_utf8(text@));
    assert forall|known: Method| #[trigger]
        vstd::utf8::encode_utf8(method_word(known)) == known.token() by {}
}

/// Whether `result` is the method whose word `bytes` spell, if they spell one.
pub open spec fn spells(bytes: Seq<u8>, result: Result<Method, InvalidMethod>) -> bool {
    &&& result matches Ok(method) ==> method != Method::Unknown && bytes
        == vstd::utf8::encode_utf8(method_word(method))
    &&& result is Err ==> forall|known: Method|
        known != Method::Unknown ==> bytes != #[trigger] vstd::utf8::encode_utf8(method_word(known))
}

/// Whether the memory of a buffer is a range within its bytes.
pub open spec fn memory_sound(buffer: NativeBuffer) -> bool {
    buffer.memory matches Some(memory) ==> memory.pos <= memory.last && memory.last
        <= memory.bytes@.len()
}

/// Whether a buffer has bytes in memory.
pub open spec fn in_memory(buffer: NativeBuffer) -> bool {
    buffer.memory matches Some(memory) && memory.pos < memory.last
}

/// Whether the file of a buffer is a range of a file.
pub open spec fn file_sound(buffer: NativeBuffer) -> bool {
    buffer.file matches Some(range) ==> range.file != 0 && 0 <= range.pos && range.pos <= range.last
}

/// A buffer is shown as what it holds: bytes in memory first, else a range of a file, else nothing
/// but its marks. It is refused exactly if what it would show is no range.
pub proof fn law_buffers_show_what_they_hold(buffer: NativeBuffer)
    ensures
        forall|result: Result<BufferView, BufferError>| #[trigger]
            call_ensures(NativeBuffer::kind, (&buffer,), result) ==> {
                &&& result is Ok <==> memory_sound(buffer) && (in_memory(buffer) || file_sound(
                    buffer,
                ))
                &&& result is Ok && result->Ok_0 is Memory <==> memory_sound(buffer) && in_memory(
                    buffer,
                )
                &&& result is Ok && result->Ok_0 is File <==> memory_sound(buffer) && !in_memory(
                    buffer,
                ) && buffer.file is Some && file_sound(buffer)
                &&& result is Ok && result->Ok_0 is Memory ==> result->Ok_0->Memory_0@
                    == buffer.memory->0.bytes@.subrange(
                    buffer.memory->0.pos as int,
                    buffer.memory->0.last as int,
                )
                &&& result is Ok && result->Ok_0 is File ==> shows_range(
                    result->Ok_0->File_0,
                    buffer.file->0,
                )
                &&& result is Ok && result->Ok_0 is Control ==> result->Ok_0->Control_0.flags
                    == buffer.flags
                &&& result matches Err(error) ==> buffer_error(buffer, error)
            },
        forall|result: Result<Option<&[u8]>, BufferError>| #[trigger]
            call_ensures(NativeBuffer::bytes, (&buffer,), result) ==> {
                &&& result is Ok <==> memory_sound(buffer) && (in_memory(buffer) || file_sound(
                    buffer,
                ))
                &&& result is Ok ==> (result->Ok_0 is Some <==> in_memory(buffer))
                &&& result matches Ok(Some(bytes)) ==> bytes@
                    == buffer.memory->0.bytes@.subrange(
                    buffer.memory->0.pos as int,
                    buffer.memory->0.last as int,
                )
                &&& result matches Err(error) ==> buffer_error(buffer, error)
            },
        forall|result: Result<Option<FileView>, BufferError>| #[trigger]
            call_ensures(NativeBuffer::file, (&buffer,), result) ==> {
                &&& result is Ok <==> memory_sound(buffer) && (in_memory(buffer) || file_sound(
                    buffer,
                ))
                &&& result is Ok ==> (result->Ok_0 is Some <==> !in_memory(buffer)
                    && buffer.file is Some)
                &&& result matches Ok(Some(view)) ==> shows_range(view, buffer.file->0)
                &&& result matches Err(error) ==> buffer_error(buffer, error)
            },
        forall|result: Result<usize, BufferError>| #[trigger]
            call_ensures(NativeBuffer::len, (&buffer,), result) ==> {
                let sound = memory_sound(buffer) && (in_memory(buffer) || file_sound(buffer));
                let size = if in_memory(buffer) {
                    buffer.memory->0.last - buffer.memory->0.pos
                } else if buffer.file is Some {
                    buffer.file->0.last - buffer.file->0.pos
                } else {
                    0
                };
                &&& result is Ok <==> sound && size <= usize::MAX
                &&& result matches Ok(len) ==> len == size
                &&& sound && result is Err ==> result->Err_0 == BufferError::LengthOverflow
                &&& !sound ==> result is Err && buffer_error(buffer, result->Err_0)
            },
        forall|result: BufferFlags| #[trigger]
            call_ensures(NativeBuffer::flags, (&buffer,), result) ==> result == buffer.flags,
{
}

/// Whether a view of a file shows a range of that file.
pub open spec fn shows_range(view: FileView, range: FileRange) -> bool {
    view.file == range.file && view.start == range.pos && view.end == range.last
}

/// Whether `error` says what is wrong with a buffer.
pub open spec fn buffer_error(buffer: NativeBuffer, error: BufferError) -> bool {
    &&& error == BufferError::InvalidMemoryRange <==> !memory_sound(buffer)
    &&& error == BufferError::MissingFile <==> memory_sound(buffer) && buffer.file is Some
        && buffer.file->0.file == 0
    &&& error == BufferError::InvalidFileRange <==> memory_sound(buffer) && buffer.file is Some
        && buffer.file->0.file != 0
}

/// A file view shows its file and its two ends.
pub proof fn law_file_views_show_their_ends(view: FileView)
    ensures
        forall|result: i64| #[trigger]
            call_ensures(FileView::start, (&view,), result) ==> result == view.start,
        forall|result: i64| #[trigger]
            call_ensures(FileView::end, (&view,), result) ==> result == view.end,
        forall|result: usize| #[trigger]
            call_ensures(FileView::file_ptr, (&view,), result) ==> result == view.file,
{
}

/// A buffer that was made from bytes, from a range of a file or from marks alone holds just that;
/// it takes two blocks for bytes and one otherwise.
pub proof fn law_made_buffers_hold_what_they_were_made_from(
    bytes: &[u8],
    range: FileRange,
    flags: BufferFlags,
)
    ensures
        forall|pool: &mut NativePool, result: Result<NativeBuffer, BufferError>| #[trigger]
            call_ensures(NativePool::copy_buffer, (pool, bytes, flags), result) ==> {
                &&& result is Ok <==> pool.blocks@.len() >= 2
                &&& result matches Err(error) ==> error == BufferError::Allocation
                &&& result matches Ok(buffer) ==> {
                    &&& buffer.flags == flags
                    &&& buffer.file is None
                    &&& memory_sound(buffer)
                    &&& in_memory(buffer) <==> bytes@.len() > 0
                    &&& bytes@.len() > 0 ==> buffer.memory->0.bytes@.subrange(
                        buffer.memory->0.pos as int,
                        buffer.memory->0.last as int,
                    ) == bytes@
                    &&& final(pool).blocks@.len() == pool.blocks@.len() - 2
                }
            },
        forall|pool: &mut NativePool, result: Result<NativeBuffer, BufferError>| #[trigger]
            call_ensures(NativePool::control_buffer, (pool, flags), result) ==> {
                &&& result is Ok <==> pool.blocks@.len() >= 1
                &&& result matches Err(error) ==> error == BufferError::Allocation
                &&& result matches Ok(buffer) ==> buffer.flags == flags && buffer.file is None
                    && buffer.memory is None && final(pool).blocks@.len() == pool.blocks@.len() - 1
            },
        forall|pool: &mut NativePool, result: Result<NativeBuffer, BufferError>| #[trigger]
            call_ensures(NativePool::file_buffer, (pool, range, flags), result) ==> {
                &&& result is Ok <==> pool.blocks@.len() >= 1
                &&& result matches Err(error) ==> error == BufferError::Allocation
                &&& result matches Ok(buffer) ==> buffer.flags == flags && buffer.file == Some(range)
                    && buffer.memory is None && final(pool).blocks@.len() == pool.blocks@.len() - 1
            },
{
}

/// A chain takes buffers of its own pool, each behind those before it.
pub proof fn law_chains_grow_at_their_end(address: usize, buffer: PoolBuffer)
    ensures
        forall|chain: PoolChain| #[trigger]
            call_ensures(PoolChain::new, (address,), chain) ==> chain.pool == address
                && chain.buffers@.len() == 0,
        forall|chain: &mut PoolChain, pool: &mut NativePool, result: Result<(), ChainError>|
         #[trigger]
            call_ensures(PoolChain::append, (chain, pool, buffer), result) ==> {
                &&& result is Ok <==> buffer.pool == chain.pool && pool.blocks@.len() > 0
                &&& result is Ok ==> {
                    &&& final(chain).buffers@.len() == chain.buffers@.len() + 1
                    &&& final(chain).buffers@.last() == buffer.buffer
                    &&& final(chain).buffers@.drop_last() =~= chain.buffers@
                    &&& final(pool).blocks@.len() == pool.blocks@.len() - 1
                }
                &&& result matches Err(error) ==> {
                    &&& *final(chain) == *chain
                    &&& error == ChainError::Buffer(BufferError::ForeignPool) <==> buffer.pool
                        != chain.pool
                    &&& error == ChainError::Allocation <==> buffer.pool == chain.pool
                }
                &&& final(chain).pool == chain.pool
            },
{
}

} // verus!
