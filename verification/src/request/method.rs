//! Request method verbs.

use std::str::FromStr;

use vstd::prelude::*;

use crate::bytes::equal;
use crate::native::NativeState;
use crate::request::view::{RequestRef, RequestRefMut};

verus! {

pub const NGX_HTTP_GET: usize = 0x2;
pub const NGX_HTTP_HEAD: usize = 0x4;
pub const NGX_HTTP_POST: usize = 0x8;
pub const NGX_HTTP_PUT: usize = 0x10;
pub const NGX_HTTP_DELETE: usize = 0x20;
pub const NGX_HTTP_MKCOL: usize = 0x40;
pub const NGX_HTTP_COPY: usize = 0x80;
pub const NGX_HTTP_MOVE: usize = 0x100;
pub const NGX_HTTP_OPTIONS: usize = 0x200;
pub const NGX_HTTP_PROPFIND: usize = 0x400;
pub const NGX_HTTP_PROPPATCH: usize = 0x800;
pub const NGX_HTTP_LOCK: usize = 0x1000;
pub const NGX_HTTP_UNLOCK: usize = 0x2000;
pub const NGX_HTTP_PATCH: usize = 0x4000;
pub const NGX_HTTP_TRACE: usize = 0x8000;
pub const NGX_HTTP_CONNECT: usize = 0x10000;

/// A method token that is not supported.
#[derive(Clone, Copy, Debug, PartialEq, Eq, Structural)]
pub struct InvalidMethod;

/// Request method verb.
#[derive(Clone, Copy, Debug, PartialEq, Eq, Structural, Hash)]
pub enum Method {
    Unknown,
    Get,
    Head,
    Post,
    Put,
    Delete,
    Mkcol,
    Copy,
    Move,
    Options,
    Propfind,
    Proppatch,
    Lock,
    Unlock,
    Patch,
    Trace,
    Connect,
}

impl Method {
    /// UNKNOWN
    pub const UNKNOWN: Method = Method::Unknown;

    /// GET
    pub const GET: Method = Method::Get;

    /// HEAD
    pub const HEAD: Method = Method::Head;

    /// POST
    pub const POST: Method = Method::Post;

    /// PUT
    pub const PUT: Method = Method::Put;

    /// DELETE
    pub const DELETE: Method = Method::Delete;

    /// MKCOL
    pub const MKCOL: Method = Method::Mkcol;

    /// COPY
    pub const COPY: Method = Method::Copy;

    /// MOVE
    pub const MOVE: Method = Method::Move;

    /// OPTIONS
    pub const OPTIONS: Method = Method::Options;

    /// PROPFIND
    pub const PROPFIND: Method = Method::Propfind;

    /// PROPPATCH
    pub const PROPPATCH: Method = Method::Proppatch;

    /// LOCK
    pub const LOCK: Method = Method::Lock;

    /// UNLOCK
    pub const UNLOCK: Method = Method::Unlock;

    /// PATCH
    pub const PATCH: Method = Method::Patch;

    /// TRACE
    pub const TRACE: Method = Method::Trace;

    /// CONNECT
    pub const CONNECT: Method = Method::Connect;

    /// The name of the method.
    pub open spec fn name(self) -> &'static str {
        match self {
            Method::Unknown => "UNKNOWN",
            Method::Get => "GET",
            Method::Head => "HEAD",
            Method::Post => "POST",
            Method::Put => "PUT",
            Method::Delete => "DELETE",
            Method::Mkcol => "MKCOL",
            Method::Copy => "COPY",
            Method::Move => "MOVE",
            Method::Options => "OPTIONS",
            Method::Propfind => "PROPFIND",
            Method::Proppatch => "PROPPATCH",
            Method::Lock => "LOCK",
            Method::Unlock => "UNLOCK",
            Method::Patch => "PATCH",
            Method::Trace => "TRACE",
            Method::Connect => "CONNECT",
        }
    }

    /// The bytes that stand for the method in a request line.
    pub open spec fn token(self) -> Seq<u8> {
        vstd::utf8::encode_utf8(self.name()@)
    }

    /// The supported method whose token is `bytes`.
    pub open spec fn parsed(bytes: Seq<u8>) -> Result<Method, InvalidMethod> {
        if bytes == Method::Get.token() {
            Ok(Method::Get)
        } else if bytes == Method::Head.token() {
            Ok(Method::Head)
        } else if bytes == Method::Post.token() {
            Ok(Method::Post)
        } else if bytes == Method::Put.token() {
            Ok(Method::Put)
        } else if bytes == Method::Delete.token() {
            Ok(Method::Delete)
        } else if bytes == Method::Mkcol.token() {
            Ok(Method::Mkcol)
        } else if bytes == Method::Copy.token() {
            Ok(Method::Copy)
        } else if bytes == Method::Move.token() {
            Ok(Method::Move)
        } else if bytes == Method::Options.token() {
            Ok(Method::Options)
        } else if bytes == Method::Propfind.token() {
            Ok(Method::Propfind)
        } else if bytes == Method::Proppatch.token() {
            Ok(Method::Proppatch)
        } else if bytes == Method::Lock.token() {
            Ok(Method::Lock)
        } else if bytes == Method::Unlock.token() {
            Ok(Method::Unlock)
        } else if bytes == Method::Patch.token() {
            Ok(Method::Patch)
        } else if bytes == Method::Trace.token() {
            Ok(Method::Trace)
        } else if bytes == Method::Connect.token() {
            Ok(Method::Connect)
        } else {
            Err(InvalidMethod)
        }
    }

    /// The method that nginx marks with `bit`.
    pub open spec fn marked(bit: usize) -> Method {
        if bit == NGX_HTTP_GET {
            Method::Get
        } else if bit == NGX_HTTP_HEAD {
            Method::Head
        } else if bit == NGX_HTTP_POST {
            Method::Post
        } else if bit == NGX_HTTP_PUT {
            Method::Put
        } else if bit == NGX_HTTP_DELETE {
            Method::Delete
        } else if bit == NGX_HTTP_MKCOL {
            Method::Mkcol
        } else if bit == NGX_HTTP_COPY {
            Method::Copy
        } else if bit == NGX_HTTP_MOVE {
            Method::Move
        } else if bit == NGX_HTTP_OPTIONS {
            Method::Options
        } else if bit == NGX_HTTP_PROPFIND {
            Method::Propfind
        } else if bit == NGX_HTTP_PROPPATCH {
            Method::Proppatch
        } else if bit == NGX_HTTP_LOCK {
            Method::Lock
        } else if bit == NGX_HTTP_UNLOCK {
            Method::Unlock
        } else if bit == NGX_HTTP_PATCH {
            Method::Patch
        } else if bit == NGX_HTTP_TRACE {
            Method::Trace
        } else if bit == NGX_HTTP_CONNECT {
            Method::Connect
        } else {
            Method::Unknown
        }
    }

    /// Convert a Method to a &str.
    pub fn as_str(&self) -> (result: &'static str)
        ensures
            result@ == self.name()@,
    {
        match self {
            Method::Unknown => "UNKNOWN",
            Method::Get => "GET",
            Method::Head => "HEAD",
            Method::Post => "POST",
            Method::Put => "PUT",
            Method::Delete => "DELETE",
            Method::Mkcol => "MKCOL",
            Method::Copy => "COPY",
            Method::Move => "MOVE",
            Method::Options => "OPTIONS",
            Method::Propfind => "PROPFIND",
            Method::Proppatch => "PROPPATCH",
            Method::Lock => "LOCK",
            Method::Unlock => "UNLOCK",
            Method::Patch => "PATCH",
            Method::Trace => "TRACE",
            Method::Connect => "CONNECT",
        }
    }

    /// The supported method whose token is `t`. `UNKNOWN` is no token.
    pub fn from_bytes(t: &[u8]) -> (result: Result<Method, InvalidMethod>)
        ensures
            result == Method::parsed(t@),
    {
        if equal(t, "GET".as_bytes()) {
            Ok(Method::Get)
        } else if equal(t, "HEAD".as_bytes()) {
            Ok(Method::Head)
        } else if equal(t, "POST".as_bytes()) {
            Ok(Method::Post)
        } else if equal(t, "PUT".as_bytes()) {
            Ok(Method::Put)
        } else if equal(t, "DELETE".as_bytes()) {
            Ok(Method::Delete)
        } else if equal(t, "MKCOL".as_bytes()) {
            Ok(Method::Mkcol)
        } else if equal(t, "COPY".as_bytes()) {
            Ok(Method::Copy)
        } else if equal(t, "MOVE".as_bytes()) {
            Ok(Method::Move)
        } else if equal(t, "OPTIONS".as_bytes()) {
            Ok(Method::Options)
        } else if equal(t, "PROPFIND".as_bytes()) {
            Ok(Method::Propfind)
        } else if equal(t, "PROPPATCH".as_bytes()) {
            Ok(Method::Proppatch)
        } else if equal(t, "LOCK".as_bytes()) {
            Ok(Method::Lock)
        } else if equal(t, "UNLOCK".as_bytes()) {
            Ok(Method::Unlock)
        } else if equal(t, "PATCH".as_bytes()) {
            Ok(Method::Patch)
        } else if equal(t, "TRACE".as_bytes()) {
            Ok(Method::Trace)
        } else if equal(t, "CONNECT".as_bytes()) {
            Ok(Method::Connect)
        } else {
            Err(InvalidMethod::new())
        }
    }

    /// The method that nginx marks with the bit `t`.
    pub fn from_ngx(t: usize) -> (result: Method)
        ensures
            result == Method::marked(t),
    {
        match t {
            NGX_HTTP_GET => Method::Get,
            NGX_HTTP_HEAD => Method::Head,
            NGX_HTTP_POST => Method::Post,
            NGX_HTTP_PUT => Method::Put,
            NGX_HTTP_DELETE => Method::Delete,
            NGX_HTTP_MKCOL => Method::Mkcol,
            NGX_HTTP_COPY => Method::Copy,
            NGX_HTTP_MOVE => Method::Move,
            NGX_HTTP_OPTIONS => Method::Options,
            NGX_HTTP_PROPFIND => Method::Propfind,
            NGX_HTTP_PROPPATCH => Method::Proppatch,
            NGX_HTTP_LOCK => Method::Lock,
            NGX_HTTP_UNLOCK => Method::Unlock,
            NGX_HTTP_PATCH => Method::Patch,
            NGX_HTTP_TRACE => Method::Trace,
            NGX_HTTP_CONNECT => Method::Connect,
            _ => Method::Unknown,
        }
    }

    /// Whether the method is called `other`.
    pub fn eq_str(&self, other: &str) -> (result: bool)
        ensures
            result == (self.token() == vstd::utf8::encode_utf8(other@)),
    {
        equal(self.as_str().as_bytes(), other.as_bytes())
    }
}

impl InvalidMethod {
    /// The rejection of a token.
    pub fn new() -> (result: InvalidMethod)
        ensures
            result == InvalidMethod,
    {
        InvalidMethod
    }

    /// What the rejection says.
    pub fn message(&self) -> (result: &'static str)
        ensures
            result@ == "invalid HTTP method"@,
    {
        "invalid HTTP method"
    }
}

impl<'a> TryFrom<&'a [u8]> for Method {
    type Error = InvalidMethod;

    fn try_from(t: &'a [u8]) -> (result: Result<Self, InvalidMethod>) {
        Method::from_bytes(t)
    }
}

impl<'a> vstd::std_specs::convert::TryFromSpecImpl<&'a [u8]> for Method {
    open spec fn obeys_try_from_spec() -> bool {
        true
    }

    open spec fn try_from_spec(t: &'a [u8]) -> Result<Self, InvalidMethod> {
        Method::parsed(t@)
    }
}

impl<'a> TryFrom<&'a str> for Method {
    type Error = InvalidMethod;

    fn try_from(t: &'a str) -> (result: Result<Self, InvalidMethod>) {
        Method::from_bytes(t.as_bytes())
    }
}

impl<'a> vstd::std_specs::convert::TryFromSpecImpl<&'a str> for Method {
    open spec fn obeys_try_from_spec() -> bool {
        true
    }

    open spec fn try_from_spec(t: &'a str) -> Result<Self, InvalidMethod> {
        Method::parsed(vstd::utf8::encode_utf8(t@))
    }
}

impl FromStr for Method {
    type Err = InvalidMethod;

    fn from_str(t: &str) -> (result: Result<Self, InvalidMethod>)
        ensures
            result == Method::parsed(vstd::utf8::encode_utf8(t@)),
    {
        Method::from_bytes(t.as_bytes())
    }
}

/// A number that tells the methods apart: the length of the token and its first byte.
spec fn fingerprint(method: Method) -> (nat, u8) {
    match method {
        Method::Unknown => (7, 85),
        Method::Get => (3, 71),
        Method::Head => (4, 72),
        Method::Post => (4, 80),
        Method::Put => (3, 80),
        Method::Delete => (6, 68),
        Method::Mkcol => (5, 77),
        Method::Copy => (4, 67),
        Method::Move => (4, 77),
        Method::Options => (7, 79),
        Method::Propfind => (8, 80),
        Method::Proppatch => (9, 80),
        Method::Lock => (4, 76),
        Method::Unlock => (6, 85),
        Method::Patch => (5, 80),
        Method::Trace => (5, 84),
        Method::Connect => (7, 67),
    }
}

/// The fingerprint of a method is read off its token.
proof fn lemma_fingerprint(method: Method)
    ensures
        method.token().len() == fingerprint(method).0,
        method.token()[0] == fingerprint(method).1,
{
    match method {
        Method::Unknown => {
            reveal_strlit("UNKNOWN");
            vstd::utf8::is_ascii_chars_encode_utf8("UNKNOWN"@);
        },
        Method::Get => {
            reveal_strlit("GET");
            vstd::utf8::is_ascii_chars_encode_utf8("GET"@);
        },
        Method::Head => {
            reveal_strlit("HEAD");
            vstd::utf8::is_ascii_chars_encode_utf8("HEAD"@);
        },
        Method::Post => {
            reveal_strlit("POST");
            vstd::utf8::is_ascii_chars_encode_utf8("POST"@);
        },
        Method::Put => {
            reveal_strlit("PUT");
            vstd::utf8::is_ascii_chars_encode_utf8("PUT"@);
        },
        Method::Delete => {
            reveal_strlit("DELETE");
            vstd::utf8::is_ascii_chars_encode_utf8("DELETE"@);
        },
        Method::Mkcol => {
            reveal_strlit("MKCOL");
            vstd::utf8::is_ascii_chars_encode_utf8("MKCOL"@);
        },
        Method::Copy => {
            reveal_strlit("COPY");
            vstd::utf8::is_ascii_chars_encode_utf8("COPY"@);
        },
        Method::Move => {
            reveal_strlit("MOVE");
            vstd::utf8::is_ascii_chars_encode_utf8("MOVE"@);
        },
        Method::Options => {
            reveal_strlit("OPTIONS");
            vstd::utf8::is_ascii_chars_encode_utf8("OPTIONS"@);
        },
        Method::Propfind => {
            reveal_strlit("PROPFIND");
            vstd::utf8::is_ascii_chars_encode_utf8("PROPFIND"@);
        },
        Method::Proppatch => {
            reveal_strlit("PROPPATCH");
            vstd::utf8::is_ascii_chars_encode_utf8("PROPPATCH"@);
        },
        Method::Lock => {
            reveal_strlit("LOCK");
            vstd::utf8::is_ascii_chars_encode_utf8("LOCK"@);
        },
        Method::Unlock => {
            reveal_strlit("UNLOCK");
            vstd::utf8::is_ascii_chars_encode_utf8("UNLOCK"@);
        },
        Method::Patch => {
            reveal_strlit("PATCH");
            vstd::utf8::is_ascii_chars_encode_utf8("PATCH"@);
        },
        Method::Trace => {
            reveal_strlit("TRACE");
            vstd::utf8::is_ascii_chars_encode_utf8("TRACE"@);
        },
        Method::Connect => {
            reveal_strlit("CONNECT");
            vstd::utf8::is_ascii_chars_encode_utf8("CONNECT"@);
        },
    }
}

/// No two methods have the same token.
pub proof fn law_tokens_are_distinct(a: Method, b: Method)
    requires
        a.token() == b.token(),
    ensures
        a == b,
{
    lemma_fingerprint(a);
    lemma_fingerprint(b);
}

/// Parsing the token of a supported method gives the method back, and `UNKNOWN` is refused.
pub proof fn law_parsing_inverts_the_token(method: Method)
    ensures
        Method::parsed(method.token()) == (if method == Method::Unknown {
            Err::<Method, InvalidMethod>(InvalidMethod)
        } else {
            Ok::<Method, InvalidMethod>(method)
        }),
{
    if method.token() == Method::Get.token() {
        law_tokens_are_distinct(method, Method::Get);
    }
    if method.token() == Method::Head.token() {
        law_tokens_are_distinct(method, Method::Head);
    }
    if method.token() == Method::Post.token() {
        law_tokens_are_distinct(method, Method::Post);
    }
    if method.token() == Method::Put.token() {
        law_tokens_are_distinct(method, Method::Put);
    }
    if method.token() == Method::Delete.token() {
        law_tokens_are_distinct(method, Method::Delete);
    }
    if method.token() == Method::Mkcol.token() {
        law_tokens_are_distinct(method, Method::Mkcol);
    }
    if method.token() == Method::Copy.token() {
        law_tokens_are_distinct(method, Method::Copy);
    }
    if method.token() == Method::Move.token() {
        law_tokens_are_distinct(method, Method::Move);
    }
    if method.token() == Method::Options.token() {
        law_tokens_are_distinct(method, Method::Options);
    }
    if method.token() == Method::Propfind.token() {
        law_tokens_are_distinct(method, Method::Propfind);
    }
    if method.token() == Method::Proppatch.token() {
        law_tokens_are_distinct(method, Method::Proppatch);
    }
    if method.token() == Method::Lock.token() {
        law_tokens_are_distinct(method, Method::Lock);
    }
    if method.token() == Method::Unlock.token() {
        law_tokens_are_distinct(method, Method::Unlock);
    }
    if method.token() == Method::Patch.token() {
        law_tokens_are_distinct(method, Method::Patch);
    }
    if method.token() == Method::Trace.token() {
        law_tokens_are_distinct(method, Method::Trace);
    }
    if method.token() == Method::Connect.token() {
        law_tokens_are_distinct(method, Method::Connect);
    }
}

/// A token that parses is the token of the method that comes out.
pub proof fn law_parsed_token_is_the_input(bytes: Seq<u8>)
    ensures
        Method::parsed(bytes) matches Ok(method) ==> method != Method::Unknown && method.token()
            == bytes,
{
}

impl RequestRef {
    /// Request method verb.
    pub fn method(&self, native: &NativeState) -> (result: Method)
        requires
            native.requests@.contains_key(self.raw),
        ensures
            result == Method::marked(native.requests@[self.raw].method),
    {
        Method::from_ngx(native.request(self.raw).method)
    }
}

impl RequestRefMut {
    /// Request method verb.
    pub fn method(&self, native: &NativeState) -> (result: Method)
        requires
            native.requests@.contains_key(self.raw),
        ensures
            result == Method::marked(native.requests@[self.raw].method),
    {
        self.view().method(native)
    }
}

} // verus!
