//! Variables: invalidated caches, lookups, registrations and evaluations.

use vstd::prelude::*;

use crate::native::{HttpConfigError, NativeRequest, NativeState, NativeString, NginxCall, Pointer};
use crate::request::view::{RequestRef, RequestRefMut};
use crate::variable::{
    add_prefix_variable, add_variable, add_variable_with_setter, get_variable_index,
    prefix_name_from_data, raw_get_handler, raw_prefix_get_handler, raw_set_handler,
    HttpPrefixVariableHandler, HttpVariableCacheInvalidation, HttpVariableCacheInvalidationError,
    HttpVariableFlags, HttpVariableHandler, HttpVariableIndex, HttpVariableIndexError,
    HttpVariableLookupError, HttpVariableOutput, HttpVariableOutputError, HttpVariablePoolBytes,
    HttpVariableRegistrationError, HttpVariableRequest, HttpVariableSetter, HttpVariableValueRef,
    PendingVariableIndex, PrefixRegistration, VariableDefinition, VariableRegistration,
    VariableValue,
};

verus! {

/// Whether an index is among the preserved ones.
pub open spec fn preserved(invalidation: HttpVariableCacheInvalidation, index: int) -> bool {
    exists|i: int|
        0 <= i < invalidation.preserved@.len() && #[trigger] invalidation.preserved@[i].index
            == index
}

/// The definition at an index of the configuration that an invalidation was prepared for.
pub open spec fn definition_at(
    native: NativeState,
    invalidation: HttpVariableCacheInvalidation,
    index: int,
) -> VariableDefinition {
    native.core_mains@[invalidation.core_main].variables.elts->To_0@[index]
}

/// The value at an index of a request.
pub open spec fn value_at(native: NativeState, raw: usize, index: int) -> VariableValue {
    native.requests@[raw].variables->To_0.values@[index]
}

/// After a successful commit every value that a getter can compute again is dropped, whether its
/// variable is changeable, not cacheable, not hashed or indexed; a value without a getter, of a
/// weak variable or at a preserved index stays, and so does every value past the count. A dropped
/// value keeps its bytes but is neither valid nor known to be absent.
pub proof fn law_commits_drop_what_getters_compute()
    ensures
        forall|
            invalidation: HttpVariableCacheInvalidation,
            request: &mut RequestRefMut,
            native: &mut NativeState,
            result: Result<(), HttpVariableCacheInvalidationError>,
            index: int,
        |
            #![trigger call_ensures(HttpVariableCacheInvalidation::commit, (invalidation, request, native), result),
                final(native).requests@[request.raw].variables->To_0.values@[index]]
            call_ensures(
                HttpVariableCacheInvalidation::commit,
                (invalidation, request, native),
                result,
            ) && result is Ok && native.requests@[request.raw].variables is To
                && native.core_mains@[invalidation.core_main].variables.elts is To && 0 <= index
                < native.requests@[request.raw].variables->To_0.values@.len() ==> {
                let definition = definition_at(*native, invalidation, index);
                let before = value_at(*native, request.raw, index);
                let after = final(native).requests@[request.raw].variables->To_0.values@[index];
                let dropped = index < invalidation.count && definition.get_handler is Some
                    && definition.flags & 16 == 0 && !preserved(invalidation, index);
                &&& dropped ==> !after.valid && !after.not_found
                &&& !dropped ==> after == before
                &&& after.len == before.len
                &&& after.data == before.data
                &&& after.no_cacheable == before.no_cacheable
                &&& after.escape == before.escape
            },
{
}

/// Of two variables that both have a getter or both have none and are both weak or both not, either
/// both values are dropped or neither, whatever their other flags are.
pub proof fn law_other_flags_do_not_matter_to_commits()
    ensures
        forall|
            invalidation: HttpVariableCacheInvalidation,
            request: &mut RequestRefMut,
            native: &mut NativeState,
            other_request: &mut RequestRefMut,
            other: &mut NativeState,
            result: Result<(), HttpVariableCacheInvalidationError>,
            other_result: Result<(), HttpVariableCacheInvalidationError>,
            index: int,
        |
            #![trigger call_ensures(HttpVariableCacheInvalidation::commit, (invalidation, request, native), result),
                call_ensures(HttpVariableCacheInvalidation::commit, (invalidation, other_request, other), other_result),
                final(native).requests@[request.raw].variables->To_0.values@[index]]
            call_ensures(
                HttpVariableCacheInvalidation::commit,
                (invalidation, request, native),
                result,
            ) && call_ensures(
                HttpVariableCacheInvalidation::commit,
                (invalidation, other_request, other),
                other_result,
            ) && result is Ok && other_result is Ok && request.raw == other_request.raw && (
            native.requests == other.requests) && native.requests@[request.raw].variables is To
                && native.core_mains@[invalidation.core_main].variables.elts is To
                && other.core_mains@[invalidation.core_main].variables.elts is To && 0 <= index
                < native.requests@[request.raw].variables->To_0.values@.len() && {
                let one = definition_at(*native, invalidation, index);
                let two = definition_at(*other, invalidation, index);
                &&& one.get_handler is Some == two.get_handler is Some
                &&& (one.flags & 16 == 0) == (two.flags & 16 == 0)
            } ==> final(native).requests@[request.raw].variables->To_0.values@[index] == final(other).requests@[request.raw].variables->To_0.values@[index],
{
}

/// A commit succeeds exactly if it runs on the request that it was prepared for, with the values
/// where they were. It changes no request but that one and in it nothing but the values; a refused
/// commit changes nothing.
pub proof fn law_commits_touch_their_own_request()
    ensures
        forall|
            invalidation: HttpVariableCacheInvalidation,
            request: &mut RequestRefMut,
            native: &mut NativeState,
            result: Result<(), HttpVariableCacheInvalidationError>,
        | #[trigger]
            call_ensures(
                HttpVariableCacheInvalidation::commit,
                (invalidation, request, native),
                result,
            ) ==> {
                let before = native.requests@[request.raw];
                let after = final(native).requests@[request.raw];
                &&& result is Ok <==> request.raw == invalidation.request && (invalidation.count == 0
                    || before.variables is To && before.variables->To_0.address
                    == invalidation.values)
                &&& result matches Err(error) ==> error
                    == HttpVariableCacheInvalidationError::ForeignRequest
                    && final(native).requests@ == native.requests@
                &&& result is Ok ==> {
                    &&& final(native).requests@ == native.requests@.insert(request.raw, after)
                    &&& after == (NativeRequest { variables: after.variables, ..before })
                    &&& after.variables is To <==> before.variables is To
                    &&& before.variables is To ==> {
                        &&& after.variables->To_0.address == before.variables->To_0.address
                        &&& after.variables->To_0.values@.len()
                            == before.variables->To_0.values@.len()
                    }
                }
                &&& *final(request) == *request
                &&& final(native).pools == native.pools
                &&& final(native).core_mains == native.core_mains
            },
{
}

/// Whether `core_main` is the HTTP core main configuration of a request.
pub open spec fn core_main_found(native: NativeState, raw: usize, core_main: usize) -> bool {
    &&& native.core_module.type_ == 0x50545448
    &&& native.core_module.index < native.max_module
    &&& native.core_module.ctx_index < native.http_max_module
    &&& native.requests@[raw].main_conf is To
    &&& native.requests@[raw].main_conf->To_0@[native.core_module.ctx_index as int] == core_main
    &&& core_main != 0
}

/// Whether the definition array of a configuration can be read.
pub open spec fn definitions_usable(native: NativeState, core_main: usize) -> bool {
    let variables = native.core_mains@[core_main].variables;
    &&& variables.nelts <= variables.nalloc
    &&& variables.size == 56
    &&& variables.nelts == 0 || variables.elts is To
}

/// A list of indexes is at fault exactly if one of them belongs to another configuration or lies
/// outside the definitions.
proof fn lemma_preserved_fault(core_main: usize, nelts: usize, indexes: Seq<HttpVariableIndex>)
    ensures
        NativeState::preserved_fault(core_main, nelts, indexes) is None <==> forall|i: int|
            0 <= i < indexes.len() ==> (#[trigger] indexes[i]).core_main == core_main
                && indexes[i].index < nelts,
        NativeState::preserved_fault(core_main, nelts, indexes) matches Some(error) ==> exists|
            i: int,
        |
            0 <= i < indexes.len() && (if (#[trigger] indexes[i]).core_main != core_main {
                error == HttpVariableCacheInvalidationError::ForeignIndex
            } else {
                indexes[i].index >= nelts && error
                    == HttpVariableCacheInvalidationError::IndexOutOfBounds
            }),
    decreases indexes.len(),
{
    if indexes.len() > 0 {
        let rest = indexes.drop_first();
        lemma_preserved_fault(core_main, nelts, rest);
        assert forall|i: int| 0 <= i < rest.len() implies rest[i] == #[trigger] indexes[i + 1] by {}
        if indexes[0].core_main == core_main && indexes[0].index < nelts {
            if NativeState::preserved_fault(core_main, nelts, rest) is None {
                assert forall|i: int| 0 <= i < indexes.len() implies (
                #[trigger] indexes[i]).core_main == core_main && indexes[i].index < nelts by {
                    if i > 0 {
                        assert(rest[i - 1] == indexes[i]);
                    }
                }
            } else {
                let at = choose|i: int|
                    0 <= i < rest.len() && (if (#[trigger] rest[i]).core_main != core_main {
                        NativeState::preserved_fault(core_main, nelts, rest)->0
                            == HttpVariableCacheInvalidationError::ForeignIndex
                    } else {
                        rest[i].index >= nelts && NativeState::preserved_fault(
                            core_main,
                            nelts,
                            rest,
                        )->0 == HttpVariableCacheInvalidationError::IndexOutOfBounds
                    });
                assert(indexes[at + 1] == rest[at]);
            }
        }
    }
}

/// An invalidation is prepared exactly if the configuration of the request can be read, every
/// preserved index is one of its own, and the request has values for its variables. It remembers
/// the request, the configuration, where the values lie and how many there are.
pub proof fn law_invalidations_are_prepared_for_one_request(
    request: RequestRefMut,
    native: NativeState,
    indexes: &[HttpVariableIndex],
)
    ensures
        forall|
            result: Result<HttpVariableCacheInvalidation, HttpVariableCacheInvalidationError>,
            core_main: usize,
        |
            #![trigger call_ensures(HttpVariableCacheInvalidation::prepare, (&request, &native, indexes), result),
                core_main_found(native, request.raw, core_main)]
            call_ensures(
                HttpVariableCacheInvalidation::prepare,
                (&request, &native, indexes),
                result,
            ) && core_main_found(native, request.raw, core_main) ==> {
                let variables = native.core_mains@[core_main].variables;
                let values = native.requests@[request.raw].variables;
                let own = forall|i: int|
                    0 <= i < indexes@.len() ==> (#[trigger] indexes@[i]).core_main == core_main
                        && indexes@[i].index < variables.nelts;
                &&& result is Ok <==> definitions_usable(native, core_main) && own && (
                variables.nelts == 0 || values is To)
                &&& result matches Ok(invalidation) ==> {
                    &&& invalidation.request == request.raw
                    &&& invalidation.core_main == core_main
                    &&& invalidation.count == variables.nelts
                    &&& invalidation.preserved == indexes
                    &&& values is To ==> invalidation.values == values->To_0.address
                }
                &&& result matches Err(error) ==> {
                    &&& error == HttpVariableCacheInvalidationError::InvalidDefinitionArray
                        <==> !definitions_usable(native, core_main)
                    &&& error == HttpVariableCacheInvalidationError::MissingRequestVariables
                        ==> values is Null
                    &&& error == HttpVariableCacheInvalidationError::MisalignedRequestVariables
                        ==> values is Misaligned
                    &&& error == HttpVariableCacheInvalidationError::ForeignIndex ==> exists|i: int|
                        0 <= i < indexes@.len() && (#[trigger] indexes@[i]).core_main != core_main
                    &&& error == HttpVariableCacheInvalidationError::IndexOutOfBounds ==> exists|
                        i: int,
                    |
                        0 <= i < indexes@.len() && (#[trigger] indexes@[i]).index
                            >= variables.nelts
                    &&& definitions_usable(native, core_main) && own ==> error
                        == HttpVariableCacheInvalidationError::MissingRequestVariables || error
                        == HttpVariableCacheInvalidationError::MisalignedRequestVariables
                }
            },
        forall|result: Result<HttpVariableCacheInvalidation, HttpVariableCacheInvalidationError>|
         #[trigger]
            call_ensures(
                HttpVariableCacheInvalidation::prepare,
                (&request, &native, indexes),
                result,
            ) && result is Ok ==> core_main_found(native, request.raw, result->Ok_0.core_main),
{
    assert forall|
        result: Result<HttpVariableCacheInvalidation, HttpVariableCacheInvalidationError>,
        core_main: usize,
    |
        #![trigger call_ensures(HttpVariableCacheInvalidation::prepare, (&request, &native, indexes), result),
            core_main_found(native, request.raw, core_main)]
        call_ensures(HttpVariableCacheInvalidation::prepare, (&request, &native, indexes), result)
            && core_main_found(native, request.raw, core_main) implies {
        let variables = native.core_mains@[core_main].variables;
        let values = native.requests@[request.raw].variables;
        let own = forall|i: int|
            0 <= i < indexes@.len() ==> (#[trigger] indexes@[i]).core_main == core_main
                && indexes@[i].index < variables.nelts;
        &&& result is Ok <==> definitions_usable(native, core_main) && own && (variables.nelts == 0
            || values is To)
        &&& result matches Ok(invalidation) ==> {
            &&& invalidation.request == request.raw
            &&& invalidation.core_main == core_main
            &&& invalidation.count == variables.nelts
            &&& invalidation.preserved == indexes
            &&& values is To ==> invalidation.values == values->To_0.address
        }
        &&& result matches Err(error) ==> {
            &&& error == HttpVariableCacheInvalidationError::InvalidDefinitionArray
                <==> !definitions_usable(native, core_main)
            &&& error == HttpVariableCacheInvalidationError::MissingRequestVariables
                ==> values is Null
            &&& error == HttpVariableCacheInvalidationError::MisalignedRequestVariables
                ==> values is Misaligned
            &&& error == HttpVariableCacheInvalidationError::ForeignIndex ==> exists|i: int|
                0 <= i < indexes@.len() && (#[trigger] indexes@[i]).core_main != core_main
            &&& error == HttpVariableCacheInvalidationError::IndexOutOfBounds ==> exists|i: int|
                0 <= i < indexes@.len() && (#[trigger] indexes@[i]).index >= variables.nelts
            &&& definitions_usable(native, core_main) && own ==> error
                == HttpVariableCacheInvalidationError::MissingRequestVariables || error
                == HttpVariableCacheInvalidationError::MisalignedRequestVariables
        }
    } by {
        lemma_preserved_fault(core_main, native.core_mains@[core_main].variables.nelts, indexes@);
    }
}

/// Whether a variable can be looked up for a request: its index is one of the request's own
/// configuration, its definition has a getter, and the request has values.
pub open spec fn can_look_up(native: NativeState, raw: usize, index: HttpVariableIndex) -> bool {
    let variables = native.core_mains@[index.core_main].variables;
    &&& core_main_found(native, raw, index.core_main)
    &&& definitions_usable(native, index.core_main)
    &&& index.index < variables.nelts
    &&& variables.elts->To_0@[index.index as int].get_handler is Some
    &&& native.requests@[raw].variables is To
}

/// A lookup asks nginx exactly if it can, for the request's own value at the index: from the cache,
/// or flushed first.
pub proof fn law_lookups_ask_for_their_own_value(native: NativeState, index: HttpVariableIndex)
    ensures
        forall|request: &mut RequestRefMut, result: Result<NginxCall, HttpVariableLookupError>|
         #[trigger]
            call_ensures(HttpVariableIndex::get_cached, (&index, request, &native), result) ==> {
                &&& result is Ok <==> can_look_up(native, request.raw, index)
                &&& result matches Ok(call) ==> call == (NginxCall::GetIndexedVariable {
                    request: request.raw,
                    index: index.index,
                })
                &&& result matches Err(error) ==> lookup_error(native, request.raw, index, error)
                &&& *final(request) == *request
            },
        forall|request: &mut RequestRefMut, result: Result<NginxCall, HttpVariableLookupError>|
         #[trigger]
            call_ensures(HttpVariableIndex::get_flushed, (&index, request, &native), result) ==> {
                &&& result is Ok <==> can_look_up(native, request.raw, index)
                &&& result matches Ok(call) ==> call == (NginxCall::GetFlushedVariable {
                    request: request.raw,
                    index: index.index,
                })
                &&& result matches Err(error) ==> lookup_error(native, request.raw, index, error)
                &&& *final(request) == *request
            },
        forall|
            evaluated: &mut HttpVariableRequest,
            result: Result<NginxCall, HttpVariableLookupError>,
        | #[trigger]
            call_ensures(HttpVariableRequest::get_cached, (evaluated, &native, &index), result)
                ==> {
                &&& result is Ok <==> can_look_up(native, evaluated.request.raw, index)
                &&& result matches Ok(call) ==> call == (NginxCall::GetIndexedVariable {
                    request: evaluated.request.raw,
                    index: index.index,
                })
                &&& result matches Err(error) ==> lookup_error(
                    native,
                    evaluated.request.raw,
                    index,
                    error,
                )
                &&& *final(evaluated) == *evaluated
            },
        forall|
            evaluated: &mut HttpVariableRequest,
            result: Result<NginxCall, HttpVariableLookupError>,
        | #[trigger]
            call_ensures(HttpVariableRequest::get_flushed, (evaluated, &native, &index), result)
                ==> {
                &&& result is Ok <==> can_look_up(native, evaluated.request.raw, index)
                &&& result matches Ok(call) ==> call == (NginxCall::GetFlushedVariable {
                    request: evaluated.request.raw,
                    index: index.index,
                })
                &&& result matches Err(error) ==> lookup_error(
                    native,
                    evaluated.request.raw,
                    index,
                    error,
                )
                &&& *final(evaluated) == *evaluated
            },
{
}

/// Whether `error` says what keeps a variable from being looked up.
pub open spec fn lookup_error(
    native: NativeState,
    raw: usize,
    index: HttpVariableIndex,
    error: HttpVariableLookupError,
) -> bool {
    let variables = native.core_mains@[index.core_main].variables;
    let own = core_main_found(native, raw, index.core_main);
    let inside = own && index.index < variables.nelts;
    let usable = inside && definitions_usable(native, index.core_main);
    let evaluable = usable && variables.elts->To_0@[index.index as int].get_handler is Some;
    let core = native.core_module;
    let registered = core.type_ == 0x50545448 && core.index < native.max_module && core.ctx_index
        < native.http_max_module;
    let slots = native.requests@[raw].main_conf;
    match error {
        HttpVariableLookupError::Configuration(HttpConfigError::WrongModuleType) => core.type_
            != 0x50545448,
        HttpVariableLookupError::Configuration(HttpConfigError::ModuleIndexOutOfBounds) => core.type_
            == 0x50545448 && !registered,
        HttpVariableLookupError::Configuration(HttpConfigError::MisalignedSlots) => registered
            && slots is Misaligned,
        HttpVariableLookupError::MissingCoreMainConfiguration => registered && (slots is Null
            || slots is To && slots->To_0@[core.ctx_index as int] == 0),
        HttpVariableLookupError::ForeignConfiguration => !own && core_main_found(
            native,
            raw,
            native.requests@[raw].main_conf->To_0@[native.core_module.ctx_index as int],
        ),
        HttpVariableLookupError::IndexOutOfBounds => own && !inside,
        HttpVariableLookupError::InvalidDefinitionArray => inside && !usable,
        HttpVariableLookupError::MissingHandler => usable && !evaluable,
        HttpVariableLookupError::MissingRequestVariables => evaluable
            && native.requests@[raw].variables is Null,
        HttpVariableLookupError::MisalignedRequestVariables => evaluable
            && native.requests@[raw].variables is Misaligned,
        HttpVariableLookupError::NullResult => false,
        HttpVariableLookupError::InvalidResult => false,
    }
}

/// A value that nginx supplied is shown exactly if it can be read: a found value with its bytes,
/// its length and its marks as they are, an absent one as absent.
pub proof fn law_values_are_shown_as_they_are(value: Pointer<VariableValue>)
    ensures
        forall|result: Result<HttpVariableValueRef, HttpVariableLookupError>| #[trigger]
            call_ensures(HttpVariableIndex::lookup_result, (&value,), result) ==> {
                let lacking = value is To && !value->To_0.not_found && value->To_0.len != 0
                    && value->To_0.data is None;
                &&& result is Ok <==> value is To && !lacking
                &&& result matches Ok(view) ==> *view.raw == value->To_0
                &&& value is Null ==> result is Err && result->Err_0
                    == HttpVariableLookupError::NullResult
                &&& value is Misaligned || lacking ==> result is Err && result->Err_0
                    == HttpVariableLookupError::InvalidResult
            },
        forall|result: Option<HttpVariableValueRef>| #[trigger]
            call_ensures(HttpVariableValueRef::from_raw, (&value,), result) ==> {
                &&& result is Some <==> value is To && (value->To_0.not_found || value->To_0.len == 0
                    || value->To_0.data is Some)
                &&& result matches Some(view) ==> *view.raw == value->To_0
            },
        forall|view: &HttpVariableValueRef, bytes: Option<&[u8]>| #[trigger]
            call_ensures(HttpVariableValueRef::bytes, (view,), bytes) ==> {
                &&& bytes is None <==> view.raw.not_found
                &&& bytes is Some && view.raw.len == 0 ==> bytes->0@.len() == 0
                &&& bytes matches Some(found) ==> view.raw.data matches Some(data) ==> view.raw.len
                    > 0 ==> found@ == data@.take(view.raw.len as int)
            },
        forall|view: &HttpVariableValueRef, result: bool| #[trigger]
            call_ensures(HttpVariableValueRef::is_valid, (view,), result) ==> result
                == view.raw.valid,
        forall|view: &HttpVariableValueRef, result: bool| #[trigger]
            call_ensures(HttpVariableValueRef::is_cacheable, (view,), result) ==> (result
                <==> !view.raw.no_cacheable),
        forall|view: &HttpVariableValueRef, result: bool| #[trigger]
            call_ensures(HttpVariableValueRef::is_not_found, (view,), result) ==> result
                == view.raw.not_found,
        forall|view: &HttpVariableValueRef, result: bool| #[trigger]
            call_ensures(HttpVariableValueRef::is_escaped, (view,), result) ==> result
                == view.raw.escape,
{
}

/// Whether a value is found with exactly `bytes`, cacheable or not, and is not to be escaped.
pub open spec fn holds_found(value: VariableValue, bytes: Seq<u8>, cacheable: bool) -> bool {
    &&& value.valid && !value.not_found && !value.escape
    &&& value.no_cacheable <==> !cacheable
    &&& value.len == bytes.len()
    &&& value.len > 0 ==> value.data is Some && value.data->0@.len() >= value.len
        && value.data->0@.take(value.len as int) == bytes
}

/// Whether a value is nginx's not-found state: absent, with no bytes, and not to be cached.
pub open spec fn holds_nothing(value: VariableValue) -> bool {
    value.not_found && !value.valid && value.no_cacheable && !value.escape && value.len == 0
        && value.data is None
}

/// Whether an output holds `bytes`, or kept what it held because they are too long.
pub open spec fn output_holds(
    before: HttpVariableOutput,
    after: HttpVariableOutput,
    bytes: Seq<u8>,
    cacheable: bool,
    result: Result<(), HttpVariableOutputError>,
) -> bool {
    &&& result is Ok <==> bytes.len() <= 268_435_455
    &&& result is Ok ==> after.candidate is Some && holds_found(
        after.candidate->0,
        bytes,
        cacheable,
    )
    &&& result matches Err(error) ==> after == before && error == HttpVariableOutputError::TooLong
}

/// An output that was set holds the bytes that it was set to, cacheable unless it was set as
/// uncached, provided that they fit in 28 bits of length.
pub proof fn law_outputs_hold_what_was_set(static_bytes: &'static [u8])
    requires
        static_bytes@.len() <= usize::MAX,
    ensures
        forall|output: &mut HttpVariableOutput, result: Result<(), HttpVariableOutputError>|
         #[trigger]
            call_ensures(HttpVariableOutput::set_static, (output, static_bytes), result)
                ==> output_holds(*output, *final(output), static_bytes@, true, result),
        forall|output: &mut HttpVariableOutput, result: Result<(), HttpVariableOutputError>|
         #[trigger]
            call_ensures(HttpVariableOutput::set_static_uncached, (output, static_bytes), result)
                ==> output_holds(*output, *final(output), static_bytes@, false, result),
        forall|
            output: &mut HttpVariableOutput,
            data: Option<Vec<u8>>,
            len: usize,
            result: Result<(), HttpVariableOutputError>,
        | #[trigger]
            call_ensures(HttpVariableOutput::set_borrowed, (output, data, len), result) && (
            data matches Some(bytes) ==> len <= bytes@.len()) ==> borrowed_held(
                *output,
                *final(output),
                data,
                len,
                true,
                result,
            ),
        forall|
            output: &mut HttpVariableOutput,
            data: Option<Vec<u8>>,
            len: usize,
            result: Result<(), HttpVariableOutputError>,
        | #[trigger]
            call_ensures(HttpVariableOutput::set_borrowed_uncached, (output, data, len), result) && (
            data matches Some(bytes) ==> len <= bytes@.len()) ==> borrowed_held(
                *output,
                *final(output),
                data,
                len,
                false,
                result,
            ),
        forall|output: &mut HttpVariableOutput, result: ()| #[trigger]
            call_ensures(HttpVariableOutput::set_empty, (output,), result) ==> final(output).candidate is Some && holds_found(
                final(output).candidate->0,
                Seq::empty(),
                true,
            ),
        forall|output: &mut HttpVariableOutput, result: ()| #[trigger]
            call_ensures(HttpVariableOutput::set_empty_uncached, (output,), result) ==> final(output).candidate is Some && holds_found(
                final(output).candidate->0,
                Seq::empty(),
                false,
            ),
        forall|output: &mut HttpVariableOutput, result: ()| #[trigger]
            call_ensures(HttpVariableOutput::set_not_found, (output,), result) ==> final(output).candidate is Some && holds_nothing(final(output).candidate->0),
        forall|value: &Pointer<VariableValue>, result: Option<HttpVariableOutput>| #[trigger]
            call_ensures(HttpVariableOutput::from_raw, (value,), result) ==> {
                &&& result is Some <==> *value is To
                &&& result matches Some(output) ==> output.candidate is None
            },
{
    assert(static_bytes@.take(static_bytes@.len() as int) =~= static_bytes@);
}

/// Whether an output holds the first `len` of the bytes that nginx owns, or kept what it held
/// because there are too many or none.
pub open spec fn borrowed_held(
    before: HttpVariableOutput,
    after: HttpVariableOutput,
    data: Option<Vec<u8>>,
    len: usize,
    cacheable: bool,
    result: Result<(), HttpVariableOutputError>,
) -> bool {
    &&& result is Ok <==> len <= 268_435_455 && (len == 0 || data is Some)
    &&& result is Ok && len == 0 ==> after.candidate is Some && holds_found(
        after.candidate->0,
        Seq::empty(),
        cacheable,
    )
    &&& result is Ok && len > 0 ==> after.candidate is Some && holds_found(
        after.candidate->0,
        data->0@.take(len as int),
        cacheable,
    )
    &&& result matches Err(error) ==> after == before && error == (if len > 268_435_455 {
        HttpVariableOutputError::TooLong
    } else {
        HttpVariableOutputError::NullData
    })
}

/// Bytes copied into the pool of a request are those bytes, in that pool; an output takes them only
/// for a request of the same pool. Copying takes one block, but none for no bytes.
pub proof fn law_pool_bytes_stay_with_their_pool(value: &[u8], native: NativeState)
    requires
        value@.len() <= usize::MAX,
    ensures
        forall|
            request: &RequestRefMut,
            state: &mut NativeState,
            result: Result<HttpVariablePoolBytes, HttpVariableOutputError>,
        | #[trigger]
            call_ensures(
                HttpVariablePoolBytes::copy_from_request,
                (request, state, value),
                result,
            ) ==> {
                let pool = state.requests@[request.raw].pool;
                let blocks = state.pools@[pool].blocks@.len();
                &&& result is Ok <==> copyable(*state, request.raw, value@)
                &&& result matches Ok(bytes) ==> bytes.data@ == value@ && bytes.pool == pool
                &&& result is Ok && value@.len() > 0 ==> final(state).pools@[pool].blocks@.len()
                    == blocks - 1
                &&& result matches Err(error) ==> copy_error(*state, request.raw, value@, error)
                &&& final(state).requests == state.requests
            },
        forall|bytes: &HttpVariablePoolBytes, result: &[u8]| #[trigger]
            call_ensures(HttpVariablePoolBytes::bytes, (bytes,), result) ==> result@ == bytes.data@,
        forall|
            output: &mut HttpVariableOutput,
            request: &RequestRefMut,
            state: &mut NativeState,
            result: Result<(), HttpVariableOutputError>,
        | #[trigger]
            call_ensures(
                HttpVariableOutput::copy_from_request,
                (output, request, state, value),
                result,
            ) ==> {
                &&& result is Ok <==> copyable(*state, request.raw, value@)
                &&& result is Ok ==> final(output).candidate is Some && holds_found(
                    final(output).candidate->0,
                    value@,
                    true,
                )
                &&& result matches Err(error) ==> *final(output) == *output && copy_error(
                    *state,
                    request.raw,
                    value@,
                    error,
                )
                &&& final(state).requests == state.requests
            },
        forall|
            output: &mut HttpVariableOutput,
            request: &RequestRefMut,
            state: &mut NativeState,
            result: Result<(), HttpVariableOutputError>,
        | #[trigger]
            call_ensures(
                HttpVariableOutput::copy_from_request_uncached,
                (output, request, state, value),
                result,
            ) ==> {
                &&& result is Ok <==> copyable(*state, request.raw, value@)
                &&& result is Ok ==> final(output).candidate is Some && holds_found(
                    final(output).candidate->0,
                    value@,
                    false,
                )
                &&& result matches Err(error) ==> *final(output) == *output && copy_error(
                    *state,
                    request.raw,
                    value@,
                    error,
                )
                &&& final(state).requests == state.requests
            },
        forall|
            output: &mut HttpVariableOutput,
            request: &RequestRefMut,
            bytes: HttpVariablePoolBytes,
            result: Result<(), HttpVariableOutputError>,
        | #[trigger]
            call_ensures(
                HttpVariableOutput::set_pool,
                (output, request, &native, bytes),
                result,
            ) ==> pool_bytes_held(
                *output,
                *final(output),
                native,
                request.raw,
                bytes,
                true,
                result,
            ),
        forall|
            output: &mut HttpVariableOutput,
            request: &RequestRefMut,
            bytes: HttpVariablePoolBytes,
            result: Result<(), HttpVariableOutputError>,
        | #[trigger]
            call_ensures(
                HttpVariableOutput::set_pool_uncached,
                (output, request, &native, bytes),
                result,
            ) ==> pool_bytes_held(
                *output,
                *final(output),
                native,
                request.raw,
                bytes,
                false,
                result,
            ),
{
    assert forall|
        output: &mut HttpVariableOutput,
        request: &RequestRefMut,
        bytes: HttpVariablePoolBytes,
        result: Result<(), HttpVariableOutputError>,
    | #[trigger]
        call_ensures(
            HttpVariableOutput::set_pool,
            (output, request, &native, bytes),
            result,
        ) implies pool_bytes_held(
        *output,
        *final(output),
        native,
        request.raw,
        bytes,
        true,
        result,
    ) by {
        assert(bytes.data.len() == bytes.data@.len());
        assert(bytes.data@.take(bytes.data@.len() as int) =~= bytes.data@);
    }
    assert forall|
        output: &mut HttpVariableOutput,
        request: &RequestRefMut,
        bytes: HttpVariablePoolBytes,
        result: Result<(), HttpVariableOutputError>,
    | #[trigger]
        call_ensures(
            HttpVariableOutput::set_pool_uncached,
            (output, request, &native, bytes),
            result,
        ) implies pool_bytes_held(
        *output,
        *final(output),
        native,
        request.raw,
        bytes,
        false,
        result,
    ) by {
        assert(bytes.data.len() == bytes.data@.len());
        assert(bytes.data@.take(bytes.data@.len() as int) =~= bytes.data@);
    }
}

/// Whether bytes can be copied into the pool of a request.
pub open spec fn copyable(native: NativeState, raw: usize, bytes: Seq<u8>) -> bool {
    let pool = native.requests@[raw].pool;
    &&& bytes.len() <= 268_435_455
    &&& pool != 0 && pool % 8 == 0
    &&& bytes.len() == 0 || native.pools@[pool].blocks@.len() > 0
}

/// Whether `error` says what keeps bytes from being copied into the pool of a request.
pub open spec fn copy_error(
    native: NativeState,
    raw: usize,
    bytes: Seq<u8>,
    error: HttpVariableOutputError,
) -> bool {
    let pool = native.requests@[raw].pool;
    match error {
        HttpVariableOutputError::TooLong => bytes.len() > 268_435_455,
        HttpVariableOutputError::Request(_) => pool == 0 || pool % 8 != 0,
        HttpVariableOutputError::Allocation => bytes.len() > 0 && native.pools@[pool].blocks@.len()
            == 0,
        _ => false,
    }
}

/// Whether an output holds pool bytes of the request's own pool, or kept what it held.
pub open spec fn pool_bytes_held(
    before: HttpVariableOutput,
    after: HttpVariableOutput,
    native: NativeState,
    raw: usize,
    bytes: HttpVariablePoolBytes,
    cacheable: bool,
    result: Result<(), HttpVariableOutputError>,
) -> bool {
    let pool = native.requests@[raw].pool;
    &&& result is Ok <==> pool != 0 && pool % 8 == 0 && bytes.pool == pool && bytes.data@.len()
        <= 268_435_455
    &&& result is Ok ==> after.candidate is Some && holds_found(
        after.candidate->0,
        bytes.data@,
        cacheable,
    )
    &&& result matches Err(error) ==> {
        &&& after == before
        &&& pool != 0 && pool % 8 == 0 ==> error == (if bytes.pool != pool {
            HttpVariableOutputError::PoolMismatch
        } else {
            HttpVariableOutputError::TooLong
        })
    }
}

/// A getter's value is published exactly if the getter succeeded: what it set, or that nothing was
/// found when it set nothing. Nginx gets its status.
pub proof fn law_only_successes_are_published(output: HttpVariableOutput)
    ensures
        forall|value: &mut Pointer<VariableValue>, status: isize, result: isize| #[trigger]
            call_ensures(HttpVariableOutput::complete, (output, value, status), result) ==> {
                &&& result == status
                &&& status != 0 ==> *final(value) == *value
                &&& status == 0 ==> *final(value) is To
                &&& status == 0 && output.candidate is Some ==> final(value)->To_0
                    == output.candidate->0
                &&& status == 0 && output.candidate is None ==> holds_nothing(final(value)->To_0)
            },
        forall|result: VariableValue| #[trigger]
            call_ensures(HttpVariableOutput::publish_success, (output,), result) ==> {
                &&& output.candidate matches Some(value) ==> result == value
                &&& output.candidate is None ==> holds_nothing(result)
            },
{
}

/// Flags read back as they are set.
pub proof fn law_flags_are_their_bits(bits: usize, flags: HttpVariableFlags)
    ensures
        forall|result: HttpVariableFlags| #[trigger]
            call_ensures(HttpVariableFlags::from_bits_retain, (bits,), result) ==> result.bits
                == bits,
        forall|result: usize| #[trigger]
            call_ensures(HttpVariableFlags::bits, (&flags,), result) ==> result == flags.bits,
        forall|result: bool| #[trigger]
            call_ensures(HttpVariableFlags::contains, (&flags, bits), result) ==> (result
                <==> flags.bits & bits == bits),
        forall|result: HttpVariableFlags| #[trigger]
            call_ensures(HttpVariableFlags::empty, (), result) ==> result.bits == 0,
        forall|result: HttpVariableFlags| #[trigger]
            call_ensures(HttpVariableFlags::all, (), result) ==> result.bits == 59,
        HttpVariableFlags::CHANGEABLE == 1,
        HttpVariableFlags::NOCACHEABLE == 2,
        HttpVariableFlags::NOHASH == 8,
        HttpVariableFlags::WEAK == 16,
        HttpVariableFlags::PREFIX == 32,
{
}

/// Whether flags are made of the changeable, not cacheable, not hashed and weak ones alone.
pub open spec fn public_flags(bits: usize) -> bool {
    bits & !27usize == 0
}

/// A variable is registered exactly if its flags are made of the four public ones, under its name
/// and its flags, with its own getter, setter and data. A prefix variable also bears the prefix
/// mark and needs a configuration.
pub proof fn law_registrations_bear_what_was_given(
    name: &[u8],
    flags: HttpVariableFlags,
    getter: usize,
    setter: usize,
    data: usize,
    native: NativeState,
    main: Result<Option<usize>, HttpConfigError>,
)
    ensures
        forall|result: Result<VariableRegistration, HttpVariableRegistrationError>| #[trigger]
            call_ensures(add_variable, (name, flags, getter, data), result) ==> {
                &&& result is Ok <==> public_flags(flags.bits)
                &&& result matches Ok(registration) ==> registration.name == name
                    && registration.flags == flags.bits && registration.getter == getter
                    && registration.setter is None && registration.data == data
            },
        forall|result: Result<VariableRegistration, HttpVariableRegistrationError>| #[trigger]
            call_ensures(add_variable_with_setter, (name, flags, getter, setter, data), result)
                ==> {
                &&& result is Ok <==> public_flags(flags.bits)
                &&& result matches Ok(registration) ==> registration.name == name
                    && registration.flags == flags.bits && registration.getter == getter
                    && registration.setter == Some(setter) && registration.data == data
            },
        forall|result: Result<PrefixRegistration, HttpVariableRegistrationError>| #[trigger]
            call_ensures(add_prefix_variable, (&native, main, name, flags, getter), result) ==> {
                &&& result is Ok <==> public_flags(flags.bits) && main is Ok && main->Ok_0 is Some
                &&& result matches Ok(prefix) ==> {
                    &&& prefix.registration.name == name
                    &&& prefix.registration.flags & 32 == 32
                    &&& prefix.registration.flags & !32usize == flags.bits
                    &&& prefix.registration.getter == getter
                    &&& prefix.registration.setter is None
                    &&& prefix.registration.data == 0
                    &&& Some(prefix.core_main) == main->Ok_0
                    &&& prefix.original_nelts == native.core_mains@[prefix.core_main].prefix_nelts
                }
            },
{
    let bits = flags.bits;
    flags.law_registrable_flags();
    assert(1usize | 2 | 8 | 16 == 27) by (bit_vector);
    assert((bits | 32) & 32 == 32 && (bits & !27usize == 0 ==> (bits | 32) & !32usize == bits))
        by (bit_vector);
}

/// What nginx answers a registration with gets its own getter, setter and data and keeps its flags;
/// a refusal is an error and takes back the slot that a prefix variable reserved.
pub proof fn law_answered_registrations_are_filled_in(
    registration: VariableRegistration,
    prefix: PrefixRegistration,
)
    ensures
        forall|
            variable: &mut Option<VariableDefinition>,
            result: Result<(), HttpVariableRegistrationError>,
        | #[trigger]
            call_ensures(VariableRegistration::finish, (registration, variable), result) ==> {
                &&& result is Ok <==> *variable is Some
                &&& filled_in(*variable, *final(variable), registration)
            },
        forall|
            native: &mut NativeState,
            variable: &mut Option<VariableDefinition>,
            result: Result<(), HttpVariableRegistrationError>,
        | #[trigger]
            call_ensures(PrefixRegistration::finish, (prefix, native, variable), result) ==> {
                &&& result is Ok <==> *variable is Some
                &&& filled_in(*variable, *final(variable), prefix.registration)
                &&& result is Ok ==> final(native).core_mains@ == native.core_mains@
                &&& result is Err ==> {
                    let after = final(native).core_mains@[prefix.core_main];
                    &&& after.prefix_nelts == prefix.original_nelts
                    &&& after.variables == native.core_mains@[prefix.core_main].variables
                    &&& final(native).core_mains@ == native.core_mains@.insert(
                        prefix.core_main,
                        after,
                    )
                }
                &&& final(native).requests == native.requests && final(native).pools
                    == native.pools
            },
{
}

/// Whether a definition has the getter, setter and data of a registration, and its own flags.
pub open spec fn filled_in(
    before: Option<VariableDefinition>,
    after: Option<VariableDefinition>,
    registration: VariableRegistration,
) -> bool {
    &&& after is Some <==> before is Some
    &&& after matches Some(definition) ==> {
        &&& definition.get_handler == Some(registration.getter)
        &&& definition.set_handler == registration.setter
        &&& definition.data == registration.data
        &&& definition.flags == before->0.flags
    }
}

/// An index is the number that nginx answered with, for the configuration that was asked; a
/// negative answer is an error, and nginx's own error takes back the slot that it reserved.
pub proof fn law_indexes_bear_the_number_of_nginx(
    native: NativeState,
    main: Result<Option<usize>, HttpConfigError>,
    name: &[u8],
    pending: PendingVariableIndex,
)
    ensures
        forall|result: Result<PendingVariableIndex, HttpVariableIndexError>| #[trigger]
            call_ensures(get_variable_index, (&native, main, name), result) ==> {
                &&& result is Ok <==> main is Ok && main->Ok_0 is Some
                &&& result matches Ok(asked) ==> asked.name == name && Some(asked.core_main)
                    == main->Ok_0 && asked.original_nelts
                    == native.core_mains@[asked.core_main].variables.nelts
                &&& main matches Err(error) ==> result is Err && result->Err_0
                    == HttpVariableIndexError::Configuration(error)
                &&& main matches Ok(None) ==> result is Err && result->Err_0
                    == HttpVariableIndexError::MissingCoreMainConfiguration
            },
        forall|
            state: &mut NativeState,
            index: isize,
            result: Result<HttpVariableIndex, HttpVariableIndexError>,
        | #[trigger]
            call_ensures(PendingVariableIndex::finish, (pending, state, index), result) ==> {
                let before = state.core_mains@[pending.core_main];
                let after = final(state).core_mains@[pending.core_main];
                &&& result is Ok <==> index >= 0
                &&& result matches Ok(made) ==> made.index == index && made.core_main
                    == pending.core_main
                &&& result matches Err(error) ==> error == HttpVariableIndexError::Registration
                &&& index != -1 ==> final(state).core_mains@ == state.core_mains@
                &&& index == -1 ==> {
                    &&& after.variables.nelts == pending.original_nelts
                    &&& after.variables.elts == before.variables.elts
                    &&& after.variables.nalloc == before.variables.nalloc
                    &&& after.variables.size == before.variables.size
                    &&& after.prefix_nelts == before.prefix_nelts
                    &&& final(state).core_mains@ == state.core_mains@.insert(
                        pending.core_main,
                        after,
                    )
                }
                &&& final(state).requests == state.requests && final(state).pools == state.pools
            },
{
}

/// The queried name of a prefix variable is read exactly if there is one that fits.
pub proof fn law_queried_names_are_read(data: Pointer<NativeString>)
    requires
        data matches Pointer::To(name) ==> name.readable(),
    ensures
        forall|result: Option<&[u8]>| #[trigger]
            call_ensures(prefix_name_from_data, (&data,), result) ==> {
                &&& result is Some <==> data is To && 0 < data->To_0.len <= isize::MAX
                    && data->To_0.data is Some
                &&& result matches Some(bytes) ==> bytes@ == data->To_0.data->0@.take(
                    data->To_0.len as int,
                )
            },
{
}

/// Evaluating a variable writes its value exactly if the getter succeeded, and then what it set; a
/// value that cannot be written is an error and runs no getter.
pub proof fn law_evaluations_publish_successes<H: HttpVariableHandler>()
    ensures
        forall|
            request: RequestRefMut,
            native: &mut NativeState,
            value: &mut Pointer<VariableValue>,
            data: usize,
            result: isize,
        |
            #![trigger call_ensures(raw_get_handler::<H>, (request, native, value, data), result)]
            call_ensures(raw_get_handler::<H>, (request, native, value, data), result) ==> {
                &&& *value !is To ==> result == -1 && *final(value) == *value && *final(native)
                    == *native
                &&& result != 0 ==> *final(value) == *value
                &&& *value is To ==> exists|
                    evaluated: &mut HttpVariableRequest,
                    state: &mut NativeState,
                    output: &mut HttpVariableOutput,
                |
                    {
                        &&& #[trigger] call_ensures(H::get, (evaluated, state, output, data), result)
                        &&& evaluated.request == request
                        &&& output.candidate is None
                        &&& *state == *native && *final(state) == *final(native)
                        &&& result == 0 ==> *final(value) is To && (match final(output).candidate {
                            Some(candidate) => final(value)->To_0 == candidate,
                            None => holds_nothing(final(value)->To_0),
                        })
                    }
            },
{
    assert forall|
        request: RequestRefMut,
        native: &mut NativeState,
        value: &mut Pointer<VariableValue>,
        data: usize,
        result: isize,
    |
        #![trigger call_ensures(raw_get_handler::<H>, (request, native, value, data), result)]
        call_ensures(raw_get_handler::<H>, (request, native, value, data), result)
            && *value is To implies exists|
        evaluated: &mut HttpVariableRequest,
        state: &mut NativeState,
        output: &mut HttpVariableOutput,
    |
        {
            &&& #[trigger] call_ensures(H::get, (evaluated, state, output, data), result)
            &&& evaluated.request == request
            &&& output.candidate is None
            &&& *state == *native && *final(state) == *final(native)
            &&& result == 0 ==> *final(value) is To && (match final(output).candidate {
                Some(candidate) => final(value)->To_0 == candidate,
                None => holds_nothing(final(value)->To_0),
            })
        } by {
    }
}

/// Evaluating a prefix variable does the same with the queried name, and is an error without one.
pub proof fn law_prefix_evaluations_publish_successes<H: HttpPrefixVariableHandler>()
    ensures
        forall|
            request: RequestRefMut,
            native: &mut NativeState,
            value: &mut Pointer<VariableValue>,
            data: &Pointer<NativeString>,
            result: isize,
        |
            #![trigger call_ensures(raw_prefix_get_handler::<H>, (request, native, value, data), result)]
            call_ensures(raw_prefix_get_handler::<H>, (request, native, value, data), result)
                ==> {
                let runs = *value is To && *data is To && 0 < data->To_0.len <= isize::MAX
                    && data->To_0.data is Some;
                &&& !runs ==> result == -1 && *final(value) == *value && *final(native) == *native
                &&& result != 0 ==> *final(value) == *value
                &&& runs ==> exists|
                    evaluated: &mut HttpVariableRequest,
                    state: &mut NativeState,
                    output: &mut HttpVariableOutput,
                    name: &[u8],
                |
                    {
                        &&& #[trigger] call_ensures(H::get, (evaluated, state, output, name), result)
                        &&& name@ == data->To_0.data->0@.take(data->To_0.len as int)
                        &&& evaluated.request == request
                        &&& output.candidate is None
                        &&& *state == *native && *final(state) == *final(native)
                        &&& result == 0 ==> *final(value) is To && (match final(output).candidate {
                            Some(candidate) => final(value)->To_0 == candidate,
                            None => holds_nothing(final(value)->To_0),
                        })
                    }
            },
{
    assert forall|
        request: RequestRefMut,
        native: &mut NativeState,
        value: &mut Pointer<VariableValue>,
        data: &Pointer<NativeString>,
        result: isize,
    |
        #![trigger call_ensures(raw_prefix_get_handler::<H>, (request, native, value, data), result)]
        call_ensures(raw_prefix_get_handler::<H>, (request, native, value, data), result)
            && *value is To && *data is To && 0 < data->To_0.len <= isize::MAX
            && data->To_0.data is Some implies exists|
        evaluated: &mut HttpVariableRequest,
        state: &mut NativeState,
        output: &mut HttpVariableOutput,
        name: &[u8],
    |
        {
            &&& #[trigger] call_ensures(H::get, (evaluated, state, output, name), result)
            &&& name@ == data->To_0.data->0@.take(data->To_0.len as int)
            &&& evaluated.request == request
            &&& output.candidate is None
            &&& *state == *native && *final(state) == *final(native)
            &&& result == 0 ==> *final(value) is To && (match final(output).candidate {
                Some(candidate) => final(value)->To_0 == candidate,
                None => holds_nothing(final(value)->To_0),
            })
        } by {
    }
}

/// An assignment reaches the setter, with the value as it is, exactly if the value can be read.
pub proof fn law_assignments_reach_the_setter<S: HttpVariableSetter>(
    request: RequestRefMut,
    native: NativeState,
    value: Pointer<VariableValue>,
    data: usize,
)
    ensures
        forall|result: isize|
            #![trigger call_ensures(raw_set_handler::<S>, (&request, &native, &value, data), result)]
            call_ensures(raw_set_handler::<S>, (&request, &native, &value, data), result) ==> {
                let readable = value is To && (value->To_0.not_found || value->To_0.len == 0
                    || value->To_0.data is Some);
                &&& result == 0 <==> readable
                &&& result == -1 <==> !readable
                &&& readable ==> exists|shared: &RequestRef, assigned: HttpVariableValueRef<'_>|
                    {
                        &&& #[trigger] call_ensures(S::set, (shared, &native, assigned, data), ())
                        &&& shared.raw == request.raw
                        &&& *assigned.raw == value->To_0
                    }
            },
{
    assert forall|result: isize|
        #![trigger call_ensures(raw_set_handler::<S>, (&request, &native, &value, data), result)]
        call_ensures(raw_set_handler::<S>, (&request, &native, &value, data), result) && value is To
            && (value->To_0.not_found || value->To_0.len == 0
            || value->To_0.data is Some) implies exists|
        shared: &RequestRef,
        assigned: HttpVariableValueRef<'_>,
    |
        {
            &&& #[trigger] call_ensures(S::set, (shared, &native, assigned, data), ())
            &&& shared.raw == request.raw
            &&& *assigned.raw == value->To_0
        } by {
    }
}

} // verus!
