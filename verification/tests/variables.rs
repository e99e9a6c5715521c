use ngx_http::native::{
    HttpConfigError, ModuleDescriptor, NativePool, NativeRequest, NativeState, NativeString,
    NginxCall, Pointer, NGX_HTTP_MODULE,
};
use ngx_http::request::view::{RequestError, RequestRef, RequestRefMut};
use ngx_http::status::{NGX_DECLINED, NGX_ERROR, NGX_OK};
use ngx_http::variable::{
    add_prefix_variable, add_variable, add_variable_with_setter, get_variable_index,
    prefix_name_from_data, raw_get_handler, raw_prefix_get_handler, raw_set_handler,
    HttpPrefixVariableHandler, HttpVariableCacheInvalidation, HttpVariableCacheInvalidationError,
    HttpVariableFlags, HttpVariableHandler, HttpVariableIndex, HttpVariableIndexError,
    HttpVariableLookupError, HttpVariableOutput, HttpVariableOutputError, HttpVariablePoolBytes,
    HttpVariableRegistrationError, HttpVariableRequest, HttpVariableSetter, HttpVariableValueRef,
    NativeCoreMain, VariableArray, VariableDefinition, VariableStore, VariableValue,
    NGX_HTTP_VAR_INDEXED, NGX_HTTP_VAR_PREFIX, NGX_HTTP_VAR_WEAK, VARIABLE_MAX_LEN, VARIABLE_SIZE,
};

const RAW: usize = 0x1000;
const OTHER: usize = 0x1100;
const POOL: usize = 0x2000;
const CORE: usize = 0x3000;
const VALUES: usize = 0x4000;

fn definition(getter: Option<usize>, flags: usize) -> VariableDefinition {
    VariableDefinition { get_handler: getter, set_handler: None, data: 0, flags }
}

fn value(bytes: &[u8]) -> VariableValue {
    VariableValue {
        len: bytes.len(),
        valid: true,
        no_cacheable: false,
        not_found: false,
        escape: false,
        data: Some(bytes.to_vec()),
    }
}

fn blank() -> Pointer<VariableValue> {
    Pointer::To(VariableValue {
        len: 0,
        valid: false,
        no_cacheable: false,
        not_found: false,
        escape: false,
        data: None,
    })
}

/// A state with four indexed variables: two with getters, a weak one, and one without a getter.
fn state() -> NativeState {
    let mut native = NativeState::new(1, 1);
    native.core_module = ModuleDescriptor { type_: NGX_HTTP_MODULE, index: 0, ctx_index: 0 };
    let blocks = (1..=16).map(|number| number * 0x10).collect();
    native.pools.insert(POOL, NativePool::new(blocks));
    native.core_mains.insert(
        CORE,
        NativeCoreMain {
            variables: VariableArray {
                elts: Pointer::To(vec![
                    definition(Some(1), 0),
                    definition(Some(2), 0),
                    definition(Some(3), NGX_HTTP_VAR_WEAK),
                    definition(None, 0),
                ]),
                nelts: 4,
                nalloc: 8,
                size: VARIABLE_SIZE,
            },
            prefix_nelts: 2,
        },
    );
    for raw in [RAW, OTHER] {
        let mut request = NativeRequest::zeroed();
        request.signature = NGX_HTTP_MODULE;
        request.main = raw;
        request.parent = raw;
        request.pool = POOL;
        request.main_conf = Pointer::To(vec![CORE]);
        request.variables = Pointer::To(VariableStore {
            address: VALUES + raw,
            values: vec![value(b"zero"), value(b"one"), value(b"two"), value(b"three")],
        });
        native.requests.insert(raw, request);
    }
    native
}

fn request(native: &NativeState) -> RequestRefMut {
    RequestRefMut::from_raw(native, RAW).unwrap()
}

fn index(index: usize) -> HttpVariableIndex {
    HttpVariableIndex { index, core_main: CORE }
}

fn valid(native: &NativeState) -> Vec<bool> {
    match &native.request(RAW).variables {
        Pointer::To(store) => store.values.iter().map(|value| value.valid).collect(),
        _ => Vec::new(),
    }
}

fn published(value: &Pointer<VariableValue>) -> Option<Vec<u8>> {
    HttpVariableValueRef::from_raw(value).unwrap().bytes().map(|bytes| bytes.to_vec())
}

struct Getter;

impl HttpVariableHandler for Getter {
    fn get(
        request: &mut HttpVariableRequest,
        native: &mut NativeState,
        value: &mut HttpVariableOutput,
        data: usize,
    ) -> isize {
        assert_eq!(request.view().raw, RAW);
        match data {
            0 => {
                value.set_static(b"static").unwrap();
                NGX_OK
            }
            1 => NGX_OK,
            2 => {
                value.set_empty();
                NGX_DECLINED
            }
            _ => {
                let request = RequestRefMut::from_raw(native, RAW).unwrap();
                value.copy_from_request_uncached(&request, native, b"copied").unwrap();
                NGX_OK
            }
        }
    }
}

struct PrefixGetter;

impl HttpPrefixVariableHandler for PrefixGetter {
    fn get(
        _request: &mut HttpVariableRequest,
        _native: &mut NativeState,
        value: &mut HttpVariableOutput,
        name: &[u8],
    ) -> isize {
        value.set_borrowed(Some(name.to_vec()), name.len()).unwrap();
        NGX_OK
    }
}

struct Setter;

impl HttpVariableSetter for Setter {
    fn set(_request: &RequestRef, _native: &NativeState, value: HttpVariableValueRef, data: usize) {
        assert_eq!(value.bytes(), Some(b"assigned".as_slice()));
        assert_eq!(data, 9);
    }
}

#[test]
fn getters_publish_only_successful_values() {
    let mut native = state();
    let mut value = blank();
    assert_eq!(raw_get_handler::<Getter>(request(&native), &mut native, &mut value, 0), NGX_OK);
    assert_eq!(published(&value), Some(b"static".to_vec()));
    assert!(HttpVariableValueRef::from_raw(&value).unwrap().is_cacheable());

    assert_eq!(
        raw_get_handler::<Getter>(request(&native), &mut native, &mut value, 2),
        NGX_DECLINED
    );
    assert_eq!(published(&value), Some(b"static".to_vec()));

    assert_eq!(raw_get_handler::<Getter>(request(&native), &mut native, &mut value, 3), NGX_OK);
    assert_eq!(published(&value), Some(b"copied".to_vec()));
    assert!(!HttpVariableValueRef::from_raw(&value).unwrap().is_cacheable());

    assert_eq!(raw_get_handler::<Getter>(request(&native), &mut native, &mut value, 1), NGX_OK);
    let view = HttpVariableValueRef::from_raw(&value).unwrap();
    assert!(view.is_not_found());
    assert!(!view.is_valid());
    assert!(!view.is_cacheable());
    assert!(!view.is_escaped());
    assert_eq!(view.bytes(), None);

    for mut missing in [Pointer::Null, Pointer::Misaligned] {
        assert_eq!(
            raw_get_handler::<Getter>(request(&native), &mut native, &mut missing, 0),
            NGX_ERROR
        );
    }
}

#[test]
fn prefix_getters_receive_the_full_name() {
    let mut native = state();
    let mut value = blank();
    let name = Pointer::To(NativeString { len: 8, data: Some(b"arg_name".to_vec()) });
    assert_eq!(prefix_name_from_data(&name), Some(b"arg_name".as_slice()));
    assert_eq!(
        raw_prefix_get_handler::<PrefixGetter>(request(&native), &mut native, &mut value, &name),
        NGX_OK
    );
    assert_eq!(published(&value), Some(b"arg_name".to_vec()));
    for name in [
        Pointer::Null,
        Pointer::Misaligned,
        Pointer::To(NativeString { len: 0, data: Some(Vec::new()) }),
        Pointer::To(NativeString { len: 3, data: None }),
    ] {
        assert_eq!(prefix_name_from_data(&name), None);
        assert_eq!(
            raw_prefix_get_handler::<PrefixGetter>(
                request(&native),
                &mut native,
                &mut value,
                &name
            ),
            NGX_ERROR
        );
        assert_eq!(published(&value), Some(b"arg_name".to_vec()));
    }
}

#[test]
fn setters_receive_readable_values() {
    let native = state();
    let assigned = Pointer::To(value(b"assigned"));
    assert_eq!(raw_set_handler::<Setter>(&request(&native), &native, &assigned, 9), NGX_OK);
    let mut broken = value(b"assigned");
    broken.data = None;
    let broken = Pointer::To(broken);
    assert_eq!(raw_set_handler::<Setter>(&request(&native), &native, &broken, 9), NGX_ERROR);
    assert_eq!(
        raw_set_handler::<Setter>(&request(&native), &native, &Pointer::Null, 9),
        NGX_ERROR
    );
}

#[test]
fn outputs_check_length_data_and_pool() {
    let mut native = state();
    let mut output = HttpVariableOutput::from_raw(&blank()).unwrap();
    assert!(HttpVariableOutput::from_raw(&Pointer::Null).is_none());
    assert_eq!(VARIABLE_MAX_LEN, 0x0fff_ffff);
    assert_eq!(output.set_borrowed(None, 1), Err(HttpVariableOutputError::NullData));
    assert_eq!(
        output.set_borrowed(None, VARIABLE_MAX_LEN + 1),
        Err(HttpVariableOutputError::TooLong)
    );
    assert!(output.candidate.is_none());
    assert_eq!(output.set_borrowed_uncached(Some(b"bytes".to_vec()), 3), Ok(()));
    let value = Pointer::To(output.publish_success());
    assert_eq!(published(&value), Some(b"byt".to_vec()));

    let mut output = HttpVariableOutput::from_raw(&blank()).unwrap();
    let bytes =
        HttpVariablePoolBytes::copy_from_request(&request(&native), &mut native, b"pool").unwrap();
    assert_eq!(bytes.bytes(), b"pool");
    let foreign = HttpVariablePoolBytes { data: b"pool".to_vec(), pool: POOL + 0x100 };
    assert_eq!(
        output.set_pool(&request(&native), &native, foreign),
        Err(HttpVariableOutputError::PoolMismatch)
    );
    assert_eq!(output.set_pool_uncached(&request(&native), &native, bytes), Ok(()));
    assert_eq!(output.set_static_uncached(b""), Ok(()));
    assert_eq!(published(&Pointer::To(output.publish_success())), Some(Vec::new()));

    let mut output = HttpVariableOutput::from_raw(&blank()).unwrap();
    native.pools.get_mut(&POOL).unwrap().blocks.clear();
    assert_eq!(
        output.copy_from_request(&request(&native), &mut native, b"pool"),
        Err(HttpVariableOutputError::Allocation)
    );
    assert_eq!(output.copy_from_request(&request(&native), &mut native, b""), Ok(()));
    output.set_not_found();
    output.set_empty_uncached();
    native.requests.get_mut(&RAW).unwrap().pool = 0;
    assert_eq!(
        output.copy_from_request(&request(&native), &mut native, b"pool"),
        Err(HttpVariableOutputError::Request(RequestError::MissingPool))
    );
    assert_eq!(published(&Pointer::To(output.publish_success())), Some(Vec::new()));
}

#[test]
fn lookups_check_the_index_before_nginx_is_called() {
    let native = state();
    let mut variable = HttpVariableRequest::new(request(&native));
    assert_eq!(
        variable.get_cached(&native, &index(1)),
        Ok(NginxCall::GetIndexedVariable { request: RAW, index: 1 })
    );
    assert_eq!(
        variable.get_flushed(&native, &index(0)),
        Ok(NginxCall::GetFlushedVariable { request: RAW, index: 0 })
    );
    let foreign = HttpVariableIndex { index: 0, core_main: CORE + 0x100 };
    for (index, error) in [
        (foreign, HttpVariableLookupError::ForeignConfiguration),
        (index(4), HttpVariableLookupError::IndexOutOfBounds),
        (index(3), HttpVariableLookupError::MissingHandler),
    ] {
        assert_eq!(index.get_cached(&mut request(&native), &native), Err(error));
    }

    let mut native = state();
    native.core_mains.get_mut(&CORE).unwrap().variables.size = 1;
    assert_eq!(
        index(0).get_cached(&mut request(&native), &native),
        Err(HttpVariableLookupError::InvalidDefinitionArray)
    );
    let mut native = state();
    native.requests.get_mut(&RAW).unwrap().variables = Pointer::Null;
    assert_eq!(
        index(0).get_cached(&mut request(&native), &native),
        Err(HttpVariableLookupError::MissingRequestVariables)
    );
    native.requests.get_mut(&RAW).unwrap().variables = Pointer::Misaligned;
    assert_eq!(
        index(0).get_flushed(&mut request(&native), &native),
        Err(HttpVariableLookupError::MisalignedRequestVariables)
    );
    native.requests.get_mut(&RAW).unwrap().main_conf = Pointer::Null;
    assert_eq!(
        index(0).get_cached(&mut request(&native), &native),
        Err(HttpVariableLookupError::MissingCoreMainConfiguration)
    );
    native.requests.get_mut(&RAW).unwrap().main_conf = Pointer::Misaligned;
    assert_eq!(
        index(0).get_cached(&mut request(&native), &native),
        Err(HttpVariableLookupError::Configuration(HttpConfigError::MisalignedSlots))
    );
}

#[test]
fn lookup_results_are_checked() {
    let found = Pointer::To(value(b"found"));
    let view = HttpVariableIndex::lookup_result(&found).unwrap();
    assert_eq!(view.bytes(), Some(b"found".as_slice()));
    assert!(matches!(
        HttpVariableIndex::lookup_result(&Pointer::Null),
        Err(HttpVariableLookupError::NullResult)
    ));
    let mut broken = value(b"found");
    broken.data = None;
    for broken in [Pointer::Misaligned, Pointer::To(broken)] {
        assert!(matches!(
            HttpVariableIndex::lookup_result(&broken),
            Err(HttpVariableLookupError::InvalidResult)
        ));
    }
}

#[test]
fn invalidation_keeps_weak_and_preserved_values() {
    let mut native = state();
    let preserved = [index(1)];
    let invalidation =
        HttpVariableCacheInvalidation::prepare(&request(&native), &native, &preserved).unwrap();
    assert_eq!(invalidation.commit(&mut request(&native), &mut native), Ok(()));
    assert_eq!(valid(&native), vec![false, true, true, true]);

    let invalidation =
        HttpVariableCacheInvalidation::prepare(&request(&native), &native, &[]).unwrap();
    assert_eq!(invalidation.commit(&mut request(&native), &mut native), Ok(()));
    assert_eq!(valid(&native), vec![false, false, true, true]);
}

#[test]
fn invalidation_rejects_foreign_and_broken_state() {
    let mut native = state();
    let invalidation =
        HttpVariableCacheInvalidation::prepare(&request(&native), &native, &[]).unwrap();
    let mut other = RequestRefMut::from_raw(&native, OTHER).unwrap();
    assert_eq!(
        invalidation.commit(&mut other, &mut native),
        Err(HttpVariableCacheInvalidationError::ForeignRequest)
    );

    let invalidation =
        HttpVariableCacheInvalidation::prepare(&request(&native), &native, &[]).unwrap();
    if let Pointer::To(store) = &mut native.requests.get_mut(&RAW).unwrap().variables {
        store.address += 0x10;
    }
    assert_eq!(
        invalidation.commit(&mut request(&native), &mut native),
        Err(HttpVariableCacheInvalidationError::ForeignRequest)
    );
    assert_eq!(valid(&native), vec![true; 4]);

    let foreign = [HttpVariableIndex { index: 0, core_main: CORE + 0x100 }];
    let outside = [index(0), index(4)];
    for (preserved, error) in [
        (foreign.as_slice(), HttpVariableCacheInvalidationError::ForeignIndex),
        (outside.as_slice(), HttpVariableCacheInvalidationError::IndexOutOfBounds),
    ] {
        assert_eq!(
            HttpVariableCacheInvalidation::prepare(&request(&native), &native, preserved).err(),
            Some(error)
        );
    }

    native.requests.get_mut(&RAW).unwrap().variables = Pointer::Null;
    assert_eq!(
        HttpVariableCacheInvalidation::prepare(&request(&native), &native, &[]).err(),
        Some(HttpVariableCacheInvalidationError::MissingRequestVariables)
    );
    native.requests.get_mut(&RAW).unwrap().variables = Pointer::Misaligned;
    assert_eq!(
        HttpVariableCacheInvalidation::prepare(&request(&native), &native, &[]).err(),
        Some(HttpVariableCacheInvalidationError::MisalignedRequestVariables)
    );
    native.core_mains.get_mut(&CORE).unwrap().variables.nelts = 9;
    assert_eq!(
        HttpVariableCacheInvalidation::prepare(&request(&native), &native, &[]).err(),
        Some(HttpVariableCacheInvalidationError::InvalidDefinitionArray)
    );
    native.requests.get_mut(&RAW).unwrap().main_conf = Pointer::Null;
    assert_eq!(
        HttpVariableCacheInvalidation::prepare(&request(&native), &native, &[]).err(),
        Some(HttpVariableCacheInvalidationError::MissingCoreMainConfiguration)
    );
    native.core_module.type_ = 0;
    assert_eq!(
        HttpVariableCacheInvalidation::prepare(&request(&native), &native, &[]).err(),
        Some(HttpVariableCacheInvalidationError::Configuration(HttpConfigError::WrongModuleType))
    );
}

#[test]
fn registrations_accept_public_flags_alone() {
    for bits in 0..64 {
        let flags = HttpVariableFlags::from_bits_retain(bits);
        let registrable = bits & (NGX_HTTP_VAR_INDEXED | NGX_HTTP_VAR_PREFIX) == 0;
        assert_eq!(add_variable(b"name", flags, 1, 2).is_ok(), registrable);
    }
    assert_eq!(HttpVariableFlags::all().bits(), 1 | 2 | 8 | 16 | 32);
    assert_eq!(HttpVariableFlags::default(), HttpVariableFlags::empty());
    assert!(HttpVariableFlags::all().contains(HttpVariableFlags::WEAK));

    let flags = HttpVariableFlags::from_bits_retain(HttpVariableFlags::NOCACHEABLE);
    let registration = add_variable_with_setter(b"name", flags, 1, 2, 3).unwrap();
    assert_eq!(registration.name, b"name");
    assert_eq!(registration.flags, HttpVariableFlags::NOCACHEABLE);
    let mut defined = Some(definition(None, 7));
    assert_eq!(registration.finish(&mut defined), Ok(()));
    assert_eq!(
        defined,
        Some(VariableDefinition { get_handler: Some(1), set_handler: Some(2), data: 3, flags: 7 })
    );
    assert_eq!(registration.finish(&mut None), Err(HttpVariableRegistrationError));
}

#[test]
fn refused_registrations_take_back_reserved_slots() {
    let mut native = state();
    let flags = HttpVariableFlags::empty();
    let prefix = add_prefix_variable(&native, Ok(Some(CORE)), b"arg_", flags, 5).unwrap();
    assert_eq!(prefix.registration.name, b"arg_");
    assert_eq!(prefix.registration.flags, NGX_HTTP_VAR_PREFIX);
    native.core_mains.get_mut(&CORE).unwrap().prefix_nelts = 3;
    assert_eq!(prefix.finish(&mut native, &mut None), Err(HttpVariableRegistrationError));
    assert_eq!(native.core_main(CORE).prefix_nelts, 2);

    let prefix = add_prefix_variable(&native, Ok(Some(CORE)), b"arg_", flags, 5).unwrap();
    native.core_mains.get_mut(&CORE).unwrap().prefix_nelts = 3;
    let mut defined = Some(definition(None, 0));
    assert_eq!(prefix.finish(&mut native, &mut defined), Ok(()));
    assert_eq!(defined, Some(definition(Some(5), 0)));
    assert_eq!(native.core_main(CORE).prefix_nelts, 3);

    for main in [Ok(None), Err(HttpConfigError::WrongModuleType)] {
        assert_eq!(
            add_prefix_variable(&native, main, b"arg_", flags, 5),
            Err(HttpVariableRegistrationError)
        );
    }

    let pending = get_variable_index(&native, Ok(Some(CORE)), b"name").unwrap();
    assert_eq!(pending.name, b"name");
    native.core_mains.get_mut(&CORE).unwrap().variables.nelts = 5;
    assert_eq!(
        pending.finish(&mut native, NGX_ERROR),
        Err(HttpVariableIndexError::Registration)
    );
    assert_eq!(native.core_main(CORE).variables.nelts, 4);
    assert_eq!(pending.finish(&mut native, -2), Err(HttpVariableIndexError::Registration));
    assert_eq!(pending.finish(&mut native, 3), Ok(index(3)));
    assert_eq!(
        get_variable_index(&native, Ok(None), b"name"),
        Err(HttpVariableIndexError::MissingCoreMainConfiguration)
    );
    assert_eq!(
        get_variable_index(&native, Err(HttpConfigError::WrongModuleType), b"name"),
        Err(HttpVariableIndexError::Configuration(HttpConfigError::WrongModuleType))
    );
}

#[test]
fn variable_errors_have_their_texts() {
    assert_eq!(HttpVariableRegistrationError.message(), "failed to register HTTP variable");
    assert_eq!(
        HttpVariableIndexError::Registration.message(),
        "failed to create HTTP variable index"
    );
    assert_eq!(
        HttpVariableCacheInvalidationError::ForeignIndex.message(),
        "preserved HTTP variable index belongs to another configuration"
    );
    assert_eq!(
        HttpVariableLookupError::MissingHandler.message(),
        "HTTP variable has no getter"
    );
    assert_eq!(
        HttpVariableOutputError::PoolMismatch.message(),
        "HTTP variable bytes belong to another pool"
    );
}
