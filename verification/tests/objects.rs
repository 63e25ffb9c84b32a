//! The object capability mixin: properties, elements, arrays and
//! buffers.

use napi::AsNapiObject;
use napi::NapiAny;
use napi::NapiArray;
use napi::NapiArrayBuffer;
use napi::NapiBuffer;
use napi::NapiEnv;
use napi::NapiNumber;
use napi::NapiObject;
use napi::NapiString;
use napi::NapiValue;
use napi::NapiValueType;

#[test]
fn named_properties_set_get_has_delete() {
    let mut env = NapiEnv::new();
    let obj = NapiObject::new(&mut env).unwrap();
    let forty_two = NapiNumber::from_i32(&mut env, 42).unwrap();
    obj.set_named_property(&mut env, "answer", &forty_two).unwrap();
    assert!(obj.has_named_property(&mut env, "answer").unwrap());
    assert!(!obj.has_named_property(&mut env, "question").unwrap());
    let read = obj.get_named_property(&mut env, "answer").unwrap();
    let read = read.as_number(&mut env).unwrap();
    assert_eq!(read.to_i32(&mut env).unwrap(), 42);
    assert!(obj.del_named_property(&mut env, "answer").unwrap());
    assert!(!obj.has_named_property(&mut env, "answer").unwrap());
    let absent = obj.get_named_property(&mut env, "answer").unwrap();
    assert_eq!(absent.value_type(&mut env).unwrap(), NapiValueType::Undefined);
}

#[test]
fn property_overwrite_keeps_position() {
    let mut env = NapiEnv::new();
    let obj = NapiObject::new(&mut env).unwrap();
    let one = NapiNumber::from_i32(&mut env, 1).unwrap();
    let two = NapiNumber::from_i32(&mut env, 2).unwrap();
    let three = NapiNumber::from_i32(&mut env, 3).unwrap();
    obj.set_named_property(&mut env, "a", &one).unwrap();
    obj.set_named_property(&mut env, "b", &two).unwrap();
    obj.set_named_property(&mut env, "a", &three).unwrap();
    let read = obj.get_named_property(&mut env, "a").unwrap();
    let read = read.as_number(&mut env).unwrap();
    assert_eq!(read.to_i32(&mut env).unwrap(), 3);
    let names = obj.property_names(&mut env).unwrap();
    assert_eq!(names.len(&mut env).unwrap(), 2);
    let first = names.get(&mut env, 0).unwrap().as_string(&mut env).unwrap();
    assert_eq!(first.to_string(&mut env).unwrap(), "a");
    let second = names.get(&mut env, 1).unwrap().as_string(&mut env).unwrap();
    assert_eq!(second.to_string(&mut env).unwrap(), "b");
}

#[test]
fn value_keys_are_coerced_to_strings() {
    let mut env = NapiEnv::new();
    let obj = NapiObject::new(&mut env).unwrap();
    let key = NapiNumber::from_i32(&mut env, 5).unwrap();
    let marker = NapiNumber::from_i32(&mut env, 77).unwrap();
    obj.set_property(&mut env, &key, &marker).unwrap();
    assert!(obj.has_named_property(&mut env, "5").unwrap());
    let read = obj.get_named_property(&mut env, "5").unwrap();
    let read = read.as_number(&mut env).unwrap();
    assert_eq!(read.to_i32(&mut env).unwrap(), 77);
}

#[test]
fn object_operations_on_a_primitive_fail_with_object_expected() {
    let mut env = NapiEnv::new();
    let n = NapiNumber::from_i32(&mut env, 1).unwrap();
    let fake = napi::as_napi_any(&n).as_object(&mut env);
    assert!(fake.is_err(), "a number does not narrow to an object");
    let s = NapiString::from_str(&mut env, "text").unwrap();
    let as_obj = s.as_napi_object();
    let error = as_obj.get_named_property(&mut env, "x").unwrap_err();
    assert_eq!(error.kind, napi::NapiErrorKind::ObjectExpected);
}

#[test]
fn prototype_link_is_null_in_the_model() {
    let mut env = NapiEnv::new();
    let obj = NapiObject::new(&mut env).unwrap();
    let proto = obj.prototype(&mut env).unwrap();
    assert_eq!(proto.value_type(&mut env).unwrap(), NapiValueType::Null);
}

#[test]
fn elements_set_get_has_delete() {
    let mut env = NapiEnv::new();
    let obj = NapiObject::new(&mut env).unwrap();
    let ten = NapiNumber::from_i32(&mut env, 10).unwrap();
    obj.set_element(&mut env, 3, &ten).unwrap();
    assert!(obj.has_element(&mut env, 3).unwrap());
    assert!(!obj.has_element(&mut env, 0).unwrap(), "padding reads as absent");
    assert!(!obj.has_element(&mut env, 9).unwrap());
    let read = obj.get_element(&mut env, 3).unwrap();
    let read = read.as_number(&mut env).unwrap();
    assert_eq!(read.to_i32(&mut env).unwrap(), 10);
    let beyond = obj.get_element(&mut env, 9).unwrap();
    assert_eq!(beyond.value_type(&mut env).unwrap(), NapiValueType::Undefined);
    assert!(obj.del_element(&mut env, 3).unwrap());
    assert!(!obj.has_element(&mut env, 3).unwrap());
}

#[test]
fn arrays_grow_with_padding() {
    let mut env = NapiEnv::new();
    let arr = NapiArray::new(&mut env).unwrap();
    assert!(arr.is_empty(&mut env).unwrap());
    let five = NapiNumber::from_i32(&mut env, 5).unwrap();
    arr.set(&mut env, 2, &five).unwrap();
    assert_eq!(arr.len(&mut env).unwrap(), 3);
    assert!(!arr.is_empty(&mut env).unwrap());
    let pad = arr.get(&mut env, 0).unwrap();
    assert_eq!(pad.value_type(&mut env).unwrap(), NapiValueType::Undefined);
    let read = arr.get(&mut env, 2).unwrap().as_number(&mut env).unwrap();
    assert_eq!(read.to_i32(&mut env).unwrap(), 5);
}

#[test]
fn array_with_len_holds_undefined() {
    let mut env = NapiEnv::new();
    let arr = NapiArray::with_len(&mut env, 4).unwrap();
    assert_eq!(arr.len(&mut env).unwrap(), 4);
    let slot = arr.get(&mut env, 1).unwrap();
    assert_eq!(slot.value_type(&mut env).unwrap(), NapiValueType::Undefined);
}

#[test]
fn array_downcast_checks_the_class() {
    let mut env = NapiEnv::new();
    let arr = NapiArray::new(&mut env).unwrap();
    let h = arr.as_sys_value();
    let again = NapiArray::from_sys_checked(&mut env, h).unwrap();
    assert_eq!(again.as_sys_value(), h);
    let obj = NapiObject::new(&mut env).unwrap();
    let error = NapiArray::from_sys_checked(&mut env, obj.as_sys_value()).unwrap_err();
    assert_eq!(error.kind, napi::NapiErrorKind::ApplicationError);
    assert!(error.exception.is_some());
}

#[test]
fn array_buffers_report_their_length() {
    let mut env = NapiEnv::new();
    let buf = NapiArrayBuffer::new(&mut env, 16).unwrap();
    assert_eq!(buf.len(), 16);
    assert!(!buf.is_empty());
    let empty = NapiArrayBuffer::new(&mut env, 0).unwrap();
    assert!(empty.is_empty());
    let again = NapiArrayBuffer::from_sys_checked(&mut env, buf.as_sys_value()).unwrap();
    assert_eq!(again.len(), 16);
    assert_eq!(again.as_sys_value(), buf.as_sys_value());
}

#[test]
fn buffers_report_their_length() {
    let mut env = NapiEnv::new();
    let buf = NapiBuffer::new(&mut env, 8).unwrap();
    assert_eq!(buf.len(), 8);
    assert!(!buf.is_empty());
    let again = NapiBuffer::from_sys_checked(&mut env, buf.as_sys_value()).unwrap();
    assert_eq!(again.len(), 8);
}

#[test]
fn buffer_downcasts_distinguish_classes() {
    let mut env = NapiEnv::new();
    let ab = NapiArrayBuffer::new(&mut env, 4).unwrap();
    let err = NapiBuffer::from_sys_checked(&mut env, ab.as_sys_value()).unwrap_err();
    assert_eq!(err.kind, napi::NapiErrorKind::ApplicationError);
    let bf = NapiBuffer::new(&mut env, 4).unwrap();
    let err = NapiArrayBuffer::from_sys_checked(&mut env, bf.as_sys_value()).unwrap_err();
    assert_eq!(err.kind, napi::NapiErrorKind::ApplicationError);
    let any = NapiAny::with_value(ab.as_sys_value());
    assert!(any.is_arraybuffer(&mut env).unwrap());
    assert!(!any.is_buffer(&mut env).unwrap());
}

#[test]
fn is_error_recognizes_host_error_objects() {
    let mut env = NapiEnv::new();
    let msg = NapiString::from_str(&mut env, "boom").unwrap();
    let error = napi::NapiError::type_error(&mut env, &msg);
    let exception = error.exception.unwrap();
    let any = NapiAny::with_value(exception);
    assert!(any.is_error(&mut env).unwrap());
    let obj = NapiObject::new(&mut env).unwrap();
    assert!(!napi::as_napi_any(&obj).is_error(&mut env).unwrap());
}

#[test]
fn buffer_bytes_read_and_write() {
    let mut env = NapiEnv::new();
    let buf = NapiBuffer::new(&mut env, 3).unwrap();
    assert_eq!(buf.as_bytes(&mut env).unwrap(), vec![0u8, 0, 0]);
    buf.write_byte(&mut env, 1, 0xAB).unwrap();
    assert_eq!(buf.as_bytes(&mut env).unwrap(), vec![0u8, 0xAB, 0]);
    let ab = NapiArrayBuffer::new(&mut env, 2).unwrap();
    ab.write_byte(&mut env, 0, 7).unwrap();
    assert_eq!(ab.as_bytes(&mut env).unwrap(), vec![7u8, 0]);
}

#[test]
fn properties_by_value_key_have_has_own_and_delete() {
    let mut env = NapiEnv::new();
    let obj = NapiObject::new(&mut env).unwrap();
    let key = NapiString::from_str(&mut env, "k").unwrap();
    let v = NapiNumber::from_i32(&mut env, 1).unwrap();
    obj.set_property(&mut env, &key, &v).unwrap();
    assert!(obj.has_property(&mut env, &key).unwrap());
    assert!(obj.has_own_property(&mut env, &key).unwrap());
    assert!(obj.del_property(&mut env, &key).unwrap());
    assert!(!obj.has_property(&mut env, &key).unwrap());
    assert!(obj.del_property(&mut env, &key).unwrap(), "deleting an absent property reports true");
}
