//! Round trips, checked downcasts and coercions of the typed value family.

use napi::strict_equals;
use napi::to_napi_boolean;
use napi::to_napi_number;
use napi::to_napi_object;
use napi::to_napi_string;
use napi::NapiAny;
use napi::NapiBoolean;
use napi::NapiEnv;
use napi::NapiErrorKind;
use napi::NapiNull;
use napi::NapiNumber;
use napi::NapiString;
use napi::NapiUndefined;
use napi::NapiValue;
use napi::NapiValueType;
use napi::SysStatus;

fn thrown_message(env: &mut NapiEnv, exception: napi::SysValue) -> String {
    let error_object = NapiAny::with_value(exception).as_object(env).unwrap();
    let message = error_object.get_named_property(env, "message").unwrap();
    let message = message.as_string(env).unwrap();
    message.to_string(env).unwrap()
}

#[test]
fn number_i32_round_trip() {
    let mut env = NapiEnv::new();
    for x in [0i32, 1, -1, 7, 42, i32::MAX, i32::MIN] {
        let n = NapiNumber::from_i32(&mut env, x).unwrap();
        assert_eq!(n.to_i32(&mut env).unwrap(), x);
    }
}

#[test]
fn number_i64_round_trip() {
    let mut env = NapiEnv::new();
    for x in [0i64, -5, 1 << 40, i64::MAX, i64::MIN] {
        let n = NapiNumber::from_i64(&mut env, x).unwrap();
        assert_eq!(n.to_i64(&mut env).unwrap(), x);
    }
}

#[test]
fn number_i64_truncates_to_i32() {
    let mut env = NapiEnv::new();
    let n = NapiNumber::from_i64(&mut env, 0x1_0000_0005i64).unwrap();
    assert_eq!(n.to_i32(&mut env).unwrap(), 5);
}

#[test]
fn string_round_trip() {
    let mut env = NapiEnv::new();
    for s in ["", "hello", "caf\u{e9} \u{1F600}"] {
        let v = NapiString::from_str(&mut env, s).unwrap();
        assert_eq!(v.to_string(&mut env).unwrap(), s);
    }
}

#[test]
fn string_to_bytes_is_utf8() {
    let mut env = NapiEnv::new();
    let v = NapiString::from_str(&mut env, "caf\u{e9}").unwrap();
    assert_eq!(v.to_bytes(&mut env).unwrap(), "caf\u{e9}".as_bytes());
}

#[test]
fn boolean_round_trip() {
    let mut env = NapiEnv::new();
    let t = NapiBoolean::truth(&mut env).unwrap();
    let f = NapiBoolean::lie(&mut env).unwrap();
    assert!(t.to_bool(&mut env).unwrap());
    assert!(!f.to_bool(&mut env).unwrap());
}

#[test]
fn value_types_report_correctly() {
    let mut env = NapiEnv::new();
    let u = NapiUndefined::new(&mut env).unwrap();
    assert_eq!(u.value_type(&mut env).unwrap(), NapiValueType::Undefined);
    let n = NapiNull::new(&mut env).unwrap();
    assert_eq!(n.value_type(&mut env).unwrap(), NapiValueType::Null);
    let b = NapiBoolean::truth(&mut env).unwrap();
    assert_eq!(b.value_type(&mut env).unwrap(), NapiValueType::Boolean);
    let x = NapiNumber::from_i32(&mut env, 3).unwrap();
    assert_eq!(x.value_type(&mut env).unwrap(), NapiValueType::Number);
    let s = NapiString::from_str(&mut env, "hi").unwrap();
    assert_eq!(s.value_type(&mut env).unwrap(), NapiValueType::String);
}

#[test]
fn checked_downcast_succeeds_on_matching_type_and_round_trips() {
    let mut env = NapiEnv::new();
    let n = NapiNumber::from_i32(&mut env, 9).unwrap();
    let h = n.as_sys_value();
    let again = NapiNumber::from_sys_checked(&mut env, h).unwrap();
    assert_eq!(again.as_sys_value(), h);

    let s = NapiString::from_str(&mut env, "x").unwrap();
    let h = s.as_sys_value();
    let again = NapiString::from_sys_checked(&mut env, h).unwrap();
    assert_eq!(again.as_sys_value(), h);

    let b = NapiBoolean::lie(&mut env).unwrap();
    let h = b.as_sys_value();
    let again = NapiBoolean::from_sys_checked(&mut env, h).unwrap();
    assert_eq!(again.as_sys_value(), h);

    let u = NapiUndefined::new(&mut env).unwrap();
    let h = u.as_sys_value();
    let again = NapiUndefined::from_sys_checked(&mut env, h).unwrap();
    assert_eq!(again.as_sys_value(), h);

    let nl = NapiNull::new(&mut env).unwrap();
    let h = nl.as_sys_value();
    let again = NapiNull::from_sys_checked(&mut env, h).unwrap();
    assert_eq!(again.as_sys_value(), h);
}

#[test]
fn checked_downcast_fails_naming_expected_type() {
    let mut env = NapiEnv::new();
    let s = NapiString::from_str(&mut env, "not a number").unwrap();
    let error = NapiNumber::from_sys_checked(&mut env, s.as_sys_value()).unwrap_err();
    assert_eq!(error.kind, NapiErrorKind::ApplicationError);
    let exception = error.exception.expect("a type error must be attached");
    assert_eq!(thrown_message(&mut env, exception), "number expected");

    let n = NapiNumber::from_i32(&mut env, 1).unwrap();
    let error = NapiString::from_sys_checked(&mut env, n.as_sys_value()).unwrap_err();
    assert_eq!(thrown_message(&mut env, error.exception.unwrap()), "string expected");

    let error = NapiBoolean::from_sys_checked(&mut env, n.as_sys_value()).unwrap_err();
    assert_eq!(thrown_message(&mut env, error.exception.unwrap()), "boolean expected");

    let error = NapiUndefined::from_sys_checked(&mut env, n.as_sys_value()).unwrap_err();
    assert_eq!(thrown_message(&mut env, error.exception.unwrap()), "undefined expected");

    let error = NapiNull::from_sys_checked(&mut env, n.as_sys_value()).unwrap_err();
    assert_eq!(thrown_message(&mut env, error.exception.unwrap()), "null expected");

    let any = NapiAny::with_value(n.as_sys_value());
    let error = any.as_array(&mut env).unwrap_err();
    assert_eq!(thrown_message(&mut env, error.exception.unwrap()), "array expected");
}

#[test]
fn boolean_coercion_never_fails_on_type() {
    let mut env = NapiEnv::new();
    let u = NapiUndefined::new(&mut env).unwrap();
    assert!(!to_napi_boolean(&u, &mut env).unwrap().to_bool(&mut env).unwrap());
    let nl = NapiNull::new(&mut env).unwrap();
    assert!(!to_napi_boolean(&nl, &mut env).unwrap().to_bool(&mut env).unwrap());
    let z = NapiNumber::from_i32(&mut env, 0).unwrap();
    assert!(!to_napi_boolean(&z, &mut env).unwrap().to_bool(&mut env).unwrap());
    let n = NapiNumber::from_i32(&mut env, -3).unwrap();
    assert!(to_napi_boolean(&n, &mut env).unwrap().to_bool(&mut env).unwrap());
    let empty = NapiString::from_str(&mut env, "").unwrap();
    assert!(!to_napi_boolean(&empty, &mut env).unwrap().to_bool(&mut env).unwrap());
    let s = NapiString::from_str(&mut env, "x").unwrap();
    assert!(to_napi_boolean(&s, &mut env).unwrap().to_bool(&mut env).unwrap());
    let o = napi::NapiObject::new(&mut env).unwrap();
    assert!(to_napi_boolean(&o, &mut env).unwrap().to_bool(&mut env).unwrap());
}

#[test]
fn string_coercion_renders_values() {
    let mut env = NapiEnv::new();
    let n = NapiNumber::from_i32(&mut env, 42).unwrap();
    let s = to_napi_string(&n, &mut env).unwrap();
    assert_eq!(s.to_string(&mut env).unwrap(), "42");

    let n = NapiNumber::from_i64(&mut env, -7).unwrap();
    let s = to_napi_string(&n, &mut env).unwrap();
    assert_eq!(s.to_string(&mut env).unwrap(), "-7");

    let u = NapiUndefined::new(&mut env).unwrap();
    let s = to_napi_string(&u, &mut env).unwrap();
    assert_eq!(s.to_string(&mut env).unwrap(), "undefined");

    let t = NapiBoolean::truth(&mut env).unwrap();
    let s = to_napi_string(&t, &mut env).unwrap();
    assert_eq!(s.to_string(&mut env).unwrap(), "true");

    let o = napi::NapiObject::new(&mut env).unwrap();
    let s = to_napi_string(&o, &mut env).unwrap();
    assert_eq!(s.to_string(&mut env).unwrap(), "[object Object]");
}

#[test]
fn number_coercion_follows_the_model() {
    let mut env = NapiEnv::new();
    let t = NapiBoolean::truth(&mut env).unwrap();
    let n = to_napi_number(&t, &mut env).unwrap();
    assert_eq!(n.to_i64(&mut env).unwrap(), 1);
    let nl = NapiNull::new(&mut env).unwrap();
    let n = to_napi_number(&nl, &mut env).unwrap();
    assert_eq!(n.to_i64(&mut env).unwrap(), 0);
    let x = NapiNumber::from_i64(&mut env, 99).unwrap();
    let n = to_napi_number(&x, &mut env).unwrap();
    assert_eq!(n.to_i64(&mut env).unwrap(), 99);
}

#[test]
fn object_coercion_fails_only_for_undefined_and_null() {
    let mut env = NapiEnv::new();
    let n = NapiNumber::from_i32(&mut env, 5).unwrap();
    assert!(to_napi_object(&n, &mut env).is_ok());
    let s = NapiString::from_str(&mut env, "s").unwrap();
    assert!(to_napi_object(&s, &mut env).is_ok());
    let u = NapiUndefined::new(&mut env).unwrap();
    let error = to_napi_object(&u, &mut env).unwrap_err();
    assert_eq!(error.kind, NapiErrorKind::PendingException);
    let exception = error.exception.expect("the thrown type error is attached");
    assert_eq!(
        thrown_message(&mut env, exception),
        "Cannot convert undefined or null to object"
    );
    assert!(env.env.pending.is_none(), "translation must clear the pending exception");
}

#[test]
fn strict_equality_is_identity_or_equal_primitives() {
    let mut env = NapiEnv::new();
    let a = NapiNumber::from_i32(&mut env, 3).unwrap();
    let b = NapiNumber::from_i32(&mut env, 3).unwrap();
    let c = NapiNumber::from_i32(&mut env, 4).unwrap();
    assert!(strict_equals(&a, &mut env, &a).unwrap());
    assert!(strict_equals(&a, &mut env, &b).unwrap());
    assert!(!strict_equals(&a, &mut env, &c).unwrap());
    let s1 = NapiString::from_str(&mut env, "hi").unwrap();
    let s2 = NapiString::from_str(&mut env, "hi").unwrap();
    assert!(strict_equals(&s1, &mut env, &s2).unwrap());
    assert!(!strict_equals(&a, &mut env, &s1).unwrap());
    let o1 = napi::NapiObject::new(&mut env).unwrap();
    let o2 = napi::NapiObject::new(&mut env).unwrap();
    assert!(!strict_equals(&o1, &mut env, &o2).unwrap());
    assert!(strict_equals(&o1, &mut env, &o1).unwrap());
}

#[test]
fn error_display_strings() {
    let error = napi::NapiError {
        kind: NapiErrorKind::GenericFailure,
        message: None,
        exception: None,
    };
    assert_eq!(error.display_string(), "NapiError: generic failure");
    let error = napi::NapiError {
        kind: NapiErrorKind::NumberExpected,
        message: Some(String::from("bad input")),
        exception: None,
    };
    assert_eq!(error.display_string(), "NapiError: number expected (bad input)");
    let error = napi::NapiError {
        kind: NapiErrorKind::ApplicationError,
        message: None,
        exception: Some(napi::SysValue { raw: 0 }),
    };
    assert_eq!(
        error.display_string(),
        "NapiError: application error, JavaScript exception attached"
    );
}

#[test]
fn status_translation_classifies_kinds() {
    let mut env = NapiEnv::new();
    assert!(env.handle_status(SysStatus::Success).is_ok());
    let error = env.handle_status(SysStatus::NumberExpected).unwrap_err();
    assert_eq!(error.kind, NapiErrorKind::NumberExpected);
    assert!(error.message.is_none());
    assert!(error.exception.is_none());
    assert_eq!(
        NapiErrorKind::from_napi_status(SysStatus::Cancelled),
        NapiErrorKind::Cancelled
    );
    assert_eq!(
        NapiErrorKind::from_napi_status(SysStatus::EscapeCalledTwice),
        NapiErrorKind::EscapeCalledTwice
    );
}

#[test]
fn latin1_round_trip() {
    let mut env = NapiEnv::new();
    let bytes: Vec<u8> = vec![0x61, 0xE9, 0xFF, 0x00];
    let s = NapiString::from_latin1(&mut env, &bytes).unwrap();
    assert_eq!(s.to_string(&mut env).unwrap(), "a\u{e9}\u{ff}\u{0}");
    assert_eq!(s.to_latin1(&mut env).unwrap(), bytes);
}

#[test]
fn latin1_substitutes_for_wide_characters() {
    let mut env = NapiEnv::new();
    let s = NapiString::from_str(&mut env, "a\u{3A9}b").unwrap();
    assert_eq!(s.to_latin1(&mut env).unwrap(), vec![0x61, 0x3F, 0x62]);
}

#[test]
fn utf16_round_trip() {
    let mut env = NapiEnv::new();
    let text = "caf\u{e9} \u{1F600}";
    let units: Vec<u16> = text.encode_utf16().collect();
    let s = NapiString::from_utf16(&mut env, &units).unwrap();
    assert_eq!(s.to_string(&mut env).unwrap(), text);
    let back = NapiString::from_str(&mut env, text).unwrap();
    assert_eq!(back.to_utf16(&mut env).unwrap(), units);
}

#[test]
fn unpaired_surrogates_become_replacement_characters() {
    let mut env = NapiEnv::new();
    let units: Vec<u16> = vec![0x61, 0xD800, 0x62, 0xDC00];
    let s = NapiString::from_utf16(&mut env, &units).unwrap();
    assert_eq!(s.to_string(&mut env).unwrap(), "a\u{FFFD}b\u{FFFD}");
}

#[test]
fn instance_checks_report_false_without_prototype_chains() {
    let mut env = NapiEnv::new();
    let obj = napi::NapiObject::new(&mut env).unwrap();
    let ctor = napi::NapiObject::new(&mut env).unwrap();
    assert!(!napi::instanceof(&obj, &mut env, &ctor).unwrap());
}
