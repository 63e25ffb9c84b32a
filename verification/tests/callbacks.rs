//! The argument derivation protocol and the callback entry-point
//! adapter, end to end.

use napi::complete_callback;
use napi::napi_callback;
use napi::example::example_add;
use napi::example::AddArgs;
use napi::example::HelloArgs;
use napi::CallInfo;
use napi::NapiAny;
use napi::NapiArgs;
use napi::NapiBoolean;
use napi::NapiCallback;
use napi::NapiEnv;
use napi::NapiError;
use napi::NapiErrorKind;
use napi::NapiNumber;
use napi::NapiResult;
use napi::NapiString;
use napi::NapiValue;
use napi::SysValue;

fn pending_message(env: &mut NapiEnv) -> String {
    let exception = env.env.pending.expect("an exception must be pending");
    let error_object = NapiAny::with_value(exception).as_object(env).unwrap();
    let message = error_object.get_named_property(env, "message").unwrap();
    let message = message.as_string(env).unwrap();
    message.to_string(env).unwrap()
}

#[test]
fn add_returns_the_sum() {
    let mut env = NapiEnv::new();
    let three = NapiNumber::from_i32(&mut env, 3).unwrap();
    let four = NapiNumber::from_i32(&mut env, 4).unwrap();
    let info = CallInfo::new(vec![three.as_sys_value(), four.as_sys_value()]);
    let result = example_add(&mut env, &info);
    assert!(env.env.pending.is_none());
    let n = NapiNumber::from_sys_checked(&mut env, result).unwrap();
    assert_eq!(n.to_i32(&mut env).unwrap(), 7);
}

#[test]
fn arity_mismatch_throws_the_exact_message() {
    let mut env = NapiEnv::new();
    let one = NapiNumber::from_i32(&mut env, 1).unwrap();
    let info = CallInfo::new(vec![one.as_sys_value()]);
    let result = example_add(&mut env, &info);
    let undefined = napi::NapiUndefined::new(&mut env).unwrap();
    assert_eq!(result, undefined.as_sys_value());
    assert_eq!(pending_message(&mut env), "Expected 2 arguments, but got 1");
}

#[test]
fn arity_mismatch_with_too_many_arguments() {
    let mut env = NapiEnv::new();
    let one = NapiNumber::from_i32(&mut env, 1).unwrap();
    let info = CallInfo::new(vec![
        one.as_sys_value(),
        one.as_sys_value(),
        one.as_sys_value(),
    ]);
    example_add(&mut env, &info);
    assert_eq!(pending_message(&mut env), "Expected 2 arguments, but got 3");
}

#[test]
fn field_type_mismatch_names_the_expected_type() {
    let mut env = NapiEnv::new();
    let s = NapiString::from_str(&mut env, "three").unwrap();
    let four = NapiNumber::from_i32(&mut env, 4).unwrap();
    let info = CallInfo::new(vec![s.as_sys_value(), four.as_sys_value()]);
    let result = example_add(&mut env, &info);
    let undefined = napi::NapiUndefined::new(&mut env).unwrap();
    assert_eq!(result, undefined.as_sys_value());
    assert_eq!(pending_message(&mut env), "number expected");
}

struct PanickingHandler;

impl NapiCallback for PanickingHandler {
    type Args = AddArgs;
    type Ret = NapiNumber;

    fn handle(&self, _env: &mut NapiEnv, _args: &AddArgs) -> NapiResult<NapiNumber> {
        panic!("the handler must not run after a failed derivation");
    }
}

#[test]
fn failed_derivation_never_reaches_the_handler() {
    let mut env = NapiEnv::new();
    let s = NapiString::from_str(&mut env, "x").unwrap();
    let info = CallInfo::new(vec![s.as_sys_value()]);
    napi_callback(&PanickingHandler, &mut env, &info);
    assert_eq!(pending_message(&mut env), "Expected 2 arguments, but got 1");

    let mut env = NapiEnv::new();
    let s = NapiString::from_str(&mut env, "x").unwrap();
    let four = NapiNumber::from_i32(&mut env, 4).unwrap();
    let info = CallInfo::new(vec![s.as_sys_value(), four.as_sys_value()]);
    napi_callback(&PanickingHandler, &mut env, &info);
    assert_eq!(pending_message(&mut env), "number expected");
}

struct ConstHandler {
    value: SysValue,
}

impl NapiCallback for ConstHandler {
    type Args = HelloArgs;
    type Ret = NapiAny;

    fn handle(&self, _env: &mut NapiEnv, _args: &HelloArgs) -> NapiResult<NapiAny> {
        Ok(NapiAny::with_value(self.value))
    }
}

#[test]
fn zero_argument_handler_returns_its_value_unchanged() {
    let mut env = NapiEnv::new();
    let declared = NapiNumber::from_i32(&mut env, 42).unwrap();
    let handler = ConstHandler { value: declared.as_sys_value() };
    let info = CallInfo::new(Vec::new());
    let result = napi_callback(&handler, &mut env, &info);
    assert_eq!(result, declared.as_sys_value());
    assert!(env.env.pending.is_none());
}

struct ThrowingHandler {
    exception: SysValue,
}

impl NapiCallback for ThrowingHandler {
    type Args = HelloArgs;
    type Ret = NapiAny;

    fn handle(&self, _env: &mut NapiEnv, _args: &HelloArgs) -> NapiResult<NapiAny> {
        Err(NapiError {
            kind: NapiErrorKind::ApplicationError,
            message: None,
            exception: Some(self.exception),
        })
    }
}

#[test]
fn attached_exception_is_thrown_identically() {
    let mut env = NapiEnv::new();
    let msg = NapiString::from_str(&mut env, "custom failure").unwrap();
    let custom = NapiError::range_error(&mut env, &msg);
    let exception = custom.exception.unwrap();
    let handler = ThrowingHandler { exception };
    let info = CallInfo::new(Vec::new());
    let result = napi_callback(&handler, &mut env, &info);
    let undefined = napi::NapiUndefined::new(&mut env).unwrap();
    assert_eq!(result, undefined.as_sys_value());
    assert_eq!(
        env.env.pending,
        Some(exception),
        "the adapter must throw exactly the attached handle"
    );
}

struct FailingHandler;

impl NapiCallback for FailingHandler {
    type Args = HelloArgs;
    type Ret = NapiAny;

    fn handle(&self, _env: &mut NapiEnv, _args: &HelloArgs) -> NapiResult<NapiAny> {
        Err(NapiError {
            kind: NapiErrorKind::GenericFailure,
            message: Some(String::from("disk on fire")),
            exception: None,
        })
    }
}

#[test]
fn unattached_error_is_thrown_with_its_display_string() {
    let mut env = NapiEnv::new();
    let info = CallInfo::new(Vec::new());
    let result = napi_callback(&FailingHandler, &mut env, &info);
    let undefined = napi::NapiUndefined::new(&mut env).unwrap();
    assert_eq!(result, undefined.as_sys_value());
    assert_eq!(
        pending_message(&mut env),
        "NapiError: generic failure (disk on fire)"
    );
}

#[test]
fn complete_callback_passes_success_through() {
    let mut env = NapiEnv::new();
    let n = NapiNumber::from_i32(&mut env, 11).unwrap();
    let result = complete_callback(&mut env, Ok(n.as_sys_value()));
    assert_eq!(result, n.as_sys_value());
    assert!(env.env.pending.is_none());
}

#[test]
fn derivation_succeeds_with_exact_arity_and_field_order() {
    let mut env = NapiEnv::new();
    let three = NapiNumber::from_i32(&mut env, 30).unwrap();
    let four = NapiNumber::from_i32(&mut env, 40).unwrap();
    let info = CallInfo::new(vec![three.as_sys_value(), four.as_sys_value()]);
    let args = AddArgs::from_cb_info(&mut env, &info).unwrap();
    assert_eq!(args.first.as_sys_value(), three.as_sys_value());
    assert_eq!(args.second.as_sys_value(), four.as_sys_value());
    assert_eq!(args.first.to_i32(&mut env).unwrap(), 30);
    assert_eq!(args.second.to_i32(&mut env).unwrap(), 40);
}

#[test]
fn hello_args_derive_from_an_empty_call() {
    let mut env = NapiEnv::new();
    let info = CallInfo::new(Vec::new());
    assert!(HelloArgs::from_cb_info(&mut env, &info).is_ok());
    let n = NapiNumber::from_i32(&mut env, 1).unwrap();
    let info = CallInfo::new(vec![n.as_sys_value()]);
    let error = HelloArgs::from_cb_info(&mut env, &info).unwrap_err();
    assert_eq!(error.kind, NapiErrorKind::ApplicationError);
    let exception = error.exception.unwrap();
    let obj = NapiAny::with_value(exception).as_object(&mut env).unwrap();
    let msg = obj.get_named_property(&mut env, "message").unwrap();
    let msg = msg.as_string(&mut env).unwrap();
    assert_eq!(msg.to_string(&mut env).unwrap(), "Expected 0 arguments, but got 1");
}

#[test]
fn booleans_survive_the_adapter() {
    let mut env = NapiEnv::new();
    let t = NapiBoolean::truth(&mut env).unwrap();
    let handler = ConstHandler { value: t.as_sys_value() };
    let info = CallInfo::new(Vec::new());
    let result = napi_callback(&handler, &mut env, &info);
    let b = NapiBoolean::from_sys_checked(&mut env, result).unwrap();
    assert!(b.to_bool(&mut env).unwrap());
}

#[test]
fn zero_arguments_against_a_two_argument_record() {
    let mut env = NapiEnv::new();
    let info = CallInfo::new(Vec::new());
    let result = example_add(&mut env, &info);
    let undefined = napi::NapiUndefined::new(&mut env).unwrap();
    assert_eq!(result, undefined.as_sys_value());
    assert_eq!(pending_message(&mut env), "Expected 2 arguments, but got 0");
}

#[test]
fn second_field_mismatch_also_short_circuits() {
    let mut env = NapiEnv::new();
    let three = NapiNumber::from_i32(&mut env, 3).unwrap();
    let s = NapiString::from_str(&mut env, "four").unwrap();
    let info = CallInfo::new(vec![three.as_sys_value(), s.as_sys_value()]);
    napi_callback(&PanickingHandler, &mut env, &info);
    assert_eq!(pending_message(&mut env), "number expected");
}
