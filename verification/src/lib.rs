//! A safety layer over a native host-embedding ABI: typed wrappers for the
//! host runtime's values, status-code translation into typed errors, checked
//! downcasts, arity-checked argument derivation for callbacks, and an adapter
//! that turns handler failures into thrown host exceptions.
//!
//! The host runtime itself is out of scope and is represented by the `sys`
//! module: an in-memory model of the embedding ABI's flat function table that
//! honors the documented status-code contract.

pub mod args;
pub mod callback;
pub mod env;
pub mod example;
pub mod laws;
pub mod result;
pub mod sys;
pub mod text;
pub mod value;

pub use env::NapiEnv;
pub use result::NapiError;
pub use result::NapiErrorKind;
pub use result::NapiResult;
pub use args::NapiArgs;
pub use callback::complete_callback;
pub use callback::napi_callback;
pub use callback::NapiCallback;
pub use sys::CallInfo;
pub use sys::HostEnv;
pub use sys::SysStatus;
pub use sys::SysValue;
pub use sys::SysValueType;
pub use value::as_napi_any;
pub use value::instanceof;
pub use value::strict_equals;
pub use value::to_napi_boolean;
pub use value::to_napi_number;
pub use value::to_napi_object;
pub use value::to_napi_string;
pub use value::AsNapiObject;
pub use value::NapiAny;
pub use value::NapiArray;
pub use value::NapiArrayBuffer;
pub use value::NapiBoolean;
pub use value::NapiBuffer;
pub use value::NapiNull;
pub use value::NapiNumber;
pub use value::NapiObject;
pub use value::NapiString;
pub use value::NapiUndefined;
pub use value::NapiValue;
pub use value::NapiValueType;
