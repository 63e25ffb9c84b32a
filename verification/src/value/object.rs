//! Objects: the object capability operations usable by any value that is
//! representable as a host object.

use vstd::prelude::*;

use crate::env::NapiEnv;
use crate::result::NapiResult;
use crate::sys;
use crate::sys::allocated;
use crate::sys::empty_obj;
use crate::sys::env_extends;
use crate::sys::max_array_len;
use crate::sys::names_result;
use crate::sys::null_handle;
use crate::sys::prop_del;
use crate::sys::prop_get;
use crate::sys::prop_idx;
use crate::sys::prop_set;
use crate::sys::string_form;
use crate::sys::undefined_handle;
use crate::sys::with_elems;
use crate::sys::with_props;
use crate::sys::HostEnvView;
use crate::sys::SlotVal;
use crate::sys::SysStatus;
use crate::sys::SysValue;

use super::cast_accepts;
use super::cast_err;

use super::failed_with;
use super::CastKind;
use super::NapiAny;
use super::NapiArray;
use super::NapiString;
use super::NapiValue;

verus! {

/// Wrapper for an object value.
#[derive(Clone, Copy, Debug)]
pub struct NapiObject {
    pub value: SysValue,
}

impl NapiObject {
    /// Allocates a fresh empty object.
    pub fn new(env: &mut NapiEnv) -> (r: NapiResult<Self>)
        requires
            old(env)@.wf(),
        ensures
            final(env)@.wf(),
            env_extends(old(env)@, final(env)@),
            r matches Ok(o) && o.valid(final(env)@) && allocated(
                old(env)@,
                final(env)@,
                o.sys_value(),
                SlotVal::Object(empty_obj()),
            ),
    {
        let (status, value) = sys::napi_create_object(&mut env.env);
        env.handle_status(status)?;
        Ok(Self { value })
    }

    /// Reads the prototype link, which in this model is always the null
    /// singleton.
    pub fn prototype(&self, env: &mut NapiEnv) -> (r: NapiResult<NapiAny>)
        requires
            old(env)@.wf(),
            old(env)@.valid(self.sys_value()),
        ensures
            final(env)@.wf(),
            env_extends(old(env)@, final(env)@),
            match old(env)@.value_of(self.sys_value()) {
                SlotVal::Object(_) => r matches Ok(p) && p.sys_value() == null_handle() && final(env)@ == old(env)@,
                _ => r matches Err(e) && failed_with(
                    old(env)@,
                    final(env)@,
                    e,
                    SysStatus::ObjectExpected,
                ),
            },
    {
        let (status, result) = sys::napi_get_prototype(env.as_sys_env(), self.value);
        env.handle_status(status)?;
        Ok(NapiAny::with_value(result))
    }

    /// Enumerates the object's own property names, in insertion order, as
    /// a fresh array of fresh strings.
    pub fn property_names(&self, env: &mut NapiEnv) -> (r: NapiResult<NapiArray>)
        requires
            old(env)@.wf(),
            old(env)@.valid(self.sys_value()),
        ensures
            final(env)@.wf(),
            env_extends(old(env)@, final(env)@),
            match old(env)@.value_of(self.sys_value()) {
                SlotVal::Object(o) => {
                    if o.props.len() <= max_array_len() {
                        &&& r matches Ok(a)
                        &&& a.valid(final(env)@)
                        &&& final(env)@.slots == names_result(old(env)@, o)
                        &&& a.sys_value().raw == old(env)@.slots.len() + o.props.len()
                        &&& final(env)@.pending == old(env)@.pending
                    } else {
                        r matches Err(e) && failed_with(
                            old(env)@,
                            final(env)@,
                            e,
                            SysStatus::GenericFailure,
                        )
                    }
                },
                _ => r matches Err(e) && failed_with(
                    old(env)@,
                    final(env)@,
                    e,
                    SysStatus::ObjectExpected,
                ),
            },
    {
        let (status, result) = sys::napi_get_property_names(&mut env.env, self.value);
        env.handle_status(status)?;
        Ok(NapiArray::construct(result))
    }

    /// Stores `value` under the property named by the string coercion of
    /// `key`.
    pub fn set_property<T: NapiValue, U: NapiValue>(
        &self,
        env: &mut NapiEnv,
        key: &T,
        value: &U,
    ) -> (r: NapiResult<()>)
        requires
            old(env)@.wf(),
            old(env)@.valid(self.sys_value()),
            old(env)@.valid(key.sys_value()),
            old(env)@.valid(value.sys_value()),
        ensures
            final(env)@.wf(),
            env_extends(old(env)@, final(env)@),
            match old(env)@.value_of(self.sys_value()) {
                SlotVal::Object(o) => r is Ok && final(env)@.slots == old(env)@.slots.update(
                    self.sys_value().raw as int,
                    SlotVal::Object(
                        with_props(
                            o,
                            prop_set(
                                o.props,
                                string_form(old(env)@.value_of(key.sys_value())),
                                value.sys_value(),
                            ),
                        ),
                    ),
                ) && final(env)@.pending == old(env)@.pending,
                _ => r matches Err(e) && failed_with(
                    old(env)@,
                    final(env)@,
                    e,
                    SysStatus::ObjectExpected,
                ),
            },
    {
        let status = sys::napi_set_property(
            &mut env.env,
            self.value,
            key.as_sys_value(),
            value.as_sys_value(),
        );
        env.handle_status(status)
    }

    /// Reads the property named by the string coercion of `key`,
    /// reporting the undefined singleton when absent.
    pub fn get_property<T: NapiValue>(&self, env: &mut NapiEnv, key: &T) -> (r: NapiResult<NapiAny>)
        requires
            old(env)@.wf(),
            old(env)@.valid(self.sys_value()),
            old(env)@.valid(key.sys_value()),
        ensures
            final(env)@.wf(),
            env_extends(old(env)@, final(env)@),
            match old(env)@.value_of(self.sys_value()) {
                SlotVal::Object(o) => r matches Ok(a) && a.sys_value() == prop_get(
                    o.props,
                    string_form(old(env)@.value_of(key.sys_value())),
                ) && final(env)@ == old(env)@,
                _ => r matches Err(e) && failed_with(
                    old(env)@,
                    final(env)@,
                    e,
                    SysStatus::ObjectExpected,
                ),
            },
    {
        let (status, result) = sys::napi_get_property(
            env.as_sys_env(),
            self.value,
            key.as_sys_value(),
        );
        env.handle_status(status)?;
        Ok(NapiAny::with_value(result))
    }

    /// The property named by the string coercion of `key` exists.
    pub fn has_property<T: NapiValue>(&self, env: &mut NapiEnv, key: &T) -> (r: NapiResult<bool>)
        requires
            old(env)@.wf(),
            old(env)@.valid(self.sys_value()),
            old(env)@.valid(key.sys_value()),
        ensures
            final(env)@.wf(),
            env_extends(old(env)@, final(env)@),
            match old(env)@.value_of(self.sys_value()) {
                SlotVal::Object(o) => r matches Ok(b) && b == (prop_idx(
                    o.props,
                    string_form(old(env)@.value_of(key.sys_value())),
                ) != -1) && final(env)@ == old(env)@,
                _ => r matches Err(e) && failed_with(
                    old(env)@,
                    final(env)@,
                    e,
                    SysStatus::ObjectExpected,
                ),
            },
    {
        let (status, result) = sys::napi_has_property(
            env.as_sys_env(),
            self.value,
            key.as_sys_value(),
        );
        env.handle_status(status)?;
        Ok(result)
    }

    /// As `has_property`; the model keeps no prototype chains, so every
    /// property is an own property.
    pub fn has_own_property<T: NapiValue>(&self, env: &mut NapiEnv, key: &T) -> (r: NapiResult<
        bool,
    >)
        requires
            old(env)@.wf(),
            old(env)@.valid(self.sys_value()),
            old(env)@.valid(key.sys_value()),
        ensures
            final(env)@.wf(),
            env_extends(old(env)@, final(env)@),
            match old(env)@.value_of(self.sys_value()) {
                SlotVal::Object(o) => r matches Ok(b) && b == (prop_idx(
                    o.props,
                    string_form(old(env)@.value_of(key.sys_value())),
                ) != -1) && final(env)@ == old(env)@,
                _ => r matches Err(e) && failed_with(
                    old(env)@,
                    final(env)@,
                    e,
                    SysStatus::ObjectExpected,
                ),
            },
    {
        let (status, result) = sys::napi_has_own_property(
            env.as_sys_env(),
            self.value,
            key.as_sys_value(),
        );
        env.handle_status(status)?;
        Ok(result)
    }

    /// Deletes the property named by the string coercion of `key`,
    /// reporting true as the host language's delete does.
    pub fn del_property<T: NapiValue>(&self, env: &mut NapiEnv, key: &T) -> (r: NapiResult<bool>)
        requires
            old(env)@.wf(),
            old(env)@.valid(self.sys_value()),
            old(env)@.valid(key.sys_value()),
        ensures
            final(env)@.wf(),
            env_extends(old(env)@, final(env)@),
            match old(env)@.value_of(self.sys_value()) {
                SlotVal::Object(o) => r matches Ok(b) && b == true && final(env)@.slots == old(env)@.slots.update(
                    self.sys_value().raw as int,
                    SlotVal::Object(
                        with_props(
                            o,
                            prop_del(o.props, string_form(old(env)@.value_of(key.sys_value()))),
                        ),
                    ),
                ) && final(env)@.pending == old(env)@.pending,
                _ => r matches Err(e) && failed_with(
                    old(env)@,
                    final(env)@,
                    e,
                    SysStatus::ObjectExpected,
                ),
            },
    {
        let (status, result) = sys::napi_delete_property(
            &mut env.env,
            self.value,
            key.as_sys_value(),
        );
        env.handle_status(status)?;
        Ok(result)
    }

    /// Stores `value` under the property named `name`.
    pub fn set_named_property<T: NapiValue>(
        &self,
        env: &mut NapiEnv,
        name: &str,
        value: &T,
    ) -> (r: NapiResult<()>)
        requires
            old(env)@.wf(),
            old(env)@.valid(self.sys_value()),
            old(env)@.valid(value.sys_value()),
        ensures
            final(env)@.wf(),
            env_extends(old(env)@, final(env)@),
            match old(env)@.value_of(self.sys_value()) {
                SlotVal::Object(o) => r is Ok && final(env)@.slots == old(env)@.slots.push(
                    SlotVal::Text(name@),
                ).update(
                    self.sys_value().raw as int,
                    SlotVal::Object(with_props(o, prop_set(o.props, name@, value.sys_value()))),
                ) && final(env)@.pending == old(env)@.pending,
                _ => r matches Err(e) && failed_with(
                    HostEnvView {
                        slots: old(env)@.slots.push(SlotVal::Text(name@)),
                        pending: old(env)@.pending,
                    },
                    final(env)@,
                    e,
                    SysStatus::ObjectExpected,
                ),
            },
    {
        let key = NapiString::from_str(env, name)?;
        self.set_property(env, &key, value)
    }

    /// Reads the property named `name`.
    pub fn get_named_property(&self, env: &mut NapiEnv, name: &str) -> (r: NapiResult<NapiAny>)
        requires
            old(env)@.wf(),
            old(env)@.valid(self.sys_value()),
        ensures
            final(env)@.wf(),
            env_extends(old(env)@, final(env)@),
            match old(env)@.value_of(self.sys_value()) {
                SlotVal::Object(o) => r matches Ok(a) && a.sys_value() == prop_get(o.props, name@)
                    && final(env)@.slots == old(env)@.slots.push(SlotVal::Text(name@)) && final(env)@.pending == old(env)@.pending,
                _ => r matches Err(e) && failed_with(
                    HostEnvView {
                        slots: old(env)@.slots.push(SlotVal::Text(name@)),
                        pending: old(env)@.pending,
                    },
                    final(env)@,
                    e,
                    SysStatus::ObjectExpected,
                ),
            },
    {
        let key = NapiString::from_str(env, name)?;
        self.get_property(env, &key)
    }

    /// The property named `name` exists.
    pub fn has_named_property(&self, env: &mut NapiEnv, name: &str) -> (r: NapiResult<bool>)
        requires
            old(env)@.wf(),
            old(env)@.valid(self.sys_value()),
        ensures
            final(env)@.wf(),
            env_extends(old(env)@, final(env)@),
            match old(env)@.value_of(self.sys_value()) {
                SlotVal::Object(o) => r matches Ok(b) && b == (prop_idx(o.props, name@) != -1)
                    && final(env)@.slots == old(env)@.slots.push(SlotVal::Text(name@)) && final(env)@.pending == old(env)@.pending,
                _ => r matches Err(e) && failed_with(
                    HostEnvView {
                        slots: old(env)@.slots.push(SlotVal::Text(name@)),
                        pending: old(env)@.pending,
                    },
                    final(env)@,
                    e,
                    SysStatus::ObjectExpected,
                ),
            },
    {
        let key = NapiString::from_str(env, name)?;
        self.has_property(env, &key)
    }

    /// Deletes the property named `name`.
    pub fn del_named_property(&self, env: &mut NapiEnv, name: &str) -> (r: NapiResult<bool>)
        requires
            old(env)@.wf(),
            old(env)@.valid(self.sys_value()),
        ensures
            final(env)@.wf(),
            env_extends(old(env)@, final(env)@),
            match old(env)@.value_of(self.sys_value()) {
                SlotVal::Object(o) => r matches Ok(b) && b == true && final(env)@.slots == old(env)@.slots.push(SlotVal::Text(name@)).update(
                    self.sys_value().raw as int,
                    SlotVal::Object(with_props(o, prop_del(o.props, name@))),
                ) && final(env)@.pending == old(env)@.pending,
                _ => r matches Err(e) && failed_with(
                    HostEnvView {
                        slots: old(env)@.slots.push(SlotVal::Text(name@)),
                        pending: old(env)@.pending,
                    },
                    final(env)@,
                    e,
                    SysStatus::ObjectExpected,
                ),
            },
    {
        let key = NapiString::from_str(env, name)?;
        self.del_property(env, &key)
    }

    /// Stores `value` at element `idx`.
    pub fn set_element<T: NapiValue>(&self, env: &mut NapiEnv, index: u32, value: &T) -> (r:
        NapiResult<()>)
        requires
            old(env)@.wf(),
            old(env)@.valid(self.sys_value()),
            old(env)@.valid(value.sys_value()),
        ensures
            final(env)@.wf(),
            env_extends(old(env)@, final(env)@),
            match old(env)@.value_of(self.sys_value()) {
                SlotVal::Object(o) => {
                    if index as nat + 1 > max_array_len() {
                        r matches Err(e) && failed_with(
                            old(env)@,
                            final(env)@,
                            e,
                            SysStatus::GenericFailure,
                        )
                    } else {
                        r is Ok && final(env)@.slots == old(env)@.slots.update(
                            self.sys_value().raw as int,
                            SlotVal::Object(
                                with_elems(
                                    o,
                                    crate::sys::elem_set(o.elems, index as nat, value.sys_value()),
                                ),
                            ),
                        ) && final(env)@.pending == old(env)@.pending
                    }
                },
                _ => r matches Err(e) && failed_with(
                    old(env)@,
                    final(env)@,
                    e,
                    SysStatus::ObjectExpected,
                ),
            },
    {
        let status = sys::napi_set_element(&mut env.env, self.value, index, value.as_sys_value());
        env.handle_status(status)
    }

    /// Reads element `idx`, reporting the undefined singleton beyond the
    /// current length.
    pub fn get_element(&self, env: &mut NapiEnv, index: u32) -> (r: NapiResult<NapiAny>)
        requires
            old(env)@.wf(),
            old(env)@.valid(self.sys_value()),
        ensures
            final(env)@.wf(),
            env_extends(old(env)@, final(env)@),
            match old(env)@.value_of(self.sys_value()) {
                SlotVal::Object(o) => r matches Ok(a) && a.sys_value() == (if index
                    < o.elems.len() {
                    o.elems[index as int]
                } else {
                    undefined_handle()
                }) && final(env)@ == old(env)@,
                _ => r matches Err(e) && failed_with(
                    old(env)@,
                    final(env)@,
                    e,
                    SysStatus::ObjectExpected,
                ),
            },
    {
        let (status, result) = sys::napi_get_element(env.as_sys_env(), self.value, index);
        env.handle_status(status)?;
        Ok(NapiAny::with_value(result))
    }

    /// An element exists at `idx` (one holding the undefined singleton
    /// counts as absent).
    pub fn has_element(&self, env: &mut NapiEnv, index: u32) -> (r: NapiResult<bool>)
        requires
            old(env)@.wf(),
            old(env)@.valid(self.sys_value()),
        ensures
            final(env)@.wf(),
            env_extends(old(env)@, final(env)@),
            match old(env)@.value_of(self.sys_value()) {
                SlotVal::Object(o) => r matches Ok(b) && b == (index < o.elems.len()
                    && o.elems[index as int] != undefined_handle()) && final(env)@ == old(env)@,
                _ => r matches Err(e) && failed_with(
                    old(env)@,
                    final(env)@,
                    e,
                    SysStatus::ObjectExpected,
                ),
            },
    {
        let (status, result) = sys::napi_has_element(env.as_sys_env(), self.value, index);
        env.handle_status(status)?;
        Ok(result)
    }

    /// Deletes the element at `idx`, reporting true as the host
    /// language's delete does.
    pub fn del_element(&self, env: &mut NapiEnv, index: u32) -> (r: NapiResult<bool>)
        requires
            old(env)@.wf(),
            old(env)@.valid(self.sys_value()),
        ensures
            final(env)@.wf(),
            env_extends(old(env)@, final(env)@),
            match old(env)@.value_of(self.sys_value()) {
                SlotVal::Object(o) => r matches Ok(b) && b == true && final(env)@.slots == old(env)@.slots.update(
                    self.sys_value().raw as int,
                    SlotVal::Object(
                        with_elems(
                            o,
                            if index < o.elems.len() {
                                o.elems.update(index as int, undefined_handle())
                            } else {
                                o.elems
                            },
                        ),
                    ),
                ) && final(env)@.pending == old(env)@.pending,
                _ => r matches Err(e) && failed_with(
                    old(env)@,
                    final(env)@,
                    e,
                    SysStatus::ObjectExpected,
                ),
            },
    {
        let (status, result) = sys::napi_delete_element(&mut env.env, self.value, index);
        env.handle_status(status)?;
        Ok(result)
    }

    /// Unchecked construction from a handle already known to be
    /// object-representable.
    pub fn construct(value: SysValue) -> (r: Self)
        ensures
            r.sys_value() == value,
    {
        Self { value }
    }
}

impl NapiValue for NapiObject {
    open spec fn sys_value(&self) -> SysValue {
        self.value
    }

    open spec fn valid(&self, e: HostEnvView) -> bool {
        e.valid(self.value)
    }

    proof fn valid_handle(&self, e: HostEnvView) {
    }

    fn as_sys_value(&self) -> (r: SysValue) {
        self.value
    }

    fn from_sys_checked(env: &mut NapiEnv, value: SysValue) -> (r: NapiResult<Self>)
        ensures
            cast_accepts(CastKind::Object, old(env)@.value_of(value)) <==> r is Ok,
            r matches Ok(v) ==> v.value == value && final(env)@ == old(env)@,
            r matches Err(e) ==> cast_err(old(env)@, final(env)@, CastKind::Object, e),
    {
        NapiAny::with_value(value).as_object(env)
    }
}

} // verus!
