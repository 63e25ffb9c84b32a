//! Round-trip laws of the value family, stated over the same spec
//! vocabulary the operations' contracts speak.

use vstd::prelude::*;

use crate::sys::boolean_handle;
use crate::sys::truthy;
use crate::sys::HostEnvView;
use crate::sys::SlotVal;
use crate::value::number_payload;
use crate::value::text_payload;

verus! {

/// A number built from a signed 32-bit value extracts back to it: the
/// constructor stores the value widened to the slot payload, extraction
/// returns the payload truncated to 32 bits, and widening then truncating
/// is the identity.
pub proof fn lemma_number_i32_round_trip(x: i32)
    ensures
        number_payload(SlotVal::Number(x as i64)) as i32 == x,
{
}

/// A number built from a signed 64-bit value extracts back to it exactly.
pub proof fn lemma_number_i64_round_trip(x: i64)
    ensures
        number_payload(SlotVal::Number(x)) == x,
{
}

/// A string built from UTF-8 text extracts back to the same text: the
/// constructor stores exactly the given characters and extraction returns
/// exactly the stored characters.
pub proof fn lemma_string_round_trip(s: Seq<char>)
    ensures
        text_payload(SlotVal::Text(s)) == s,
{
}

/// The boolean singletons hold their own truth values: under any
/// well-formed environment, the handle for `b` points at a boolean slot
/// whose payload is `b`, so extraction returns `b`.
pub proof fn lemma_boolean_round_trip(e: HostEnvView, b: bool)
    requires
        e.wf(),
    ensures
        e.value_of(boolean_handle(b)) == SlotVal::Boolean(b),
{
}

/// Boolean coercion of a boolean is the identity, so coercing one of the
/// singletons hands the same singleton back.
pub proof fn lemma_boolean_coercion_identity(e: HostEnvView, b: bool)
    requires
        e.wf(),
    ensures
        boolean_handle(truthy(e.value_of(boolean_handle(b)))) == boolean_handle(b),
{
}

} // verus!
