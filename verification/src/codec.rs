//! Interface to the CBOR value type of the `oasis_cbor_value` crate.
//!
//! The core treats an encoded request body as an opaque CBOR value and
//! carries it through unchanged.  The fixed-width value types in
//! [`crate::types`] serialize as CBOR byte strings; the two trusted
//! functions here construct and take apart exactly that one variant.

use vstd::prelude::*;

verus! {

/// CBOR value of the `oasis_cbor_value` crate, declared so that it can
/// stand in signatures and fields.  It is opaque here: the core never
/// reads inside it.
#[verifier::external_type_specification]
#[verifier::external_body]
pub struct ExCborValue(oasis_cbor_value::Value);

/// The CBOR byte-string value that holds exactly the bytes `b`.
pub uninterp spec fn byte_string_of(b: Seq<u8>) -> oasis_cbor_value::Value;

/// Relies on `oasis_cbor_value::Value::ByteString`: the constructed value
/// is the byte string holding exactly the given bytes.
#[verifier::external_body]
pub(crate) fn byte_string_value(bytes: Vec<u8>) -> (r: oasis_cbor_value::Value)
    ensures
        r == byte_string_of(bytes@),
{
    oasis_cbor_value::Value::ByteString(bytes)
}

/// Relies on the `Clone` derive of `oasis_cbor_value::Value`: a clone is
/// equal to the value it was made from.
pub assume_specification[ <oasis_cbor_value::Value as Clone>::clone ](
    v: &oasis_cbor_value::Value,
) -> (r: oasis_cbor_value::Value)
    ensures
        r == *v,
;

/// Relies on matching `oasis_cbor_value::Value`: the `ByteString` variant
/// holds exactly its bytes, two byte strings with the same bytes are the
/// same value, and no other variant is a byte string.
#[verifier::external_body]
pub(crate) fn value_into_byte_string(value: oasis_cbor_value::Value) -> (r: Option<Vec<u8>>)
    ensures
        match r {
            Some(b) => value == byte_string_of(b@) && (forall|s: Seq<u8>|
                byte_string_of(s) == value ==> s == b@),
            None => forall|s: Seq<u8>| byte_string_of(s) != value,
        },
{
    match value {
        oasis_cbor_value::Value::ByteString(b) => Some(b),
        _ => None,
    }
}

} // verus!
