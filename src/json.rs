//! JSON values that the runtime carries without reading them.

use vstd::prelude::*;

verus! {

/// serde_json's value type, carried through routing as an opaque payload.
#[verifier::external_type_specification]
#[verifier::external_body]
pub struct ExValue(serde_json::Value);

} // verus!
