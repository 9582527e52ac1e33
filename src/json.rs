use vstd::prelude::*;

verus! {

/// An opaque JSON document (serde_json::Value), carried through unread.
#[verifier::external_type_specification]
#[verifier::external_body]
pub struct ExJsonValue(serde_json::Value);

} // verus!
