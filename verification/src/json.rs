//! Declaration of the JSON value type of the `serde_json` crate.
//!
//! Values of this type are opaque to the verifier: the crate carries them
//! through (as audit metadata, or as the row and data cells of UI
//! components) without inspecting them.

use vstd::prelude::*;

verus! {

#[verifier::external_type_specification]
#[verifier::external_body]
pub struct ExValue(serde_json::Value);

} // verus!
