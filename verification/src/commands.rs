//! Decisions behind the application's commands.
use crate::models::{model_from_key, ModelId};
use vstd::prelude::*;

verus! {

broadcast use vstd::string::group_string_axioms;

/// The model a frontend request names, or the error for an unknown name.
pub fn parse_model_request(model_id: &str) -> (r: Result<ModelId, String>)
    ensures
        match r {
            Ok(id) => model_from_key(model_id@) == Some(id),
            Err(m) => model_from_key(model_id@) is None && m@ == "Unknown model: "@ + model_id@,
        },
{
    match ModelId::from_str(model_id) {
        Some(id) => Ok(id),
        None => Err(String::from_str("Unknown model: ").concat(model_id)),
    }
}

} // verus!
