use vstd::prelude::*;

verus! {

pub const INTERNAL_SERVER_ERROR: &'static str = "INTERNAL_SERVER_ERROR";

pub const URI_NOT_FOUND: &'static str = "URI_NOT_FOUND";

pub const INVALID_PARAMETER: &'static str = "INVALID_PARAMETER";

pub const FIELD_REQUIRED: &'static str = "FIELD_REQUIRED";

pub const VALUE_INVALID: &'static str = "VALUE_INVALID";

pub const TIMEOUT_ERROR: &'static str = "TIMEOUT_ERROR";

pub const UNAUTHORIZED: &'static str = "UNAUTHORIZED";

pub const OBJECT_NOT_FOUND: &'static str = "OBJECT_NOT_FOUND";

pub const SECOND_FACTOR_REQUIRED: &'static str = "SECOND_FACTOR_REQUIRED";

} // verus!
