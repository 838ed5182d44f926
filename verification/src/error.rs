//! The failures that conversion of an object to text can end in.

use vstd::prelude::*;
use vstd::std_specs::convert::FromSpecImpl;

verus! {

/// `serde_value::SerializerError`: why an object could not be turned into
/// a structured value. Carried through as it is.
#[verifier::external_type_specification]
#[verifier::external_body]
pub struct ExSerializerError(serde_value::SerializerError);

/// `serde_json::Error`: why a value could not be written as text. Carried
/// through as it is.
#[verifier::external_type_specification]
#[verifier::external_body]
pub struct ExJsonError(serde_json::Error);

/// A failure of one of the two steps from an object to text.
#[derive(Debug)]
pub enum GelfError {
    /// The object could not be turned into a structured value.
    ValueSerializerError(serde_value::SerializerError),
    /// The value could not be written as text.
    JsonSerializerError(serde_json::Error),
}

impl GelfError {
    /// What the failure says of itself: the text that the failure it holds
    /// displays.
    pub fn message(&self) -> (text: String)
        ensures
            match self {
                GelfError::ValueSerializerError(err) => vstd::string::to_string_from_display_ensures::<
                    serde_value::SerializerError,
                >(err, text),
                GelfError::JsonSerializerError(err) => vstd::string::to_string_from_display_ensures::<
                    serde_json::Error,
                >(err, text),
            },
    {
        match self {
            GelfError::ValueSerializerError(err) => err.to_string(),
            GelfError::JsonSerializerError(err) => err.to_string(),
        }
    }
}

impl From<serde_value::SerializerError> for GelfError {
    fn from(err: serde_value::SerializerError) -> (e: GelfError) {
        GelfError::ValueSerializerError(err)
    }
}

impl FromSpecImpl<serde_value::SerializerError> for GelfError {
    open spec fn obeys_from_spec() -> bool {
        true
    }

    open spec fn from_spec(err: serde_value::SerializerError) -> GelfError {
        GelfError::ValueSerializerError(err)
    }
}

impl From<serde_json::Error> for GelfError {
    fn from(err: serde_json::Error) -> (e: GelfError) {
        GelfError::JsonSerializerError(err)
    }
}

impl FromSpecImpl<serde_json::Error> for GelfError {
    open spec fn obeys_from_spec() -> bool {
        true
    }

    open spec fn from_spec(err: serde_json::Error) -> GelfError {
        GelfError::JsonSerializerError(err)
    }
}

} // verus!
