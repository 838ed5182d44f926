//! Flattening of structured values into GELF additional fields, and the GELF
//! record that carries them.
//!
//! A structured [`Value`] is flattened into a [`FlatMap`], a single-level
//! mapping from compound field names to scalars, and a [`GelfRecord`] merges
//! such mappings into its additional fields.

use vstd::prelude::*;

pub mod error;
pub mod flat;
pub mod key;
pub mod level;
pub mod order;
pub mod record;
pub mod ser;
pub mod value;

pub use error::GelfError;
pub use flat::FlatMap;
pub use key::{KeyNaming, KeySerializer};
pub use level::GelfLevel;
pub use record::{GelfRecord, GelfRecordBuilder, GelfRecordGetter, GelfRecordSetter, LogEvent};
pub use ser::FlatSerializer;
pub use value::Value;

verus! {

/// Flattens what an object was turned into, from the root: the flat mapping
/// of the value, or the failure to turn the object into a value, as it is.
pub fn to_flat_dict(value: Result<Value, serde_value::SerializerError>) -> (flat: Result<
    FlatMap,
    serde_value::SerializerError,
>)
    requires
        value matches Ok(v) ==> v@.has_text_keys(),
    ensures
        match value {
            Ok(v) => flat matches Ok(fields) && fields@ == ser::flatten(
                KeyNaming::active(),
                Seq::empty(),
                Seq::empty(),
                v@,
            ) && ser::scalars_only(fields@),
            Err(err) => flat == Err::<FlatMap, serde_value::SerializerError>(err),
        },
{
    match value {
        Ok(v) => {
            proof {
                reveal_strlit("");
            }
            let fields = FlatSerializer::disassemble("", "", &v);
            assert(""@ =~= Seq::<char>::empty());
            Ok(fields)
        },
        Err(err) => Err(err),
    }
}

} // verus!
