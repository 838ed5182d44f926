//! Field names of the flat mapping: how a name is made from the path to a
//! value, the local name of the value and, in one naming mode, its type.

use vstd::prelude::*;
use vstd::string::StringExecFns;
use crate::value::{Value, ValueView};

verus! {

/// Whether this build appends a type suffix to field names. One mode is
/// active for a build; it is no setting of a single call.
pub const TYPED_SUFFIX: bool = false;

/// How field names are made.
#[derive(Debug, Clone, Copy, PartialEq, Eq, Structural)]
pub enum KeyNaming {
    /// The path and the local name, joined by underscores.
    Plain,
    /// As `Plain`, followed by a suffix that tells the type class of the
    /// value.
    TypedSuffix,
}

impl KeyNaming {
    /// The naming mode of this build.
    pub open spec fn spec_active() -> KeyNaming {
        if TYPED_SUFFIX {
            KeyNaming::TypedSuffix
        } else {
            KeyNaming::Plain
        }
    }

    /// The naming mode of this build.
    #[verifier::when_used_as_spec(spec_active)]
    pub fn active() -> (naming: KeyNaming)
        ensures
            naming == KeyNaming::spec_active(),
    {
        if TYPED_SUFFIX {
            KeyNaming::TypedSuffix
        } else {
            KeyNaming::Plain
        }
    }
}

/// The suffix that tells the type class of a value: `_bool` for a boolean,
/// `_double` for an unsigned integer, `_long` for a signed integer, `_float`
/// for a floating-point number, and nothing for anything else.
pub open spec fn type_suffix(value: ValueView) -> Seq<char> {
    match value {
        ValueView::Bool(_) => "_bool"@,
        ValueView::U8(_) | ValueView::U16(_) | ValueView::U32(_) | ValueView::U64(_) => "_double"@,
        ValueView::I8(_) | ValueView::I16(_) | ValueView::I32(_) | ValueView::I64(_) => "_long"@,
        ValueView::F32(_) | ValueView::F64(_) => "_float"@,
        _ => Seq::empty(),
    }
}

/// The suffix that a naming mode gives to the name of a value.
pub open spec fn key_suffix(naming: KeyNaming, value: ValueView) -> Seq<char> {
    match naming {
        KeyNaming::Plain => Seq::empty(),
        KeyNaming::TypedSuffix => type_suffix(value),
    }
}

/// The field name of a value with the local name `local` under the path
/// `prefix`. An empty local name gives the empty name; otherwise the name
/// is the path, an underscore, the local name and the suffix.
pub open spec fn flat_key(
    naming: KeyNaming,
    prefix: Seq<char>,
    local: Seq<char>,
    value: ValueView,
) -> Seq<char> {
    if local.len() == 0 {
        Seq::empty()
    } else if prefix.len() == 0 {
        seq!['_'] + local + key_suffix(naming, value)
    } else {
        prefix + seq!['_'] + local + key_suffix(naming, value)
    }
}

/// The character of a decimal digit.
pub open spec fn digit(d: nat) -> char {
    if d == 0 {
        '0'
    } else if d == 1 {
        '1'
    } else if d == 2 {
        '2'
    } else if d == 3 {
        '3'
    } else if d == 4 {
        '4'
    } else if d == 5 {
        '5'
    } else if d == 6 {
        '6'
    } else if d == 7 {
        '7'
    } else if d == 8 {
        '8'
    } else {
        '9'
    }
}

/// A number in decimal digits, without leading zeros: the local name of an
/// element of a sequence is its index written this way.
pub open spec fn decimal(n: nat) -> Seq<char>
    decreases n,
{
    if n < 10 {
        seq![digit(n)]
    } else {
        decimal(n / 10).push(digit(n % 10))
    }
}

/// The text of one decimal digit.
fn digit_text(d: usize) -> (text: &'static str)
    requires
        d < 10,
    ensures
        text@ == seq![digit(d as nat)],
{
    proof {
        reveal_strlit("0");
        reveal_strlit("1");
        reveal_strlit("2");
        reveal_strlit("3");
        reveal_strlit("4");
        reveal_strlit("5");
        reveal_strlit("6");
        reveal_strlit("7");
        reveal_strlit("8");
        reveal_strlit("9");
    }
    let text = if d == 0 {
        "0"
    } else if d == 1 {
        "1"
    } else if d == 2 {
        "2"
    } else if d == 3 {
        "3"
    } else if d == 4 {
        "4"
    } else if d == 5 {
        "5"
    } else if d == 6 {
        "6"
    } else if d == 7 {
        "7"
    } else if d == 8 {
        "8"
    } else {
        "9"
    };
    assert(text@ =~= seq![digit(d as nat)]);
    text
}

/// The index of an element of a sequence, as its local name.
pub fn index_text(index: usize) -> (text: String)
    ensures
        text@ == decimal(index as nat),
    decreases index,
{
    if index < 10 {
        String::from_str(digit_text(index))
    } else {
        let mut text = index_text(index / 10);
        text.append(digit_text(index % 10));
        assert(text@ =~= decimal(index as nat));
        text
    }
}

/// The local name that a key of a mapping stands for: the string itself,
/// or the character as a string of one character.
pub fn key_text(key: &Value) -> (text: String)
    requires
        key@.is_text(),
    ensures
        text@ == key@.text(),
{
    match key {
        Value::String(data) => data.clone(),
        Value::Char(data) => char_text(*data),
        _ => String::new(),
    }
}

/// `String::from` on a character: the string that holds this one
/// character.
#[verifier::external_body]
fn char_text(c: char) -> (text: String)
    ensures
        text@ == seq![c],
{
    String::from(c)
}

/// Makes the field names.
pub struct KeySerializer;

impl KeySerializer {
    /// The suffix that tells the type class of a value.
    pub fn schema_suffix(value: &Value) -> (suffix: &'static str)
        ensures
            suffix@ == type_suffix(value@),
    {
        proof {
            reveal_strlit("");
        }
        let suffix = match value {
            Value::Bool(_) => "_bool",
            Value::U8(_) | Value::U16(_) | Value::U32(_) | Value::U64(_) => "_double",
            Value::I8(_) | Value::I16(_) | Value::I32(_) | Value::I64(_) => "_long",
            Value::F32(_) | Value::F64(_) => "_float",
            _ => "",
        };
        assert(suffix@ =~= type_suffix(value@));
        suffix
    }

    /// The field name of `value` with the local name `key` under the path
    /// `xpath`.
    pub fn format_key(naming: KeyNaming, xpath: &str, key: &str, value: &Value) -> (name: String)
        ensures
            name@ == flat_key(naming, xpath@, key@, value@),
    {
        proof {
            reveal_strlit("_");
            reveal_strlit("");
        }
        if key.is_empty() {
            let name = String::new();
            assert(name@ =~= flat_key(naming, xpath@, key@, value@));
            name
        } else {
            let mut name = if xpath.is_empty() {
                String::from_str("_")
            } else {
                String::from_str(xpath).concat("_")
            };
            name.append(key);
            match naming {
                KeyNaming::Plain => {},
                KeyNaming::TypedSuffix => {
                    name.append(Self::schema_suffix(value));
                },
            }
            assert(name@ =~= flat_key(naming, xpath@, key@, value@));
            name
        }
    }
}

} // verus!
