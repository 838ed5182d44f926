//! The structured value that is flattened, and its mathematical model.
//!
//! A [`Value`] is a closed sum of scalars, ordered sequences and ordered
//! mappings. Floating-point numbers are carried as their IEEE 754 bit
//! patterns, so that a value can be copied and compared exactly.

use vstd::prelude::*;

verus! {

/// The mathematical model of a [`Value`]: strings are sequences of
/// characters, and the two collections are sequences in iteration order.
pub enum ValueView {
    Bool(bool),
    U8(u8),
    U16(u16),
    U32(u32),
    U64(u64),
    I8(i8),
    I16(i16),
    I32(i32),
    I64(i64),
    /// The bit pattern of a single-precision number.
    F32(u32),
    /// The bit pattern of a double-precision number.
    F64(u64),
    Char(char),
    String(Seq<char>),
    Unit,
    Option(Option<Box<ValueView>>),
    Newtype(Box<ValueView>),
    Sequence(Seq<ValueView>),
    Mapping(Seq<(ValueView, ValueView)>),
    Bytes(Seq<u8>),
}

impl ValueView {
    /// A scalar is anything but a sequence or a mapping; it is what a flat
    /// mapping holds.
    pub open spec fn is_scalar(self) -> bool {
        !(self is Sequence) && !(self is Mapping)
    }

    /// Whether the value can name a field: only strings and characters do.
    pub open spec fn is_text(self) -> bool {
        self is String || self is Char
    }

    /// The field name that a key stands for. Meaningful for text keys.
    pub open spec fn text(self) -> Seq<char> {
        match self {
            ValueView::String(s) => s,
            ValueView::Char(c) => seq![c],
            _ => Seq::empty(),
        }
    }

    /// Whether every mapping that flattening walks through has text keys
    /// only. Flattening descends into sequences and mappings, and into
    /// nothing else.
    pub open spec fn has_text_keys(self) -> bool
        decreases self,
    {
        match self {
            ValueView::Sequence(items) => forall|i: int|
                0 <= i < items.len() ==> (#[trigger] items[i]).has_text_keys(),
            ValueView::Mapping(entries) => forall|i: int|
                0 <= i < entries.len() ==> (#[trigger] entries[i]).0.is_text()
                    && entries[i].1.has_text_keys(),
            _ => true,
        }
    }
}

/// A structured value: the closed union that a structural serializer
/// produces from any object.
#[derive(Debug, PartialEq)]
pub enum Value {
    Bool(bool),
    U8(u8),
    U16(u16),
    U32(u32),
    U64(u64),
    I8(i8),
    I16(i16),
    I32(i32),
    I64(i64),
    /// A single-precision number, as its bit pattern.
    F32(u32),
    /// A double-precision number, as its bit pattern.
    F64(u64),
    Char(char),
    String(String),
    Unit,
    Option(Option<Box<Value>>),
    Newtype(Box<Value>),
    /// An ordered sequence of values.
    Sequence(Vec<Value>),
    /// A mapping, as its entries in iteration order.
    Mapping(Vec<(Value, Value)>),
    Bytes(Vec<u8>),
}

impl View for Value {
    type V = ValueView;

    open spec fn view(&self) -> ValueView {
        self.model()
    }
}

impl Value {
    /// The mathematical model of the value, which is also its view.
    pub open spec fn model(&self) -> ValueView
        decreases self,
    {
        match self {
            Value::Bool(b) => ValueView::Bool(*b),
            Value::U8(n) => ValueView::U8(*n),
            Value::U16(n) => ValueView::U16(*n),
            Value::U32(n) => ValueView::U32(*n),
            Value::U64(n) => ValueView::U64(*n),
            Value::I8(n) => ValueView::I8(*n),
            Value::I16(n) => ValueView::I16(*n),
            Value::I32(n) => ValueView::I32(*n),
            Value::I64(n) => ValueView::I64(*n),
            Value::F32(bits) => ValueView::F32(*bits),
            Value::F64(bits) => ValueView::F64(*bits),
            Value::Char(c) => ValueView::Char(*c),
            Value::String(s) => ValueView::String(s@),
            Value::Unit => ValueView::Unit,
            Value::Option(None) => ValueView::Option(None),
            Value::Option(Some(inner)) => ValueView::Option(Some(Box::new((**inner).model()))),
            Value::Newtype(inner) => ValueView::Newtype(Box::new((**inner).model())),
            Value::Sequence(items) => ValueView::Sequence(
                Seq::new(
                    items@.len(),
                    |i: int|
                        if 0 <= i < items@.len() {
                            items@[i].model()
                        } else {
                            ValueView::Unit
                        },
                ),
            ),
            Value::Mapping(entries) => ValueView::Mapping(
                Seq::new(
                    entries@.len(),
                    |i: int|
                        if 0 <= i < entries@.len() {
                            (entries@[i].0.model(), entries@[i].1.model())
                        } else {
                            (ValueView::Unit, ValueView::Unit)
                        },
                ),
            ),
            Value::Bytes(bytes) => ValueView::Bytes(bytes@),
        }
    }

    /// Whether the value is a scalar: neither a sequence nor a mapping.
    pub fn is_scalar(&self) -> (b: bool)
        ensures
            b == self@.is_scalar(),
    {
        match self {
            Value::Sequence(_) => false,
            Value::Mapping(_) => false,
            _ => true,
        }
    }

    /// Whether the value can name a field.
    pub fn is_text(&self) -> (b: bool)
        ensures
            b == self@.is_text(),
    {
        match self {
            Value::String(_) => true,
            Value::Char(_) => true,
            _ => false,
        }
    }

    /// Whether every mapping that flattening walks through has text keys
    /// only, which is what flattening asks of its input.
    pub fn has_text_keys(&self) -> (b: bool)
        ensures
            b == self@.has_text_keys(),
        decreases self, 0nat,
    {
        match self {
            Value::Sequence(items) => {
                let b = Self::items_have_text_keys(items);
                proof {
                    let models = self@->Sequence_0;
                    if b {
                        assert forall|j: int| 0 <= j < models.len() implies (
                        #[trigger] models[j]).has_text_keys() by {
                            assert(models[j] == items@[j]@);
                        }
                    } else {
                        let j = choose|j: int|
                            0 <= j < items@.len() && !(#[trigger] items@[j])@.has_text_keys();
                        assert(models[j] == items@[j]@);
                    }
                }
                b
            },
            Value::Mapping(entries) => {
                let b = Self::entries_have_text_keys(entries);
                proof {
                    let models = self@->Mapping_0;
                    if b {
                        assert forall|j: int| 0 <= j < models.len() implies (
                        #[trigger] models[j]).0.is_text() && models[j].1.has_text_keys() by {
                            assert(models[j] == (entries@[j].0@, entries@[j].1@));
                        }
                    } else {
                        let j = choose|j: int|
                            0 <= j < entries@.len() && !((#[trigger] entries@[j]).0@.is_text()
                                && entries@[j].1@.has_text_keys());
                        assert(models[j] == (entries@[j].0@, entries@[j].1@));
                    }
                }
                b
            },
            _ => true,
        }
    }

    /// Whether every element of a sequence has text keys only.
    fn items_have_text_keys(items: &Vec<Value>) -> (b: bool)
        ensures
            b == (forall|j: int| 0 <= j < items@.len() ==> (#[trigger] items@[j])@.has_text_keys()),
        decreases items, 1nat,
    {
        let mut i: usize = 0;
        while i < items.len()
            invariant
                i <= items.len(),
                forall|j: int| 0 <= j < i ==> (#[trigger] items@[j])@.has_text_keys(),
            decreases items.len() - i,
        {
            if !items[i].has_text_keys() {
                return false;
            }
            i += 1;
        }
        true
    }

    /// Whether every entry of a mapping has a text key and a value with
    /// text keys only.
    fn entries_have_text_keys(entries: &Vec<(Value, Value)>) -> (b: bool)
        ensures
            b == (forall|j: int|
                0 <= j < entries@.len() ==> (#[trigger] entries@[j]).0@.is_text()
                    && entries@[j].1@.has_text_keys()),
        decreases entries, 1nat,
    {
        let mut i: usize = 0;
        while i < entries.len()
            invariant
                i <= entries.len(),
                forall|j: int|
                    0 <= j < i ==> (#[trigger] entries@[j]).0@.is_text()
                        && entries@[j].1@.has_text_keys(),
            decreases entries.len() - i,
        {
            if !entries[i].0.is_text() || !entries[i].1.has_text_keys() {
                return false;
            }
            i += 1;
        }
        true
    }

    /// A deep copy: the copy has the same model.
    pub fn deep_copy(&self) -> (copy: Value)
        ensures
            copy@ == self@,
        decreases self, 0nat,
    {
        match self {
            Value::Bool(b) => Value::Bool(*b),
            Value::U8(n) => Value::U8(*n),
            Value::U16(n) => Value::U16(*n),
            Value::U32(n) => Value::U32(*n),
            Value::U64(n) => Value::U64(*n),
            Value::I8(n) => Value::I8(*n),
            Value::I16(n) => Value::I16(*n),
            Value::I32(n) => Value::I32(*n),
            Value::I64(n) => Value::I64(*n),
            Value::F32(bits) => Value::F32(*bits),
            Value::F64(bits) => Value::F64(*bits),
            Value::Char(c) => Value::Char(*c),
            Value::String(s) => Value::String(s.clone()),
            Value::Unit => Value::Unit,
            Value::Option(None) => Value::Option(None),
            Value::Option(Some(inner)) => {
                let copy = (**inner).deep_copy();
                Value::Option(Some(Box::new(copy)))
            },
            Value::Newtype(inner) => {
                let copy = (**inner).deep_copy();
                Value::Newtype(Box::new(copy))
            },
            Value::Sequence(items) => {
                let copy = Value::Sequence(Self::copy_items(items));
                assert(copy@->Sequence_0 =~= self@->Sequence_0);
                copy
            },
            Value::Mapping(entries) => {
                let copy = Value::Mapping(Self::copy_entries(entries));
                assert(copy@->Mapping_0 =~= self@->Mapping_0);
                copy
            },
            Value::Bytes(bytes) => Value::Bytes(Self::copy_bytes(bytes)),
        }
    }

    /// Deep copies of the elements of a sequence.
    fn copy_items(items: &Vec<Value>) -> (copies: Vec<Value>)
        ensures
            copies@.len() == items@.len(),
            forall|j: int| 0 <= j < items@.len() ==> (#[trigger] copies@[j])@ == items@[j]@,
        decreases items, 1nat,
    {
        let mut copies: Vec<Value> = Vec::new();
        let mut i: usize = 0;
        while i < items.len()
            invariant
                i <= items.len(),
                copies@.len() == i,
                forall|j: int| 0 <= j < i ==> (#[trigger] copies@[j])@ == items@[j]@,
            decreases items.len() - i,
        {
            let copy = items[i].deep_copy();
            copies.push(copy);
            i += 1;
        }
        copies
    }

    /// Deep copies of the entries of a mapping.
    fn copy_entries(entries: &Vec<(Value, Value)>) -> (copies: Vec<(Value, Value)>)
        ensures
            copies@.len() == entries@.len(),
            forall|j: int|
                0 <= j < entries@.len() ==> (#[trigger] copies@[j]).0@ == entries@[j].0@
                    && copies@[j].1@ == entries@[j].1@,
        decreases entries, 1nat,
    {
        let mut copies: Vec<(Value, Value)> = Vec::new();
        let mut i: usize = 0;
        while i < entries.len()
            invariant
                i <= entries.len(),
                copies@.len() == i,
                forall|j: int|
                    0 <= j < i ==> (#[trigger] copies@[j]).0@ == entries@[j].0@
                        && copies@[j].1@ == entries@[j].1@,
            decreases entries.len() - i,
        {
            let key = entries[i].0.deep_copy();
            let item = entries[i].1.deep_copy();
            copies.push((key, item));
            i += 1;
        }
        copies
    }

    /// A copy of a byte string.
    fn copy_bytes(bytes: &Vec<u8>) -> (copies: Vec<u8>)
        ensures
            copies@ == bytes@,
    {
        let mut copies: Vec<u8> = Vec::new();
        let mut i: usize = 0;
        while i < bytes.len()
            invariant
                i <= bytes.len(),
                copies@ == bytes@.subrange(0, i as int),
            decreases bytes.len() - i,
        {
            copies.push(bytes[i]);
            assert(copies@ =~= bytes@.subrange(0, i + 1));
            i += 1;
        }
        assert(copies@ =~= bytes@);
        copies
    }
}

impl Clone for Value {
    /// A deep copy: the copy has the same model.
    fn clone(&self) -> (copy: Value)
        ensures
            copy@ == self@,
    {
        self.deep_copy()
    }
}

} // verus!
