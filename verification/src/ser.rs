//! Flattening: a structured value becomes a single-level mapping from
//! compound field names to scalars.

use vstd::prelude::*;
use crate::flat::{
    all_scalar, as_mapping, lemma_insert_new, map_of, strictly_sorted, FlatMap, Pair,
};
use crate::key::{decimal, flat_key, index_text, key_text, KeyNaming, KeySerializer};
use crate::order::key_lt;
use crate::value::{Value, ValueView};

verus! {

/// The flat mapping of `value`, which has the local name `local` under the
/// path `prefix`.
///
/// A scalar gives one entry, under its field name. A sequence or a mapping
/// gives the entries of its parts, each flattened under the field name of
/// the whole as its path, with its index or its key as its local name. The
/// parts are merged in their order, and a later entry replaces an earlier
/// one of the same name.
pub open spec fn flatten(
    naming: KeyNaming,
    prefix: Seq<char>,
    local: Seq<char>,
    value: ValueView,
) -> Map<Seq<char>, ValueView>
    decreases value, 0nat,
{
    match value {
        ValueView::Sequence(items) => flatten_items(
            naming,
            flat_key(naming, prefix, local, value),
            items,
            items.len(),
        ),
        ValueView::Mapping(entries) => flatten_entries(
            naming,
            flat_key(naming, prefix, local, value),
            entries,
            entries.len(),
        ),
        _ => map![flat_key(naming, prefix, local, value) => value],
    }
}

/// The flat mapping of the first `count` elements of a sequence whose field
/// name is `path`.
pub open spec fn flatten_items(
    naming: KeyNaming,
    path: Seq<char>,
    items: Seq<ValueView>,
    count: nat,
) -> Map<Seq<char>, ValueView>
    decreases items, count,
{
    if count == 0 || count > items.len() {
        Map::empty()
    } else {
        flatten_items(naming, path, items, (count - 1) as nat).union_prefer_right(
            flatten(naming, path, decimal((count - 1) as nat), items[count - 1]),
        )
    }
}

/// The flat mapping of the first `count` entries of a mapping whose field
/// name is `path`.
pub open spec fn flatten_entries(
    naming: KeyNaming,
    path: Seq<char>,
    entries: Seq<(ValueView, ValueView)>,
    count: nat,
) -> Map<Seq<char>, ValueView>
    decreases entries, count,
{
    if count == 0 || count > entries.len() {
        Map::empty()
    } else {
        flatten_entries(naming, path, entries, (count - 1) as nat).union_prefer_right(
            flatten(naming, path, entries[count - 1].0.text(), entries[count - 1].1),
        )
    }
}

/// Whether every value of a mapping is a scalar.
pub open spec fn scalars_only(map: Map<Seq<char>, ValueView>) -> bool {
    forall|name: Seq<char>| map.contains_key(name) ==> (#[trigger] map[name]).is_scalar()
}

/// Flattening yields scalars only: no value of the flat mapping is a
/// sequence or a mapping.
pub proof fn lemma_flatten_scalars(
    naming: KeyNaming,
    prefix: Seq<char>,
    local: Seq<char>,
    value: ValueView,
)
    ensures
        scalars_only(flatten(naming, prefix, local, value)),
    decreases value, 0nat,
{
    let path = flat_key(naming, prefix, local, value);
    match value {
        ValueView::Sequence(items) => {
            lemma_flatten_items_scalars(naming, path, items, items.len());
        },
        ValueView::Mapping(entries) => {
            lemma_flatten_entries_scalars(naming, path, entries, entries.len());
        },
        _ => {},
    }
}

/// The elements of a sequence flatten to scalars only.
pub proof fn lemma_flatten_items_scalars(
    naming: KeyNaming,
    path: Seq<char>,
    items: Seq<ValueView>,
    count: nat,
)
    ensures
        scalars_only(flatten_items(naming, path, items, count)),
    decreases items, count,
{
    if !(count == 0 || count > items.len()) {
        lemma_flatten_items_scalars(naming, path, items, (count - 1) as nat);
        lemma_flatten_scalars(naming, path, decimal((count - 1) as nat), items[count - 1]);
    }
}

/// The entries of a mapping flatten to scalars only.
pub proof fn lemma_flatten_entries_scalars(
    naming: KeyNaming,
    path: Seq<char>,
    entries: Seq<(ValueView, ValueView)>,
    count: nat,
)
    ensures
        scalars_only(flatten_entries(naming, path, entries, count)),
    decreases entries, count,
{
    if !(count == 0 || count > entries.len()) {
        lemma_flatten_entries_scalars(naming, path, entries, (count - 1) as nat);
        lemma_flatten_scalars(
            naming,
            path,
            entries[count - 1].0.text(),
            entries[count - 1].1,
        );
    }
}

/// Where two parts of a sequence yield the same field name, the later part
/// wins: what the last of `count` elements yields stands in the result as
/// it is.
pub proof fn lemma_later_item_wins(
    naming: KeyNaming,
    path: Seq<char>,
    items: Seq<ValueView>,
    count: nat,
    name: Seq<char>,
)
    requires
        0 < count <= items.len(),
        flatten(naming, path, decimal((count - 1) as nat), items[count - 1]).contains_key(name),
    ensures
        flatten_items(naming, path, items, count).contains_key(name),
        flatten_items(naming, path, items, count)[name] == flatten(
            naming,
            path,
            decimal((count - 1) as nat),
            items[count - 1],
        )[name],
{
}

/// Where two entries of a mapping yield the same field name, the later
/// entry wins: what the last of `count` entries yields stands in the result
/// as it is.
pub proof fn lemma_later_entry_wins(
    naming: KeyNaming,
    path: Seq<char>,
    entries: Seq<(ValueView, ValueView)>,
    count: nat,
    name: Seq<char>,
)
    requires
        0 < count <= entries.len(),
        flatten(naming, path, entries[count - 1].0.text(), entries[count - 1].1).contains_key(
            name,
        ),
    ensures
        flatten_entries(naming, path, entries, count).contains_key(name),
        flatten_entries(naming, path, entries, count)[name] == flatten(
            naming,
            path,
            entries[count - 1].0.text(),
            entries[count - 1].1,
        )[name],
{
}

/// At the root a name is the field name of its own entry exactly when it
/// is empty: every other name gains an underscore in front.
pub proof fn lemma_root_name(naming: KeyNaming, local: Seq<char>, value: ValueView)
    ensures
        flat_key(naming, Seq::empty(), local, value) == local <==> local.len() == 0,
{
    if local.len() > 0 {
        assert(flat_key(naming, Seq::empty(), local, value).len() > local.len());
    } else {
        assert(local =~= Seq::empty());
    }
}

/// Flattening a mapping of one level with one scalar entry gives one
/// entry: the value, under the field name that the key has at the root.
pub proof fn lemma_reflatten_one(naming: KeyNaming, name: Seq<char>, value: ValueView)
    requires
        value.is_scalar(),
    ensures
        flatten(naming, Seq::empty(), Seq::empty(), as_mapping(seq![(name, value)])) == map![
            flat_key(naming, Seq::empty(), name, value) => value
        ],
{
    let entries = as_mapping(seq![(name, value)])->Mapping_0;
    let path = Seq::<char>::empty();
    assert(flat_key(naming, path, path, as_mapping(seq![(name, value)])) == path);
    assert(entries[0] == (ValueView::String(name), value));
    assert(entries.len() == 1);
    assert(entries[0].0.text() == name);
    assert(flatten(naming, path, name, value) == map![flat_key(naming, path, name, value) => value]);
    assert(flatten_entries(naming, path, entries, 0) == Map::<Seq<char>, ValueView>::empty());
    assert(flatten_entries(naming, path, entries, 1) =~= map![
        flat_key(naming, path, name, value) => value
    ]);
}

/// Flattening a flat mapping again, as a mapping of one level, gives the
/// mapping itself, where every name of it is the field name of its own
/// entry at the root. Only the empty name is (`lemma_root_name`), so this
/// is the empty mapping and the mapping of the empty name alone; every
/// other name comes back with one more underscore in front
/// (`lemma_reflatten_one`).
pub proof fn lemma_reflatten_fixed(naming: KeyNaming, pairs: Seq<Pair>)
    requires
        strictly_sorted(pairs),
        all_scalar(pairs),
        forall|i: int|
            0 <= i < pairs.len() ==> flat_key(
                naming,
                Seq::empty(),
                (#[trigger] pairs[i]).0,
                pairs[i].1,
            ) == pairs[i].0,
    ensures
        flatten(naming, Seq::empty(), Seq::empty(), as_mapping(pairs)) == map_of(pairs),
{
    let path = Seq::<char>::empty();
    assert(flat_key(naming, path, path, as_mapping(pairs)) == path);
    lemma_reflatten_prefix(naming, pairs, pairs.len());
    assert(pairs.take(pairs.len() as int) =~= pairs);
}

/// The first `count` entries of a flat mapping, flattened again, are these
/// entries.
proof fn lemma_reflatten_prefix(naming: KeyNaming, pairs: Seq<Pair>, count: nat)
    requires
        strictly_sorted(pairs),
        all_scalar(pairs),
        count <= pairs.len(),
        forall|i: int|
            0 <= i < pairs.len() ==> flat_key(
                naming,
                Seq::empty(),
                (#[trigger] pairs[i]).0,
                pairs[i].1,
            ) == pairs[i].0,
    ensures
        flatten_entries(naming, Seq::empty(), as_mapping(pairs)->Mapping_0, count) == map_of(
            pairs.take(count as int),
        ),
    decreases count,
{
    let path = Seq::<char>::empty();
    let entries = as_mapping(pairs)->Mapping_0;
    if count == 0 {
        assert(map_of(pairs.take(0)) =~= Map::<Seq<char>, ValueView>::empty());
    } else {
        let last = count - 1;
        lemma_reflatten_prefix(naming, pairs, last as nat);
        let before = pairs.take(last);
        assert(entries[last] == (ValueView::String(pairs[last].0), pairs[last].1));
        assert(pairs[last].1.is_scalar());
        assert(flatten(naming, path, pairs[last].0, pairs[last].1) == map![
            pairs[last].0 => pairs[last].1
        ]);
        assert forall|i: int, j: int| 0 <= i < j < before.len() implies key_lt(
            (#[trigger] before[i]).0,
            (#[trigger] before[j]).0,
        ) by {
            assert(key_lt(pairs[i].0, pairs[j].0));
        }
        assert forall|i: int| 0 <= i < last implies key_lt(
            (#[trigger] before[i]).0,
            pairs[last].0,
        ) by {
            assert(key_lt(pairs[i].0, pairs[last].0));
        }
        lemma_insert_new(before, last, pairs[last]);
        assert(pairs.take(count as int) =~= before.insert(last, pairs[last]));
        assert(map_of(before).union_prefer_right(map![pairs[last].0 => pairs[last].1])
            =~= map_of(before).insert(pairs[last].0, pairs[last].1));
    }
}

/// Flattens structured values.
pub struct FlatSerializer;

impl FlatSerializer {
    /// Flattens `value`, which has the local name `key` under the path
    /// `xpath`, in the naming mode of this build.
    pub fn disassemble(xpath: &str, key: &str, value: &Value) -> (parts: FlatMap)
        requires
            value@.has_text_keys(),
        ensures
            parts@ == flatten(KeyNaming::active(), xpath@, key@, value@),
            scalars_only(parts@),
    {
        Self::disassemble_with(KeyNaming::active(), xpath, key, value)
    }

    /// Flattens `value`, which has the local name `key` under the path
    /// `xpath`, with the field names of `naming`.
    pub fn disassemble_with(naming: KeyNaming, xpath: &str, key: &str, value: &Value) -> (parts:
        FlatMap)
        requires
            value@.has_text_keys(),
        ensures
            parts@ == flatten(naming, xpath@, key@, value@),
            scalars_only(parts@),
        decreases value, 0nat,
    {
        proof {
            lemma_flatten_scalars(naming, xpath@, key@, value@);
        }
        match value {
            Value::Mapping(entries) => {
                let path = KeySerializer::format_key(naming, xpath, key, value);
                Self::disassemble_entries(naming, path.as_str(), entries, Ghost(value@))
            },
            Value::Sequence(items) => {
                let path = KeySerializer::format_key(naming, xpath, key, value);
                Self::disassemble_items(naming, path.as_str(), items, Ghost(value@))
            },
            _ => {
                let mut parts = FlatMap::new();
                parts.insert(KeySerializer::format_key(naming, xpath, key, value), value.clone());
                assert(parts@ =~= flatten(naming, xpath@, key@, value@));
                parts
            },
        }
    }

    /// Flattens the elements of a sequence whose field name is `path`.
    fn disassemble_items(
        naming: KeyNaming,
        path: &str,
        items: &Vec<Value>,
        Ghost(whole): Ghost<ValueView>,
    ) -> (parts: FlatMap)
        requires
            whole is Sequence,
            whole.has_text_keys(),
            whole->Sequence_0.len() == items@.len(),
            forall|i: int| 0 <= i < items@.len() ==> whole->Sequence_0[i] == (#[trigger] items@[i])@,
        ensures
            parts@ == flatten_items(
                naming,
                path@,
                whole->Sequence_0,
                whole->Sequence_0.len(),
            ),
        decreases items, 1nat,
    {
        let ghost models = whole->Sequence_0;
        let mut parts = FlatMap::new();
        let mut i: usize = 0;
        while i < items.len()
            invariant
                i <= items@.len(),
                models == whole->Sequence_0,
                models.len() == items@.len(),
                whole is Sequence,
                whole.has_text_keys(),
                forall|j: int| 0 <= j < items@.len() ==> models[j] == (#[trigger] items@[j])@,
                parts@ == flatten_items(naming, path@, models, i as nat),
            decreases items@.len() - i,
        {
            assert(models[i as int].has_text_keys());
            assert(models[i as int] == items@[i as int]@);
            let local = index_text(i);
            let sub = Self::disassemble_with(naming, path, local.as_str(), &items[i]);
            parts.extend(sub);
            i += 1;
        }
        parts
    }

    /// Flattens the entries of a mapping whose field name is `path`.
    fn disassemble_entries(
        naming: KeyNaming,
        path: &str,
        entries: &Vec<(Value, Value)>,
        Ghost(whole): Ghost<ValueView>,
    ) -> (parts: FlatMap)
        requires
            whole is Mapping,
            whole.has_text_keys(),
            whole->Mapping_0.len() == entries@.len(),
            forall|i: int|
                0 <= i < entries@.len() ==> whole->Mapping_0[i] == (
                    (#[trigger] entries@[i]).0@,
                    entries@[i].1@,
                ),
        ensures
            parts@ == flatten_entries(
                naming,
                path@,
                whole->Mapping_0,
                whole->Mapping_0.len(),
            ),
        decreases entries, 1nat,
    {
        let ghost models = whole->Mapping_0;
        let mut parts = FlatMap::new();
        let mut i: usize = 0;
        while i < entries.len()
            invariant
                i <= entries@.len(),
                models == whole->Mapping_0,
                models.len() == entries@.len(),
                whole is Mapping,
                whole.has_text_keys(),
                forall|j: int|
                    0 <= j < entries@.len() ==> models[j] == (
                        (#[trigger] entries@[j]).0@,
                        entries@[j].1@,
                    ),
                parts@ == flatten_entries(naming, path@, models, i as nat),
            decreases entries@.len() - i,
        {
            assert(models[i as int].0.is_text() && models[i as int].1.has_text_keys());
            assert(models[i as int] == (entries@[i as int].0@, entries@[i as int].1@));
            let local = key_text(&entries[i].0);
            let sub = Self::disassemble_with(naming, path, local.as_str(), &entries[i].1);
            parts.extend(sub);
            i += 1;
        }
        parts
    }
}

} // verus!
