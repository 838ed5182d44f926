//! The flat mapping: field names to scalar values, kept in the order of the
//! names.
//!
//! A [`FlatMap`] holds its entries in a vector whose names increase
//! strictly, so that no name occurs twice and two mappings with the same
//! contents hold the same entries in the same order.

use vstd::prelude::*;
use crate::order::{
    key_lt, lemma_key_lt_irreflexive, lemma_key_lt_total, lemma_key_lt_transitive, str_lt,
};
use crate::value::{Value, ValueView};

verus! {

/// An entry of a flat mapping: a field name and the model of its value.
pub type Pair = (Seq<char>, ValueView);

/// Whether the names of `pairs` increase strictly.
pub open spec fn strictly_sorted(pairs: Seq<Pair>) -> bool {
    forall|i: int, j: int|
        0 <= i < j < pairs.len() ==> key_lt((#[trigger] pairs[i]).0, (#[trigger] pairs[j]).0)
}

/// Whether every value of `pairs` is a scalar.
pub open spec fn all_scalar(pairs: Seq<Pair>) -> bool {
    forall|i: int| 0 <= i < pairs.len() ==> (#[trigger] pairs[i]).1.is_scalar()
}

/// Whether some entry of `pairs` has the name `key`.
pub open spec fn holds(pairs: Seq<Pair>, key: Seq<char>) -> bool {
    exists|i: int| 0 <= i < pairs.len() && (#[trigger] pairs[i]).0 == key
}

/// The position of an entry of `pairs` with the name `key`.
pub open spec fn slot(pairs: Seq<Pair>, key: Seq<char>) -> int {
    choose|i: int| 0 <= i < pairs.len() && (#[trigger] pairs[i]).0 == key
}

/// The mapping that `pairs` stands for: each name that occurs maps to the
/// value it occurs with.
pub open spec fn map_of(pairs: Seq<Pair>) -> Map<Seq<char>, ValueView> {
    Map::new(|key: Seq<char>| holds(pairs, key), |key: Seq<char>| pairs[slot(pairs, key)].1)
}

/// The entries as a structured value: a mapping of one level, whose keys
/// are the names, as strings.
pub open spec fn as_mapping(pairs: Seq<Pair>) -> ValueView {
    ValueView::Mapping(
        Seq::new(pairs.len(), |i: int| (ValueView::String(pairs[i].0), pairs[i].1)),
    )
}

/// In a sorted sequence each entry is found under its own name.
pub proof fn lemma_lookup(pairs: Seq<Pair>, i: int)
    requires
        strictly_sorted(pairs),
        0 <= i < pairs.len(),
    ensures
        map_of(pairs).contains_key(pairs[i].0),
        map_of(pairs)[pairs[i].0] == pairs[i].1,
        slot(pairs, pairs[i].0) == i,
{
    let key = pairs[i].0;
    let j = slot(pairs, key);
    assert(pairs[i].0 == key);
    assert(0 <= j < pairs.len() && pairs[j].0 == key);
    lemma_key_lt_irreflexive(key);
    if j < i {
        assert(key_lt(pairs[j].0, pairs[i].0));
    } else if i < j {
        assert(key_lt(pairs[i].0, pairs[j].0));
    }
}

/// Two sorted sequences that stand for the same mapping are the same
/// sequence.
pub proof fn lemma_canonical(a: Seq<Pair>, b: Seq<Pair>)
    requires
        strictly_sorted(a),
        strictly_sorted(b),
        map_of(a) == map_of(b),
    ensures
        a == b,
    decreases a.len(),
{
    if a.len() == 0 {
        if b.len() > 0 {
            lemma_lookup(b, 0);
            assert(map_of(a).contains_key(b[0].0));
        }
        assert(a =~= b);
    } else if b.len() == 0 {
        lemma_lookup(a, 0);
        assert(map_of(b).contains_key(a[0].0));
    } else {
        // The last entries carry the greatest names, so they agree.
        let la = a.len() - 1;
        let lb = b.len() - 1;
        lemma_lookup(a, la);
        lemma_lookup(b, lb);
        assert(map_of(b).contains_key(a[la].0));
        assert(map_of(a).contains_key(b[lb].0));
        let ia = slot(a, b[lb].0);
        let ib = slot(b, a[la].0);
        assert(0 <= ia < a.len() && a[ia].0 == b[lb].0);
        assert(0 <= ib < b.len() && b[ib].0 == a[la].0);
        lemma_key_lt_irreflexive(a[la].0);
        if ia < la {
            assert(key_lt(a[ia].0, a[la].0));
            if ib < lb {
                assert(key_lt(b[ib].0, b[lb].0));
                lemma_key_lt_transitive(a[la].0, b[lb].0, a[la].0);
            }
        }
        assert(a[la].0 == b[lb].0);
        assert(a[la].1 == b[lb].1);
        let ra = a.drop_last();
        let rb = b.drop_last();
        assert(strictly_sorted(ra)) by {
            assert forall|i: int, j: int| 0 <= i < j < ra.len() implies key_lt(
                (#[trigger] ra[i]).0,
                (#[trigger] ra[j]).0,
            ) by {
                assert(key_lt(a[i].0, a[j].0));
            }
        }
        assert(strictly_sorted(rb)) by {
            assert forall|i: int, j: int| 0 <= i < j < rb.len() implies key_lt(
                (#[trigger] rb[i]).0,
                (#[trigger] rb[j]).0,
            ) by {
                assert(key_lt(b[i].0, b[j].0));
            }
        }
        assert(map_of(ra) =~= map_of(rb)) by {
            lemma_drop_last(a);
            lemma_drop_last(b);
        }
        lemma_canonical(ra, rb);
        assert(a =~= ra.push(a[la]));
        assert(b =~= rb.push(b[lb]));
    }
}

/// Dropping the last entry of a sorted sequence removes its name from the
/// mapping and changes nothing else.
pub proof fn lemma_drop_last(pairs: Seq<Pair>)
    requires
        strictly_sorted(pairs),
        pairs.len() > 0,
    ensures
        map_of(pairs.drop_last()) == map_of(pairs).remove(pairs.last().0),
{
    let rest = pairs.drop_last();
    let last = pairs.len() - 1;
    assert(strictly_sorted(rest)) by {
        assert forall|i: int, j: int| 0 <= i < j < rest.len() implies key_lt(
            (#[trigger] rest[i]).0,
            (#[trigger] rest[j]).0,
        ) by {
            assert(key_lt(pairs[i].0, pairs[j].0));
        }
    }
    lemma_key_lt_irreflexive(pairs[last].0);
    assert forall|key: Seq<char>| map_of(rest).contains_key(key) <==> map_of(pairs).remove(
        pairs[last].0,
    ).contains_key(key) by {
        if map_of(rest).contains_key(key) {
            let i = slot(rest, key);
            assert(rest[i].0 == key);
            assert(pairs[i].0 == key);
            assert(key_lt(pairs[i].0, pairs[last].0));
        }
        if map_of(pairs).remove(pairs[last].0).contains_key(key) {
            let i = slot(pairs, key);
            assert(pairs[i].0 == key);
            assert(rest[i].0 == key);
        }
    }
    assert forall|key: Seq<char>| map_of(rest).contains_key(key) implies map_of(rest)[key]
        == map_of(pairs).remove(pairs[last].0)[key] by {
        let i = slot(rest, key);
        assert(rest[i].0 == key);
        lemma_lookup(rest, i);
        lemma_lookup(pairs, i);
    }
    assert(map_of(rest) =~= map_of(pairs).remove(pairs[last].0));
}

/// Putting a new name at its place in a sorted sequence adds it to the
/// mapping and changes nothing else.
pub proof fn lemma_insert_new(pairs: Seq<Pair>, at: int, pair: Pair)
    requires
        strictly_sorted(pairs),
        0 <= at <= pairs.len(),
        forall|i: int| 0 <= i < at ==> key_lt((#[trigger] pairs[i]).0, pair.0),
        forall|i: int| at <= i < pairs.len() ==> key_lt(pair.0, (#[trigger] pairs[i]).0),
    ensures
        strictly_sorted(pairs.insert(at, pair)),
        map_of(pairs.insert(at, pair)) == map_of(pairs).insert(pair.0, pair.1),
{
    let grown = pairs.insert(at, pair);
    assert forall|i: int, j: int| 0 <= i < j < grown.len() implies key_lt(
        (#[trigger] grown[i]).0,
        (#[trigger] grown[j]).0,
    ) by {
        if j < at {
            assert(key_lt(pairs[i].0, pairs[j].0));
        } else if j == at {
            assert(key_lt(pairs[i].0, pair.0));
        } else if i < at {
            assert(key_lt(pairs[i].0, pairs[j - 1].0));
        } else if i == at {
            assert(key_lt(pair.0, pairs[j - 1].0));
        } else {
            assert(key_lt(pairs[i - 1].0, pairs[j - 1].0));
        }
    }
    lemma_key_lt_irreflexive(pair.0);
    let target = map_of(pairs).insert(pair.0, pair.1);
    assert forall|key: Seq<char>| map_of(grown).contains_key(key) <==> target.contains_key(
        key,
    ) by {
        if map_of(grown).contains_key(key) {
            let i = slot(grown, key);
            assert(grown[i].0 == key);
            if i < at {
                assert(pairs[i].0 == key);
            } else if i > at {
                assert(pairs[i - 1].0 == key);
            }
        }
        if target.contains_key(key) {
            if key == pair.0 {
                assert(grown[at].0 == key);
            } else {
                let i = slot(pairs, key);
                assert(pairs[i].0 == key);
                if i < at {
                    assert(grown[i].0 == key);
                } else {
                    assert(grown[i + 1].0 == key);
                }
            }
        }
    }
    assert forall|key: Seq<char>| map_of(grown).contains_key(key) implies map_of(grown)[key]
        == target[key] by {
        let i = slot(grown, key);
        assert(grown[i].0 == key);
        lemma_lookup(grown, i);
        if i < at {
            lemma_lookup(pairs, i);
        } else if i > at {
            lemma_lookup(pairs, i - 1);
        }
    }
    assert(map_of(grown) =~= target);
}

/// Replacing the value of a name that a sorted sequence holds replaces it
/// in the mapping and changes nothing else.
pub proof fn lemma_replace(pairs: Seq<Pair>, at: int, pair: Pair)
    requires
        strictly_sorted(pairs),
        0 <= at < pairs.len(),
        pairs[at].0 == pair.0,
    ensures
        strictly_sorted(pairs.update(at, pair)),
        map_of(pairs.update(at, pair)) == map_of(pairs).insert(pair.0, pair.1),
{
    let changed = pairs.update(at, pair);
    assert forall|i: int, j: int| 0 <= i < j < changed.len() implies key_lt(
        (#[trigger] changed[i]).0,
        (#[trigger] changed[j]).0,
    ) by {
        assert(key_lt(pairs[i].0, pairs[j].0));
    }
    let target = map_of(pairs).insert(pair.0, pair.1);
    assert forall|key: Seq<char>| map_of(changed).contains_key(key) <==> target.contains_key(
        key,
    ) by {
        if map_of(changed).contains_key(key) {
            let i = slot(changed, key);
            assert(changed[i].0 == key);
            assert(pairs[i].0 == key);
        }
        if target.contains_key(key) {
            if key == pair.0 {
                assert(changed[at].0 == key);
            } else {
                let i = slot(pairs, key);
                assert(pairs[i].0 == key);
                assert(changed[i].0 == key);
            }
        }
    }
    assert forall|key: Seq<char>| map_of(changed).contains_key(key) implies map_of(changed)[key]
        == target[key] by {
        let i = slot(changed, key);
        assert(changed[i].0 == key);
        lemma_lookup(changed, i);
        lemma_lookup(pairs, i);
        lemma_key_lt_irreflexive(pair.0);
        if i < at {
            assert(key_lt(pairs[i].0, pairs[at].0));
        } else if at < i {
            assert(key_lt(pairs[at].0, pairs[i].0));
        }
    }
    assert(map_of(changed) =~= target);
}

/// The names of a sorted sequence are as many as its entries.
pub proof fn lemma_size(pairs: Seq<Pair>)
    requires
        strictly_sorted(pairs),
    ensures
        map_of(pairs).dom().finite(),
        map_of(pairs).dom().len() == pairs.len(),
{
    let names = pairs.map_values(|pair: Pair| pair.0);
    assert(names.no_duplicates()) by {
        assert forall|i: int, j: int|
            0 <= i < names.len() && 0 <= j < names.len() && i != j implies names[i]
            != names[j] by {
            lemma_key_lt_irreflexive(names[i]);
            if i < j {
                assert(key_lt(pairs[i].0, pairs[j].0));
            } else {
                assert(key_lt(pairs[j].0, pairs[i].0));
            }
        }
    }
    assert(map_of(pairs).dom() =~= names.to_set()) by {
        assert forall|key: Seq<char>| map_of(pairs).dom().contains(key) <==> names.to_set().contains(
            key,
        ) by {
            if map_of(pairs).dom().contains(key) {
                let i = slot(pairs, key);
                assert(names[i] == key);
            }
            if names.to_set().contains(key) {
                let i = choose|i: int| 0 <= i < names.len() && names[i] == key;
                assert(pairs[i].0 == key);
            }
        }
    }
    names.unique_seq_to_set();
    vstd::seq_lib::seq_to_set_is_finite(names);
}

/// The entries of a sorted sequence from `from` on, put under a mapping,
/// are the entries after `from` put under it, and then the entry at `from`.
proof fn lemma_skip_step(base: Map<Seq<char>, ValueView>, pairs: Seq<Pair>, from: int)
    requires
        strictly_sorted(pairs),
        0 <= from < pairs.len(),
    ensures
        base.union_prefer_right(map_of(pairs.skip(from))) == base.union_prefer_right(
            map_of(pairs.skip(from + 1)),
        ).insert(pairs[from].0, pairs[from].1),
{
    let rest = pairs.skip(from + 1);
    assert forall|i: int, j: int| 0 <= i < j < rest.len() implies key_lt(
        (#[trigger] rest[i]).0,
        (#[trigger] rest[j]).0,
    ) by {
        assert(key_lt(pairs[from + 1 + i].0, pairs[from + 1 + j].0));
    }
    assert forall|i: int| 0 <= i < rest.len() implies key_lt(
        pairs[from].0,
        (#[trigger] rest[i]).0,
    ) by {
        assert(key_lt(pairs[from].0, pairs[from + 1 + i].0));
    }
    lemma_insert_new(rest, 0, pairs[from]);
    assert(pairs.skip(from) =~= rest.insert(0, pairs[from]));
    assert(base.union_prefer_right(map_of(pairs.skip(from))) =~= base.union_prefer_right(
        map_of(rest),
    ).insert(pairs[from].0, pairs[from].1));
}

/// A mapping from field names to scalar values, in the order of the names.
#[derive(Debug, PartialEq)]
pub struct FlatMap {
    entries: Vec<(String, Value)>,
}

impl View for FlatMap {
    type V = Map<Seq<char>, ValueView>;

    open spec fn view(&self) -> Map<Seq<char>, ValueView> {
        map_of(self.pairs())
    }
}

impl FlatMap {
    /// The entries of the mapping, in the order in which it holds them.
    pub closed spec fn pairs(&self) -> Seq<Pair> {
        Seq::new(self.entries@.len(), |i: int| (self.entries@[i].0@, self.entries@[i].1@))
    }

    /// The names increase strictly and the values are scalars.
    #[verifier::type_invariant]
    spec fn well_formed(&self) -> bool {
        strictly_sorted(self.pairs()) && all_scalar(self.pairs())
    }

    /// The empty mapping.
    pub fn new() -> (m: FlatMap)
        ensures
            m@ == Map::<Seq<char>, ValueView>::empty(),
            m.pairs() == Seq::<Pair>::empty(),
    {
        let m = FlatMap { entries: Vec::new() };
        assert(m.pairs() =~= Seq::<Pair>::empty());
        assert(m@ =~= Map::<Seq<char>, ValueView>::empty());
        m
    }

    /// The number of entries. The entries are sorted by name and hold
    /// scalars only.
    pub fn len(&self) -> (n: usize)
        ensures
            n == self.pairs().len(),
            n == self@.dom().len(),
            self@.dom().finite(),
            strictly_sorted(self.pairs()),
            all_scalar(self.pairs()),
    {
        proof {
            use_type_invariant(self);
            lemma_size(self.pairs());
        }
        self.entries.len()
    }

    /// Whether the mapping holds no entry.
    pub fn is_empty(&self) -> (b: bool)
        ensures
            b == (self@ == Map::<Seq<char>, ValueView>::empty()),
    {
        let n = self.len();
        proof {
            if n == 0 {
                assert(self@ =~= Map::<Seq<char>, ValueView>::empty());
            }
        }
        n == 0
    }

    /// The name of the entry at `index`, counted in the order of the names.
    pub fn key_at(&self, index: usize) -> (key: &String)
        requires
            index < self.pairs().len(),
        ensures
            key@ == self.pairs()[index as int].0,
    {
        &self.entries[index].0
    }

    /// The value of the entry at `index`, counted in the order of the names.
    pub fn value_at(&self, index: usize) -> (value: &Value)
        requires
            index < self.pairs().len(),
        ensures
            value@ == self.pairs()[index as int].1,
            value@.is_scalar(),
    {
        proof {
            use_type_invariant(self);
            assert(self.pairs()[index as int].1.is_scalar());
        }
        &self.entries[index].1
    }

    /// The place of `key` among the names: the number of names that come
    /// before it, and whether the entry at that place has this name.
    fn locate(&self, key: &str) -> (r: (usize, bool))
        ensures
            r.0 <= self.pairs().len(),
            forall|i: int| 0 <= i < r.0 ==> key_lt((#[trigger] self.pairs()[i]).0, key@),
            r.1 ==> r.0 < self.pairs().len() && self.pairs()[r.0 as int].0 == key@,
            !r.1 ==> forall|i: int|
                r.0 <= i < self.pairs().len() ==> key_lt(key@, (#[trigger] self.pairs()[i]).0),
    {
        proof {
            use_type_invariant(self);
        }
        let mut low: usize = 0;
        let mut high: usize = self.entries.len();
        while low < high
            invariant
                low <= high <= self.entries@.len(),
                self.pairs().len() == self.entries@.len(),
                strictly_sorted(self.pairs()),
                forall|i: int| 0 <= i < low ==> key_lt((#[trigger] self.pairs()[i]).0, key@),
                forall|i: int|
                    high <= i < self.pairs().len() ==> !key_lt(
                        (#[trigger] self.pairs()[i]).0,
                        key@,
                    ),
            decreases high - low,
        {
            let mid = low + (high - low) / 2;
            if str_lt(self.entries[mid].0.as_str(), key) {
                proof {
                    assert forall|i: int| 0 <= i < mid + 1 implies key_lt(
                        (#[trigger] self.pairs()[i]).0,
                        key@,
                    ) by {
                        if i < mid {
                            assert(key_lt(self.pairs()[i].0, self.pairs()[mid as int].0));
                            lemma_key_lt_transitive(
                                self.pairs()[i].0,
                                self.pairs()[mid as int].0,
                                key@,
                            );
                        }
                    }
                }
                low = mid + 1;
            } else {
                proof {
                    assert forall|i: int| mid <= i < self.pairs().len() implies !key_lt(
                        (#[trigger] self.pairs()[i]).0,
                        key@,
                    ) by {
                        if i > mid && key_lt(self.pairs()[i].0, key@) {
                            assert(key_lt(self.pairs()[mid as int].0, self.pairs()[i].0));
                            lemma_key_lt_transitive(
                                self.pairs()[mid as int].0,
                                self.pairs()[i].0,
                                key@,
                            );
                        }
                    }
                }
                high = mid;
            }
        }
        let found = low < self.entries.len() && !str_lt(key, self.entries[low].0.as_str());
        proof {
            if low < self.entries@.len() {
                lemma_key_lt_total(key@, self.pairs()[low as int].0);
            }
            if !found {
                assert forall|i: int| low <= i < self.pairs().len() implies key_lt(
                    key@,
                    (#[trigger] self.pairs()[i]).0,
                ) by {
                    if i > low {
                        assert(key_lt(self.pairs()[low as int].0, self.pairs()[i].0));
                        lemma_key_lt_transitive(
                            key@,
                            self.pairs()[low as int].0,
                            self.pairs()[i].0,
                        );
                    }
                }
            }
        }
        (low, found)
    }

    /// The value that `key` maps to, if it maps to one.
    pub fn get(&self, key: &str) -> (found: Option<&Value>)
        ensures
            found is Some <==> self@.contains_key(key@),
            found matches Some(value) ==> value@ == self@[key@],
    {
        proof {
            use_type_invariant(self);
        }
        let (at, found) = self.locate(key);
        if found {
            proof {
                lemma_lookup(self.pairs(), at as int);
            }
            Some(&self.entries[at].1)
        } else {
            proof {
                lemma_key_lt_irreflexive(key@);
                if self@.contains_key(key@) {
                    let i = slot(self.pairs(), key@);
                    assert(self.pairs()[i].0 == key@);
                }
            }
            None
        }
    }

    /// Whether `key` maps to a value.
    pub fn contains_key(&self, key: &str) -> (b: bool)
        ensures
            b == self@.contains_key(key@),
    {
        self.get(key).is_some()
    }

    /// Maps `key` to `value`, in place of what it mapped to before.
    pub fn insert(&mut self, key: String, value: Value)
        requires
            value@.is_scalar(),
        ensures
            final(self)@ == old(self)@.insert(key@, value@),
    {
        proof {
            use_type_invariant(&*self);
        }
        let (at, found) = self.locate(key.as_str());
        let ghost before = self.pairs();
        let ghost pair = (key@, value@);
        let mut entries: Vec<(String, Value)> = Vec::new();
        std::mem::swap(&mut entries, &mut self.entries);
        assert(self.pairs() =~= Seq::<Pair>::empty());
        if found {
            entries.set(at, (key, value));
            proof {
                lemma_replace(before, at as int, pair);
            }
        } else {
            entries.insert(at, (key, value));
            proof {
                lemma_insert_new(before, at as int, pair);
            }
        }
        let ghost after = Seq::new(entries@.len(), |i: int| (entries@[i].0@, entries@[i].1@));
        proof {
            if found {
                assert(after =~= before.update(at as int, pair));
            } else {
                assert(after =~= before.insert(at as int, pair));
            }
            assert(all_scalar(after));
        }
        self.entries = entries;
        assert(self.pairs() =~= after);
    }

    /// Moves the entries of `other` into the mapping. Where both hold a
    /// name, the value of `other` stays.
    pub fn extend(&mut self, other: FlatMap)
        ensures
            final(self)@ == old(self)@.union_prefer_right(other@),
    {
        proof {
            use_type_invariant(&other);
        }
        let ghost all = other.pairs();
        let mut rest = other.entries;
        assert(old(self)@.union_prefer_right(map_of(all.skip(all.len() as int))) =~= old(self)@);
        while rest.len() > 0
            invariant
                strictly_sorted(all),
                all_scalar(all),
                rest@.len() <= all.len(),
                forall|i: int|
                    0 <= i < rest@.len() ==> (#[trigger] rest@[i]).0@ == all[i].0 && rest@[i].1@
                        == all[i].1,
                self@ == old(self)@.union_prefer_right(map_of(all.skip(rest@.len() as int))),
            decreases rest@.len(),
        {
            let ghost from = rest@.len() - 1;
            let popped = rest.pop();
            match popped {
                Some((key, value)) => {
                    proof {
                        assert(key@ == all[from].0 && value@ == all[from].1);
                        assert(all[from].1.is_scalar());
                        lemma_skip_step(old(self)@, all, from);
                    }
                    self.insert(key, value);
                },
                None => {},
            }
        }
        assert(all.skip(0) =~= all);
    }

    /// The mapping as a structured value: a mapping of one level, whose
    /// keys are the names, as strings.
    pub fn to_value(&self) -> (value: Value)
        ensures
            value@ == as_mapping(self.pairs()),
            value@.has_text_keys(),
    {
        proof {
            use_type_invariant(self);
        }
        let mut entries: Vec<(Value, Value)> = Vec::new();
        let mut i: usize = 0;
        while i < self.entries.len()
            invariant
                i <= self.entries@.len(),
                entries@.len() == i,
                forall|j: int|
                    0 <= j < i ==> (#[trigger] entries@[j]).0@ == ValueView::String(
                        self.entries@[j].0@,
                    ) && entries@[j].1@ == self.entries@[j].1@,
            decreases self.entries@.len() - i,
        {
            let key = Value::String(self.entries[i].0.clone());
            let value = self.entries[i].1.clone();
            entries.push((key, value));
            i += 1;
        }
        let value = Value::Mapping(entries);
        proof {
            let pairs = self.pairs();
            assert(value@->Mapping_0 =~= as_mapping(pairs)->Mapping_0);
            assert forall|j: int| 0 <= j < value@->Mapping_0.len() implies (
            #[trigger] value@->Mapping_0[j]).0.is_text()
                && value@->Mapping_0[j].1.has_text_keys() by {
                assert(pairs[j].1.is_scalar());
            }
        }
        value
    }
}

impl Clone for FlatMap {
    /// A copy with the same entries.
    fn clone(&self) -> (copy: FlatMap)
        ensures
            copy@ == self@,
            copy.pairs() == self.pairs(),
    {
        proof {
            use_type_invariant(self);
        }
        let mut entries: Vec<(String, Value)> = Vec::new();
        let mut i: usize = 0;
        while i < self.entries.len()
            invariant
                i <= self.entries@.len(),
                entries@.len() == i,
                forall|j: int|
                    0 <= j < i ==> (#[trigger] entries@[j]).0@ == self.entries@[j].0@
                        && entries@[j].1@ == self.entries@[j].1@,
            decreases self.entries@.len() - i,
        {
            let key = self.entries[i].0.clone();
            let value = self.entries[i].1.clone();
            entries.push((key, value));
            i += 1;
        }
        let ghost pairs = Seq::new(entries@.len(), |i: int| (entries@[i].0@, entries@[i].1@));
        assert(pairs =~= self.pairs());
        let copy = FlatMap { entries };
        assert(copy.pairs() =~= self.pairs());
        copy
    }
}

} // verus!
