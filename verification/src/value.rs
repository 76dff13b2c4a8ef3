//! A tagged model of TOML documents.
//!
//! The tool reads and writes only strings and tables (plus arrays of
//! tables for binary targets), so those variants are explicit; every
//! other TOML value is carried through opaquely and byte-identically.

use vstd::prelude::*;

verus! {

broadcast use vstd::std_specs::vec::axiom_vec_index_decreases;

/// `toml::Value` is used only as an opaque payload: values the tool does
/// not inspect are carried through a document unchanged.
#[verifier::external_type_specification]
#[verifier::external_body]
pub struct ExTomlValue(toml::Value);

/// One key-value pair of a TOML table, in document order.
pub struct TomlEntry {
    pub key: String,
    pub value: TomlValue,
}

/// A TOML value as this tool sees it.
pub enum TomlValue {
    /// A TOML string.
    Text(String),
    /// A TOML array.
    List(Vec<TomlValue>),
    /// A TOML table.
    Table(TomlTable),
    /// Any other TOML value (integer, float, boolean, datetime), never
    /// inspected, only preserved.
    Opaque(toml::Value),
}

/// A TOML table: an ordered association list of entries.
pub struct TomlTable {
    pub entries: Vec<TomlEntry>,
}

/// The mathematical counterpart of [`TomlEntry`]: the key as a character
/// sequence, the value as a [`ValModel`].
#[verifier::ext_equal]
pub ghost struct EntryModel {
    pub key: Seq<char>,
    pub value: ValModel,
}

/// The mathematical counterpart of [`TomlValue`]: strings become
/// character sequences, containers become sequences of models, and
/// opaque values stay as they are.
#[verifier::ext_equal]
pub ghost enum ValModel {
    Text(Seq<char>),
    List(Seq<ValModel>),
    Table(Seq<EntryModel>),
    Opaque(toml::Value),
}

impl TomlValue {
    /// The abstract value of this TOML value.
    pub open spec fn model(self) -> ValModel
        decreases self, 0int,
        via Self::model_decreases
    {
        match self {
            TomlValue::Text(s) => ValModel::Text(s@),
            TomlValue::List(items) => ValModel::List(list_model_from(items, 0)),
            TomlValue::Table(t) => ValModel::Table(entries_model_from(t.entries, 0)),
            TomlValue::Opaque(v) => ValModel::Opaque(v),
        }
    }

    #[via_fn]
    proof fn model_decreases(self) {
        match self {
            TomlValue::List(_) => {
                assert(decreases_to!(self => self->List_0));
            }
            TomlValue::Table(_) => {
                assert(decreases_to!(self => self->Table_0));
                assert(decreases_to!(self->Table_0 => self->Table_0.entries));
            }
            _ => {}
        }
    }
}

/// The models of `items[i..]`, in order.
pub open spec fn list_model_from(items: Vec<TomlValue>, i: int) -> Seq<ValModel>
    decreases items, items@.len() - i,
    via list_model_decreases
{
    if i < 0 || i >= items@.len() {
        Seq::empty()
    } else {
        seq![items@[i].model()] + list_model_from(items, i + 1)
    }
}

#[via_fn]
proof fn list_model_decreases(items: Vec<TomlValue>, i: int) {
    if 0 <= i < items@.len() {
        assert(decreases_to!(items => items@));
        assert(decreases_to!(items@ => items@[i]));
    }
}

/// The models of `entries[i..]`, keys by view, in order.
pub open spec fn entries_model_from(entries: Vec<TomlEntry>, i: int) -> Seq<EntryModel>
    decreases entries, entries@.len() - i,
    via entries_model_decreases
{
    if i < 0 || i >= entries@.len() {
        Seq::empty()
    } else {
        seq![
            EntryModel { key: entries@[i].key@, value: entries@[i].value.model() },
        ] + entries_model_from(entries, i + 1)
    }
}

#[via_fn]
proof fn entries_model_decreases(entries: Vec<TomlEntry>, i: int) {
    if 0 <= i < entries@.len() {
        assert(decreases_to!(entries => entries@));
        assert(decreases_to!(entries@ => entries@[i]));
        assert(decreases_to!(entries@[i] => entries@[i].value));
    }
}

impl TomlTable {
    /// The abstract value of this table: its entries, keys by view.
    pub open spec fn model(self) -> Seq<EntryModel> {
        entries_model_from(self.entries, 0)
    }
}

proof fn lemma_entries_model_from(entries: Vec<TomlEntry>, i: int)
    requires
        0 <= i <= entries@.len(),
    ensures
        entries_model_from(entries, i).len() == entries@.len() - i,
        forall|j: int|
            0 <= j < entries@.len() - i ==> entries_model_from(entries, i)[j] == (EntryModel {
                key: entries@[i + j].key@,
                value: entries@[i + j].value.model(),
            }),
    decreases entries@.len() - i,
{
    if i < entries@.len() {
        lemma_entries_model_from(entries, i + 1);
    }
}

/// The model of a table is the entrywise model of its entries.
pub broadcast proof fn lemma_table_model(t: TomlTable)
    ensures
        (#[trigger] t.model()).len() == t.entries@.len(),
        forall|j: int|
            0 <= j < t.entries@.len() ==> t.model()[j] == (EntryModel {
                key: t.entries@[j].key@,
                value: t.entries@[j].value.model(),
            }),
{
    lemma_entries_model_from(t.entries, 0);
}

proof fn lemma_list_model_from(items: Vec<TomlValue>, i: int)
    requires
        0 <= i <= items@.len(),
    ensures
        list_model_from(items, i).len() == items@.len() - i,
        forall|j: int|
            0 <= j < items@.len() - i ==> list_model_from(items, i)[j] == items@[i + j].model(),
    decreases items@.len() - i,
{
    if i < items@.len() {
        lemma_list_model_from(items, i + 1);
    }
}

/// The model of a list value is the elementwise model of its items.
pub broadcast proof fn lemma_list_model(items: Vec<TomlValue>)
    ensures
        (#[trigger] list_model_from(items, 0)).len() == items@.len(),
        forall|j: int|
            0 <= j < items@.len() ==> list_model_from(items, 0)[j] == items@[j].model(),
{
    lemma_list_model_from(items, 0);
}

/// Index of the first entry with key `k`, or -1 if there is none.
pub open spec fn key_index(m: Seq<EntryModel>, k: Seq<char>) -> int
    decreases m.len(),
{
    if m.len() == 0 {
        -1
    } else if m[0].key == k {
        0
    } else if key_index(m.drop_first(), k) < 0 {
        -1
    } else {
        key_index(m.drop_first(), k) + 1
    }
}

/// Whether the table model `m` has an entry with key `k`.
pub open spec fn has_key(m: Seq<EntryModel>, k: Seq<char>) -> bool {
    key_index(m, k) >= 0
}

/// The value bound to `k` in `m`: first occurrence wins, as in a parsed
/// TOML table, where keys are unique anyway.
pub open spec fn lookup(m: Seq<EntryModel>, k: Seq<char>) -> Option<ValModel> {
    if key_index(m, k) < 0 {
        None
    } else {
        Some(m[key_index(m, k)].value)
    }
}

/// `m` with `k` bound to `v`: replaces the first entry with key `k` in
/// place, or appends a new entry if the key is absent.
pub open spec fn upsert(m: Seq<EntryModel>, k: Seq<char>, v: ValModel) -> Seq<EntryModel> {
    if key_index(m, k) < 0 {
        m.push(EntryModel { key: k, value: v })
    } else {
        m.update(key_index(m, k), EntryModel { key: k, value: v })
    }
}

impl TomlTable {
    /// An empty table.
    pub fn new() -> (r: TomlTable)
        ensures
            r.model() == Seq::<EntryModel>::empty(),
    {
        TomlTable { entries: Vec::new() }
    }

    /// The position of the first entry with key `key`, if any.
    pub fn position_of(&self, key: &String) -> (r: Option<usize>)
        ensures
            match r {
                Some(i) => i < self.entries@.len() && key_index(self.model(), key@) == i as int,
                None => key_index(self.model(), key@) == -1,
            },
    {
        proof {
            lemma_table_model(*self);
        }
        let n = self.entries.len();
        let mut i: usize = 0;
        while i < n
            invariant
                n == self.entries@.len(),
                i <= n,
                forall|j: int| 0 <= j < i ==> self.model()[j].key != key@,
            decreases n - i,
        {
            proof {
                lemma_table_model(*self);
            }
            if self.entries[i].key == *key {
                proof {
                    lemma_key_index_at(self.model(), key@, i as int);
                }
                return Some(i);
            }
            i = i + 1;
        }
        proof {
            lemma_key_index_at(self.model(), key@, n as int);
        }
        None
    }

    /// A borrow of the value bound to `key`, if any.
    pub fn get<'a>(&'a self, key: &String) -> (r: Option<&'a TomlValue>)
        ensures
            match r {
                Some(v) => lookup(self.model(), key@) == Some(v.model()),
                None => lookup(self.model(), key@) is None,
            },
    {
        proof {
            lemma_table_model(*self);
        }
        match self.position_of(key) {
            Some(i) => Some(&self.entries[i].value),
            None => None,
        }
    }

    /// Binds `key` to `value`: replaces the first entry with that key in
    /// place, or appends a new entry.
    pub fn set(&mut self, key: String, value: TomlValue)
        ensures
            final (self).model() == upsert(old(self).model(), key@, value.model()),
    {
        proof {
            lemma_table_model(*self);
        }
        match self.position_of(&key) {
            Some(i) => {
                let old_key = self.entries[i].key.clone();
                self.entries[i] = TomlEntry { key: old_key, value };
                proof {
                    lemma_table_model(*self);
                    lemma_key_index(old(self).model(), key@);
                    assert(self.model() =~= upsert(old(self).model(), key@, value.model()));
                }
            }
            None => {
                self.entries.push(TomlEntry { key, value });
                proof {
                    lemma_table_model(*self);
                    assert(self.model() =~= upsert(old(self).model(), key@, value.model()));
                }
            }
        }
    }
}

/// `key_index` returns -1 or a position whose entry has key `k`, and
/// every earlier entry has a different key.
pub proof fn lemma_key_index(m: Seq<EntryModel>, k: Seq<char>)
    ensures
        -1 <= key_index(m, k) < m.len(),
        key_index(m, k) >= 0 ==> m[key_index(m, k)].key == k,
        forall|j: int| 0 <= j < key_index(m, k) ==> m[j].key != k,
        key_index(m, k) == -1 ==> forall|j: int| 0 <= j < m.len() ==> m[j].key != k,
    decreases m.len(),
{
    if m.len() > 0 && m[0].key != k {
        let d = m.drop_first();
        lemma_key_index(d, k);
        assert(forall|j: int| 0 <= j < d.len() ==> d[j] == m[j + 1]);
        if key_index(d, k) < 0 {
            assert forall|j: int| 0 <= j < m.len() implies m[j].key != k by {
                if j > 0 {
                    assert(d[j - 1] == m[j]);
                }
            }
        } else {
            assert(m[key_index(m, k)] == d[key_index(d, k)]);
            assert forall|j: int| 0 <= j < key_index(m, k) implies m[j].key != k by {
                if j > 0 {
                    assert(d[j - 1] == m[j]);
                }
            }
        }
    }
}

/// `key_index` is determined by any position `i` such that no earlier
/// entry has key `k` and, unless `i` is the length, entry `i` has key `k`.
pub proof fn lemma_key_index_at(m: Seq<EntryModel>, k: Seq<char>, i: int)
    requires
        0 <= i <= m.len(),
        forall|j: int| 0 <= j < i ==> m[j].key != k,
        i < m.len() ==> m[i].key == k,
    ensures
        i < m.len() ==> key_index(m, k) == i,
        i == m.len() ==> key_index(m, k) == -1,
    decreases m.len(),
{
    if m.len() > 0 {
        if m[0].key == k {
        } else {
            assert(forall|j: int| 0 <= j < m.drop_first().len() ==> m.drop_first()[j] == m[j + 1]);
            lemma_key_index_at(m.drop_first(), k, i - 1);
        }
    }
}

/// Appending an entry leaves earlier key positions alone; a fresh key is
/// found at the end.
pub proof fn lemma_key_index_push(m: Seq<EntryModel>, e: EntryModel, k: Seq<char>)
    ensures
        key_index(m.push(e), k) == if key_index(m, k) >= 0 {
            key_index(m, k)
        } else if e.key == k {
            m.len() as int
        } else {
            -1
        },
    decreases m.len(),
{
    if m.len() == 0 {
        assert(m.push(e)[0] == e);
        assert(m.push(e).drop_first() =~= Seq::<EntryModel>::empty());
        assert(key_index(m.push(e).drop_first(), k) == -1);
    } else {
        assert(m.push(e)[0] == m[0]);
        assert(m.push(e).drop_first() =~= m.drop_first().push(e));
        lemma_key_index_push(m.drop_first(), e, k);
        assert(key_index(m.push(e), k) == if m[0].key == k {
            0
        } else if key_index(m.drop_first().push(e), k) < 0 {
            -1int
        } else {
            key_index(m.drop_first().push(e), k) + 1
        });
    }
}

/// Replacing the value at a position, key unchanged, leaves every key
/// position alone.
pub proof fn lemma_key_index_update(m: Seq<EntryModel>, i: int, e: EntryModel, k: Seq<char>)
    requires
        0 <= i < m.len(),
        e.key == m[i].key,
    ensures
        key_index(m.update(i, e), k) == key_index(m, k),
    decreases m.len(),
{
    if i == 0 {
        assert(m.update(0, e).drop_first() =~= m.drop_first());
    } else {
        assert(m.update(i, e).drop_first() =~= m.drop_first().update(i - 1, e));
        lemma_key_index_update(m.drop_first(), i - 1, e, k);
    }
}

/// After `upsert(m, k, v)`, key `k` is bound to `v` and every other key
/// is bound as it was in `m`.
pub proof fn lemma_lookup_upsert(m: Seq<EntryModel>, k: Seq<char>, v: ValModel, k2: Seq<char>)
    ensures
        lookup(upsert(m, k, v), k2) == if k2 == k {
            Some(v)
        } else {
            lookup(m, k2)
        },
{
    let e = EntryModel { key: k, value: v };
    lemma_key_index(m, k);
    lemma_key_index(m, k2);
    if key_index(m, k) < 0 {
        lemma_key_index_push(m, e, k2);
    } else {
        lemma_key_index_update(m, key_index(m, k), e, k2);
    }
}

/// `upsert` adds key `k` and keeps every key already present.
pub proof fn lemma_upsert_has_key(m: Seq<EntryModel>, k: Seq<char>, v: ValModel, k2: Seq<char>)
    ensures
        has_key(upsert(m, k, v), k2) == (has_key(m, k2) || k2 == k),
{
    let e = EntryModel { key: k, value: v };
    lemma_key_index(m, k);
    lemma_key_index(m, k2);
    if key_index(m, k) < 0 {
        lemma_key_index_push(m, e, k2);
    } else {
        lemma_key_index_update(m, key_index(m, k), e, k2);
    }
}

/// A second `upsert` of the same key supersedes the first.
pub proof fn lemma_upsert_absorb(m: Seq<EntryModel>, k: Seq<char>, v: ValModel, v2: ValModel)
    ensures
        upsert(upsert(m, k, v), k, v2) == upsert(m, k, v2),
{
    let e1 = EntryModel { key: k, value: v };
    let e2 = EntryModel { key: k, value: v2 };
    lemma_key_index(m, k);
    if key_index(m, k) < 0 {
        lemma_key_index_push(m, e1, k);
        assert(upsert(upsert(m, k, v), k, v2) =~= upsert(m, k, v2));
    } else {
        lemma_key_index_update(m, key_index(m, k), e1, k);
        assert(upsert(upsert(m, k, v), k, v2) =~= upsert(m, k, v2));
    }
}

/// Upserts of distinct keys commute, provided the first key is already
/// present (so that the order of appended entries is not observable).
pub proof fn lemma_upsert_commute(
    m: Seq<EntryModel>,
    k1: Seq<char>,
    v1: ValModel,
    k2: Seq<char>,
    v2: ValModel,
)
    requires
        k1 != k2,
        has_key(m, k1),
    ensures
        upsert(upsert(m, k1, v1), k2, v2) == upsert(upsert(m, k2, v2), k1, v1),
{
    let e1 = EntryModel { key: k1, value: v1 };
    let e2 = EntryModel { key: k2, value: v2 };
    let i1 = key_index(m, k1);
    let i2 = key_index(m, k2);
    lemma_key_index(m, k1);
    lemma_key_index(m, k2);
    if i2 >= 0 {
        lemma_key_index_update(m, i1, e1, k2);
        lemma_key_index_update(m, i2, e2, k1);
        assert(upsert(upsert(m, k1, v1), k2, v2) =~= upsert(upsert(m, k2, v2), k1, v1));
    } else {
        lemma_key_index_update(m, i1, e1, k2);
        lemma_key_index_push(m, e2, k1);
        assert(upsert(upsert(m, k1, v1), k2, v2) =~= upsert(upsert(m, k2, v2), k1, v1));
    }
}

} // verus!
