//! The entries of one configuration file: a list of named JSON objects
//! in which no name occurs twice.

use vstd::prelude::*;
use vstd::string::*;
use crate::task::Parameters;
use crate::text::str_eq;

verus! {

/// One entry of a configuration file.
#[derive(Debug, Clone)]
pub struct ConfigEntry {
    /// The name of the entry.
    pub key: String,
    /// The member `enable` of the object, where it is a truth value.
    pub enable: Option<bool>,
    /// The member `index` of the object, where it is an integer.
    pub index: Option<i64>,
    /// The object as JSON text.
    pub json: String,
}

/// What a `ConfigEntry` holds, as mathematics.
pub struct ConfigEntryView {
    pub key: Seq<char>,
    pub enable: Option<bool>,
    pub index: Option<i64>,
    pub json: Seq<char>,
}

impl View for ConfigEntry {
    type V = ConfigEntryView;

    open spec fn view(&self) -> ConfigEntryView {
        ConfigEntryView {
            key: self.key@,
            enable: self.enable,
            index: self.index,
            json: self.json@,
        }
    }
}

impl ConfigEntryView {
    /// Whether the entry is switched on: an entry without the member
    /// `enable` is not.
    pub open spec fn enabled(self) -> bool {
        self.enable == Some(true)
    }

    /// The place that the entry asks for in a run: an entry without the
    /// member `index` asks for place 0.
    pub open spec fn order(self) -> int {
        match self.index {
            Some(i) => i as int,
            None => 0,
        }
    }
}

/// The entry that holds the parameters `params` under the name `key`.
pub open spec fn entry_of(key: Seq<char>, params: Parameters) -> ConfigEntryView {
    ConfigEntryView { key, enable: Some(params.enable), index: params.index, json: params.json@ }
}

/// The views of the entries of a list.
pub open spec fn entries_view(entries: Seq<ConfigEntry>) -> Seq<ConfigEntryView> {
    entries.map_values(|e: ConfigEntry| e@)
}

/// Whether no name occurs twice in `entries`.
pub open spec fn distinct_keys(entries: Seq<ConfigEntryView>) -> bool {
    forall|i: int, j: int|
        0 <= i < entries.len() && 0 <= j < entries.len() && i != j ==> entries[i].key
            != entries[j].key
}

/// The first place in `entries` at which an entry named `key` stands;
/// -1 where none does.
pub open spec fn index_of(entries: Seq<ConfigEntryView>, key: Seq<char>) -> int
    decreases entries.len(),
{
    if entries.len() == 0 {
        -1
    } else {
        let before = index_of(entries.drop_last(), key);
        if before >= 0 {
            before
        } else if entries.last().key == key {
            entries.len() - 1
        } else {
            -1
        }
    }
}

/// `index_of` is the first place of the name, or -1 where the name does
/// not occur.
pub proof fn lemma_index_of(entries: Seq<ConfigEntryView>, key: Seq<char>)
    ensures
        -1 <= index_of(entries, key) < entries.len(),
        index_of(entries, key) >= 0 ==> entries[index_of(entries, key)].key == key,
        forall|j: int|
            0 <= j < entries.len() && (j < index_of(entries, key) || index_of(entries, key) < 0)
                ==> entries[j].key != key,
    decreases entries.len(),
{
    if entries.len() > 0 {
        lemma_index_of(entries.drop_last(), key);
        let before = index_of(entries.drop_last(), key);
        assert forall|j: int|
            0 <= j < entries.len() && (j < index_of(entries, key) || index_of(entries, key)
                < 0) implies entries[j].key != key by {
            if j < entries.len() - 1 {
                assert(entries.drop_last()[j] == entries[j]);
            }
        }
        if before >= 0 {
            assert(entries.drop_last()[before] == entries[before]);
        }
    }
}

/// The entry named `key` in `entries`, if there is one.
pub open spec fn lookup(entries: Seq<ConfigEntryView>, key: Seq<char>) -> Option<
    ConfigEntryView,
> {
    if index_of(entries, key) >= 0 {
        Some(entries[index_of(entries, key)])
    } else {
        None
    }
}

/// `entries` with the entry `entry` written: in the place of the entry of
/// the same name, or at the end where there is none.
pub open spec fn upserted(entries: Seq<ConfigEntryView>, entry: ConfigEntryView) -> Seq<
    ConfigEntryView,
> {
    if index_of(entries, entry.key) >= 0 {
        entries.update(index_of(entries, entry.key), entry)
    } else {
        entries.push(entry)
    }
}

/// Writing an entry keeps the names distinct, and keeps every other entry
/// in its place.
pub proof fn lemma_upserted_distinct(entries: Seq<ConfigEntryView>, entry: ConfigEntryView)
    requires
        distinct_keys(entries),
    ensures
        distinct_keys(upserted(entries, entry)),
        forall|j: int|
            0 <= j < entries.len() && entries[j].key != entry.key ==> upserted(entries, entry)[j]
                == entries[j],
{
    lemma_index_of(entries, entry.key);
}

/// An entry that was written is found under its name, and what stands
/// under any other name is what stood there before.
pub proof fn lemma_lookup_upserted(
    entries: Seq<ConfigEntryView>,
    entry: ConfigEntryView,
    key: Seq<char>,
)
    ensures
        key == entry.key ==> lookup(upserted(entries, entry), key) == Some(entry),
        key != entry.key ==> lookup(upserted(entries, entry), key) == lookup(entries, key),
{
    let after = upserted(entries, entry);
    lemma_index_of(entries, entry.key);
    lemma_index_of(entries, key);
    lemma_index_of(after, key);
    let i = index_of(entries, entry.key);
    if key == entry.key {
        if i >= 0 {
            assert(after[i] == entry);
            assert(forall|j: int| 0 <= j < i ==> after[j] == entries[j]);
        } else {
            assert(after[entries.len() as int] == entry);
            assert(forall|j: int| 0 <= j < entries.len() ==> after[j] == entries[j]);
        }
    } else {
        let a = index_of(entries, key);
        let b = index_of(after, key);
        assert(forall|j: int|
            0 <= j < entries.len() && j != i ==> after[j] == entries[j]);
        if b >= 0 {
            assert(after[b].key == key);
            assert(b < entries.len());
            assert(b != i);
            assert(entries[b].key == key);
        }
        if a >= 0 {
            assert(entries[a].key == key);
            assert(a != i);
            assert(after[a].key == key);
        }
    }
}

/// The place in `entries` at which an entry named `key` stands.
pub fn position(entries: &Vec<ConfigEntry>, key: &str) -> (r: Option<usize>)
    ensures
        match r {
            Some(i) => index_of(entries_view(entries@), key@) == i,
            None => index_of(entries_view(entries@), key@) == -1,
        },
{
    let ghost all = entries_view(entries@);
    let mut i: usize = 0;
    while i < entries.len()
        invariant
            i <= entries.len(),
            all == entries_view(entries@),
            forall|j: int| 0 <= j < i ==> all[j].key != key@,
        decreases entries.len() - i,
    {
        if str_eq(entries[i].key.as_str(), key) {
            proof {
                lemma_index_of(all, key@);
                assert(all[i as int].key == key@);
            }
            return Some(i);
        }
        i += 1;
    }
    proof {
        lemma_index_of(all, key@);
    }
    None
}

/// Writes `entry` into `entries`: in the place of the entry of the same
/// name, or at the end where there is none.
pub fn upsert(entries: &mut Vec<ConfigEntry>, entry: ConfigEntry)
    ensures
        entries_view(final(entries)@) == upserted(entries_view(old(entries)@), entry@),
{
    proof {
        lemma_index_of(entries_view(entries@), entry@.key);
    }
    match position(entries, entry.key.as_str()) {
        Some(i) => {
            entries.set(i, entry);
        },
        None => {
            entries.push(entry);
        },
    }
    assert(entries_view(entries@) =~= upserted(entries_view(old(entries)@), entry@));
}

impl ConfigEntry {
    /// The entry that holds the parameters `params` under the name `key`.
    pub fn from_parameters(key: String, params: Parameters) -> (r: ConfigEntry)
        ensures
            r@ == entry_of(key@, params),
    {
        ConfigEntry { key, enable: Some(params.enable), index: params.index, json: params.json }
    }

    /// A copy of this entry.
    pub fn duplicate(&self) -> (r: ConfigEntry)
        ensures
            r@ == self@,
    {
        ConfigEntry {
            key: self.key.clone(),
            enable: self.enable,
            index: self.index,
            json: self.json.clone(),
        }
    }
}

/// A copy of `entries`.
pub fn copy_entries(entries: &Vec<ConfigEntry>) -> (r: Vec<ConfigEntry>)
    ensures
        entries_view(r@) == entries_view(entries@),
{
    let mut r: Vec<ConfigEntry> = Vec::new();
    let mut i: usize = 0;
    while i < entries.len()
        invariant
            i <= entries.len(),
            r.len() == i,
            forall|j: int| 0 <= j < i ==> r[j]@ == entries[j]@,
        decreases entries.len() - i,
    {
        r.push(entries[i].duplicate());
        i += 1;
    }
    assert(entries_view(r@) =~= entries_view(entries@));
    r
}

/// `entries` read from first to last into an empty file, each entry
/// written over an earlier one of the same name.
pub open spec fn deduped(entries: Seq<ConfigEntryView>) -> Seq<ConfigEntryView>
    decreases entries.len(),
{
    if entries.len() == 0 {
        Seq::empty()
    } else {
        upserted(deduped(entries.drop_last()), entries.last())
    }
}

/// In what `deduped` returns no name occurs twice.
pub proof fn lemma_deduped_distinct(entries: Seq<ConfigEntryView>)
    ensures
        distinct_keys(deduped(entries)),
    decreases entries.len(),
{
    if entries.len() > 0 {
        lemma_deduped_distinct(entries.drop_last());
        lemma_upserted_distinct(deduped(entries.drop_last()), entries.last());
    }
}

/// Entries in which no name occurs twice are read as they stand.
pub proof fn lemma_deduped_of_distinct(entries: Seq<ConfigEntryView>)
    requires
        distinct_keys(entries),
    ensures
        deduped(entries) == entries,
    decreases entries.len(),
{
    if entries.len() > 0 {
        let front = entries.drop_last();
        assert forall|i: int, j: int|
            0 <= i < front.len() && 0 <= j < front.len() && i != j implies front[i].key
            != front[j].key by {
            assert(front[i] == entries[i]);
            assert(front[j] == entries[j]);
        }
        lemma_deduped_of_distinct(front);
        lemma_index_of(front, entries.last().key);
        let i = index_of(front, entries.last().key);
        if i >= 0 {
            assert(front[i] == entries[i]);
            assert(entries[entries.len() - 1] == entries.last());
            assert(false);
        }
        assert(front.push(entries.last()) =~= entries);
    } else {
        assert(deduped(entries) =~= entries);
    }
}

/// The entries `entries`, each written over an earlier one of the same
/// name.
pub fn dedup(entries: &Vec<ConfigEntry>) -> (r: Vec<ConfigEntry>)
    ensures
        entries_view(r@) == deduped(entries_view(entries@)),
        distinct_keys(entries_view(r@)),
{
    let ghost all = entries_view(entries@);
    let mut r: Vec<ConfigEntry> = Vec::new();
    let mut i: usize = 0;
    assert(entries_view(r@) =~= deduped(all.take(0)));
    while i < entries.len()
        invariant
            i <= entries.len(),
            all == entries_view(entries@),
            entries_view(r@) == deduped(all.take(i as int)),
        decreases entries.len() - i,
    {
        upsert(&mut r, entries[i].duplicate());
        proof {
            assert(all.take(i + 1).drop_last() =~= all.take(i as int));
            assert(all.take(i + 1).last() == entries[i as int]@);
        }
        i += 1;
    }
    proof {
        assert(all.take(i as int) =~= all);
        lemma_deduped_distinct(all);
    }
    r
}

} // verus!
