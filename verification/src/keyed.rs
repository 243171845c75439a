//! Name-keyed documents: entries with distinct names, where a later value
//! under a name replaces the earlier one.

use vstd::prelude::*;
use crate::text::same_text;
use crate::value::{StructuredValue, ValueView};

verus! {

/// One entry of a name-keyed document.
#[derive(Debug, PartialEq)]
pub struct Entry {
    /// The key.
    pub name: String,
    /// The value under the key.
    pub value: StructuredValue,
}

/// The mathematical model of an [`Entry`].
pub struct EntryView {
    pub name: Seq<char>,
    pub value: ValueView,
}

impl View for Entry {
    type V = EntryView;

    open spec fn view(&self) -> EntryView {
        EntryView { name: self.name@, value: self.value@ }
    }
}

/// The models of the entries of a list.
pub open spec fn entries_view(entries: Seq<Entry>) -> Seq<EntryView> {
    Seq::new(entries.len(), |i: int| entries[i]@)
}

/// Whether some entry has the name.
pub open spec fn has_name(entries: Seq<EntryView>, name: Seq<char>) -> bool {
    exists|j: int| 0 <= j < entries.len() && (#[trigger] entries[j]).name == name
}

/// Whether `j` is the position of the first entry with the name.
pub open spec fn is_first(entries: Seq<EntryView>, name: Seq<char>, j: int) -> bool {
    &&& 0 <= j < entries.len()
    &&& entries[j].name == name
    &&& forall|k: int| 0 <= k < j ==> (#[trigger] entries[k]).name != name
}

/// The position of the first entry with the name, where there is one.
pub open spec fn first_position(entries: Seq<EntryView>, name: Seq<char>) -> int {
    choose|j: int| is_first(entries, name, j)
}

/// The value under a name.
pub open spec fn value_of(entries: Seq<EntryView>, name: Seq<char>) -> Option<ValueView> {
    if has_name(entries, name) {
        Some(entries[first_position(entries, name)].value)
    } else {
        None
    }
}

/// Whether no two entries share a name.
pub open spec fn distinct_names(entries: Seq<EntryView>) -> bool {
    forall|a: int, b: int|
        0 <= a < b < entries.len() ==> (#[trigger] entries[a]).name != (#[trigger] entries[b]).name
}

/// The entries after one write: the entry replaces the first entry of its
/// name, in that entry's place, or is appended where the name is new.
pub open spec fn upsert(entries: Seq<EntryView>, entry: EntryView) -> Seq<EntryView> {
    if has_name(entries, entry.name) {
        entries.update(first_position(entries, entry.name), entry)
    } else {
        entries.push(entry)
    }
}

/// The name-keyed document of the first `n` of a list of names and values:
/// each pair is written in turn, so that the last value under a name stays.
pub open spec fn keyed(names: Seq<Seq<char>>, values: Seq<ValueView>, n: nat) -> Seq<EntryView>
    decreases n,
{
    if n == 0 {
        Seq::empty()
    } else {
        let last = (n - 1) as int;
        upsert(
            keyed(names, values, last as nat),
            EntryView { name: names[last], value: values[last] },
        )
    }
}

/// The highest position below `n` that holds the name; -1 where none does.
pub open spec fn last_index(names: Seq<Seq<char>>, n: nat, name: Seq<char>) -> int
    decreases n,
{
    if n == 0 {
        -1
    } else if names[n - 1] == name {
        n - 1
    } else {
        last_index(names, (n - 1) as nat, name)
    }
}

/// The first position of a name is the only one that is first.
pub proof fn lemma_first_position(entries: Seq<EntryView>, name: Seq<char>, j: int)
    requires
        is_first(entries, name, j),
    ensures
        has_name(entries, name),
        first_position(entries, name) == j,
{
    let chosen = first_position(entries, name);
    assert(is_first(entries, name, chosen));
    if chosen < j {
        assert(entries[chosen].name != name);
    }
    if j < chosen {
        assert(entries[j].name != name);
    }
}

/// The document of the first `n` pairs reads only those pairs.
pub proof fn lemma_keyed_reads_prefix(
    names: Seq<Seq<char>>,
    values: Seq<ValueView>,
    others: Seq<ValueView>,
    n: nat,
)
    requires
        forall|i: int| 0 <= i < n ==> values[i] == others[i],
    ensures
        keyed(names, values, n) == keyed(names, others, n),
    decreases n,
{
    if n > 0 {
        lemma_keyed_reads_prefix(names, values, others, (n - 1) as nat);
    }
}

/// A position that `last_index` finds lies below `n` and holds the name, and
/// no position after it does.
pub proof fn lemma_last_index(names: Seq<Seq<char>>, n: nat, name: Seq<char>)
    ensures
        -1 <= last_index(names, n, name) < n,
        last_index(names, n, name) >= 0 ==> names[last_index(names, n, name)] == name,
        forall|k: int| last_index(names, n, name) < k < n ==> names[k] != name,
    decreases n,
{
    if n > 0 {
        lemma_last_index(names, (n - 1) as nat, name);
    }
}

/// What a name-keyed document holds: no name twice; each entry is the last
/// pair of its name; and every name among the pairs has an entry.
pub proof fn lemma_keyed_holds_last(names: Seq<Seq<char>>, values: Seq<ValueView>, n: nat)
    ensures
        distinct_names(keyed(names, values, n)),
        forall|j: int|
            0 <= j < keyed(names, values, n).len() ==> {
                let entry = #[trigger] keyed(names, values, n)[j];
                let i = last_index(names, n, entry.name);
                0 <= i < n && names[i] == entry.name && values[i] == entry.value
            },
        forall|name: Seq<char>|
            #[trigger] has_name(keyed(names, values, n), name) <==> last_index(names, n, name)
                >= 0,
    decreases n,
{
    let current = keyed(names, values, n);
    if n == 0 {
        assert forall|name: Seq<char>| !(#[trigger] has_name(current, name)) by {}
    } else {
        let last = (n - 1) as nat;
        let previous = keyed(names, values, last);
        let entry = EntryView { name: names[last as int], value: values[last as int] };
        lemma_keyed_holds_last(names, values, last);
        if has_name(previous, entry.name) {
            let at = choose|j: int|
                0 <= j < previous.len() && (#[trigger] previous[j]).name == entry.name;
            assert(is_first(previous, entry.name, at));
            lemma_first_position(previous, entry.name, at);
            assert(current == previous.update(at, entry));
            assert forall|j: int| 0 <= j < current.len() implies (#[trigger] current[j]).name
                == previous[j].name by {}
            assert forall|a: int, b: int| 0 <= a < b < current.len() implies (
            #[trigger] current[a]).name != (#[trigger] current[b]).name by {
                assert(previous[a].name != previous[b].name);
            }
            assert forall|j: int| 0 <= j < current.len() implies {
                let held = #[trigger] current[j];
                let i = last_index(names, n, held.name);
                0 <= i < n && names[i] == held.name && values[i] == held.value
            } by {
                if j != at {
                    assert(previous[j].name != previous[at].name);
                    assert(current[j] == previous[j]);
                }
            }
            assert forall|name: Seq<char>| #[trigger]
                has_name(current, name) <==> last_index(names, n, name) >= 0 by {
                if has_name(current, name) {
                    let j = choose|j: int|
                        0 <= j < current.len() && (#[trigger] current[j]).name == name;
                    assert(previous[j].name == name);
                    assert(has_name(previous, name));
                }
                if last_index(names, n, name) >= 0 {
                    if name != entry.name {
                        assert(has_name(previous, name));
                    }
                    let j = choose|j: int|
                        0 <= j < previous.len() && (#[trigger] previous[j]).name == name;
                    assert(current[j].name == name);
                }
            }
        } else {
            assert(current == previous.push(entry));
            assert forall|j: int| 0 <= j < previous.len() implies (#[trigger] previous[j]).name
                != entry.name by {}
            assert forall|a: int, b: int| 0 <= a < b < current.len() implies (
            #[trigger] current[a]).name != (#[trigger] current[b]).name by {
                assert(current[a] == previous[a]);
                if b < previous.len() {
                    assert(current[b] == previous[b]);
                }
            }
            assert forall|j: int| 0 <= j < current.len() implies {
                let held = #[trigger] current[j];
                let i = last_index(names, n, held.name);
                0 <= i < n && names[i] == held.name && values[i] == held.value
            } by {
                if j < previous.len() {
                    assert(current[j] == previous[j]);
                }
            }
            assert forall|name: Seq<char>| #[trigger]
                has_name(current, name) <==> last_index(names, n, name) >= 0 by {
                if has_name(current, name) {
                    let j = choose|j: int|
                        0 <= j < current.len() && (#[trigger] current[j]).name == name;
                    if j < previous.len() {
                        assert(previous[j].name == name);
                        assert(has_name(previous, name));
                    }
                }
                if last_index(names, n, name) >= 0 {
                    if name == entry.name {
                        assert(current[previous.len() as int].name == name);
                    } else {
                        assert(has_name(previous, name));
                        let j = choose|j: int|
                            0 <= j < previous.len() && (#[trigger] previous[j]).name == name;
                        assert(current[j].name == name);
                    }
                }
            }
        }
    }
}

/// Last write wins: the value under a name is the value of the last pair of
/// that name, and a name that no pair has is absent.
pub proof fn lemma_value_of_keyed(
    names: Seq<Seq<char>>,
    values: Seq<ValueView>,
    n: nat,
    name: Seq<char>,
)
    ensures
        value_of(keyed(names, values, n), name) == if last_index(names, n, name) >= 0 {
            Some(values[last_index(names, n, name)])
        } else {
            None
        },
{
    let document = keyed(names, values, n);
    lemma_keyed_holds_last(names, values, n);
    assert(has_name(document, name) <==> last_index(names, n, name) >= 0);
    if has_name(document, name) {
        let at = choose|j: int| 0 <= j < document.len() && (#[trigger] document[j]).name == name;
        assert(is_first(document, name, at));
        lemma_first_position(document, name, at);
    }
}

/// The position of the first entry with the given name.
pub fn find_name(entries: &Vec<Entry>, name: &str) -> (found: Option<usize>)
    ensures
        match found {
            Some(j) => is_first(entries_view(entries@), name@, j as int),
            None => !has_name(entries_view(entries@), name@),
        },
{
    let n: usize = entries.len();
    let mut j: usize = 0;
    while j < n
        invariant
            j <= n,
            n == entries@.len(),
            forall|k: int| 0 <= k < j ==> (#[trigger] entries_view(entries@)[k]).name != name@,
        decreases n - j,
    {
        if same_text(entries[j].name.as_str(), name) {
            return Some(j);
        }
        j += 1;
    }
    None
}

/// Writes a value under a name: over the entry of that name where there is
/// one, else as a new last entry.
pub fn write_entry(entries: &mut Vec<Entry>, name: String, value: StructuredValue)
    ensures
        entries_view(final(entries)@) == upsert(
            entries_view(old(entries)@),
            EntryView { name: name@, value: value@ },
        ),
{
    let ghost before = entries_view(entries@);
    let ghost entry = EntryView { name: name@, value: value@ };
    let found = find_name(entries, name.as_str());
    match found {
        Some(j) => {
            proof {
                lemma_first_position(before, name@, j as int);
            }
            entries.set(j, Entry { name, value });
            assert(entries_view(entries@) =~= before.update(j as int, entry));
        },
        None => {
            entries.push(Entry { name, value });
            assert(entries_view(entries@) =~= before.push(entry));
        },
    }
}

} // verus!
