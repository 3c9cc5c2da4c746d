//! The plugins of a router, by name and in the order of their registration.

use indexmap::IndexMap;
use vstd::prelude::*;

verus! {

/// The insertion-ordered map of the crate `indexmap`. Nothing is stated of its inside.
#[verifier::external_type_specification]
#[verifier::external_body]
#[verifier::reject_recursive_types(K)]
#[verifier::reject_recursive_types(V)]
#[verifier::reject_recursive_types(S)]
pub struct ExIndexMap<K, V, S>(indexmap::IndexMap<K, V, S>);

/// The pairs that `map` holds, in the map's own order.
pub uninterp spec fn slot_entries(map: IndexMap<String, usize>) -> Seq<(Seq<char>, usize)>;

/// Whether some entry goes by `name`.
pub open spec fn has_name<V>(entries: Seq<(Seq<char>, V)>, name: Seq<char>) -> bool {
    exists|i: int| 0 <= i < entries.len() && (#[trigger] entries[i]).0 == name
}

/// No two entries go by the same name.
pub open spec fn unique_names<V>(entries: Seq<(Seq<char>, V)>) -> bool {
    forall|i: int, j: int|
        0 <= i < j < entries.len() ==> (#[trigger] entries[i]).0 != (#[trigger] entries[j]).0
}

/// What the entry that goes by `name` holds, if there is one.
pub open spec fn found<V>(entries: Seq<(Seq<char>, V)>, name: Seq<char>) -> Option<V> {
    if has_name(entries, name) {
        Some(
            entries[choose|i: int|
                0 <= i < entries.len() && (#[trigger] entries[i]).0 == name].1,
        )
    } else {
        None
    }
}

/// `entries` once `value` is registered under `name`: a known name keeps its place and takes the
/// new value, a new name goes last.
pub open spec fn inserted<V>(
    entries: Seq<(Seq<char>, V)>,
    name: Seq<char>,
    value: V,
) -> Seq<(Seq<char>, V)> {
    if has_name(entries, name) {
        entries.map_values(
            |entry: (Seq<char>, V)|
                if entry.0 == name {
                    (name, value)
                } else {
                    entry
                },
        )
    } else {
        entries.push((name, value))
    }
}

/// Calls `IndexMap::new`: the new map holds nothing.
#[verifier::external_body]
fn new_slots() -> (map: IndexMap<String, usize>)
    ensures
        slot_entries(map) == Seq::<(Seq<char>, usize)>::empty(),
{
    IndexMap::new()
}

/// Calls `IndexMap::get`: the value that the map holds for the name, if it holds one.
#[verifier::external_body]
fn get_slot(map: &IndexMap<String, usize>, name: &str) -> (slot: Option<usize>)
    ensures
        slot == found(slot_entries(*map), name@),
{
    map.get(name).copied()
}

/// Calls `IndexMap::insert`: a known name keeps its place in the order and takes the new value, a
/// new name goes last. The value that was replaced, if any, is returned.
#[verifier::external_body]
fn insert_slot(map: &mut IndexMap<String, usize>, name: String, slot: usize) -> (replaced: Option<
    usize,
>)
    ensures
        slot_entries(*final(map)) == inserted(slot_entries(*old(map)), name@, slot),
        replaced == found(slot_entries(*old(map)), name@),
{
    map.insert(name, slot)
}

/// Calls `IndexMap::get_index`: the pair at a position of the map's order, if the map is long
/// enough.
#[verifier::external_body]
fn get_slot_at(map: &IndexMap<String, usize>, index: usize) -> (entry: Option<(&String, &usize)>)
    ensures
        entry is Some <==> index < slot_entries(*map).len(),
        entry matches Some((name, slot)) ==> (name@, *slot) == slot_entries(*map)[index as int],
{
    map.get_index(index)
}

/// The plugins of a router.
///
/// The map orders the names and finds each again. It gives the place in `values` at which the
/// plugin of a name stands.
pub struct Plugins<P> {
    slots: IndexMap<String, usize>,
    values: Vec<P>,
}

impl<P> View for Plugins<P> {
    type V = Seq<(Seq<char>, P)>;

    /// Each plugin with its name, in order.
    closed spec fn view(&self) -> Seq<(Seq<char>, P)> {
        Seq::new(
            self.values@.len(),
            |i: int| (slot_entries(self.slots)[i].0, self.values@[i]),
        )
    }
}

impl<P> Plugins<P> {
    /// The entry at each place of the order points at that place, and no name occurs twice.
    #[verifier::type_invariant]
    spec fn well_formed(self) -> bool {
        &&& slot_entries(self.slots).len() == self.values@.len()
        &&& forall|i: int|
            0 <= i < self.values@.len() ==> (#[trigger] slot_entries(self.slots)[i]).1 == i
        &&& unique_names(slot_entries(self.slots))
    }

    /// No plugins.
    pub fn new() -> (plugins: Self)
        ensures
            plugins@ == Seq::<(Seq<char>, P)>::empty(),
            unique_names(plugins@),
    {
        Plugins { slots: new_slots(), values: Vec::new() }
    }

    /// How many plugins there are.
    pub fn len(&self) -> (len: usize)
        ensures
            len == self@.len(),
    {
        self.values.len()
    }

    /// Registers `plugin` under `name`. A plugin that went by this name before gives its place to
    /// the new one; under a new name the plugin goes last.
    pub fn insert(self, name: String, plugin: P) -> (plugins: Self)
        ensures
            plugins@ == inserted(self@, name@, plugin),
            unique_names(plugins@),
    {
        proof {
            use_type_invariant(&self);
        }
        let ghost before = self@;
        let ghost entries = slot_entries(self.slots);
        let mut slots = self.slots;
        let mut values = self.values;
        assert(has_name(before, name@) <==> has_name(entries, name@)) by {
            assert(forall|i: int| 0 <= i < before.len() ==> before[i].0 == (#[trigger] entries[i]).0);
            assert(forall|i: int| 0 <= i < before.len() ==> entries[i].0 == (#[trigger] before[i]).0);
        }
        let slot: usize = match get_slot(&slots, name.as_str()) {
            Some(slot) => slot,
            None => values.len(),
        };
        let ghost wanted = name@;
        match insert_slot(&mut slots, name, slot) {
            Some(_) => {
                values.set(slot, plugin);
            },
            None => {
                values.push(plugin);
            },
        }
        assert(has_name(entries, wanted) ==> slot_entries(slots) =~= entries);
        let plugins = Plugins { slots, values };
        assert(plugins@ =~= inserted(before, wanted, plugin));
        plugins
    }

    /// The name and the plugin at a place of the order.
    pub fn get_index(&self, index: usize) -> (entry: Option<(&String, &P)>)
        ensures
            entry is Some <==> index < self@.len(),
            entry matches Some((name, plugin)) ==> (name@, *plugin) == self@[index as int],
    {
        proof {
            use_type_invariant(self);
        }
        match get_slot_at(&self.slots, index) {
            Some((name, slot)) => Some((name, &self.values[*slot])),
            None => None,
        }
    }

    /// The plugin that goes by `name`, if there is one.
    pub fn find(&self, name: &str) -> (plugin: Option<&P>)
        ensures
            unique_names(self@),
            plugin is Some <==> has_name(self@, name@),
            plugin matches Some(plugin) ==> found(self@, name@) == Some(*plugin),
    {
        proof {
            use_type_invariant(self);
        }
        let wanted: String = name.to_owned();
        let mut index: usize = 0;
        while index < self.values.len()
            invariant
                wanted@ == name@,
                index <= self.values@.len(),
                self@.len() == self.values@.len(),
                unique_names(self@),
                forall|i: int| 0 <= i < index ==> (#[trigger] self@[i]).0 != name@,
            decreases self.values@.len() - index,
        {
            if let Some((candidate, plugin)) = self.get_index(index) {
                if *candidate == wanted {
                    assert(self@[index as int].0 == name@);
                    return Some(plugin);
                }
            }
            index += 1;
        }
        None
    }
}

} // verus!
