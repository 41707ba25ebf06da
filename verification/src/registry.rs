//! What the supervisor remembers of each service, by name: its live
//! handle, the configuration it was last started with, how often it was
//! restarted, and whether it ever connected.
//!
//! Each of the four is a map of its own, so that a caller can guard each
//! with its own lock.

use crate::json::JsonValue;
use crate::text::text_eq;
use vstd::prelude::*;

verus! {

/// A map from names to values. It keeps its entries in the order in which
/// their names first came in.
pub struct NameMap<V> {
    entries: Vec<(String, V)>,
}

impl<V> NameMap<V> {
    /// No two entries share a name.
    pub closed spec fn wf(&self) -> bool {
        self.distinct()
    }

    spec fn distinct(self) -> bool {
        forall|i: int, j: int|
            0 <= i < j < self.entries@.len() ==> (#[trigger] self.entries@[i]).0@ != (
            #[trigger] self.entries@[j]).0@
    }

    spec fn holds(self, name: Seq<char>, i: int) -> bool {
        0 <= i < self.entries@.len() && self.entries@[i].0@ == name
    }

    /// The map: every name that has an entry, with the entry's value.
    pub closed spec fn view(&self) -> Map<Seq<char>, V> {
        Map::new(
            |name: Seq<char>| exists|i: int| self.holds(name, i),
            |name: Seq<char>| self.entries@[choose|i: int| self.holds(name, i)].1,
        )
    }

    /// The names in the order of their entries.
    pub closed spec fn names(&self) -> Seq<Seq<char>> {
        self.entries@.map_values(|e: (String, V)| e.0@)
    }

    proof fn lemma_one_entry_for_each_name(self, name: Seq<char>, i: int, j: int)
        requires
            self.distinct(),
            self.holds(name, i),
            self.holds(name, j),
        ensures
            i == j,
    {
        if i < j {
            assert(self.entries@[i].0@ != self.entries@[j].0@);
        }
        if j < i {
            assert(self.entries@[j].0@ != self.entries@[i].0@);
        }
    }

    proof fn lemma_entry(self, i: int)
        requires
            self.distinct(),
            0 <= i < self.entries@.len(),
        ensures
            self@.contains_key(self.entries@[i].0@),
            self@[self.entries@[i].0@] == self.entries@[i].1,
    {
        let name = self.entries@[i].0@;
        assert(self.holds(name, i));
        let j = choose|j: int| self.holds(name, j);
        self.lemma_one_entry_for_each_name(name, i, j);
    }

    /// A map without entries.
    pub fn new() -> (map: NameMap<V>)
        ensures
            map.wf(),
            map@ == Map::<Seq<char>, V>::empty(),
            map.names() == Seq::<Seq<char>>::empty(),
    {
        let map = NameMap { entries: Vec::new() };
        map
    }

    /// The number of entries.
    pub fn len(&self) -> (n: usize)
        requires
            self.wf(),
        ensures
            n == self@.dom().len(),
            n == self.names().len(),
            self@.dom().finite(),
    {
        proof {
            self.lemma_dom();
        }
        self.entries.len()
    }

    proof fn lemma_dom(self)
        requires
            self.distinct(),
        ensures
            self@.dom().finite(),
            self@.dom().len() == self.entries@.len(),
            self@.dom() == self.names().to_set(),
            self.names().no_duplicates(),
    {
        let names = self.names();
        assert forall|name: Seq<char>| self@.dom().contains(name) <==> names.to_set().contains(
            name,
        ) by {
            if self@.dom().contains(name) {
                let i = choose|i: int| self.holds(name, i);
                assert(names[i] == name);
            }
            if names.to_set().contains(name) {
                let i = choose|i: int| 0 <= i < names.len() && names[i] == name;
                assert(self.holds(name, i));
            }
        }
        assert(self@.dom() =~= names.to_set());
        names.unique_seq_to_set();
    }

    /// The names of a map are its keys, each of them once.
    pub proof fn lemma_names_are_keys(self)
        requires
            self.wf(),
        ensures
            self.names().no_duplicates(),
            self@.dom() == self.names().to_set(),
            self@.dom().finite(),
            self@.dom().len() == self.names().len(),
    {
        self.lemma_dom();
    }

    fn locate(&self, name: &str) -> (at: usize)
        ensures
            at <= self.entries@.len(),
            at < self.entries@.len() ==> self.entries@[at as int].0@ == name@,
            at == self.entries@.len() ==> !self@.contains_key(name@),
    {
        let mut i: usize = 0;
        while i < self.entries.len()
            invariant
                i <= self.entries.len(),
                forall|j: int| 0 <= j < i ==> self.entries@[j].0@ != name@,
            decreases self.entries.len() - i,
        {
            if text_eq(self.entries[i].0.as_str(), name) {
                return i;
            }
            i += 1;
        }
        i
    }

    /// The value under `name`.
    pub fn get(&self, name: &str) -> (found: Option<&V>)
        requires
            self.wf(),
        ensures
            match found {
                Some(value) => self@.contains_key(name@) && self@[name@] == *value,
                None => !self@.contains_key(name@),
            },
    {
        let at = self.locate(name);
        if at < self.entries.len() {
            proof {
                self.lemma_entry(at as int);
            }
            Some(&self.entries[at].1)
        } else {
            None
        }
    }

    /// Whether `name` has an entry.
    pub fn contains(&self, name: &str) -> (r: bool)
        requires
            self.wf(),
        ensures
            r == self@.contains_key(name@),
    {
        self.get(name).is_some()
    }

    /// Puts `value` under `name`, and hands back what stood there.
    pub fn insert(&mut self, name: &str, value: V) -> (previous: Option<V>)
        requires
            old(self).wf(),
        ensures
            final(self).wf(),
            final(self)@ == old(self)@.insert(name@, value),
            match previous {
                Some(v) => old(self)@.contains_key(name@) && old(self)@[name@] == v,
                None => !old(self)@.contains_key(name@),
            },
    {
        let at = self.locate(name);
        let ghost before = *self;
        if at < self.entries.len() {
            proof {
                before.lemma_entry(at as int);
            }
            let (key, previous) = self.entries.remove(at);
            self.entries.insert(at, (key, value));
            proof {
                self.lemma_same_names_update(before, at as int, value);
            }
            Some(previous)
        } else {
            self.entries.push((name.to_owned(), value));
            assert(self.distinct()) by {
                assert forall|i: int, j: int| 0 <= i < j < self.entries@.len() implies (
                #[trigger] self.entries@[i]).0@ != (#[trigger] self.entries@[j]).0@ by {
                    if j == before.entries@.len() {
                        assert(before.holds(before.entries@[i].0@, i));
                    }
                }
            }
            proof {
                self.lemma_pushed(before, name@, value);
            }
            None
        }
    }

    proof fn lemma_same_names_update(self, before: Self, at: int, value: V)
        requires
            self.distinct(),
            before.distinct(),
            0 <= at < before.entries@.len(),
            self.entries@.len() == before.entries@.len(),
            forall|i: int|
                0 <= i < self.entries@.len() ==> (#[trigger] self.entries@[i]).0@
                    == before.entries@[i].0@,
            forall|i: int|
                0 <= i < self.entries@.len() && i != at ==> (#[trigger] self.entries@[i]).1
                    == before.entries@[i].1,
            self.entries@[at].1 == value,
        ensures
            self@ == before@.insert(before.entries@[at].0@, value),
    {
        let name = before.entries@[at].0@;
        let want = before@.insert(name, value);
        assert forall|k: Seq<char>| self@.dom().contains(k) <==> want.dom().contains(k) by {
            if self@.dom().contains(k) {
                let i = choose|i: int| self.holds(k, i);
                assert(before.holds(k, i));
            }
            if want.dom().contains(k) {
                if k == name {
                    assert(self.holds(k, at));
                } else {
                    let i = choose|i: int| before.holds(k, i);
                    assert(self.holds(k, i));
                }
            }
        }
    }

    proof fn lemma_pushed(self, before: Self, name: Seq<char>, value: V)
        requires
            self.distinct(),
            before.distinct(),
            !before@.contains_key(name),
            self.entries@.len() == before.entries@.len() + 1,
            forall|i: int|
                0 <= i < before.entries@.len() ==> (#[trigger] self.entries@[i])
                    == before.entries@[i],
            self.entries@[before.entries@.len() as int].0@ == name,
            self.entries@[before.entries@.len() as int].1 == value,
        ensures
            self@ == before@.insert(name, value),
    {
        let want = before@.insert(name, value);
        let n = before.entries@.len() as int;
        assert forall|k: Seq<char>| self@.dom().contains(k) <==> want.dom().contains(k) by {
            if self@.dom().contains(k) {
                let i = choose|i: int| self.holds(k, i);
                if i < n {
                    assert(before.holds(k, i));
                }
            }
            if want.dom().contains(k) {
                if k == name {
                    assert(self.holds(k, n));
                } else {
                    let i = choose|i: int| before.holds(k, i);
                    assert(self.holds(k, i));
                }
            }
        }
    }

    /// Takes the entry of `name` out, and hands back its value.
    pub fn remove(&mut self, name: &str) -> (removed: Option<V>)
        requires
            old(self).wf(),
        ensures
            final(self).wf(),
            final(self)@ == old(self)@.remove(name@),
            match removed {
                Some(v) => old(self)@.contains_key(name@) && old(self)@[name@] == v,
                None => !old(self)@.contains_key(name@),
            },
    {
        let at = self.locate(name);
        let ghost before = *self;
        if at < self.entries.len() {
            proof {
                before.lemma_entry(at as int);
            }
            let (_, removed) = self.entries.remove(at);
            proof {
                let want = before@.remove(name@);
                assert forall|k: Seq<char>| self@.dom().contains(k) <==> want.dom().contains(
                    k,
                ) by {
                    if self@.dom().contains(k) {
                        let i = choose|i: int| self.holds(k, i);
                        let bi = if i < at { i } else { i + 1 };
                        assert(before.holds(k, bi));
                        if k == name@ {
                            before.lemma_one_entry_for_each_name(k, bi, at as int);
                        }
                    }
                    if want.dom().contains(k) {
                        let i = choose|i: int| before.holds(k, i);
                        let si = if i < at { i } else { i - 1 };
                        assert(self.holds(k, si));
                    }
                }
                assert forall|k: Seq<char>| self@.dom().contains(k) implies self@[k]
                    == want[k] by {
                    let i = choose|i: int| self.holds(k, i);
                    let bi = if i < at { i } else { i + 1 };
                    before.lemma_entry(bi);
                }
            }
            Some(removed)
        } else {
            None
        }
    }

    /// Takes every entry out.
    pub fn clear(&mut self)
        ensures
            final(self).wf(),
            final(self)@ == Map::<Seq<char>, V>::empty(),
    {
        self.entries.clear();
    }

    /// Takes the first entry out and hands it back.
    pub fn take_first(&mut self) -> (taken: Option<(String, V)>)
        requires
            old(self).wf(),
        ensures
            final(self).wf(),
            match taken {
                Some(entry) => {
                    &&& old(self).names().len() > 0
                    &&& entry.0@ == old(self).names()[0]
                    &&& old(self)@.contains_key(entry.0@)
                    &&& old(self)@[entry.0@] == entry.1
                    &&& final(self)@ == old(self)@.remove(entry.0@)
                    &&& final(self).names() == old(self).names().skip(1)
                },
                None => old(self).names().len() == 0 && final(self)@ == old(self)@
                    && old(self)@ == Map::<Seq<char>, V>::empty(),
            },
    {
        let ghost before = *self;
        if self.entries.len() == 0 {
            return None;
        }
        proof {
            before.lemma_entry(0);
        }
        let entry = self.entries.remove(0);
        proof {
            let want = before@.remove(entry.0@);
            assert forall|k: Seq<char>| self@.dom().contains(k) <==> want.dom().contains(k) by {
                if self@.dom().contains(k) {
                    let i = choose|i: int| self.holds(k, i);
                    assert(before.holds(k, i + 1));
                }
                if want.dom().contains(k) {
                    let i = choose|i: int| before.holds(k, i);
                    assert(self.holds(k, i - 1));
                }
            }
        }
        Some(entry)
    }

    /// The name of the entry at `position`, counted in the order of
    /// `names`.
    pub fn name_at(&self, position: usize) -> (name: &String)
        requires
            self.wf(),
            position < self.names().len(),
        ensures
            name@ == self.names()[position as int],
            self@.contains_key(name@),
    {
        proof {
            self.lemma_entry(position as int);
        }
        &self.entries[position].0
    }

    /// The value of the entry at `position`, counted in the order of
    /// `names`.
    pub fn value_at(&self, position: usize) -> (value: &V)
        requires
            self.wf(),
            position < self.names().len(),
        ensures
            self@.contains_key(self.names()[position as int]),
            *value == self@[self.names()[position as int]],
    {
        proof {
            self.lemma_entry(position as int);
        }
        &self.entries[position].1
    }
}

/// Why a service's connection ended.
#[derive(Debug, Clone, Copy, PartialEq, Eq, Structural)]
pub enum QuitReason {
    /// The connection was cancelled.
    Cancelled,
    /// The connection was closed.
    Closed,
    /// The task that served the connection could not be joined.
    JoinError,
}

/// The restart counter of `name`: 0 where none is kept.
pub open spec fn restart_count_in(counts: Map<Seq<char>, u32>, name: Seq<char>) -> u32 {
    if counts.contains_key(name) {
        counts[name]
    } else {
        0
    }
}

/// Whether `name` ever connected: it has a flag, and the flag is set.
pub open spec fn connected_in(flags: Map<Seq<char>, bool>, name: Seq<char>) -> bool {
    flags.contains_key(name) && flags[name]
}

/// `count` raised by one; the largest number stays as it is.
pub open spec fn raised(count: u32) -> u32 {
    if count < u32::MAX {
        (count + 1) as u32
    } else {
        count
    }
}

/// Keeps the configuration that the service `name` is started with, for
/// later restarts.
pub fn store_active_server_config(active: &mut NameMap<JsonValue>, name: &str, config: JsonValue)
    requires
        old(active).wf(),
    ensures
        final(active).wf(),
        final(active)@ == old(active)@.insert(name@, config),
{
    let _ = active.insert(name, config);
}

/// Sets the restart counter of `name` to 0.
pub fn reset_restart_count(counts: &mut NameMap<u32>, name: &str)
    requires
        old(counts).wf(),
    ensures
        final(counts).wf(),
        final(counts)@ == old(counts)@.insert(name@, 0u32),
        restart_count_in(final(counts)@, name@) == 0,
{
    let _ = counts.insert(name, 0);
}

/// The restart counter of `name`.
pub fn restart_count(counts: &NameMap<u32>, name: &str) -> (count: u32)
    requires
        counts.wf(),
    ensures
        count == restart_count_in(counts@, name@),
{
    match counts.get(name) {
        Some(count) => *count,
        None => 0,
    }
}

/// Raises the restart counter of `name` by one and hands back the new
/// count.
pub fn increment_restart_count(counts: &mut NameMap<u32>, name: &str) -> (count: u32)
    requires
        old(counts).wf(),
    ensures
        final(counts).wf(),
        count == raised(restart_count_in(old(counts)@, name@)),
        final(counts)@ == old(counts)@.insert(name@, count),
{
    let current = restart_count(counts, name);
    let count: u32 = if current < u32::MAX {
        current + 1
    } else {
        current
    };
    let _ = counts.insert(name, count);
    count
}

/// Marks `name` as having connected.
pub fn mark_connected(flags: &mut NameMap<bool>, name: &str)
    requires
        old(flags).wf(),
    ensures
        final(flags).wf(),
        final(flags)@ == old(flags)@.insert(name@, true),
        connected_in(final(flags)@, name@),
{
    let _ = flags.insert(name, true);
}

/// Whether `name` ever connected.
pub fn is_connected(flags: &NameMap<bool>, name: &str) -> (connected: bool)
    requires
        flags.wf(),
    ensures
        connected == connected_in(flags@, name@),
{
    match flags.get(name) {
        Some(flag) => *flag,
        None => false,
    }
}

/// Whether a service whose monitor has ended is to be restarted: only
/// where it connected before, and only where the monitor gives a reason,
/// which it does not after a stop on request.
pub fn should_restart_server(
    flags: &NameMap<bool>,
    name: &str,
    quit_reason: &Option<QuitReason>,
) -> (restart: bool)
    requires
        flags.wf(),
    ensures
        restart == (connected_in(flags@, name@) && quit_reason is Some),
{
    if !is_connected(flags, name) {
        return false;
    }
    quit_reason.is_some()
}

/// Forgets the configurations and the restart counters of all services,
/// once they have been stopped.
pub fn clean_up_mcp_servers(active: &mut NameMap<JsonValue>, counts: &mut NameMap<u32>)
    ensures
        final(active).wf(),
        final(counts).wf(),
        final(active)@ == Map::<Seq<char>, JsonValue>::empty(),
        final(counts)@ == Map::<Seq<char>, u32>::empty(),
{
    active.clear();
    counts.clear();
}

/// Takes the next service to stop out of the registry of handles, with
/// its handle; nothing where none is left.
pub fn stop_mcp_servers<H>(handles: &mut NameMap<H>) -> (next: Option<(String, H)>)
    requires
        old(handles).wf(),
    ensures
        final(handles).wf(),
        match next {
            Some(entry) => {
                &&& old(handles)@.contains_key(entry.0@)
                &&& old(handles)@[entry.0@] == entry.1
                &&& final(handles)@ == old(handles)@.remove(entry.0@)
            },
            None => old(handles)@ == Map::<Seq<char>, H>::empty() && final(handles)@ == old(
                handles,
            )@,
        },
{
    handles.take_first()
}

} // verus!
