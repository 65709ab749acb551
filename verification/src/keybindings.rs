//! The keybinding table: from a modifier set and a key to the event bound to it.

use crate::event::{ReedlineEvent, ReedlineEventView};
use crate::keys::{KeyCode, KeyCombination};
use vstd::prelude::*;

verus! {

struct Binding {
    key: KeyCombination,
    event: ReedlineEvent,
}

/// A table of keybindings.
///
/// As a mathematical value it is a map from key combinations to events. A
/// lookup matches the whole combination: the same key with another modifier
/// set is another entry.
pub struct Keybindings {
    bindings: Vec<Binding>,
}

/// Some entry of `entries` is for `key`.
spec fn bound(entries: Seq<Binding>, key: KeyCombination) -> bool {
    exists|i: int| 0 <= i < entries.len() && (#[trigger] entries[i]).key == key
}

/// The place of an entry for `key`, where there is one.
spec fn place(entries: Seq<Binding>, key: KeyCombination) -> int {
    choose|i: int| 0 <= i < entries.len() && (#[trigger] entries[i]).key == key
}

/// No two entries are for the same key combination.
spec fn distinct(entries: Seq<Binding>) -> bool {
    forall|i: int, j: int|
        0 <= i < j < entries.len() ==> (#[trigger] entries[i]).key != (#[trigger] entries[j]).key
}

/// The map that a list of entries stands for.
spec fn table(entries: Seq<Binding>) -> Map<KeyCombination, ReedlineEventView> {
    Map::new(
        |key: KeyCombination| bound(entries, key),
        |key: KeyCombination| entries[place(entries, key)].event@,
    )
}

/// In a list without repeated keys, the entry at `i` is what its key maps to.
proof fn lemma_entry(entries: Seq<Binding>, i: int)
    requires
        distinct(entries),
        0 <= i < entries.len(),
    ensures
        table(entries).contains_key(entries[i].key),
        table(entries)[entries[i].key] == entries[i].event@,
{
    let key = entries[i].key;
    assert(bound(entries, key));
    let p = place(entries, key);
    assert(0 <= p < entries.len() && entries[p].key == key);
    if p < i {
        assert(entries[p].key != entries[i].key);
    } else if i < p {
        assert(entries[i].key != entries[p].key);
    }
}

impl View for Keybindings {
    type V = Map<KeyCombination, ReedlineEventView>;

    closed spec fn view(&self) -> Map<KeyCombination, ReedlineEventView> {
        table(self.bindings@)
    }
}

/// The place of the entry for `key`, or the number of entries if there is
/// none.
fn position(bindings: &Vec<Binding>, key: KeyCombination) -> (at: usize)
    ensures
        at <= bindings@.len(),
        at < bindings@.len() ==> bindings@[at as int].key == key,
        at == bindings@.len() ==> !bound(bindings@, key),
{
    let mut at: usize = 0;
    while at < bindings.len()
        invariant
            at <= bindings@.len(),
            forall|j: int| 0 <= j < at ==> (#[trigger] bindings@[j]).key != key,
        decreases bindings@.len() - at,
    {
        if bindings[at].key == key {
            return at;
        }
        at += 1;
    }
    at
}

/// Puts `command` in the place of what `key` was bound to, or at the end.
fn upsert(bindings: &mut Vec<Binding>, key: KeyCombination, command: ReedlineEvent)
    requires
        distinct(old(bindings)@),
    ensures
        distinct(final(bindings)@),
        table(final(bindings)@) == table(old(bindings)@).insert(key, command@),
{
    let at = position(bindings, key);
    let ghost before = bindings@;
    let ghost value = command@;
    if at < bindings.len() {
        bindings[at] = Binding { key, event: command };
    } else {
        bindings.push(Binding { key, event: command });
    }
    proof {
        let after = bindings@;
        assert(after[at as int].key == key && after[at as int].event@ == value);
        assert forall|i: int, j: int| 0 <= i < j < after.len() implies (#[trigger] after[i]).key
            != (#[trigger] after[j]).key by {
            if at < before.len() {
                assert(after[i].key == before[i].key);
                assert(after[j].key == before[j].key);
            } else if j == at {
                assert(after[i] == before[i]);
            } else {
                assert(after[i] == before[i]);
                assert(after[j] == before[j]);
            }
        }
        assert forall|k: KeyCombination|
            table(after).contains_key(k) == table(before).insert(key, value).contains_key(
                k,
            ) by {
            if k != key {
                if bound(before, k) {
                    let p = place(before, k);
                    assert(after[p].key == k);
                }
                if bound(after, k) {
                    let p = place(after, k);
                    assert(before[p].key == k);
                }
            }
        }
        assert forall|k: KeyCombination| #[trigger]
            table(after).contains_key(k) implies table(after)[k] == table(before).insert(
            key,
            value,
        )[k] by {
            let p = place(after, k);
            lemma_entry(after, p);
            if k != key {
                assert(after[p] == before[p]);
                lemma_entry(before, p);
            } else {
                lemma_entry(after, at as int);
            }
        }
        assert(table(after) =~= table(before).insert(key, value));
    }
}

/// Takes the entry for `key` out, and returns what it was bound to.
fn take_out(bindings: &mut Vec<Binding>, key: KeyCombination) -> (removed: Option<ReedlineEvent>)
    requires
        distinct(old(bindings)@),
    ensures
        distinct(final(bindings)@),
        table(final(bindings)@) == table(old(bindings)@).remove(key),
        removed is Some <==> table(old(bindings)@).contains_key(key),
        removed matches Some(event) ==> event@ == table(old(bindings)@)[key],
{
    let at = position(bindings, key);
    let ghost before = bindings@;
    if at < bindings.len() {
        proof {
            lemma_entry(before, at as int);
        }
        let binding = bindings.remove(at);
        proof {
            let after = bindings@;
            assert forall|i: int, j: int| 0 <= i < j < after.len() implies (
            #[trigger] after[i]).key != (#[trigger] after[j]).key by {
                let bi = if i < at { i } else { i + 1 };
                let bj = if j < at { j } else { j + 1 };
                assert(after[i] == before[bi]);
                assert(after[j] == before[bj]);
            }
            assert forall|k: KeyCombination|
                table(after).contains_key(k) == table(before).remove(key).contains_key(
                    k,
                ) by {
                if bound(after, k) {
                    let p = place(after, k);
                    let bp = if p < at { p } else { p + 1 };
                    assert(before[bp].key == k);
                    if bp < at {
                        assert(before[bp].key != before[at as int].key);
                    } else {
                        assert(before[at as int].key != before[bp].key);
                    }
                }
                if k != key && bound(before, k) {
                    let p = place(before, k);
                    let ap = if p < at { p } else { p - 1 };
                    assert(after[ap].key == k);
                }
            }
            assert forall|k: KeyCombination| #[trigger]
                table(after).contains_key(k) implies table(after)[k] == table(before).remove(
                key,
            )[k] by {
                let p = place(after, k);
                let bp = if p < at { p } else { p + 1 };
                lemma_entry(after, p);
                assert(after[p] == before[bp]);
                lemma_entry(before, bp);
            }
            assert(table(after) =~= table(before).remove(key));
        }
        Some(binding.event)
    } else {
        proof {
            assert(table(before) =~= table(before).remove(key));
        }
        None
    }
}

impl Default for Keybindings {
    /// The empty table.
    fn default() -> (table: Keybindings)
        ensures
            table@ == Map::<KeyCombination, ReedlineEventView>::empty(),
    {
        Keybindings::new()
    }
}

impl Keybindings {
    #[verifier::type_invariant]
    spec fn well_formed(&self) -> bool {
        distinct(self.bindings@)
    }

    /// The empty table.
    pub fn new() -> (table: Keybindings)
        ensures
            table@ == Map::<KeyCombination, ReedlineEventView>::empty(),
    {
        let table = Keybindings { bindings: Vec::new() };
        assert(table@ =~= Map::<KeyCombination, ReedlineEventView>::empty());
        table
    }

    /// Binds the key combination to `command`, in place of what it was bound
    /// to before.
    pub fn add_binding(&mut self, modifier: u8, key_code: KeyCode, command: ReedlineEvent)
        ensures
            final(self)@ == old(self)@.insert(KeyCombination { modifier, key_code }, command@),
    {
        proof {
            use_type_invariant(&*self);
        }
        let mut bindings: Vec<Binding> = Vec::new();
        core::mem::swap(&mut self.bindings, &mut bindings);
        upsert(&mut bindings, KeyCombination { modifier, key_code }, command);
        core::mem::swap(&mut self.bindings, &mut bindings);
    }

    /// What the key combination is bound to, if it is bound.
    pub fn find_binding(&self, modifier: u8, key_code: KeyCode) -> (found: Option<ReedlineEvent>)
        ensures
            found is Some <==> self@.contains_key(KeyCombination { modifier, key_code }),
            found matches Some(event) ==> event@ == self@[KeyCombination { modifier, key_code }],
    {
        proof {
            use_type_invariant(self);
        }
        let key = KeyCombination { modifier, key_code };
        let at = position(&self.bindings, key);
        if at < self.bindings.len() {
            proof {
                lemma_entry(self.bindings@, at as int);
            }
            Some(self.bindings[at].event.clone())
        } else {
            None
        }
    }

    /// Takes the binding of the key combination out of the table, and returns
    /// what it was bound to.
    pub fn remove_binding(&mut self, modifier: u8, key_code: KeyCode) -> (removed: Option<
        ReedlineEvent,
    >)
        ensures
            final(self)@ == old(self)@.remove(KeyCombination { modifier, key_code }),
            removed is Some <==> old(self)@.contains_key(KeyCombination { modifier, key_code }),
            removed matches Some(event) ==> event@ == old(self)@[KeyCombination {
                modifier,
                key_code,
            }],
    {
        proof {
            use_type_invariant(&*self);
        }
        let mut bindings: Vec<Binding> = Vec::new();
        core::mem::swap(&mut self.bindings, &mut bindings);
        let removed = take_out(&mut bindings, KeyCombination { modifier, key_code });
        core::mem::swap(&mut self.bindings, &mut bindings);
        removed
    }
}

} // verus!
