//! Host-side trusted-client store (trust on first use).
//!
//! This is the heart of the zero-trust model: the **host**, not the relay,
//! decides who may connect. On a new connection the host checks this store; a
//! match is authorized, a miss triggers an operator prompt.

use vstd::prelude::*;
use vstd::string::*;

use crate::text;
use crate::text::trim;

verus! {

/// A single trusted client entry.
#[derive(Debug, Clone)]
pub struct TrustedEntry {
    /// Human-friendly label shown in logs.
    pub name: String,
    /// May view the screen.
    pub can_view: bool,
    /// May send input (control).
    pub can_control: bool,
    /// The owner's additional opt-in for the unattended physical console.
    pub can_unattended_console: bool,
}

/// Map of trusted client identity keys (base64) to entries. Keys are kept
/// trimmed, and no key occurs twice.
#[derive(Debug)]
pub struct TrustedClients {
    entries: Vec<(String, TrustedEntry)>,
}

/// Whether no two entries have one key.
spec fn keys_distinct(entries: Seq<(String, TrustedEntry)>) -> bool {
    forall|i: int, j: int|
        0 <= i < j < entries.len() ==> (#[trigger] entries[i]).0@ != (#[trigger] entries[j]).0@
}

/// The map that a list of entries stands for; a later entry wins over an earlier.
pub open spec fn entries_map(entries: Seq<(String, TrustedEntry)>) -> Map<Seq<char>, TrustedEntry>
    decreases entries.len(),
{
    if entries.len() == 0 {
        Map::empty()
    } else {
        entries_map(entries.drop_last()).insert(entries.last().0@, entries.last().1)
    }
}

proof fn entries_map_has(entries: Seq<(String, TrustedEntry)>, key: Seq<char>)
    ensures
        entries_map(entries).dom().finite(),
        entries_map(entries).contains_key(key) <==> exists|i: int|
            0 <= i < entries.len() && (#[trigger] entries[i]).0@ == key,
        keys_distinct(entries) ==> forall|i: int|
            0 <= i < entries.len() && (#[trigger] entries[i]).0@ == key ==> entries_map(
                entries,
            )[key] == entries[i].1,
        keys_distinct(entries) ==> entries_map(entries).len() == entries.len(),
    decreases entries.len(),
{
    if entries.len() > 0 {
        let front = entries.drop_last();
        entries_map_has(front, key);
        entries_map_has(front, entries.last().0@);
        assert(forall|i: int| 0 <= i < front.len() ==> front[i] == entries[i]);
        if entries_map(front).contains_key(key) {
            let i = choose|i: int| 0 <= i < front.len() && (#[trigger] front[i]).0@ == key;
            assert(entries[i].0@ == key);
        }
        if entries.last().0@ == key {
            assert(entries[entries.len() - 1].0@ == key);
        }
        if exists|i: int| 0 <= i < entries.len() && (#[trigger] entries[i]).0@ == key {
            let i = choose|i: int| 0 <= i < entries.len() && (#[trigger] entries[i]).0@ == key;
            if i < front.len() {
                assert(front[i].0@ == key);
            }
        }
        if keys_distinct(entries) {
            assert(keys_distinct(front));
            if entries_map(front).contains_key(entries.last().0@) {
                let i = choose|i: int|
                    0 <= i < front.len() && (#[trigger] front[i]).0@ == entries.last().0@;
                assert(entries[i].0@ != entries[entries.len() - 1].0@);
            }
        }
    }
}

impl View for TrustedClients {
    type V = Map<Seq<char>, TrustedEntry>;

    /// The entry of each trusted key.
    closed spec fn view(&self) -> Map<Seq<char>, TrustedEntry> {
        entries_map(self.entries@)
    }
}

/// Whether `trusted` lets the key view the unattended physical console.
pub open spec fn may_view_console(trusted: Map<Seq<char>, TrustedEntry>, key: Seq<char>) -> bool {
    let k = text::trimmed(key);
    trusted.contains_key(k) && trusted[k].can_view && trusted[k].can_unattended_console
}

/// Whether `trusted` lets the key control the unattended physical console.
pub open spec fn may_control_console(trusted: Map<Seq<char>, TrustedEntry>, key: Seq<char>) -> bool {
    let k = text::trimmed(key);
    may_view_console(trusted, key) && trusted[k].can_control
}

impl TrustedClients {
    #[verifier::type_invariant]
    spec fn distinct(self) -> bool {
        keys_distinct(self.entries@)
    }

    /// A store that trusts nobody.
    pub fn new() -> (store: Self)
        ensures
            store@ == Map::<Seq<char>, TrustedEntry>::empty(),
    {
        TrustedClients { entries: Vec::new() }
    }

    /// Look up a client by its base64 identity key.
    pub fn get(&self, public_key_b64: &str) -> (entry: Option<&TrustedEntry>)
        ensures
            entry is Some == self@.contains_key(text::trimmed(public_key_b64@)),
            entry matches Some(e) ==> *e == self@[text::trimmed(public_key_b64@)],
    {
        proof {
            use_type_invariant(self);
        }
        let key = trim(public_key_b64);
        proof {
            entries_map_has(self.entries@, key@);
        }
        let mut i: usize = 0;
        while i < self.entries.len()
            invariant
                i <= self.entries@.len(),
                key@ == text::trimmed(public_key_b64@),
                forall|j: int| 0 <= j < i ==> (#[trigger] self.entries@[j]).0@ != key@,
                entries_map(self.entries@).contains_key(key@) <==> exists|j: int|
                    0 <= j < self.entries@.len() && (#[trigger] self.entries@[j]).0@ == key@,
                forall|j: int|
                    0 <= j < self.entries@.len() && (#[trigger] self.entries@[j]).0@ == key@
                        ==> entries_map(self.entries@)[key@] == self.entries@[j].1,
            decreases self.entries@.len() - i,
        {
            if self.entries[i].0 == key {
                return Some(&self.entries[i].1);
            }
            i = i + 1;
        }
        None
    }

    /// True if the client key is already trusted.
    pub fn is_trusted(&self, public_key_b64: &str) -> (trusted: bool)
        ensures
            trusted == self@.contains_key(text::trimmed(public_key_b64@)),
    {
        self.get(public_key_b64).is_some()
    }

    /// True if the client may view the unattended physical console: it may view,
    /// and the owner opted it in.
    pub fn may_view_unattended_console(&self, public_key_b64: &str) -> (may: bool)
        ensures
            may == may_view_console(self@, public_key_b64@),
    {
        match self.get(public_key_b64) {
            Some(entry) => entry.can_view && entry.can_unattended_console,
            None => false,
        }
    }

    /// True if the client may control the unattended physical console: it may
    /// view it, and it may control.
    pub fn may_control_unattended_console(&self, public_key_b64: &str) -> (may: bool)
        ensures
            may == may_control_console(self@, public_key_b64@),
    {
        match self.get(public_key_b64) {
            Some(entry) => entry.can_view && entry.can_unattended_console && entry.can_control,
            None => false,
        }
    }

    /// Add (or replace) a trusted client.
    pub fn trust(&mut self, public_key_b64: &str, entry: TrustedEntry)
        ensures
            final(self)@ == old(self)@.insert(text::trimmed(public_key_b64@), entry),
    {
        self.revoke(public_key_b64);
        let key = trim(public_key_b64);
        proof {
            use_type_invariant(&*self);
            entries_map_has(self.entries@, key@);
        }
        let ghost before = self.entries@;
        let mut entries: Vec<(String, TrustedEntry)> = Vec::new();
        std::mem::swap(&mut entries, &mut self.entries);
        entries.push((key, entry));
        proof {
            assert(entries@.drop_last() =~= before);
            assert(entries_map(entries@) == entries_map(before).insert(key@, entry));
            assert forall|i: int, j: int| 0 <= i < j < entries@.len() implies (
            #[trigger] entries@[i]).0@ != (#[trigger] entries@[j]).0@ by {
                assert(entries@[i] == before[i]);
                if j < before.len() {
                    assert(entries@[j] == before[j]);
                }
            }
        }
        self.entries = entries;
        assert(self@ =~= old(self)@.insert(text::trimmed(public_key_b64@), entry));
    }

    /// Remove a trusted client.
    pub fn revoke(&mut self, public_key_b64: &str)
        ensures
            final(self)@ == old(self)@.remove(text::trimmed(public_key_b64@)),
    {
        let key = trim(public_key_b64);
        proof {
            use_type_invariant(&*self);
        }
        let ghost before = self.entries@;
        let mut entries: Vec<(String, TrustedEntry)> = Vec::new();
        std::mem::swap(&mut entries, &mut self.entries);
        let mut i: usize = 0;
        while i < entries.len()
            invariant
                i <= entries@.len(),
                entries@ == before,
                forall|j: int| 0 <= j < i ==> (#[trigger] before[j]).0@ != key@,
            ensures
                entries@ == before,
                i <= before.len(),
                forall|j: int| 0 <= j < i ==> (#[trigger] before[j]).0@ != key@,
                i < before.len() ==> before[i as int].0@ == key@,
            decreases entries@.len() - i,
        {
            if entries[i].0 == key {
                break;
            }
            i = i + 1;
        }
        if i < entries.len() {
            let _ = entries.remove(i);
        }
        proof {
            let after = entries@;
            assert(keys_distinct(after)) by {
                assert forall|j: int, k: int| 0 <= j < k < after.len() implies (
                #[trigger] after[j]).0@ != (#[trigger] after[k]).0@ by {
                    let j0 = if j < i { j } else if after.len() < before.len() { j + 1 } else { j };
                    let k0 = if k < i { k } else if after.len() < before.len() { k + 1 } else { k };
                    assert(after[j] == before[j0] && after[k] == before[k0]);
                }
            }
            assert(entries_map(after) =~= entries_map(before).remove(key@)) by {
                assert forall|q: Seq<char>|
                    entries_map(after).contains_key(q) == #[trigger] entries_map(before).remove(
                        key@,
                    ).contains_key(q) && (entries_map(after).contains_key(q) ==> entries_map(
                        after,
                    )[q] == entries_map(before).remove(key@)[q]) by {
                    entries_map_has(after, q);
                    entries_map_has(before, q);
                    removal_keeps(before, i as int, q);
                }
            }
        }
        self.entries = entries;
    }

    /// Number of trusted clients.
    pub fn len(&self) -> (n: usize)
        ensures
            self@.dom().finite(),
            n == self@.len(),
    {
        proof {
            use_type_invariant(self);
            entries_map_has(self.entries@, Seq::empty());
        }
        self.entries.len()
    }

    /// True if no clients are trusted yet.
    pub fn is_empty(&self) -> (empty: bool)
        ensures
            empty == (self@.dom() =~= Set::<Seq<char>>::empty()),
    {
        proof {
            use_type_invariant(self);
            if self.entries@.len() > 0 {
                let q = self.entries@[0].0@;
                entries_map_has(self.entries@, q);
                assert(self@.dom().contains(q));
            }
        }
        self.entries.len() == 0
    }

    /// The entries, for storing them.
    pub fn entries(&self) -> (entries: &Vec<(String, TrustedEntry)>)
        ensures
            entries_map(entries@) == self@,
    {
        &self.entries
    }
}

/// Which keys a list has after an entry is taken out of it.
proof fn removal_keeps(before: Seq<(String, TrustedEntry)>, at: int, q: Seq<char>)
    requires
        0 <= at <= before.len(),
        keys_distinct(before),
    ensures
        at < before.len() ==> {
            let after = before.remove(at);
            &&& (exists|i: int| 0 <= i < after.len() && (#[trigger] after[i]).0@ == q) <==> (exists|
                i: int,
            |
                0 <= i < before.len() && i != at && (#[trigger] before[i]).0@ == q)
            &&& forall|i: int|
                0 <= i < after.len() ==> (#[trigger] after[i]) == before[if i < at {
                    i
                } else {
                    i + 1
                }]
        },
{
    if at < before.len() {
        let after = before.remove(at);
        assert forall|i: int| 0 <= i < after.len() implies (#[trigger] after[i]) == before[if i < at {
            i
        } else {
            i + 1
        }] by {}
        if exists|i: int| 0 <= i < after.len() && (#[trigger] after[i]).0@ == q {
            let i = choose|i: int| 0 <= i < after.len() && (#[trigger] after[i]).0@ == q;
            let i0 = if i < at { i } else { i + 1 };
            assert(before[i0].0@ == q);
        }
        if exists|i: int| 0 <= i < before.len() && i != at && (#[trigger] before[i]).0@ == q {
            let i = choose|i: int| 0 <= i < before.len() && i != at && (#[trigger] before[i]).0@
                == q;
            let i1 = if i < at { i } else { i - 1 };
            assert(after[i1].0@ == q);
        }
    }
}

/// The physical console is viewed only with the owner's opt-in besides the right to
/// view, and controlled only with the right to control besides both. Who has all of
/// them, may; who is unknown, may nothing.
pub proof fn console_needs_every_permission(
    trusted: Map<Seq<char>, TrustedEntry>,
    key: Seq<char>,
)
    ensures
        !trusted.contains_key(text::trimmed(key)) ==> !may_view_console(trusted, key)
            && !may_control_console(trusted, key),
        trusted.contains_key(text::trimmed(key)) ==> {
            let entry = trusted[text::trimmed(key)];
            &&& may_view_console(trusted, key) <==> entry.can_view && entry.can_unattended_console
            &&& may_control_console(trusted, key) <==> entry.can_view
                && entry.can_unattended_console && entry.can_control
        },
        may_control_console(trusted, key) ==> may_view_console(trusted, key),
{
}

/// A list of entries trusts exactly the keys that it names, and of two entries with
/// one key the later counts.
pub proof fn listed_keys_are_trusted(entries: Seq<(String, TrustedEntry)>, i: int)
    requires
        0 <= i < entries.len(),
    ensures
        entries_map(entries).contains_key(entries[i].0@),
        (forall|j: int| i < j < entries.len() ==> (#[trigger] entries[j]).0@ != entries[i].0@)
            ==> entries_map(entries)[entries[i].0@] == entries[i].1,
    decreases entries.len(),
{
    if i < entries.len() - 1 {
        let front = entries.drop_last();
        assert(forall|j: int| 0 <= j < front.len() ==> front[j] == entries[j]);
        listed_keys_are_trusted(front, i);
        assert(entries.last() == entries[entries.len() - 1]);
    }
}

} // verus!
