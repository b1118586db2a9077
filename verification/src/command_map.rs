//! The per-deployment command table of a plan: one entry per deployment
//! name, each carrying the output file path and the argument list.
//!
//! The table is a name-keyed mapping. Its iteration order is deliberately
//! unspecified for callers: the contract below speaks only of the map view,
//! so nothing may rely on the order in which sibling deployments are listed.
//! Inserting an existing name silently replaces the earlier entry.
use vstd::prelude::*;

use crate::text::str_eq;

verus! {

/// One planned command: the output file path and the argument list.
pub type PlannedCommand = (String, Vec<String>);

/// The mapping described by a list of `(name, command)` entries, the last
/// entry for a name winning.
pub open spec fn entries_as_map(entries: Seq<(String, PlannedCommand)>) -> Map<
    Seq<char>,
    (Seq<char>, Seq<Seq<char>>),
>
    decreases entries.len(),
{
    if entries.len() == 0 {
        Map::empty()
    } else {
        entries_as_map(entries.drop_last()).insert(
            entries.last().0@,
            (entries.last().1.0@, entries.last().1.1.deep_view()),
        )
    }
}

/// No two entries share a name.
pub open spec fn unique_names(entries: Seq<(String, PlannedCommand)>) -> bool {
    forall|i: int, j: int|
        0 <= i < j < entries.len() ==> (#[trigger] entries[i]).0@ != (#[trigger] entries[j]).0@
}

/// Commands to be executed on the host system, keyed by deployment name.
#[derive(Debug)]
pub struct CommandMap {
    entries: Vec<(String, PlannedCommand)>,
}

impl View for CommandMap {
    type V = Map<Seq<char>, (Seq<char>, Seq<Seq<char>>)>;

    open spec fn view(&self) -> Map<Seq<char>, (Seq<char>, Seq<Seq<char>>)> {
        entries_as_map(self.entry_seq())
    }
}

proof fn lemma_as_map_entry(entries: Seq<(String, PlannedCommand)>, i: int)
    requires
        unique_names(entries),
        0 <= i < entries.len(),
    ensures
        entries_as_map(entries).contains_key(entries[i].0@),
        entries_as_map(entries)[entries[i].0@] == (
            entries[i].1.0@,
            entries[i].1.1.deep_view(),
        ),
    decreases entries.len(),
{
    if i == entries.len() - 1 {
    } else {
        assert(entries.drop_last()[i] == entries[i]);
        lemma_as_map_entry(entries.drop_last(), i);
        assert(entries[i].0@ != entries.last().0@);
    }
}

proof fn lemma_as_map_absent(entries: Seq<(String, PlannedCommand)>, name: Seq<char>)
    requires
        forall|i: int| 0 <= i < entries.len() ==> (#[trigger] entries[i]).0@ != name,
    ensures
        !entries_as_map(entries).contains_key(name),
    decreases entries.len(),
{
    if entries.len() > 0 {
        assert forall|i: int|
            0 <= i < entries.drop_last().len() implies (#[trigger] entries.drop_last()[i]).0@
            != name by {
            assert(entries.drop_last()[i] == entries[i]);
        }
        lemma_as_map_absent(entries.drop_last(), name);
    }
}

proof fn lemma_as_map_len(entries: Seq<(String, PlannedCommand)>)
    requires
        unique_names(entries),
    ensures
        entries_as_map(entries).dom().finite(),
        entries_as_map(entries).dom().len() == entries.len(),
    decreases entries.len(),
{
    if entries.len() > 0 {
        lemma_as_map_len(entries.drop_last());
        assert forall|i: int|
            0 <= i < entries.drop_last().len() implies (#[trigger] entries.drop_last()[i]).0@
            != entries.last().0@ by {
            assert(entries.drop_last()[i] == entries[i]);
        }
        lemma_as_map_absent(entries.drop_last(), entries.last().0@);
    }
}

proof fn lemma_as_map_update(entries: Seq<(String, PlannedCommand)>, i: int, e: (
    String,
    PlannedCommand,
))
    requires
        unique_names(entries),
        0 <= i < entries.len(),
        e.0@ == entries[i].0@,
    ensures
        entries_as_map(entries.update(i, e)) == entries_as_map(entries).insert(
            e.0@,
            (e.1.0@, e.1.1.deep_view()),
        ),
    decreases entries.len(),
{
    let updated = entries.update(i, e);
    if i == entries.len() - 1 {
        assert(updated.drop_last() =~= entries.drop_last());
        assert(updated.last() == e);
        assert(entries_as_map(updated) =~= entries_as_map(entries).insert(
            e.0@,
            (e.1.0@, e.1.1.deep_view()),
        ));
    } else {
        assert(updated.drop_last() =~= entries.drop_last().update(i, e));
        assert(entries.drop_last()[i] == entries[i]);
        lemma_as_map_update(entries.drop_last(), i, e);
        assert(updated.last() == entries.last());
        assert(e.0@ != entries.last().0@);
        assert(entries_as_map(updated) =~= entries_as_map(entries).insert(
            e.0@,
            (e.1.0@, e.1.1.deep_view()),
        ));
    }
}

impl CommandMap {
    /// The entries in their internal order. The order carries no meaning;
    /// it is exposed so that an executor can walk the table.
    pub closed spec fn entry_seq(&self) -> Seq<(String, PlannedCommand)> {
        self.entries@
    }

    /// The table never holds two entries for one name.
    pub open spec fn wf(&self) -> bool {
        unique_names(self.entry_seq())
    }

    /// An empty table.
    pub fn new() -> (r: Self)
        ensures
            r@ == Map::<Seq<char>, (Seq<char>, Seq<Seq<char>>)>::empty(),
            r.wf(),
            r.entry_seq() == Seq::<(String, PlannedCommand)>::empty(),
    {
        let entries: Vec<(String, PlannedCommand)> = Vec::new();
        CommandMap { entries }
    }

    /// How many deployments have a planned command.
    pub fn len(&self) -> (r: usize)
        ensures
            r == self.entry_seq().len(),
            self.wf() ==> r == self@.dom().len(),
    {
        proof {
            if self.wf() {
                lemma_as_map_len(self.entry_seq());
            }
        }
        self.entries.len()
    }

    /// Whether no command was planned.
    pub fn is_empty(&self) -> (r: bool)
        ensures
            r == (self.entry_seq().len() == 0),
            self.wf() ==> r == (self@ =~= Map::<Seq<char>, (Seq<char>, Seq<Seq<char>>)>::empty()),
    {
        proof {
            if self.wf() {
                lemma_as_map_len(self.entry_seq());
                if self.entry_seq().len() > 0 {
                    lemma_as_map_entry(self.entry_seq(), 0);
                }
            }
        }
        self.entries.len() == 0
    }

    /// Plans `command` for `name`, replacing any earlier entry of that name.
    pub fn insert(&mut self, name: String, command: PlannedCommand)
        requires
            old(self).wf(),
        ensures
            final(self).wf(),
            final(self)@ == old(self)@.insert(name@, (command.0@, command.1.deep_view())),
    {
        let mut i: usize = 0;
        while i < self.entries.len()
            invariant
                i <= self.entries@.len(),
                self.entries@ == old(self).entry_seq(),
                unique_names(self.entries@),
                forall|k: int| 0 <= k < i ==> (#[trigger] self.entries@[k]).0@ != name@,
            decreases self.entries@.len() - i,
        {
            if str_eq(self.entries[i].0.as_str(), name.as_str()) {
                let ghost entries = self.entries@;
                let ghost e = (name, command);
                self.entries.set(i, (name, command));
                proof {
                    lemma_as_map_update(entries, i as int, e);
                    assert forall|a: int, b: int|
                        0 <= a < b < self.entries@.len() implies (#[trigger] self.entries@[a]).0@
                        != (#[trigger] self.entries@[b]).0@ by {
                        assert(entries[a].0@ != entries[b].0@);
                        if a != i && b != i {
                            assert(self.entries@[a] == entries[a]);
                            assert(self.entries@[b] == entries[b]);
                        }
                    }
                }
                return ;
            }
            i = i + 1;
        }
        let ghost entries = self.entries@;
        self.entries.push((name, command));
        proof {
            assert(self.entries@.drop_last() =~= entries);
            assert forall|a: int, b: int|
                0 <= a < b < self.entries@.len() implies (#[trigger] self.entries@[a]).0@
                != (#[trigger] self.entries@[b]).0@ by {
                if b < entries.len() {
                    assert(self.entries@[a] == entries[a]);
                    assert(self.entries@[b] == entries[b]);
                } else {
                    assert(self.entries@[a] == entries[a]);
                    assert(self.entries@[b].0@ == name@);
                }
            }
        }
    }

    /// The planned command for `name`, if that deployment was planned.
    pub fn get(&self, name: &str) -> (r: Option<&PlannedCommand>)
        ensures
            self.wf() ==> match r {
                Some(c) => self@.contains_key(name@) && self@[name@] == (c.0@, c.1.deep_view()),
                None => !self@.contains_key(name@),
            },
    {
        let mut i: usize = 0;
        while i < self.entries.len()
            invariant
                i <= self.entries@.len(),
                self.entries@ == self.entry_seq(),
                forall|k: int| 0 <= k < i ==> (#[trigger] self.entries@[k]).0@ != name@,
            decreases self.entries@.len() - i,
        {
            if str_eq(self.entries[i].0.as_str(), name) {
                proof {
                    if self.wf() {
                        lemma_as_map_entry(self.entry_seq(), i as int);
                    }
                }
                return Some(&self.entries[i].1);
            }
            i = i + 1;
        }
        proof {
            lemma_as_map_absent(self.entry_seq(), name@);
        }
        None
    }

    /// The entries as a list, for walking the table. The order is the
    /// internal one and carries no meaning.
    pub fn entry_list(&self) -> (r: &Vec<(String, PlannedCommand)>)
        ensures
            r@ == self.entry_seq(),
    {
        &self.entries
    }
}

} // verus!
