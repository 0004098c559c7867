//! Tables keyed by release channel.

use vstd::prelude::*;
use crate::quality::{lemma_quality_names, quality_of_name, Quality};

verus! {

/// A table with at most one value for each release channel, viewed as a map
/// from the channels that have a value to their values.
#[derive(Clone, Debug, PartialEq, Eq)]
pub struct QualityTable<V> {
    stable: Option<V>,
    insiders: Option<V>,
    exploration: Option<V>,
}

impl<V> QualityTable<V> {
    /// The value kept for a channel, if there is one.
    spec fn slot(&self, quality: Quality) -> Option<V> {
        match quality {
            Quality::Stable => self.stable,
            Quality::Insiders => self.insiders,
            Quality::Exploration => self.exploration,
        }
    }
}

impl<V> View for QualityTable<V> {
    type V = Map<Quality, V>;

    closed spec fn view(&self) -> Map<Quality, V> {
        Map::new(|q: Quality| self.slot(q) is Some, |q: Quality| self.slot(q)->Some_0)
    }
}

impl<V: DeepView> DeepView for QualityTable<V> {
    type V = Map<Quality, V::V>;

    open spec fn deep_view(&self) -> Map<Quality, V::V> {
        self@.map_values(|v: V| v.deep_view())
    }
}

impl<V> QualityTable<V> {
    /// The table without entries.
    pub fn new() -> (table: Self)
        ensures
            table@ == Map::<Quality, V>::empty(),
    {
        QualityTable { stable: None, insiders: None, exploration: None }
    }

    /// Sets the value of a channel and hands back the value that it replaces.
    pub fn insert(&mut self, quality: Quality, value: V) -> (previous: Option<V>)
        ensures
            final(self)@ == old(self)@.insert(quality, value),
            previous == if old(self)@.contains_key(quality) {
                Some(old(self)@[quality])
            } else {
                None
            },
    {
        let previous = match quality {
            Quality::Stable => self.stable.take(),
            Quality::Insiders => self.insiders.take(),
            Quality::Exploration => self.exploration.take(),
        };
        match quality {
            Quality::Stable => { self.stable = Some(value); },
            Quality::Insiders => { self.insiders = Some(value); },
            Quality::Exploration => { self.exploration = Some(value); },
        }
        previous
    }

    /// The value of a channel, if the table has one.
    pub fn get(&self, quality: Quality) -> (value: Option<&V>)
        ensures
            match value {
                Some(v) => self@.contains_key(quality) && self@[quality] == *v,
                None => !self@.contains_key(quality),
            },
    {
        match quality {
            Quality::Stable => self.stable.as_ref(),
            Quality::Insiders => self.insiders.as_ref(),
            Quality::Exploration => self.exploration.as_ref(),
        }
    }

    /// The number of channels that have a value.
    pub fn len(&self) -> (n: usize)
        ensures
            self@.dom().finite(),
            n == self@.len(),
    {
        let mut n: usize = 0;
        let ghost mut seen = Map::<Quality, V>::empty();
        if let Some(v) = &self.stable {
            n += 1;
            proof {
                seen = seen.insert(Quality::Stable, *v);
            }
        }
        if let Some(v) = &self.insiders {
            n += 1;
            proof {
                seen = seen.insert(Quality::Insiders, *v);
            }
        }
        if let Some(v) = &self.exploration {
            n += 1;
            proof {
                seen = seen.insert(Quality::Exploration, *v);
            }
        }
        assert(self@ =~= seen);
        n
    }

    /// Whether the table has no entry at all.
    pub fn is_empty(&self) -> (empty: bool)
        ensures
            empty == (self@ == Map::<Quality, V>::empty()),
    {
        let empty = self.stable.is_none() && self.insiders.is_none() && self.exploration.is_none();
        proof {
            if empty {
                assert(self@ =~= Map::<Quality, V>::empty());
            } else {
                let q = if self.stable is Some {
                    Quality::Stable
                } else if self.insiders is Some {
                    Quality::Insiders
                } else {
                    Quality::Exploration
                };
                assert(self@.contains_key(q));
            }
        }
        empty
    }
}

/// Whether every key of the entries names a release channel.
pub open spec fn keys_recognized<W>(entries: Seq<(Seq<char>, W)>) -> bool {
    forall|i: int| 0 <= i < entries.len() ==> quality_of_name(#[trigger] entries[i].0) is Some
}

/// The table that the entries describe: each entry, in turn, sets the value
/// of the channel that its key names, so that of two entries for one channel
/// the later one stays.
pub open spec fn table_of<W>(entries: Seq<(Seq<char>, W)>) -> Map<Quality, W>
    decreases entries.len(),
{
    if entries.len() == 0 {
        Map::empty()
    } else {
        let earlier = table_of(entries.drop_last());
        match quality_of_name(entries.last().0) {
            Some(quality) => earlier.insert(quality, entries.last().1),
            None => earlier,
        }
    }
}

/// Whether no key occurs in two entries.
pub open spec fn keys_distinct<W>(entries: Seq<(Seq<char>, W)>) -> bool {
    forall|i: int, j: int|
        0 <= i < j < entries.len() ==> (#[trigger] entries[i]).0 != (#[trigger] entries[j]).0
}

/// Whether the table holds exactly the entries: each one under the channel
/// that its key names, no channel besides these, and as many channels as
/// there are entries.
pub open spec fn holds_exactly<W>(table: Map<Quality, W>, entries: Seq<(Seq<char>, W)>) -> bool {
    &&& table.dom().finite()
    &&& table.len() == entries.len()
    &&& forall|i: int|
        0 <= i < entries.len() ==> table.contains_pair(
            quality_of_name((#[trigger] entries[i]).0)->Some_0,
            entries[i].1,
        )
    &&& forall|quality: Quality| #[trigger]
        table.contains_key(quality) ==> exists|i: int|
            0 <= i < entries.len() && quality_of_name((#[trigger] entries[i]).0) == Some(quality)
}

/// Entries whose keys are distinct and all name a release channel make a
/// table that holds exactly these entries.
pub proof fn lemma_table_keeps_entries<W>(entries: Seq<(Seq<char>, W)>)
    requires
        keys_recognized(entries),
        keys_distinct(entries),
    ensures
        holds_exactly(table_of(entries), entries),
    decreases entries.len(),
{
    if entries.len() > 0 {
        let earlier = entries.drop_last();
        let quality = quality_of_name(entries.last().0)->Some_0;
        assert(forall|i: int| 0 <= i < earlier.len() ==> earlier[i] == entries[i]);
        lemma_table_keeps_entries(earlier);
        assert(!table_of(earlier).contains_key(quality)) by {
            lemma_quality_names(quality);
        }
        assert forall|q: Quality| #[trigger] table_of(entries).contains_key(q) implies exists|
            i: int,
        |
            0 <= i < entries.len() && quality_of_name((#[trigger] entries[i]).0) == Some(q) by {
            if q != quality {
                let i = choose|i: int|
                    0 <= i < earlier.len() && quality_of_name((#[trigger] earlier[i]).0) == Some(
                        q,
                    );
            }
        }
    }
}

/// Builds the table that keyed entries describe. There is none where a key
/// names no release channel.
pub fn table_from_entries<V: DeepView>(entries: Vec<(String, V)>) -> (built: Option<
    QualityTable<V>,
>)
    ensures
        built is Some <==> keys_recognized(entries.deep_view()),
        built matches Some(table) ==> table.deep_view() == table_of(entries.deep_view()),
{
    let ghost all = entries.deep_view();
    let mut table: QualityTable<V> = QualityTable::new();
    for entry in it: entries
        invariant
            all == entries.deep_view(),
            it.seq() == entries@,
            keys_recognized(all.take(it.index() as int)),
            table.deep_view() == table_of(all.take(it.index() as int)),
    {
        let ghost i = it.index() as int;
        let (key, value) = entry;
        match Quality::from_name(key.as_str()) {
            Some(quality) => {
                table.insert(quality, value);
                assert(all.take(i + 1).drop_last() =~= all.take(i));
            },
            None => {
                assert(quality_of_name(all[i].0) is None);
                return None;
            },
        }
    }
    assert(all.take(all.len() as int) =~= all);
    Some(table)
}

} // verus!
