//! A map with texts as keys.
use crate::text::same_text;
use vstd::prelude::*;

verus! {

/// A map from texts to values.
#[derive(Debug)]
pub struct TextMap<V> {
    entries: Vec<(String, V)>,
}

/// The map that a list of entries stands for; a later entry counts.
pub open spec fn map_of<V>(entries: Seq<(String, V)>) -> Map<Seq<char>, V>
    decreases entries.len(),
{
    if entries.len() == 0 {
        Map::empty()
    } else {
        map_of(entries.drop_last()).insert(entries.last().0@, entries.last().1)
    }
}

/// The entries without those of `key`.
pub open spec fn without<V>(entries: Seq<(String, V)>, key: Seq<char>) -> Seq<(String, V)>
    decreases entries.len(),
{
    if entries.len() == 0 {
        Seq::empty()
    } else if entries.last().0@ == key {
        without(entries.drop_last(), key)
    } else {
        without(entries.drop_last(), key).push(entries.last())
    }
}

proof fn lemma_without<V>(entries: Seq<(String, V)>, key: Seq<char>)
    ensures
        map_of(without(entries, key)) == map_of(entries).remove(key),
    decreases entries.len(),
{
    if entries.len() == 0 {
        assert(map_of(without(entries, key)) =~= map_of(entries).remove(key));
    } else {
        lemma_without(entries.drop_last(), key);
        let rest = without(entries.drop_last(), key);
        if entries.last().0@ != key {
            assert(rest.push(entries.last()).drop_last() =~= rest);
        }
        assert(map_of(without(entries, key)) =~= map_of(entries).remove(key));
    }
}

proof fn lemma_without_concat<V>(a: Seq<(String, V)>, b: Seq<(String, V)>, key: Seq<char>)
    ensures
        without(a + b, key) == without(a, key) + without(b, key),
    decreases b.len(),
{
    if b.len() == 0 {
        assert(a + b =~= a);
        assert(without(a, key) + without(b, key) =~= without(a, key));
    } else {
        assert((a + b).drop_last() =~= a + b.drop_last());
        lemma_without_concat(a, b.drop_last(), key);
        assert(without(a + b, key) =~= without(a, key) + without(b, key));
    }
}

proof fn lemma_absent<V>(entries: Seq<(String, V)>, key: Seq<char>)
    requires
        forall|i: int| 0 <= i < entries.len() ==> (#[trigger] entries[i]).0@ != key,
    ensures
        !map_of(entries).dom().contains(key),
    decreases entries.len(),
{
    if entries.len() > 0 {
        let init = entries.drop_last();
        assert forall|i: int| 0 <= i < init.len() implies (#[trigger] init[i]).0@ != key by {
            assert(init[i] == entries[i]);
        }
        lemma_absent(init, key);
        assert(entries[entries.len() - 1].0@ != key);
    }
}

proof fn lemma_present<V>(entries: Seq<(String, V)>, key: Seq<char>, at: int)
    requires
        0 <= at < entries.len(),
        entries[at].0@ == key,
        forall|i: int| at < i < entries.len() ==> (#[trigger] entries[i]).0@ != key,
    ensures
        map_of(entries).dom().contains(key),
        map_of(entries)[key] == entries[at].1,
    decreases entries.len(),
{
    if at < entries.len() - 1 {
        let init = entries.drop_last();
        assert forall|i: int| at < i < init.len() implies (#[trigger] init[i]).0@ != key by {
            assert(init[i] == entries[i]);
        }
        lemma_present(init, key, at);
        assert(entries[entries.len() - 1].0@ != key);
    }
}

impl<V> View for TextMap<V> {
    type V = Map<Seq<char>, V>;

    closed spec fn view(&self) -> Map<Seq<char>, V> {
        map_of(self.entries@)
    }
}

impl<V> TextMap<V> {
    pub fn new() -> (map: Self)
        ensures
            map@ == Map::<Seq<char>, V>::empty(),
    {
        TextMap { entries: Vec::new() }
    }

    /// Forgets all entries.
    pub fn clear(&mut self)
        ensures
            final(self)@ == Map::<Seq<char>, V>::empty(),
    {
        self.entries.clear();
    }

    /// The value of `key`.
    pub fn get(&self, key: &str) -> (value: Option<&V>)
        ensures
            match value {
                Some(value) => self@.dom().contains(key@) && self@[key@] == *value,
                None => !self@.dom().contains(key@),
            },
    {
        let mut i: usize = self.entries.len();
        while i > 0
            invariant
                i <= self.entries@.len(),
                forall|j: int| i <= j < self.entries@.len() ==> (#[trigger] self.entries@[j]).0@
                    != key@,
            decreases i,
        {
            if same_text(self.entries[i - 1].0.as_str(), key) {
                proof {
                    lemma_present(self.entries@, key@, i - 1);
                }
                return Some(&self.entries[i - 1].1);
            }
            i -= 1;
        }
        proof {
            lemma_absent(self.entries@, key@);
        }
        None
    }

    /// Takes the value of `key` out.
    pub fn remove(&mut self, key: &str) -> (value: Option<V>)
        ensures
            final(self)@ == old(self)@.remove(key@),
            match value {
                Some(value) => old(self)@.dom().contains(key@) && old(self)@[key@] == value,
                None => !old(self)@.dom().contains(key@),
            },
    {
        let ghost whole = self.entries@;
        let mut found: Option<V> = None;
        let mut i: usize = self.entries.len();
        assert(whole.take(i as int) =~= whole);
        assert(whole.skip(i as int) =~= Seq::<(String, V)>::empty());
        assert(self.entries@ =~= whole.take(i as int) + without(whole.skip(i as int), key@));
        while i > 0
            invariant
                i <= whole.len(),
                self.entries@ == whole.take(i as int) + without(whole.skip(i as int), key@),
                match found {
                    Some(value) => map_of(whole).dom().contains(key@) && map_of(whole)[key@]
                        == value,
                    None => forall|j: int|
                        i <= j < whole.len() ==> (#[trigger] whole[j]).0@ != key@,
                },
            decreases i,
        {
            let ghost e = whole[i - 1];
            proof {
                assert(self.entries@[i - 1] == e);
                assert(whole.skip(i - 1) =~= seq![e] + whole.skip(i as int));
                lemma_without_concat(seq![e], whole.skip(i as int), key@);
                assert(seq![e].drop_last() =~= Seq::<(String, V)>::empty());
                reveal_with_fuel(without, 2);
                assert(whole.take(i as int) =~= whole.take(i - 1).push(e));
            }
            if same_text(self.entries[i - 1].0.as_str(), key) {
                let entry = self.entries.remove(i - 1);
                assert(self.entries@ =~= whole.take(i - 1) + without(
                    whole.skip(i - 1),
                    key@,
                ));
                if found.is_none() {
                    proof {
                        lemma_present(whole, key@, i - 1);
                    }
                    found = Some(entry.1);
                }
            } else {
                assert(self.entries@ =~= whole.take(i - 1) + without(
                    whole.skip(i - 1),
                    key@,
                ));
            }
            i -= 1;
        }
        proof {
            assert(whole.skip(0) =~= whole);
            assert(whole.take(0) + without(whole, key@) =~= without(whole, key@));
            lemma_without(whole, key@);
            if found is None {
                lemma_absent(whole, key@);
            }
        }
        found
    }

    /// Gives `key` a value, in the place of an earlier one.
    pub fn insert(&mut self, key: String, value: V)
        ensures
            final(self)@ == old(self)@.insert(key@, value),
    {
        let _ = self.remove(key.as_str());
        let ghost before = self.entries@;
        self.entries.push((key, value));
        assert(self.entries@.drop_last() =~= before);
        assert(self@ =~= old(self)@.insert(key@, value));
    }
}

} // verus!
