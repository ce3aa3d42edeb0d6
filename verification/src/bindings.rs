//! A map from names to texts, kept as a log of entries in which a later
//! entry for a name overrides every earlier one.

use vstd::prelude::*;

verus! {

/// One entry of the log: `key` is bound to `val`, or unbound where `val`
/// is `None`.
pub struct Entry {
    pub key: String,
    pub val: Option<String>,
}

/// The map that a log of entries stands for.
pub open spec fn entries_map(es: Seq<Entry>) -> Map<Seq<char>, Seq<char>>
    decreases es.len(),
{
    if es.len() == 0 {
        Map::empty()
    } else {
        let before = entries_map(es.drop_last());
        match es.last().val {
            Some(v) => before.insert(es.last().key@, v@),
            None => before.remove(es.last().key@),
        }
    }
}

/// A finite map from names to texts.
pub struct Bindings {
    entries: Vec<Entry>,
}

impl View for Bindings {
    type V = Map<Seq<char>, Seq<char>>;

    closed spec fn view(&self) -> Map<Seq<char>, Seq<char>> {
        entries_map(self.entries@)
    }
}

impl Bindings {
    /// The empty map.
    pub fn new() -> (r: Bindings)
        ensures
            r@ == Map::<Seq<char>, Seq<char>>::empty(),
    {
        Bindings { entries: Vec::new() }
    }

    /// The text bound to `name`, if there is one.
    pub fn get(&self, name: &str) -> (r: Option<&String>)
        ensures
            r is Some <==> self@.contains_key(name@),
            r is Some ==> r->0@ == self@[name@],
    {
        let mut i: usize = self.entries.len();
        assert(self.entries@.take(i as int) == self.entries@);
        while i > 0
            invariant
                i <= self.entries.len(),
                entries_map(self.entries@).contains_key(name@) <==> entries_map(
                    self.entries@.take(i as int),
                ).contains_key(name@),
                entries_map(self.entries@).contains_key(name@) ==> entries_map(self.entries@)[name@]
                    == entries_map(self.entries@.take(i as int))[name@],
            decreases i,
        {
            proof {
                assert(self.entries@.take(i as int).drop_last() == self.entries@.take(i - 1));
                assert(self.entries@.take(i as int).last() == self.entries@[i - 1]);
            }
            i -= 1;
            if *self.entries[i].key.as_str() == *name {
                match &self.entries[i].val {
                    Some(v) => {
                        return Some(v);
                    },
                    None => {
                        return None;
                    },
                }
            }
        }
        assert(self.entries@.take(0).len() == 0);
        None
    }

    /// Whether `name` is bound.
    pub fn contains(&self, name: &str) -> (r: bool)
        ensures
            r == self@.contains_key(name@),
    {
        self.get(name).is_some()
    }

    /// Binds `name` to `text`, whatever it was bound to before.
    pub fn insert(&mut self, name: String, text: String)
        ensures
            final(self)@ == old(self)@.insert(name@, text@),
    {
        self.entries.push(Entry { key: name, val: Some(text) });
        assert(self.entries@.drop_last() == old(self).entries@);
    }

    /// Removes the binding of `name`, if there is one.
    pub fn remove(&mut self, name: String)
        ensures
            final(self)@ == old(self)@.remove(name@),
    {
        self.entries.push(Entry { key: name, val: None });
        assert(self.entries@.drop_last() == old(self).entries@);
    }

    /// Removes every binding.
    pub fn clear(&mut self)
        ensures
            final(self)@ == Map::<Seq<char>, Seq<char>>::empty(),
    {
        self.entries.clear();
    }
}

} // verus!
