//! The header table of a response: names in lower case, one value per name,
//! the last one written.

use crate::text::{ascii_lowercase, is_lower, lemma_lower_is_lower, lower};
use vstd::prelude::*;

verus! {

/// One response header.
pub struct Header {
    pub name: String,
    pub value: String,
}

/// A header as a mathematical value: name and value.
pub type Pair = (Seq<char>, Seq<char>);

/// No two pairs carry the same name.
pub open spec fn names_distinct(pairs: Seq<Pair>) -> bool {
    forall|i: int, j: int| 0 <= i < j < pairs.len() ==> pairs[i].0 != pairs[j].0
}

/// Every name is free of ASCII capitals.
pub open spec fn names_lower(pairs: Seq<Pair>) -> bool {
    forall|i: int| 0 <= i < pairs.len() ==> is_lower((#[trigger] pairs[i]).0)
}

/// Some pair carries this name.
pub open spec fn has_name(pairs: Seq<Pair>, name: Seq<char>) -> bool {
    exists|i: int| 0 <= i < pairs.len() && (#[trigger] pairs[i]).0 == name
}

/// The table that a list of pairs stands for. Where a name occurs twice the
/// later pair wins.
pub open spec fn table_of(pairs: Seq<Pair>) -> Map<Seq<char>, Seq<char>>
    decreases pairs.len(),
{
    if pairs.len() == 0 {
        Map::empty()
    } else {
        table_of(pairs.drop_last()).insert(pairs.last().0, pairs.last().1)
    }
}

/// The list after `value` is written under `name`: the pair that carries the
/// name gets the value and keeps its place; a new name goes to the end.
pub open spec fn written(pairs: Seq<Pair>, name: Seq<char>, value: Seq<char>) -> Seq<Pair> {
    if has_name(pairs, name) {
        pairs.update(choose|i: int| 0 <= i < pairs.len() && (#[trigger] pairs[i]).0 == name, (
            name,
            value,
        ))
    } else {
        pairs.push((name, value))
    }
}

/// The list built from raw `(name, value)` pairs in order: each name is
/// lower-cased, then its value is written under it.
pub open spec fn written_all(raw: Seq<(String, String)>) -> Seq<Pair>
    decreases raw.len(),
{
    if raw.len() == 0 {
        Seq::empty()
    } else {
        written(written_all(raw.drop_last()), lower(raw.last().0@), raw.last().1@)
    }
}

/// The table built from raw `(name, value)` pairs in order: a later pair
/// overwrites an earlier one of the same lower-cased name.
pub open spec fn table_of_raw(raw: Seq<(String, String)>) -> Map<Seq<char>, Seq<char>>
    decreases raw.len(),
{
    if raw.len() == 0 {
        Map::empty()
    } else {
        table_of_raw(raw.drop_last()).insert(lower(raw.last().0@), raw.last().1@)
    }
}

/// A pair of a list with distinct names is what the table holds under its name.
pub proof fn lemma_pair_in_table(pairs: Seq<Pair>, i: int)
    requires
        names_distinct(pairs),
        0 <= i < pairs.len(),
    ensures
        table_of(pairs).contains_key(pairs[i].0),
        table_of(pairs)[pairs[i].0] == pairs[i].1,
    decreases pairs.len(),
{
    if i < pairs.len() - 1 {
        lemma_pair_in_table(pairs.drop_last(), i);
    }
}

/// The keys of the table are the names of the list.
pub proof fn lemma_table_keys(pairs: Seq<Pair>, name: Seq<char>)
    ensures
        table_of(pairs).contains_key(name) <==> has_name(pairs, name),
    decreases pairs.len(),
{
    if pairs.len() > 0 {
        let front = pairs.drop_last();
        lemma_table_keys(front, name);
        if has_name(front, name) {
            let i = choose|i: int| 0 <= i < front.len() && (#[trigger] front[i]).0 == name;
            assert(pairs[i].0 == name);
        }
        if pairs.last().0 == name {
            assert(pairs[pairs.len() - 1].0 == name);
        }
        if has_name(pairs, name) && pairs.last().0 != name {
            let i = choose|i: int| 0 <= i < pairs.len() && (#[trigger] pairs[i]).0 == name;
            assert(front[i].0 == name);
        }
    }
}

/// Overwriting the pair that carries a name is an insert into the table.
proof fn lemma_overwrite_is_insert(pairs: Seq<Pair>, j: int, name: Seq<char>, value: Seq<char>)
    requires
        names_distinct(pairs),
        0 <= j < pairs.len(),
        pairs[j].0 == name,
    ensures
        table_of(pairs.update(j, (name, value))) == table_of(pairs).insert(name, value),
    decreases pairs.len(),
{
    let after = pairs.update(j, (name, value));
    if j == pairs.len() - 1 {
        assert(after.drop_last() =~= pairs.drop_last());
        assert(table_of(after) =~= table_of(pairs).insert(name, value));
    } else {
        lemma_overwrite_is_insert(pairs.drop_last(), j, name, value);
        assert(after.drop_last() =~= pairs.drop_last().update(j, (name, value)));
        assert(after.last() == pairs.last());
        assert(pairs.last().0 != name);
        assert(table_of(after) =~= table_of(pairs).insert(name, value));
    }
}

/// Writing keeps names distinct, keeps lower-case names in lower case, and
/// is an insert into the table.
pub proof fn lemma_written(pairs: Seq<Pair>, name: Seq<char>, value: Seq<char>)
    requires
        names_distinct(pairs),
    ensures
        names_distinct(written(pairs, name, value)),
        table_of(written(pairs, name, value)) == table_of(pairs).insert(name, value),
        names_lower(pairs) && is_lower(name) ==> names_lower(written(pairs, name, value)),
{
    let after = written(pairs, name, value);
    if has_name(pairs, name) {
        let j = choose|i: int| 0 <= i < pairs.len() && (#[trigger] pairs[i]).0 == name;
        lemma_overwrite_is_insert(pairs, j, name, value);
        assert forall|a: int, b: int| 0 <= a < b < after.len() implies after[a].0 != after[b].0 by {
            assert(after[a].0 == pairs[a].0 && after[b].0 == pairs[b].0);
        }
        if names_lower(pairs) && is_lower(name) {
            assert forall|i: int| 0 <= i < after.len() implies is_lower((#[trigger] after[i]).0) by {
                assert(after[i].0 == pairs[i].0);
            }
        }
    } else {
        assert(after.drop_last() =~= pairs);
        assert forall|a: int, b: int| 0 <= a < b < after.len() implies after[a].0 != after[b].0 by {
            if b == pairs.len() {
                assert(pairs[a].0 != name);
            }
        }
        if names_lower(pairs) && is_lower(name) {
            assert forall|i: int| 0 <= i < after.len() implies is_lower((#[trigger] after[i]).0) by {
                if i < pairs.len() {
                    assert(after[i] == pairs[i]);
                }
            }
        }
    }
}

/// The list built from raw pairs has distinct lower-case names, and its
/// table is the raw pairs inserted in order.
pub proof fn lemma_written_all(raw: Seq<(String, String)>)
    ensures
        names_distinct(written_all(raw)),
        names_lower(written_all(raw)),
        table_of(written_all(raw)) == table_of_raw(raw),
    decreases raw.len(),
{
    if raw.len() > 0 {
        lemma_written_all(raw.drop_last());
        lemma_lower_is_lower(raw.last().0@);
        lemma_written(written_all(raw.drop_last()), lower(raw.last().0@), raw.last().1@);
    }
}

/// The entries of a table as mathematical pairs.
pub open spec fn pairs_of(entries: Seq<Header>) -> Seq<Pair> {
    entries.map_values(|header: Header| (header.name@, header.value@))
}

/// The headers of a response, as a table from lower-case name to value.
pub struct Headers {
    entries: Vec<Header>,
}

impl View for Headers {
    type V = Map<Seq<char>, Seq<char>>;

    open spec fn view(&self) -> Map<Seq<char>, Seq<char>> {
        table_of(self.listing())
    }
}

impl Headers {
    /// Names are in lower case and none occurs twice.
    #[verifier::type_invariant]
    pub open spec fn wf(self) -> bool {
        names_distinct(self.listing()) && names_lower(self.listing())
    }

    /// The headers in the order in which their names were first written.
    pub closed spec fn listing(&self) -> Seq<Pair> {
        pairs_of(self.entries@)
    }

    /// A table without headers.
    pub fn new() -> (headers: Headers)
        ensures
            headers.listing() == Seq::<Pair>::empty(),
            headers.wf(),
    {
        let headers = Headers { entries: Vec::new() };
        assert(headers.listing() =~= Seq::<Pair>::empty());
        headers
    }

    /// Number of headers.
    pub fn len(&self) -> (count: usize)
        ensures
            count == self.listing().len(),
    {
        self.entries.len()
    }

    /// The `index`-th header of the listing, if there are that many.
    pub fn entry(&self, index: usize) -> (header: Option<&Header>)
        ensures
            match header {
                Some(h) => {
                    &&& index < self.listing().len()
                    &&& (h.name@, h.value@) == self.listing()[index as int]
                    &&& self@.contains_key(h.name@)
                    &&& self@[h.name@] == h.value@
                    &&& is_lower(h.name@)
                },
                None => index >= self.listing().len(),
            },
    {
        if index < self.entries.len() {
            proof {
                use_type_invariant(self);
                lemma_pair_in_table(self.listing(), index as int);
            }
            Some(&self.entries[index])
        } else {
            None
        }
    }

    /// Position of the entry named exactly `name`, if there is one.
    fn position(&self, name: &String) -> (found: Option<usize>)
        ensures
            match found {
                Some(i) => i < self.listing().len() && self.listing()[i as int].0 == name@,
                None => !has_name(self.listing(), name@),
            },
    {
        let mut i: usize = 0;
        while i < self.entries.len()
            invariant
                i <= self.entries@.len(),
                forall|k: int| 0 <= k < i ==> (#[trigger] self.listing()[k]).0 != name@,
            decreases self.entries@.len() - i,
        {
            if self.entries[i].name == *name {
                return Some(i);
            }
            i += 1;
        }
        None
    }

    /// The value stored under exactly `name`. Names are stored in lower
    /// case, so a name with a capital in it is never found.
    pub fn get(&self, name: &str) -> (value: Option<&String>)
        ensures
            match value {
                Some(v) => self@.contains_key(name@) && self@[name@] == v@,
                None => !self@.contains_key(name@),
            },
    {
        let wanted = name.to_owned();
        proof {
            use_type_invariant(self);
            lemma_table_keys(self.listing(), name@);
        }
        match self.position(&wanted) {
            Some(i) => {
                proof {
                    lemma_pair_in_table(self.listing(), i as int);
                }
                Some(&self.entries[i].value)
            },
            None => None,
        }
    }

    /// Writes `value` under the lower-cased `name`, replacing what was there.
    /// A name that is already listed keeps its place; a new one is listed last.
    pub fn insert(&mut self, name: &str, value: String)
        ensures
            final(self).listing() == written(old(self).listing(), lower(name@), value@),
            final(self)@ == old(self)@.insert(lower(name@), value@),
            final(self).wf(),
    {
        proof {
            use_type_invariant(&*self);
            lemma_lower_is_lower(name@);
            lemma_written(self.listing(), lower(name@), value@);
        }
        let key = ascii_lowercase(name);
        let found = self.position(&key);
        let ghost before = self.listing();
        let entry = Header { name: key, value };
        let mut entries: Vec<Header> = Vec::new();
        core::mem::swap(&mut self.entries, &mut entries);
        assert(self.listing() =~= Seq::<Pair>::empty());
        match found {
            Some(i) => {
                assert(has_name(before, key@));
                let ghost chosen = choose|j: int|
                    0 <= j < before.len() && (#[trigger] before[j]).0 == key@;
                assert(chosen == i) by {
                    if chosen < i {
                        assert(before[chosen].0 != before[i as int].0);
                    } else if chosen > i {
                        assert(before[i as int].0 != before[chosen].0);
                    }
                }
                entries.set(i, entry);
                assert(pairs_of(entries@) =~= written(before, key@, value@));
            },
            None => {
                entries.push(entry);
                assert(pairs_of(entries@) =~= written(before, key@, value@));
            },
        }
        self.entries = entries;
    }

    /// The table of raw `(name, value)` pairs, written in order.
    pub fn from_pairs(pairs: &Vec<(String, String)>) -> (headers: Headers)
        ensures
            headers.listing() == written_all(pairs@),
            headers@ == table_of_raw(pairs@),
            headers.wf(),
    {
        let mut headers = Headers::new();
        let mut i: usize = 0;
        while i < pairs.len()
            invariant
                i <= pairs@.len(),
                headers.listing() == written_all(pairs@.take(i as int)),
                headers.wf(),
            decreases pairs@.len() - i,
        {
            assert(pairs@.take(i + 1).drop_last() =~= pairs@.take(i as int));
            headers.insert(pairs[i].0.as_str(), pairs[i].1.clone());
            i += 1;
        }
        assert(pairs@.take(i as int) =~= pairs@);
        proof {
            lemma_written_all(pairs@);
        }
        headers
    }
}

} // verus!
