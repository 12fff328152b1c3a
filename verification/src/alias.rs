//! The alias table: short command names and the command lines they stand for.

use vstd::prelude::*;

verus! {

/// The mapping that a list of key/value pairs stands for. A later pair
/// overrides an earlier one with the same key.
pub open spec fn table_of(pairs: Seq<(Seq<char>, Seq<char>)>) -> Map<Seq<char>, Seq<char>>
    decreases pairs.len(),
{
    if pairs.len() == 0 {
        Map::empty()
    } else {
        table_of(pairs.drop_last()).insert(pairs.last().0, pairs.last().1)
    }
}

/// A key that occurs at `at` and nowhere after it maps to the value at `at`.
pub proof fn lemma_table_of_last_match(pairs: Seq<(Seq<char>, Seq<char>)>, key: Seq<char>, at: int)
    requires
        0 <= at < pairs.len(),
        pairs[at].0 == key,
        forall|j: int| at < j < pairs.len() ==> pairs[j].0 != key,
    ensures
        table_of(pairs).contains_key(key),
        table_of(pairs)[key] == pairs[at].1,
    decreases pairs.len(),
{
    if at < pairs.len() - 1 {
        lemma_table_of_last_match(pairs.drop_last(), key, at);
    }
}

/// The table holds exactly the keys that occur in the list.
pub proof fn lemma_table_of_keys(pairs: Seq<(Seq<char>, Seq<char>)>, key: Seq<char>)
    ensures
        table_of(pairs).contains_key(key) <==> exists|j: int|
            0 <= j < pairs.len() && #[trigger] pairs[j].0 == key,
    decreases pairs.len(),
{
    if pairs.len() > 0 {
        let front = pairs.drop_last();
        lemma_table_of_keys(front, key);
        if pairs.last().0 == key {
            assert(pairs[pairs.len() - 1].0 == key);
        } else if table_of(front).contains_key(key) {
            let j = choose|j: int| 0 <= j < front.len() && #[trigger] front[j].0 == key;
            assert(pairs[j].0 == key);
        } else {
            assert forall|j: int| 0 <= j < pairs.len() implies #[trigger] pairs[j].0 != key by {
                if j < front.len() {
                    assert(front[j].0 != key);
                }
            }
        }
    }
}

/// Maps alias keys to literal command lines.
#[derive(Debug)]
pub struct AliasTable {
    entries: Vec<(String, String)>,
}

impl View for AliasTable {
    type V = Map<Seq<char>, Seq<char>>;

    closed spec fn view(&self) -> Map<Seq<char>, Seq<char>> {
        table_of(self.entries.deep_view())
    }
}

impl AliasTable {
    /// The empty table: every command resolves to itself.
    pub fn new() -> (table: AliasTable)
        ensures
            table@ == Map::<Seq<char>, Seq<char>>::empty(),
    {
        AliasTable { entries: Vec::new() }
    }

    /// The table that a list of pairs stands for, a later pair overriding an
    /// earlier one with the same key.
    pub fn from_pairs(pairs: Vec<(String, String)>) -> (table: AliasTable)
        ensures
            table@ == table_of(pairs.deep_view()),
    {
        AliasTable { entries: pairs }
    }

    /// Binds `key` to `literal`, replacing what `key` stood for before.
    pub fn insert(&mut self, key: String, literal: String)
        ensures
            final(self)@ == old(self)@.insert(key@, literal@),
    {
        self.entries.push((key, literal));
        assert(self.entries.deep_view().drop_last() =~= old(self).entries.deep_view());
    }

    /// The command line that `key` stands for, if it is an alias.
    pub fn get(&self, key: &str) -> (found: Option<&String>)
        ensures
            match found {
                Some(literal) => self@.contains_key(key@) && self@[key@] == literal@,
                None => !self@.contains_key(key@),
            },
    {
        let wanted = key.to_owned();
        let ghost pairs = self.entries.deep_view();
        let mut i: usize = self.entries.len();
        while i > 0
            invariant
                i <= self.entries.len(),
                wanted@ == key@,
                pairs == self.entries.deep_view(),
                forall|j: int| i <= j < pairs.len() ==> pairs[j].0 != key@,
            decreases i,
        {
            i = i - 1;
            if self.entries[i].0 == wanted {
                proof {
                    lemma_table_of_last_match(pairs, key@, i as int);
                }
                return Some(&self.entries[i].1);
            }
        }
        proof {
            lemma_table_of_keys(pairs, key@);
        }
        None
    }
}

impl Default for AliasTable {
    fn default() -> (table: AliasTable)
        ensures
            table@ == Map::<Seq<char>, Seq<char>>::empty(),
    {
        AliasTable::new()
    }
}

} // verus!
