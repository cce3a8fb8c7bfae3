//! The connection registry: the URL of each named connection.

use vstd::prelude::*;

verus! {

struct Connection {
    name: String,
    url: String,
}

/// The mapping that a list of entries stands for: a later entry takes the
/// place of an earlier one of the same name.
spec fn mapping(entries: Seq<Connection>) -> Map<Seq<char>, Seq<char>>
    decreases entries.len(),
{
    if entries.len() == 0 {
        Map::empty()
    } else {
        mapping(entries.drop_last()).insert(entries.last().name@, entries.last().url@)
    }
}

proof fn lemma_mapping_push(entries: Seq<Connection>, entry: Connection)
    ensures
        mapping(entries.push(entry)) == mapping(entries).insert(entry.name@, entry.url@),
{
    assert(entries.push(entry).drop_last() =~= entries);
}

/// A name that no entry has is not in the mapping.
proof fn lemma_mapping_absent(entries: Seq<Connection>, name: Seq<char>)
    requires
        forall|j: int| 0 <= j < entries.len() ==> entries[j].name@ != name,
    ensures
        !mapping(entries).contains_key(name),
    decreases entries.len(),
{
    if entries.len() > 0 {
        lemma_mapping_absent(entries.drop_last(), name);
    }
}

/// Taking out an entry named `name` changes nothing for the other names.
proof fn lemma_mapping_remove(entries: Seq<Connection>, i: int, name: Seq<char>)
    requires
        0 <= i < entries.len(),
        entries[i].name@ == name,
    ensures
        mapping(entries.remove(i)).remove(name) == mapping(entries).remove(name),
    decreases entries.len(),
{
    let last = entries.len() - 1;
    if i == last {
        assert(entries.remove(i) =~= entries.drop_last());
        assert(mapping(entries).remove(name) =~= mapping(entries.drop_last()).remove(name));
    } else {
        lemma_mapping_remove(entries.drop_last(), i, name);
        assert(entries.remove(i).drop_last() =~= entries.drop_last().remove(i));
        assert(entries.remove(i).last() == entries.last());
        let key = entries.last().name@;
        let url = entries.last().url@;
        let shorter = mapping(entries.drop_last().remove(i));
        let longer = mapping(entries.drop_last());
        if key == name {
            assert(shorter.insert(key, url).remove(name) =~= shorter.remove(name));
            assert(longer.insert(key, url).remove(name) =~= longer.remove(name));
        } else {
            assert(shorter.insert(key, url).remove(name) =~= shorter.remove(name).insert(key, url));
            assert(longer.insert(key, url).remove(name) =~= longer.remove(name).insert(key, url));
        }
    }
}

/// A registry of connections: from the name of each to its URL.
pub struct DB {
    connections: Vec<Connection>,
}

impl View for DB {
    type V = Map<Seq<char>, Seq<char>>;

    closed spec fn view(&self) -> Map<Seq<char>, Seq<char>> {
        mapping(self.connections@)
    }
}

impl DB {
    /// A registry without a connection.
    pub fn new() -> (out: DB)
        ensures
            out@ == Map::<Seq<char>, Seq<char>>::empty(),
    {
        DB { connections: Vec::new() }
    }

    /// Registers `url` under the name `connection`, in place of the URL that
    /// the name had before, if it had one.
    pub fn add(&mut self, connection: &str, url: &str)
        ensures
            final(self)@ == old(self)@.insert(connection@, url@),
    {
        self.remove(connection);
        let entry = Connection { name: connection.to_owned(), url: url.to_owned() };
        proof {
            lemma_mapping_push(self.connections@, entry);
        }
        self.connections.push(entry);
        proof {
            assert(self@ =~= old(self)@.insert(connection@, url@));
        }
    }

    /// Forgets the connection named `connection`, if there is one.
    pub fn remove(&mut self, connection: &str)
        ensures
            final(self)@ == old(self)@.remove(connection@),
    {
        let key = connection.to_owned();
        let mut i: usize = 0;
        while i < self.connections.len()
            invariant
                key@ == connection@,
                i <= self.connections@.len(),
                self@.remove(connection@) == old(self)@.remove(connection@),
                forall|j: int| 0 <= j < i ==> self.connections@[j].name@ != connection@,
            decreases self.connections@.len() - i,
        {
            if self.connections[i].name == key {
                proof {
                    lemma_mapping_remove(self.connections@, i as int, connection@);
                }
                self.connections.remove(i);
            } else {
                i += 1;
            }
        }
        proof {
            lemma_mapping_absent(self.connections@, connection@);
            assert(self@ =~= self@.remove(connection@));
        }
    }

    /// The URL registered under the name `connection`.
    pub fn url(&self, connection: &str) -> (out: Option<String>)
        ensures
            match out {
                Some(url) => self@.contains_key(connection@) && url@ == self@[connection@],
                None => !self@.contains_key(connection@),
            },
    {
        let key = connection.to_owned();
        let mut found: Option<usize> = None;
        let mut i: usize = 0;
        while i < self.connections.len()
            invariant
                key@ == connection@,
                i <= self.connections@.len(),
                match found {
                    Some(j) => {
                        &&& j < i
                        &&& mapping(self.connections@.take(i as int)).contains_key(connection@)
                        &&& mapping(self.connections@.take(i as int))[connection@]
                            == self.connections@[j as int].url@
                    },
                    None => !mapping(self.connections@.take(i as int)).contains_key(
                        connection@,
                    ),
                },
            decreases self.connections@.len() - i,
        {
            proof {
                lemma_mapping_push(self.connections@.take(i as int), self.connections@[i as int]);
                assert(self.connections@.take(i + 1) =~= self.connections@.take(i as int).push(
                    self.connections@[i as int],
                ));
            }
            if self.connections[i].name == key {
                found = Some(i);
            }
            i += 1;
        }
        proof {
            assert(self.connections@.take(self.connections@.len() as int) =~= self.connections@);
        }
        match found {
            Some(j) => Some(self.connections[j].url.clone()),
            None => None,
        }
    }
}

} // verus!
