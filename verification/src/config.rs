//! Configuration values as read from the configuration file.

use vstd::prelude::*;

verus! {

/// One value of the configuration: a string, a list of integers, a list of
/// integer lists, a list of strings, a table of string lists, a nested table,
/// an integer or a flag.
#[derive(Debug)]
pub enum MixedConfigVal {
    S(String),
    VI(Vec<i32>),
    VVI(Vec<Vec<i32>>),
    VS(Vec<String>),
    MVS(Vec<(String, Vec<String>)>),
    MSS(ConfigTable),
    I(i32),
    B(bool),
}

/// A table of named configuration values; a name occurs at most once.
#[derive(Debug)]
pub struct ConfigTable {
    pub entries: Vec<(String, MixedConfigVal)>,
}

/// The value stored under `key`, searching the entries from index `i` on.
pub open spec fn lookup_from(entries: Seq<(String, MixedConfigVal)>, key: Seq<char>, i: int) -> Option<
    MixedConfigVal,
>
    decreases entries.len() - i,
{
    if i < 0 || i >= entries.len() {
        None
    } else if entries[i].0@ == key {
        Some(entries[i].1)
    } else {
        lookup_from(entries, key, i + 1)
    }
}

impl ConfigTable {
    /// No name occurs twice.
    pub open spec fn keys_unique(&self) -> bool {
        forall|i: int, j: int|
            0 <= i < j < self.entries.len() ==> #[trigger] self.entries[i].0@
                != #[trigger] self.entries[j].0@
    }

    /// The value stored under `key`, if any.
    pub open spec fn value_of(&self, key: Seq<char>) -> Option<MixedConfigVal> {
        lookup_from(self.entries@, key, 0)
    }

    /// An empty table.
    pub fn new() -> (t: ConfigTable)
        ensures
            t.entries@.len() == 0,
            t.keys_unique(),
    {
        ConfigTable { entries: Vec::new() }
    }

    /// Look up the value stored under `key`.
    pub fn get(&self, key: &str) -> (r: Option<&MixedConfigVal>)
        ensures
            match r {
                Some(v) => self.value_of(key@) == Some(*v),
                None => self.value_of(key@) is None,
            },
    {
        let k = String::from_str(key);
        let mut i: usize = 0;
        while i < self.entries.len()
            invariant
                i <= self.entries.len(),
                k@ == key@,
                lookup_from(self.entries@, key@, 0) == lookup_from(self.entries@, key@, i as int),
            decreases self.entries.len() - i,
        {
            if self.entries[i].0 == k {
                return Some(&self.entries[i].1);
            }
            i = i + 1;
        }
        None
    }

    /// The string stored under `key`, if the value there is a string.
    pub fn get_str(&self, key: &str) -> (r: Option<&String>)
        ensures
            match r {
                Some(s) => self.value_of(key@) == Some(MixedConfigVal::S(*s)),
                None => !(self.value_of(key@) matches Some(MixedConfigVal::S(_))),
            },
    {
        match self.get(key) {
            Some(MixedConfigVal::S(s)) => Some(s),
            _ => None,
        }
    }

    /// The integer stored under `key`, if the value there is an integer.
    pub fn get_int(&self, key: &str) -> (r: Option<i32>)
        ensures
            match r {
                Some(n) => self.value_of(key@) == Some(MixedConfigVal::I(n)),
                None => !(self.value_of(key@) matches Some(MixedConfigVal::I(_))),
            },
    {
        match self.get(key) {
            Some(MixedConfigVal::I(n)) => Some(*n),
            _ => None,
        }
    }

    /// The flag stored under `key`, if the value there is a flag.
    pub fn get_bool(&self, key: &str) -> (r: Option<bool>)
        ensures
            match r {
                Some(b) => self.value_of(key@) == Some(MixedConfigVal::B(b)),
                None => !(self.value_of(key@) matches Some(MixedConfigVal::B(_))),
            },
    {
        match self.get(key) {
            Some(MixedConfigVal::B(b)) => Some(*b),
            _ => None,
        }
    }
}

} // verus!
