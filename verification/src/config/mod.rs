//! Configuration: the description of the pipelines, and the values a
//! configuration file is made of.

pub mod builder;
pub mod toml;
pub mod twelvef;

use crate::ci::CiId;
use crate::pipeline::PipelineId;
use vstd::prelude::*;

verus! {

/// Which workers one pipeline uses: its CI jobs (each with the index of the
/// CI worker that runs it), and the indices of its UI and VCS workers.
#[derive(Debug, PartialEq, Eq)]
pub struct PipelineConfig {
    pub pipeline_id: PipelineId,
    pub ci: Vec<(CiId, usize)>,
    pub ui: usize,
    pub vcs: usize,
}

impl Clone for PipelineConfig {
    fn clone(&self) -> (r: PipelineConfig)
        ensures
            r.pipeline_id == self.pipeline_id,
            r.ci@ == self.ci@,
            r.ui == self.ui,
            r.vcs == self.vcs,
    {
        let mut ci: Vec<(CiId, usize)> = Vec::new();
        let mut i: usize = 0;
        while i < self.ci.len()
            invariant
                i <= self.ci.len(),
                ci@ == self.ci@.take(i as int),
            decreases self.ci.len() - i,
        {
            ci.push(self.ci[i]);
            proof {
                assert(self.ci@.take(i + 1) =~= self.ci@.take(i as int).push(self.ci@[i as int]));
            }
            i = i + 1;
        }
        proof {
            assert(self.ci@.take(i as int) =~= self.ci@);
        }
        PipelineConfig { pipeline_id: self.pipeline_id, ci, ui: self.ui, vcs: self.vcs }
    }
}

/// A value of a configuration file: a table maps keys to values, in the
/// order of its keys.
#[derive(Debug, PartialEq)]
pub enum ConfigValue {
    String(String),
    Integer(i64),
    Float,
    Boolean(bool),
    Datetime(String),
    Array(Vec<ConfigValue>),
    Table(Vec<(String, ConfigValue)>),
}

/// The value under `key` in a table's entries: the first entry with that key.
pub open spec fn table_get(entries: Seq<(String, ConfigValue)>, key: Seq<char>) -> Option<ConfigValue>
    decreases entries.len(),
{
    if entries.len() == 0 {
        None
    } else if entries[0].0@ == key {
        Some(entries[0].1)
    } else {
        table_get(entries.drop_first(), key)
    }
}

/// The value under `key` when `v` is a table.
pub open spec fn value_get(v: ConfigValue, key: Seq<char>) -> Option<ConfigValue> {
    match v {
        ConfigValue::Table(entries) => table_get(entries@, key),
        _ => None,
    }
}

/// The value at a path of keys, through nested tables; the empty path
/// names `v` itself.
pub open spec fn value_lookup(v: ConfigValue, keys: Seq<Seq<char>>) -> Option<ConfigValue>
    decreases keys.len(),
{
    if keys.len() == 0 {
        Some(v)
    } else {
        match value_get(v, keys[0]) {
            Some(c) => value_lookup(c, keys.drop_first()),
            None => None,
        }
    }
}

pub open spec fn keys_view(keys: Seq<&str>) -> Seq<Seq<char>> {
    keys.map_values(|k: &str| k@)
}

impl ConfigValue {
    /// The value under `key`, when this value is a table.
    pub fn get(&self, key: &str) -> (r: Option<&ConfigValue>)
        ensures
            match r {
                Some(x) => value_get(*self, key@) == Some(*x),
                None => value_get(*self, key@) is None,
            },
    {
        match self {
            ConfigValue::Table(entries) => {
                proof {
                    assert(entries@.skip(0) =~= entries@);
                }
                let mut i: usize = 0;
                while i < entries.len()
                    invariant
                        i <= entries.len(),
                        table_get(entries@, key@) == table_get(entries@.skip(i as int), key@),
                        value_get(*self, key@) == table_get(entries@, key@),
                    decreases entries.len() - i,
                {
                    proof {
                        assert(entries@.skip(i as int).drop_first() =~= entries@.skip(i + 1));
                        assert(entries@.skip(i as int)[0] == entries@[i as int]);
                    }
                    if crate::util::str_equal(entries[i].0.as_str(), key) {
                        proof {
                            assert(table_get(entries@.skip(i as int), key@) == Some(entries@[i as int].1));
                            assert(value_get(*self, key@) == table_get(entries@, key@));
                            assert(entries@[i as int].1 == entries[i as int].1);
                        }
                        return Some(&entries[i].1);
                    }
                    i = i + 1;
                }
                None
            },
            _ => None,
        }
    }

    /// The value at a path of keys, through nested tables.
    pub fn lookup(&self, keys: &[&str]) -> (r: Option<&ConfigValue>)
        ensures
            match r {
                Some(x) => value_lookup(*self, keys_view(keys@)) == Some(*x),
                None => value_lookup(*self, keys_view(keys@)) is None,
            },
    {
        let mut cur = self;
        proof {
            assert(keys_view(keys@).skip(0) =~= keys_view(keys@));
        }
        let mut i: usize = 0;
        while i < keys.len()
            invariant
                i <= keys.len(),
                value_lookup(*self, keys_view(keys@)) == value_lookup(*cur, keys_view(keys@).skip(i as int)),
            decreases keys.len() - i,
        {
            proof {
                assert(keys_view(keys@).skip(i as int).drop_first() =~= keys_view(keys@).skip(i + 1));
                assert(keys_view(keys@).skip(i as int)[0] == keys@[i as int]@);
            }
            match cur.get(keys[i]) {
                Some(c) => {
                    cur = c;
                },
                None => {
                    return None;
                },
            }
            i = i + 1;
        }
        proof {
            assert(keys_view(keys@).skip(i as int) =~= Seq::<Seq<char>>::empty());
        }
        Some(cur)
    }

    /// Whether this value is a table.
    pub fn is_table(&self) -> (r: bool)
        ensures
            r == (*self is Table),
    {
        match self {
            ConfigValue::Table(_) => true,
            _ => false,
        }
    }

    /// The text, when this value is a string.
    pub fn as_str(&self) -> (r: Option<&str>)
        ensures
            match r {
                Some(s) => *self matches ConfigValue::String(t) && s@ == t@,
                None => !(*self is String),
            },
    {
        match self {
            ConfigValue::String(s) => Some(s.as_str()),
            _ => None,
        }
    }
}

} // verus!
