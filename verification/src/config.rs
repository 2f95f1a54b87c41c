//! The window-manager bridge's configuration: a string-keyed table mapping
//! command names to the command strings the bridge executes. The table is
//! held as an ordered list of pairs; a well-formed table has pairwise
//! distinct keys, and lookup returns the first (hence only) match.

use vstd::prelude::*;

verus! {

/// The bridge configuration, as loaded from its configuration file.
#[derive(Debug)]
pub struct Config {
    pub commands: Vec<(String, String)>,
}

/// The value of the first entry of `entries` whose key reads `key`, if any.
pub open spec fn lookup_seq(entries: Seq<(String, String)>, key: Seq<char>) -> Option<String>
    decreases entries.len(),
{
    if entries.len() == 0 {
        None
    } else if entries[0].0@ == key {
        Some(entries[0].1)
    } else {
        lookup_seq(entries.drop_first(), key)
    }
}

/// Skipping a matchless prefix leaves the lookup unchanged.
proof fn lemma_lookup_skip(entries: Seq<(String, String)>, key: Seq<char>, j: int)
    requires
        0 <= j <= entries.len(),
        forall|k: int| 0 <= k < j ==> (#[trigger] entries[k].0)@ != key,
    ensures
        lookup_seq(entries, key) == lookup_seq(entries.skip(j), key),
    decreases j,
{
    if j > 0 {
        assert(entries[0].0@ != key);
        assert(lookup_seq(entries, key) == lookup_seq(entries.drop_first(), key));
        assert forall|k: int| 0 <= k < j - 1 implies (#[trigger] entries.drop_first()[k].0)@
            != key by {
            assert(entries.drop_first()[k] == entries[k + 1]);
        }
        lemma_lookup_skip(entries.drop_first(), key, j - 1);
        assert(entries.skip(j) =~= entries.drop_first().skip(j - 1));
    } else {
        assert(entries.skip(0) =~= entries);
    }
}

/// Over a table with pairwise distinct keys, lookup returns the value of any
/// entry whose key matches — the first match is the only match.
proof fn lemma_lookup_distinct(entries: Seq<(String, String)>, key: Seq<char>, i: int)
    requires
        0 <= i < entries.len(),
        entries[i].0@ == key,
        forall|a: int, b: int|
            0 <= a < b < entries.len() ==> (#[trigger] entries[a].0)@ != (
            #[trigger] entries[b].0)@,
    ensures
        lookup_seq(entries, key) == Some(entries[i].1),
    decreases i,
{
    if i > 0 {
        assert(entries[0].0@ != entries[i].0@);
        assert forall|a: int, b: int|
            0 <= a < b < entries.drop_first().len() implies (#[trigger] entries.drop_first()[a].0)@
            != (#[trigger] entries.drop_first()[b].0)@ by {
            assert(entries.drop_first()[a] == entries[a + 1]);
            assert(entries.drop_first()[b] == entries[b + 1]);
        }
        assert(entries.drop_first()[i - 1] == entries[i]);
        lemma_lookup_distinct(entries.drop_first(), key, i - 1);
    }
}

impl Config {
    /// The keys of the table are pairwise distinct.
    pub open spec fn wf(self) -> bool {
        forall|i: int, j: int|
            0 <= i < j < self.commands@.len() ==> (#[trigger] self.commands@[i].0)@ != (
            #[trigger] self.commands@[j].0)@
    }

    /// In a well-formed table, lookup finds the one entry under each present
    /// key: whichever entry carries `key`, its value is what lookup returns.
    pub proof fn lemma_lookup_finds_key(self, key: Seq<char>, i: int)
        requires
            self.wf(),
            0 <= i < self.commands@.len(),
            self.commands@[i].0@ == key,
        ensures
            lookup_seq(self.commands@, key) == Some(self.commands@[i].1),
    {
        lemma_lookup_distinct(self.commands@, key, i);
    }

    /// Looks up the command string configured under `key`: the first entry
    /// with that key, or `None` when the table has none.
    pub fn command_for<'a>(&'a self, key: &str) -> (r: Option<&'a String>)
        ensures
            match r {
                Some(v) => lookup_seq(self.commands@, key@) == Some(*v),
                None => lookup_seq(self.commands@, key@) is None,
            },
    {
        let needle: String = key.to_owned();
        let n = self.commands.len();
        let mut j: usize = 0;
        while j < n
            invariant
                n == self.commands@.len(),
                j <= n,
                needle@ == key@,
                forall|k: int| 0 <= k < j ==> (#[trigger] self.commands@[k].0)@ != key@,
            decreases n - j,
        {
            let entry = &self.commands[j];
            if entry.0 == needle {
                proof {
                    lemma_lookup_skip(self.commands@, key@, j as int);
                    assert(self.commands@.skip(j as int)[0] == self.commands@[j as int]);
                }
                return Some(&entry.1);
            }
            j += 1;
        }
        proof {
            lemma_lookup_skip(self.commands@, key@, n as int);
            assert(self.commands@.skip(n as int) =~= Seq::<(String, String)>::empty());
        }
        None
    }
}

} // verus!
