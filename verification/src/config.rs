use vstd::prelude::*;

use crate::ovh::{DynHostAccount, DynHostAccountView};
use crate::text::str_eq;

verus! {

/// One section of the account configuration: its name and its key/value
/// entries, a valueless key carrying nothing.
pub struct ConfigSection {
    pub name: String,
    pub entries: Vec<(String, Option<String>)>,
}

/// Position of the first entry with key `key`, or the number of entries if
/// there is none.
pub open spec fn key_index(entries: Seq<(String, Option<String>)>, key: Seq<char>) -> int
    decreases entries.len(),
{
    if entries.len() == 0 {
        0
    } else if entries[0].0@ == key {
        0
    } else {
        1 + key_index(entries.subrange(1, entries.len() as int), key)
    }
}

/// `key_index` names the first entry with the key: nothing before it carries
/// the key, and it carries the key itself unless no entry does.
pub proof fn lemma_key_index(entries: Seq<(String, Option<String>)>, key: Seq<char>)
    ensures
        0 <= key_index(entries, key) <= entries.len(),
        key_index(entries, key) < entries.len() ==> entries[key_index(entries, key)].0@ == key,
        forall|t: int| 0 <= t < key_index(entries, key) ==> entries[t].0@ != key,
    decreases entries.len(),
{
    if entries.len() > 0 && entries[0].0@ != key {
        let tail = entries.subrange(1, entries.len() as int);
        lemma_key_index(tail, key);
        assert forall|t: int| 0 <= t < key_index(entries, key) implies entries[t].0@ != key by {
            if t >= 1 {
                assert(tail[t - 1] == entries[t]);
            }
        }
    }
}

/// A section carries the key.
pub open spec fn section_has_key(entries: Seq<(String, Option<String>)>, key: Seq<char>) -> bool {
    key_index(entries, key) < entries.len()
}

/// The value of the first entry with key `key`: empty when the entry carries
/// no value or when no entry carries the key.
pub open spec fn section_value(entries: Seq<(String, Option<String>)>, key: Seq<char>) -> Seq<
    char,
> {
    if section_has_key(entries, key) {
        match entries[key_index(entries, key)].1 {
            Some(v) => v@,
            None => Seq::empty(),
        }
    } else {
        Seq::empty()
    }
}

/// Looks the key up among the entries: the value of its first entry (empty for
/// a valueless key), or nothing when no entry carries the key.
pub fn section_lookup(entries: &Vec<(String, Option<String>)>, key: &str) -> (r: Option<String>)
    ensures
        match r {
            Some(v) => section_has_key(entries@, key@) && v@ == section_value(entries@, key@),
            None => !section_has_key(entries@, key@),
        },
{
    let n = entries.len();
    let mut i: usize = 0;
    while i < n
        invariant
            0 <= i <= n,
            n == entries@.len(),
            forall|t: int| 0 <= t < i ==> entries@[t].0@ != key@,
        decreases n - i,
    {
        if str_eq(entries[i].0.as_str(), key) {
            proof {
                lemma_key_index(entries@, key@);
                assert(key_index(entries@, key@) == i);
            }
            match &entries[i].1 {
                Some(v) => {
                    return Some(v.clone());
                },
                None => {
                    return Some(String::new());
                },
            }
        }
        i = i + 1;
    }
    proof {
        lemma_key_index(entries@, key@);
        if section_has_key(entries@, key@) {
            assert(entries@[key_index(entries@, key@)].0@ == key@);
        }
    }
    None
}

/// A section that supplies all three account keys.
pub open spec fn section_complete(s: ConfigSection) -> bool {
    &&& section_has_key(s.entries@, "domain"@)
    &&& section_has_key(s.entries@, "username"@)
    &&& section_has_key(s.entries@, "password"@)
}

/// The account a complete section describes.
pub open spec fn account_of(s: ConfigSection) -> DynHostAccountView {
    DynHostAccountView {
        domain: section_value(s.entries@, "domain"@),
        username: section_value(s.entries@, "username"@),
        password: section_value(s.entries@, "password"@),
    }
}

/// The accounts a run of sections describes: one per complete section, in
/// order; a section missing a key is skipped.
pub open spec fn accounts_of(ss: Seq<ConfigSection>) -> Seq<DynHostAccountView>
    decreases ss.len(),
{
    if ss.len() == 0 {
        Seq::empty()
    } else {
        accounts_of(ss.drop_last()) + (if section_complete(ss.last()) {
            seq![account_of(ss.last())]
        } else {
            Seq::empty()
        })
    }
}

/// Turns configuration sections into provider accounts: one per section that
/// supplies `domain`, `username` and `password`, in order; the others are
/// skipped.
pub fn accounts_from_sections(sections: &Vec<ConfigSection>) -> (r: Vec<DynHostAccount>)
    ensures
        r@.len() == accounts_of(sections@).len(),
        forall|i: int| 0 <= i < r@.len() ==> (#[trigger] r@[i])@ == accounts_of(sections@)[i],
{
    let mut out: Vec<DynHostAccount> = Vec::new();
    let n = sections.len();
    let mut i: usize = 0;
    while i < n
        invariant
            0 <= i <= n,
            n == sections@.len(),
            out@.len() == accounts_of(sections@.take(i as int)).len(),
            forall|t: int|
                0 <= t < out@.len() ==> (#[trigger] out@[t])@ == accounts_of(
                    sections@.take(i as int),
                )[t],
        decreases n - i,
    {
        let s = &sections[i];
        let domain = section_lookup(&s.entries, "domain");
        let username = section_lookup(&s.entries, "username");
        let password = section_lookup(&s.entries, "password");
        proof {
            assert(sections@.take(i as int + 1).drop_last() =~= sections@.take(i as int));
            assert(sections@.take(i as int + 1).last() == sections@[i as int]);
        }
        match (domain, username, password) {
            (Some(d), Some(u), Some(p)) => {
                out.push(DynHostAccount { domain: d, username: u, password: p });
            },
            _ => {},
        }
        i = i + 1;
    }
    proof {
        assert(sections@.take(n as int) =~= sections@);
    }
    out
}

} // verus!
