//! Property bags: the string-keyed, string-valued maps that the session
//! service attaches to every global-object notification.

use vstd::prelude::*;
use vstd::string::*;

verus! {

/// Whether two strings hold the same characters.
pub fn str_eq(a: &str, b: &str) -> (r: bool)
    ensures
        r == (a@ == b@),
{
    let alen = a.unicode_len();
    let blen = b.unicode_len();
    if alen != blen {
        return false;
    }
    let mut i: usize = 0;
    while i < alen
        invariant
            alen == a@.len(),
            alen == b@.len(),
            0 <= i <= alen,
            forall|j: int| 0 <= j < i ==> a@[j] == b@[j],
        decreases alen - i,
    {
        let ca = a.get_char(i);
        let cb = b.get_char(i);
        if ca != cb {
            assert(a@[i as int] != b@[i as int]);
            return false;
        }
        i = i + 1;
    }
    proof {
        assert(a@ =~= b@);
    }
    true
}

/// A property bag as the session service hands it out: key/value pairs of
/// strings, in notification order.
pub struct Properties {
    pub entries: Vec<(String, String)>,
}

impl View for Properties {
    type V = Seq<(String, String)>;

    open spec fn view(&self) -> Seq<(String, String)> {
        self.entries@
    }
}

/// The value of the first entry of `m` whose key reads `key`.
pub open spec fn lookup(m: Seq<(String, String)>, key: Seq<char>) -> Option<String>
    decreases m.len(),
{
    if m.len() == 0 {
        None
    } else if m[0].0@ == key {
        Some(m[0].1)
    } else {
        lookup(m.drop_first(), key)
    }
}

/// Whether `m` holds an entry whose key reads `key`.
pub open spec fn has_key(m: Seq<(String, String)>, key: Seq<char>) -> bool {
    lookup(m, key) is Some
}

impl Properties {
    /// An empty property bag.
    pub fn new() -> (r: Properties)
        ensures
            r@ == Seq::<(String, String)>::empty(),
    {
        Properties { entries: Vec::new() }
    }

    /// Appends one key/value pair.
    pub fn push(&mut self, key: String, value: String)
        ensures
            final(self)@ == old(self)@.push((key, value)),
    {
        self.entries.push((key, value));
    }

    /// Looks `key` up, returning a copy of the first value stored under it.
    pub fn get(&self, key: &str) -> (r: Option<String>)
        ensures
            r == lookup(self@, key@),
    {
        let n = self.entries.len();
        proof {
            assert(self@.skip(0) =~= self@);
        }
        let mut i: usize = 0;
        while i < n
            invariant
                n == self@.len(),
                0 <= i <= n,
                lookup(self@, key@) == lookup(self@.skip(i as int), key@),
            decreases n - i,
        {
            proof {
                assert(self@.skip(i as int)[0] == self@[i as int]);
            }
            if str_eq(self.entries[i].0.as_str(), key) {
                return Some(self.entries[i].1.clone());
            }
            proof {
                assert(self@.skip(i as int).drop_first() =~= self@.skip(i as int + 1));
            }
            i = i + 1;
        }
        proof {
            assert(self@.skip(n as int) =~= Seq::<(String, String)>::empty());
        }
        None
    }

    /// Looks `key` up, handing back `default` where the bag has no entry
    /// under that key.
    pub fn get_or(&self, key: &str, default: &str) -> (r: String)
        ensures
            (match lookup(self@, key@) {
                Some(v) => r == v,
                None => r@ == default@,
            }),
    {
        match self.get(key) {
            Some(v) => v,
            None => default.to_owned(),
        }
    }
}

} // verus!
