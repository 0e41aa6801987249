//! The request-scoped session: key/value state reconstructed from the
//! session cookie at request start, marked dirty on any mutation, and
//! written back into the outgoing cookie only if dirty.

use vstd::prelude::*;

verus! {

use crate::strutil::str_eq;

/// The key/value map a list of session entries denotes; the earliest entry
/// for a key wins.
pub open spec fn map_of(entries: Seq<(String, String)>) -> Map<Seq<char>, Seq<char>>
    decreases entries.len(),
{
    if entries.len() == 0 {
        Map::empty()
    } else {
        map_of(entries.drop_first()).insert(entries[0].0@, entries[0].1@)
    }
}

proof fn lemma_map_of_miss(entries: Seq<(String, String)>, k: Seq<char>)
    requires
        forall|j: int| 0 <= j < entries.len() ==> (#[trigger] entries[j]).0@ != k,
    ensures
        !map_of(entries).contains_key(k),
    decreases entries.len(),
{
    if entries.len() > 0 {
        assert(forall|j: int|
            0 <= j < entries.drop_first().len() ==> (#[trigger] entries.drop_first()[j]).0@ != k);
        lemma_map_of_miss(entries.drop_first(), k);
    }
}

proof fn lemma_map_of_hit(entries: Seq<(String, String)>, i: int)
    requires
        0 <= i < entries.len(),
        forall|j: int| 0 <= j < i ==> (#[trigger] entries[j]).0@ != entries[i].0@,
    ensures
        map_of(entries).contains_key(entries[i].0@),
        map_of(entries)[entries[i].0@] == entries[i].1@,
    decreases i,
{
    if i > 0 {
        assert(forall|j: int|
            0 <= j < i - 1 ==> (#[trigger] entries.drop_first()[j]).0@ == entries[j + 1].0@);
        lemma_map_of_hit(entries.drop_first(), i - 1);
        assert(entries.drop_first()[i - 1] == entries[i]);
    }
}

/// `entries` with every occurrence of `key` dropped; the denoted map loses
/// exactly that key.
fn without_key(entries: &Vec<(String, String)>, key: &str) -> (r: Vec<(String, String)>)
    ensures
        map_of(r@) == map_of(entries@).remove(key@),
{
    let n = entries.len();
    let mut r: Vec<(String, String)> = Vec::new();
    let mut i: usize = n;
    proof {
        assert(entries@.subrange(n as int, n as int) =~= Seq::<(String, String)>::empty());
        assert(map_of(r@) =~= map_of(entries@.subrange(n as int, n as int)).remove(key@));
    }
    while i > 0
        invariant
            i <= n,
            n == entries@.len(),
            map_of(r@) == map_of(entries@.subrange(i as int, n as int)).remove(key@),
        decreases i,
    {
        i = i - 1;
        let ghost r_prev = r@;
        let ghost sub_prev = entries@.subrange(i + 1, n as int);
        let ghost sub_now = entries@.subrange(i as int, n as int);
        proof {
            assert(sub_now.drop_first() =~= sub_prev);
            assert(sub_now[0] == entries@[i as int]);
        }
        let keep = !str_eq(entries[i].0.as_str(), key);
        if keep {
            r.insert(0, (entries[i].0.clone(), entries[i].1.clone()));
            proof {
                assert(r@.drop_first() =~= r_prev);
                assert(map_of(r@) == map_of(r_prev).insert(entries@[i as int].0@, entries@[
                    i as int].1@));
                assert(map_of(r@) =~= map_of(sub_now).remove(key@));
            }
        } else {
            proof {
                assert(map_of(r@) =~= map_of(sub_now).remove(key@));
            }
        }
    }
    proof {
        assert(entries@.subrange(0, n as int) =~= entries@);
    }
    r
}

/// Ephemeral per-request key/value state. Reconstructed from the signed
/// cookie at request start; mutations mark it dirty, and only a dirty
/// session is re-serialized into the response cookie.
pub struct Session {
    entries: Vec<(String, String)>,
    dirty: bool,
}

impl View for Session {
    type V = Map<Seq<char>, Seq<char>>;

    closed spec fn view(&self) -> Map<Seq<char>, Seq<char>> {
        map_of(self.entries@)
    }
}

impl Session {
    /// Whether any mutation has touched this session since it was loaded.
    pub closed spec fn spec_dirty(&self) -> bool {
        self.dirty
    }

    /// A session reconstructed from decoded cookie data, initially clean.
    fn new(data: Vec<(String, String)>) -> (r: Session)
        ensures
            r@ == map_of(data@),
            !r.spec_dirty(),
    {
        Session { entries: data, dirty: false }
    }

    /// Looks a key up without touching the dirty flag.
    pub fn get(&self, key: &str) -> (r: Option<String>)
        ensures
            match r {
                Some(v) => self@.contains_key(key@) && self@[key@] == v@,
                None => !self@.contains_key(key@),
            },
    {
        let n = self.entries.len();
        let mut i: usize = 0;
        while i < n
            invariant
                i <= n,
                n == self.entries@.len(),
                self@ == map_of(self.entries@),
                forall|j: int| 0 <= j < i ==> (#[trigger] self.entries@[j]).0@ != key@,
            decreases n - i,
        {
            if str_eq(self.entries[i].0.as_str(), key) {
                proof {
                    lemma_map_of_hit(self.entries@, i as int);
                }
                return Some(self.entries[i].1.clone());
            }
            i = i + 1;
        }
        proof {
            lemma_map_of_miss(self.entries@, key@);
        }
        None
    }

    /// Binds `key` to `value`, marks the session dirty, and returns the
    /// value the key held before, if any.
    pub fn insert(&mut self, key: String, value: String) -> (r: Option<String>)
        ensures
            final(self)@ == old(self)@.insert(key@, value@),
            final(self).spec_dirty(),
            match r {
                Some(v) => old(self)@.contains_key(key@) && old(self)@[key@] == v@,
                None => !old(self)@.contains_key(key@),
            },
    {
        let r = self.get(key.as_str());
        let mut filtered = without_key(&self.entries, key.as_str());
        let ghost filtered_view = filtered@;
        filtered.insert(0, (key, value));
        proof {
            assert(filtered@.drop_first() =~= filtered_view);
            assert(map_of(filtered@) =~= old(self)@.insert(filtered@[0].0@, filtered@[0].1@));
        }
        self.entries = filtered;
        self.dirty = true;
        r
    }

    /// Drops `key`, marks the session dirty, and returns the value the key
    /// held before, if any.
    pub fn remove(&mut self, key: &str) -> (r: Option<String>)
        ensures
            final(self)@ == old(self)@.remove(key@),
            final(self).spec_dirty(),
            match r {
                Some(v) => old(self)@.contains_key(key@) && old(self)@[key@] == v@,
                None => !old(self)@.contains_key(key@),
            },
    {
        let r = self.get(key);
        let filtered = without_key(&self.entries, key);
        self.entries = filtered;
        self.dirty = true;
        r
    }

    /// Whether the session has been mutated since it was loaded.
    pub fn is_dirty(&self) -> (r: bool)
        ensures
            r == self.spec_dirty(),
    {
        self.dirty
    }

    /// The entries to re-serialize into the response cookie: present exactly
    /// when the session is dirty. A clean session emits no cookie.
    pub fn cookie_update(&self) -> (r: Option<Vec<(String, String)>>)
        ensures
            match r {
                Some(v) => self.spec_dirty() && map_of(v@) == self@,
                None => !self.spec_dirty(),
            },
    {
        if !self.dirty {
            return None;
        }
        let n = self.entries.len();
        let mut out: Vec<(String, String)> = Vec::new();
        let mut i: usize = 0;
        while i < n
            invariant
                i <= n,
                n == self.entries@.len(),
                out@.len() == i,
                forall|j: int|
                    0 <= j < i ==> (#[trigger] out@[j]).0@ == self.entries@[j].0@ && out@[j].1@
                        == self.entries@[j].1@,
            decreases n - i,
        {
            out.push((self.entries[i].0.clone(), self.entries[i].1.clone()));
            i = i + 1;
        }
        proof {
            lemma_map_of_congruent(out@, self.entries@);
        }
        Some(out)
    }
}

proof fn lemma_map_of_congruent(a: Seq<(String, String)>, b: Seq<(String, String)>)
    requires
        a.len() == b.len(),
        forall|j: int| 0 <= j < a.len() ==> (#[trigger] a[j]).0@ == b[j].0@ && a[j].1@ == b[j].1@,
    ensures
        map_of(a) == map_of(b),
    decreases a.len(),
{
    if a.len() > 0 {
        assert(forall|j: int|
            0 <= j < a.drop_first().len() ==> (#[trigger] a.drop_first()[j]).0@ == a[j + 1].0@
                && a.drop_first()[j].1@ == a[j + 1].1@);
        lemma_map_of_congruent(a.drop_first(), b.drop_first());
        assert(map_of(a) =~= map_of(b));
    }
}

/// Builds the request-scoped session from the key/value pairs decoded out of
/// the request cookie. A request without a readable cookie hands an empty
/// list here; the fresh session starts clean either way.
pub fn init(data: Vec<(String, String)>) -> (r: Session)
    ensures
        r@ == map_of(data@),
        !r.spec_dirty(),
{
    Session::new(data)
}

} // verus!
