//! Query parameters: a map from parameter name to its text value.
use vstd::prelude::*;

verus! {

/// A set of query parameters; each name appears at most once.
pub struct QueryMap {
    entries: Vec<(String, String)>,
    contents: Ghost<Map<Seq<char>, Seq<char>>>,
}

impl View for QueryMap {
    type V = Map<Seq<char>, Seq<char>>;

    closed spec fn view(&self) -> Map<Seq<char>, Seq<char>> {
        self.contents@
    }
}

impl QueryMap {
    /// Each stored pair is in the view, each key of the view is stored,
    /// and no key is stored twice.
    pub closed spec fn wf(&self) -> bool {
        &&& self.contents@.dom().finite()
        &&& self.entries@.len() == self.contents@.dom().len()
        &&& forall|i: int|
            0 <= i < self.entries@.len() ==> {
                &&& self.contents@.contains_key(#[trigger] self.entries@[i].0@)
                &&& self.contents@[self.entries@[i].0@] == self.entries@[i].1@
            }
        &&& forall|k: Seq<char>|
            #[trigger] self.contents@.contains_key(k) ==> exists|i: int|
                0 <= i < self.entries@.len() && self.entries@[i].0@ == k
        &&& forall|i: int, j: int|
            0 <= i < j < self.entries@.len() ==> self.entries@[i].0@ != self.entries@[j].0@
    }

    /// An empty set of parameters.
    pub fn new() -> (r: Self)
        ensures
            r.wf(),
            r@ == Map::<Seq<char>, Seq<char>>::empty(),
    {
        QueryMap { entries: Vec::new(), contents: Ghost(Map::empty()) }
    }

    /// Sets `key` to `value`, replacing an earlier value of the same key.
    pub fn insert(&mut self, key: String, value: String)
        requires
            old(self).wf(),
        ensures
            final(self).wf(),
            final(self)@ == old(self)@.insert(key@, value@),
    {
        let n = self.entries.len();
        let mut i: usize = 0;
        while i < n
            invariant
                self.wf(),
                *self == *old(self),
                n == self.entries@.len(),
                0 <= i <= n,
                forall|j: int| 0 <= j < i ==> self.entries@[j].0@ != key@,
            decreases n - i,
        {
            if self.entries[i].0 == key {
                let ghost old_entries = self.entries@;
                let ghost old_contents = self.contents@;
                assert(old_entries[i as int].0@ == key@);
                let ghost new_contents = old_contents.insert(key@, value@);
                assert(new_contents.dom() =~= old_contents.dom());
                self.entries.set(i, (key, value));
                self.contents = Ghost(new_contents);
                assert forall|k: Seq<char>| #[trigger] new_contents.contains_key(k) implies exists|m: int|
                    0 <= m < self.entries@.len() && self.entries@[m].0@ == k by {
                    assert(old_contents.contains_key(k));
                    let m = choose|m: int| 0 <= m < old_entries.len() && old_entries[m].0@ == k;
                    if m != i {
                        assert(self.entries@[m] == old_entries[m]);
                    } else {
                        assert(self.entries@[m].0@ == key@);
                    }
                    assert(0 <= m < self.entries@.len() && self.entries@[m].0@ == k);
                }
                return;
            }
            i = i + 1;
        }
        let ghost old_entries = self.entries@;
        let ghost old_contents = self.contents@;
        assert(!old_contents.contains_key(key@));
        let ghost new_contents = old_contents.insert(key@, value@);
        self.entries.push((key, value));
        self.contents = Ghost(new_contents);
        assert(new_contents.dom() =~= old_contents.dom().insert(self.entries@[n as int].0@));
        assert forall|k: Seq<char>| #[trigger] new_contents.contains_key(k) implies exists|m: int|
            0 <= m < self.entries@.len() && self.entries@[m].0@ == k by {
            if k != self.entries@[n as int].0@ {
                assert(old_contents.contains_key(k));
                let m = choose|m: int| 0 <= m < old_entries.len() && old_entries[m].0@ == k;
                assert(self.entries@[m] == old_entries[m]);
            }
        }
    }

    /// The value of `key`, if it is set.
    pub fn get(&self, key: &str) -> (r: Option<&String>)
        requires
            self.wf(),
        ensures
            r is Some <==> self@.contains_key(key@),
            r matches Some(v) ==> v@ == self@[key@],
    {
        let wanted = String::from_str(key);
        let n = self.entries.len();
        let mut i: usize = 0;
        while i < n
            invariant
                self.wf(),
                n == self.entries@.len(),
                0 <= i <= n,
                wanted@ == key@,
                forall|j: int| 0 <= j < i ==> self.entries@[j].0@ != key@,
            decreases n - i,
        {
            if self.entries[i].0 == wanted {
                return Some(&self.entries[i].1);
            }
            i = i + 1;
        }
        proof {
            if self@.contains_key(key@) {
                let m = choose|m: int| 0 <= m < self.entries@.len() && self.entries@[m].0@ == key@;
                assert(self.entries@[m].0@ != key@);
            }
        }
        None
    }

    /// The number of parameters.
    pub fn len(&self) -> (r: usize)
        requires
            self.wf(),
        ensures
            r == self@.dom().len(),
    {
        self.entries.len()
    }

    /// Whether no parameter is set.
    pub fn is_empty(&self) -> (r: bool)
        requires
            self.wf(),
        ensures
            r <==> self@ == Map::<Seq<char>, Seq<char>>::empty(),
    {
        proof {
            if self.entries@.len() == 0 {
                assert(self@.dom() =~= Set::<Seq<char>>::empty());
                assert(self@ =~= Map::<Seq<char>, Seq<char>>::empty());
            } else {
                assert(self@.contains_key(self.entries@[0].0@));
            }
        }
        self.entries.len() == 0
    }

    /// The parameters as (name, value) pairs, each name once, in no fixed order.
    pub fn pairs(&self) -> (r: &Vec<(String, String)>)
        requires
            self.wf(),
        ensures
            r@.len() == self@.dom().len(),
            forall|i: int|
                0 <= i < r@.len() ==> {
                    &&& self@.contains_key(#[trigger] r@[i].0@)
                    &&& self@[r@[i].0@] == r@[i].1@
                },
            forall|k: Seq<char>|
                #[trigger] self@.contains_key(k) ==> exists|i: int| 0 <= i < r@.len() && r@[i].0@ == k,
    {
        &self.entries
    }
}

/// `m` with `key` set to `value` where a value is present, and `m` itself where it is absent.
pub open spec fn with_entry(
    m: Map<Seq<char>, Seq<char>>,
    key: Seq<char>,
    value: Option<Seq<char>>,
) -> Map<Seq<char>, Seq<char>> {
    match value {
        Some(v) => m.insert(key, v),
        None => m,
    }
}

/// A request-parameter record that projects to query parameters.
pub trait ToQueryParams {
    /// The parameters this record stands for, by wire name.
    spec fn query_spec(&self) -> Map<Seq<char>, Seq<char>>;

    /// The query parameters: one entry for each field that is present.
    fn as_query_params(&self) -> (r: QueryMap)
        ensures
            r.wf(),
            r@ == self.query_spec(),
    ;
}

} // verus!
