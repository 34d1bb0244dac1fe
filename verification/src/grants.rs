//! Keyed grant sets: each grant is a short list of strings (a tool name,
//! a host, a path, a command with its directory, a command prefix).

use vstd::prelude::*;

verus! {

/// The abstract value of a list of strings.
pub open spec fn words_view(words: Seq<String>) -> Seq<Seq<char>> {
    words.map_values(|s: String| s@)
}

/// Compares two lists of strings element by element.
pub fn words_eq(a: &Vec<String>, b: &Vec<String>) -> (equal: bool)
    ensures
        equal == (words_view(a@) == words_view(b@)),
{
    if a.len() != b.len() {
        proof {
            assert(words_view(a@).len() != words_view(b@).len());
        }
        return false;
    }
    let mut i: usize = 0;
    while i < a.len()
        invariant
            a.len() == b.len(),
            i <= a.len(),
            forall|j: int| 0 <= j < i ==> a@[j]@ == b@[j]@,
        decreases a.len() - i,
    {
        if a[i] != b[i] {
            proof {
                assert(words_view(a@)[i as int] != words_view(b@)[i as int]);
            }
            return false;
        }
        i += 1;
    }
    proof {
        assert(words_view(a@) =~= words_view(b@));
    }
    true
}

/// A deep copy of a list of strings.
pub fn copy_words(a: &Vec<String>) -> (copy: Vec<String>)
    ensures
        copy@ == a@,
{
    let copy = a.clone();
    proof {
        assert(copy@ =~= a@);
    }
    copy
}


/// A copy of an optional string.
pub fn copy_opt_text(text: &Option<String>) -> (copy: Option<String>)
    ensures
        copy == *text,
{
    match text {
        Some(t) => Some(t.clone()),
        None => None,
    }
}

/// A duplicate-free set of grant keys.
pub struct GrantSet {
    keys: Vec<Vec<String>>,
}

impl View for GrantSet {
    type V = Set<Seq<Seq<char>>>;

    open spec fn view(&self) -> Set<Seq<Seq<char>>> {
        self.key_seq().to_set()
    }
}

impl GrantSet {
    /// The stored keys in insertion order.
    pub closed spec fn key_seq(&self) -> Seq<Seq<Seq<char>>> {
        self.keys@.map_values(|k: Vec<String>| words_view(k@))
    }

    /// No key is stored twice.
    pub closed spec fn wf(&self) -> bool {
        self.key_seq().no_duplicates()
    }

    /// An empty set of grants.
    pub fn new() -> (set: Self)
        ensures
            set.wf(),
            set@ == Set::<Seq<Seq<char>>>::empty(),
    {
        let set = GrantSet { keys: Vec::new() };
        proof {
            assert(set.key_seq() =~= Seq::<Seq<Seq<char>>>::empty());
        }
        set
    }

    /// Number of distinct keys.
    pub fn len(&self) -> (n: usize)
        requires
            self.wf(),
        ensures
            n == self@.len(),
    {
        proof {
            self.key_seq().unique_seq_to_set();
        }
        self.keys.len()
    }

    /// Whether `key` is granted.
    pub fn contains(&self, key: &Vec<String>) -> (found: bool)
        ensures
            found == self@.contains(words_view(key@)),
    {
        let mut i: usize = 0;
        while i < self.keys.len()
            invariant
                i <= self.keys.len(),
                forall|j: int| 0 <= j < i ==> self.key_seq()[j] != words_view(key@),
            decreases self.keys.len() - i,
        {
            if words_eq(&self.keys[i], key) {
                proof {
                    assert(self.key_seq()[i as int] == words_view(key@));
                    assert(self.key_seq().contains(words_view(key@)));
                }
                return true;
            }
            i += 1;
        }
        proof {
            if self.key_seq().contains(words_view(key@)) {
                let j = choose|j: int| 0 <= j < self.key_seq().len() && self.key_seq()[j] == words_view(key@);
                assert(false);
            }
        }
        false
    }

    /// Adds `key`; a key already present is left as it is.
    pub fn insert(&mut self, key: Vec<String>)
        requires
            old(self).wf(),
        ensures
            final(self).wf(),
            final(self)@ == old(self)@.insert(words_view(key@)),
    {
        let ghost k = words_view(key@);
        if !self.contains(&key) {
            let ghost before = self.key_seq();
            self.keys.push(key);
            proof {
                assert(self.key_seq() =~= before.push(k));
                assert forall|a: int, b: int| 0 <= a < b < self.key_seq().len()
                    implies self.key_seq()[a] != self.key_seq()[b] by {
                    if b == before.len() {
                        assert(before.contains(before[a]));
                    }
                }
                assert(self.key_seq().to_set() =~= before.to_set().insert(k)) by {
                    assert forall|x| self.key_seq().to_set().contains(x) <==> before.to_set().insert(k).contains(x) by {
                        if before.contains(x) {
                            let j = choose|j: int| 0 <= j < before.len() && before[j] == x;
                            assert(self.key_seq()[j] == x);
                        }
                        if x == k {
                            assert(self.key_seq()[before.len() as int] == x);
                        }
                        if self.key_seq().contains(x) {
                            let j = choose|j: int| 0 <= j < self.key_seq().len() && self.key_seq()[j] == x;
                            if j < before.len() {
                                assert(before[j] == x);
                            }
                        }
                    }
                }
            }
        } else {
            proof {
                assert(self@.insert(k) =~= self@);
            }
        }
    }

    /// A deep copy holding the same keys.
    pub fn snapshot(&self) -> (copy: Self)
        requires
            self.wf(),
        ensures
            copy.wf(),
            copy@ == self@,
            copy.key_seq() == self.key_seq(),
    {
        let mut keys: Vec<Vec<String>> = Vec::new();
        let mut i: usize = 0;
        while i < self.keys.len()
            invariant
                i <= self.keys.len(),
                keys@.len() == i,
                forall|j: int| 0 <= j < i ==> keys@[j]@ == self.keys@[j]@,
            decreases self.keys.len() - i,
        {
            keys.push(copy_words(&self.keys[i]));
            i += 1;
        }
        let copy = GrantSet { keys };
        proof {
            assert(copy.key_seq() =~= self.key_seq());
        }
        copy
    }
}

} // verus!
