//! An ordered set of file names: the names kept once each, in the order of
//! strings (as a `BTreeSet<String>` holds them).
use vstd::prelude::*;
use crate::text::{
    chars_eq, chars_lt, chars_of, lemma_lex_asymmetric, lemma_lex_irreflexive, lemma_lex_total,
    lemma_lex_transitive, lex_lt,
};

verus! {

/// `s` is strictly increasing in the order of strings (so no name repeats).
pub open spec fn sorted_names(s: Seq<Seq<char>>) -> bool {
    forall|i: int, j: int| 0 <= i < j < s.len() ==> lex_lt(#[trigger] s[i], #[trigger] s[j])
}

/// The names of `s` that are not in `o`, in the order of `s`.
pub open spec fn without(s: Seq<Seq<char>>, o: Seq<Seq<char>>) -> Seq<Seq<char>>
    decreases s.len(),
{
    if s.len() == 0 {
        Seq::<Seq<char>>::empty()
    } else if o.contains(s.last()) {
        without(s.drop_last(), o)
    } else {
        without(s.drop_last(), o).push(s.last())
    }
}

/// A set of file names, held in increasing order.
#[derive(Debug)]
pub struct FileNameSet {
    names: Vec<String>,
}

impl View for FileNameSet {
    type V = Seq<Seq<char>>;

    /// The names, in increasing order.
    closed spec fn view(&self) -> Seq<Seq<char>> {
        self.names.deep_view()
    }
}

impl FileNameSet {
    #[verifier::type_invariant]
    closed spec fn inv(self) -> bool {
        sorted_names(self.names.deep_view())
    }

    /// An empty set.
    pub fn new() -> (r: FileNameSet)
        ensures
            r@ == Seq::<Seq<char>>::empty(),
    {
        let r = FileNameSet { names: Vec::new() };
        assert(r.names.deep_view() =~= Seq::<Seq<char>>::empty());
        r
    }

    /// Number of names.
    pub fn len(&self) -> (r: usize)
        ensures
            r == self@.len(),
    {
        self.names.len()
    }

    /// Whether the set has no name.
    pub fn is_empty(&self) -> (r: bool)
        ensures
            r == (self@.len() == 0),
    {
        self.names.len() == 0
    }

    /// The names, in increasing order.
    pub fn names(&self) -> (r: &Vec<String>)
        ensures
            r.deep_view() == self@,
            sorted_names(self@),
    {
        proof {
            use_type_invariant(self);
        }
        &self.names
    }

    /// Whether `name` is in the set.
    pub fn contains(&self, name: &str) -> (r: bool)
        ensures
            r == self@.contains(name@),
    {
        let key = chars_of(name);
        let mut i: usize = 0;
        while i < self.names.len()
            invariant
                i <= self.names.len(),
                key@ == name@,
                forall|k: int| 0 <= k < i ==> self.names.deep_view()[k] != key@,
            decreases self.names.len() - i,
        {
            let cur = chars_of(self.names[i].as_str());
            assert(self.names.deep_view()[i as int] == self.names@[i as int]@);
            assert(cur@ == self.names@[i as int]@);
            assert(key@ == name@);
            if chars_eq(&cur, &key) {
                assert(cur@ == key@);
                assert(self.names.deep_view()[i as int] == name@);
                assert(self@[i as int] == name@);
                return true;
            }
            i = i + 1;
        }
        false
    }

    /// Adds `name`; returns whether it was not there before. The set stays
    /// in increasing order.
    pub fn insert(&mut self, name: String) -> (added: bool)
        ensures
            forall|x: Seq<char>| #[trigger] final(self)@.contains(x) <==> (old(self)@.contains(x) || x == name@),
            added == !old(self)@.contains(name@),
            sorted_names(final(self)@),
    {
        proof {
            use_type_invariant(&*self);
        }
        let ghost old_view = self.names.deep_view();
        let key = chars_of(name.as_str());
        let mut i: usize = 0;
        while i < self.names.len()
            invariant
                i <= self.names.len(),
                self.names.deep_view() == old_view,
                sorted_names(old_view),
                key@ == name@,
                forall|k: int| 0 <= k < i ==> lex_lt(#[trigger] old_view[k], key@),
            ensures
                i <= self.names.len(),
                self.names.deep_view() == old_view,
                forall|k: int| 0 <= k < i ==> lex_lt(#[trigger] old_view[k], key@),
                i < self.names.len() ==> lex_lt(key@, old_view[i as int]),
            decreases self.names.len() - i,
        {
            let cur = chars_of(self.names[i].as_str());
            assert(self.names.deep_view()[i as int] == self.names@[i as int]@);
            if chars_eq(&cur, &key) {
                assert(old_view[i as int] == name@);
                return false;
            }
            if chars_lt(&key, &cur) {
                break;
            }
            proof {
                lemma_lex_total(cur@, key@);
            }
            i = i + 1;
        }
        proof {
            // Nothing from position `i` on precedes or equals the new name.
            assert forall|k: int| i <= k < old_view.len() implies lex_lt(key@, #[trigger] old_view[k]) by {
                if k > i {
                    lemma_lex_transitive(key@, old_view[i as int], old_view[k]);
                }
            }
            assert(!old_view.contains(name@)) by {
                if old_view.contains(name@) {
                    let k = choose|k: int| 0 <= k < old_view.len() && old_view[k] == name@;
                    lemma_lex_irreflexive(name@);
                }
            }
        }
        let mut names: Vec<String> = Vec::new();
        std::mem::swap(&mut names, &mut self.names);
        let ghost before = names@;
        names.insert(i, name);
        let ghost new_view = names.deep_view();
        assert(new_view =~= old_view.insert(i as int, key@));
        proof {
            assert forall|p: int, q: int| 0 <= p < q < new_view.len() implies lex_lt(
                #[trigger] new_view[p],
                #[trigger] new_view[q],
            ) by {
                if q < i {
                } else if p < i && q == i {
                } else if p < i && q > i {
                    lemma_lex_transitive(old_view[p], key@, old_view[q - 1]);
                } else if p == i {
                } else {
                }
            }
            assert forall|x: Seq<char>| #[trigger] new_view.contains(x) <==> (old_view.contains(x) || x == name@) by {
                if new_view.contains(x) {
                    let k = choose|k: int| 0 <= k < new_view.len() && new_view[k] == x;
                    if k < i {
                        assert(old_view[k] == x);
                    } else if k > i {
                        assert(old_view[k - 1] == x);
                    }
                }
                if x == name@ {
                    assert(new_view[i as int] == x);
                } else if old_view.contains(x) {
                    let k = choose|k: int| 0 <= k < old_view.len() && old_view[k] == x;
                    if k < i {
                        assert(new_view[k] == x);
                    } else {
                        assert(new_view[k + 1] == x);
                    }
                }
            }
        }
        self.names = names;
        true
    }

    /// The names of this set that are not in `other`, in increasing order.
    pub fn difference(&self, other: &FileNameSet) -> (r: Vec<String>)
        ensures
            r.deep_view() == without(self@, other@),
    {
        let mut r: Vec<String> = Vec::new();
        let mut i: usize = 0;
        while i < self.names.len()
            invariant
                i <= self.names.len(),
                r.deep_view() == without(self.names.deep_view().take(i as int), other@),
            decreases self.names.len() - i,
        {
            let ghost taken = self.names.deep_view().take(i + 1);
            assert(taken.drop_last() =~= self.names.deep_view().take(i as int));
            assert(taken.last() == self.names[i as int]@);
            if !other.contains(self.names[i].as_str()) {
                let ghost before = r.deep_view();
                r.push(self.names[i].clone());
                assert(r.deep_view() =~= before.push(self.names[i as int]@));
            }
            i = i + 1;
        }
        assert(self.names.deep_view().take(self.names.len() as int) =~= self.names.deep_view());
        r
    }
}

/// A set built from a list of names (repeats kept once).
pub fn file_name_set(names: &Vec<String>) -> (r: FileNameSet)
    ensures
        forall|x: Seq<char>| #[trigger] r@.contains(x) <==> names.deep_view().contains(x),
        sorted_names(r@),
{
    let mut r = FileNameSet::new();
    let mut i: usize = 0;
    while i < names.len()
        invariant
            i <= names.len(),
            forall|x: Seq<char>| #[trigger] r@.contains(x) <==> names.deep_view().take(i as int).contains(x),
            sorted_names(r@),
        decreases names.len() - i,
    {
        r.insert(names[i].clone());
        let ghost taken = names.deep_view().take(i + 1);
        assert(taken =~= names.deep_view().take(i as int).push(names[i as int]@));
        assert forall|x: Seq<char>| #[trigger] r@.contains(x) <==> taken.contains(x) by {
            if taken.contains(x) && x != names[i as int]@ {
                let k = choose|k: int| 0 <= k < taken.len() && taken[k] == x;
                assert(names.deep_view().take(i as int)[k] == x);
            }
            if names.deep_view().take(i as int).contains(x) {
                let k = choose|k: int| 0 <= k < i && names.deep_view().take(i as int)[k] == x;
                assert(taken[k] == x);
            }
            if x == names[i as int]@ {
                assert(taken[i as int] == x);
            }
        }
        i = i + 1;
    }
    assert(names.deep_view().take(names.len() as int) =~= names.deep_view());
    r
}

/// Every name of `without(s, o)` is a name of `s` that is not in `o`, and
/// every such name is there.
pub proof fn lemma_without(s: Seq<Seq<char>>, o: Seq<Seq<char>>, x: Seq<char>)
    ensures
        without(s, o).contains(x) <==> (s.contains(x) && !o.contains(x)),
    decreases s.len(),
{
    if s.len() > 0 {
        lemma_without(s.drop_last(), o, x);
        let w = without(s.drop_last(), o);
        if s.contains(x) && !o.contains(x) {
            let k = choose|k: int| 0 <= k < s.len() && s[k] == x;
            if k < s.len() - 1 {
                assert(s.drop_last()[k] == x);
            } else if !o.contains(s.last()) {
                assert(w.push(s.last())[w.len() as int] == x);
            }
            if !o.contains(s.last()) && w.contains(x) {
                let j = choose|j: int| 0 <= j < w.len() && w[j] == x;
                assert(w.push(s.last())[j] == x);
            }
        }
        if without(s, o).contains(x) {
            if !o.contains(s.last()) {
                let j = choose|j: int| 0 <= j < w.len() + 1 && w.push(s.last())[j] == x;
                if j < w.len() {
                    assert(w[j] == x);
                }
            }
            if w.contains(x) {
                let k = choose|k: int| 0 <= k < s.drop_last().len() && s.drop_last()[k] == x;
                assert(s[k] == x);
            } else {
                assert(s[s.len() - 1] == x);
            }
        }
    }
}

/// Two sorted sequences of names with the same elements are equal.
pub proof fn lemma_sorted_unique(a: Seq<Seq<char>>, b: Seq<Seq<char>>)
    requires
        sorted_names(a),
        sorted_names(b),
        forall|x: Seq<char>| #![trigger a.contains(x)] #![trigger b.contains(x)] a.contains(x) <==> b.contains(x),
    ensures
        a == b,
    decreases a.len(),
{
    if a.len() == 0 {
        if b.len() > 0 {
            assert(b.contains(b[0]));
        }
        assert(a =~= b);
    } else if b.len() == 0 {
        assert(a.contains(a[0]));
    } else {
        let x = a.last();
        let y = b.last();
        assert(a[a.len() - 1] == x);
        assert(b[b.len() - 1] == y);
        assert(a.contains(x));
        assert(b.contains(y));
        assert(b.contains(x));
        assert(a.contains(y));
        let kx = choose|k: int| 0 <= k < b.len() && b[k] == x;
        let ky = choose|k: int| 0 <= k < a.len() && a[k] == y;
        if x != y {
            lemma_lex_total(x, y);
            if lex_lt(x, y) {
                assert(ky < a.len() - 1);
                lemma_lex_asymmetric(x, y);
                assert(lex_lt(a[ky], a[a.len() - 1]));
            } else {
                assert(kx < b.len() - 1);
                lemma_lex_asymmetric(y, x);
                assert(lex_lt(b[kx], b[b.len() - 1]));
            }
        }
        let a2 = a.drop_last();
        let b2 = b.drop_last();
        assert forall|z: Seq<char>| #![trigger a2.contains(z)] #![trigger b2.contains(z)] a2.contains(z) <==> b2.contains(z) by {
            if a2.contains(z) {
                let k = choose|k: int| 0 <= k < a2.len() && a2[k] == z;
                assert(a[k] == z);
                assert(a.contains(z));
                assert(b.contains(z));
                let j = choose|j: int| 0 <= j < b.len() && b[j] == z;
                assert(lex_lt(a[k], a[a.len() - 1]));
                if j == b.len() - 1 {
                    lemma_lex_irreflexive(x);
                } else {
                    assert(b2[j] == z);
                }
            }
            if b2.contains(z) {
                let k = choose|k: int| 0 <= k < b2.len() && b2[k] == z;
                assert(b[k] == z);
                assert(b.contains(z));
                assert(a.contains(z));
                let j = choose|j: int| 0 <= j < a.len() && a[j] == z;
                assert(lex_lt(b[k], b[b.len() - 1]));
                if j == a.len() - 1 {
                    lemma_lex_irreflexive(y);
                } else {
                    assert(a2[j] == z);
                }
            }
        }
        lemma_sorted_unique(a2, b2);
        assert(a =~= a2.push(x));
        assert(b =~= b2.push(y));
    }
}

} // verus!
