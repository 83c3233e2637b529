//! Identifier names as character sequences: their lexicographic order and a
//! sorted, duplicate-free collection of names.
use vstd::prelude::*;

verus! {

/// Strict lexicographic order on character sequences, by code point.
///
/// This is the order of Rust's `str` comparison: UTF-8 preserves the order of
/// code points, so comparing the encoded bytes and comparing the characters
/// agree.
pub open spec fn lex_lt(a: Seq<char>, b: Seq<char>) -> bool
    decreases a.len(),
{
    if a.len() == 0 {
        b.len() > 0
    } else if b.len() == 0 {
        false
    } else if a[0] < b[0] {
        true
    } else if a[0] == b[0] {
        lex_lt(a.drop_first(), b.drop_first())
    } else {
        false
    }
}

/// Each name is strictly smaller than every later one: the list is sorted and
/// holds no name twice.
pub open spec fn strictly_sorted(s: Seq<Seq<char>>) -> bool {
    forall|i: int, j: int| 0 <= i < j < s.len() ==> lex_lt(#[trigger] s[i], #[trigger] s[j])
}

/// The sorted list of the names in a set, where such a list exists.
pub open spec fn sorted_list(names: Set<Seq<char>>) -> Seq<Seq<char>> {
    choose|l: Seq<Seq<char>>| strictly_sorted(l) && l.to_set() == names
}

pub proof fn lemma_lex_irreflexive(a: Seq<char>)
    ensures
        !lex_lt(a, a),
    decreases a.len(),
{
    if a.len() > 0 {
        lemma_lex_irreflexive(a.drop_first());
    }
}

pub proof fn lemma_lex_asymmetric(a: Seq<char>, b: Seq<char>)
    ensures
        !(lex_lt(a, b) && lex_lt(b, a)),
    decreases a.len(),
{
    if a.len() > 0 && b.len() > 0 && a[0] == b[0] {
        lemma_lex_asymmetric(a.drop_first(), b.drop_first());
    }
}

pub proof fn lemma_lex_transitive(a: Seq<char>, b: Seq<char>, c: Seq<char>)
    requires
        lex_lt(a, b),
        lex_lt(b, c),
    ensures
        lex_lt(a, c),
    decreases a.len(),
{
    if a.len() > 0 && b.len() > 0 && c.len() > 0 && a[0] == b[0] && b[0] == c[0] {
        lemma_lex_transitive(a.drop_first(), b.drop_first(), c.drop_first());
    }
}

pub proof fn lemma_lex_total(a: Seq<char>, b: Seq<char>)
    ensures
        lex_lt(a, b) || lex_lt(b, a) || a == b,
    decreases a.len(),
{
    if a.len() == 0 {
        if b.len() == 0 {
            assert(a =~= b);
        }
    } else if b.len() > 0 && a[0] == b[0] {
        lemma_lex_total(a.drop_first(), b.drop_first());
        if a.drop_first() == b.drop_first() {
            assert(a =~= seq![a[0]] + a.drop_first());
            assert(b =~= seq![b[0]] + b.drop_first());
        }
    } else if b.len() > 0 {
        let x = a[0];
        let y = b[0];
        assert(x != y);
    }
}

/// Two strictly sorted lists that hold the same names are the same list.
pub proof fn lemma_sorted_unique(l1: Seq<Seq<char>>, l2: Seq<Seq<char>>)
    requires
        strictly_sorted(l1),
        strictly_sorted(l2),
        l1.to_set() == l2.to_set(),
    ensures
        l1 == l2,
    decreases l1.len(),
{
    if l1.len() == 0 {
        if l2.len() > 0 {
            assert(l2.to_set().contains(l2[0]));
            assert(!l1.to_set().contains(l2[0]));
        }
        assert(l1 =~= l2);
    } else if l2.len() == 0 {
        assert(l1.to_set().contains(l1[0]));
        assert(!l2.to_set().contains(l1[0]));
    } else {
        // The first element of each list is the least name of the set.
        let a = l1[0];
        let b = l2[0];
        assert(l1.to_set().contains(a));
        assert(l2.to_set().contains(b));
        assert(l2.to_set().contains(a));
        assert(l1.to_set().contains(b));
        let ia = choose|i: int| 0 <= i < l2.len() && l2[i] == a;
        let ib = choose|i: int| 0 <= i < l1.len() && l1[i] == b;
        if a != b {
            assert(ia > 0 && ib > 0) by {
                if ia == 0 {
                    assert(l2[0] == a);
                }
                if ib == 0 {
                    assert(l1[0] == b);
                }
            }
            assert(lex_lt(b, a));
            assert(lex_lt(a, b));
            lemma_lex_asymmetric(a, b);
        }
        let t1 = l1.drop_first();
        let t2 = l2.drop_first();
        assert forall|x: Seq<char>| t1.to_set().contains(x) implies t2.to_set().contains(x) by {
            let k = choose|k: int| 0 <= k < t1.len() && t1[k] == x;
            assert(l1[k + 1] == x);
            assert(lex_lt(a, x));
            assert(l2.to_set().contains(x));
            let m = choose|m: int| 0 <= m < l2.len() && l2[m] == x;
            if m == 0 {
                lemma_lex_irreflexive(a);
            }
            assert(t2[m - 1] == x);
        }
        assert forall|x: Seq<char>| t2.to_set().contains(x) implies t1.to_set().contains(x) by {
            let k = choose|k: int| 0 <= k < t2.len() && t2[k] == x;
            assert(l2[k + 1] == x);
            assert(lex_lt(b, x));
            assert(l1.to_set().contains(x));
            let m = choose|m: int| 0 <= m < l1.len() && l1[m] == x;
            if m == 0 {
                lemma_lex_irreflexive(b);
            }
            assert(t1[m - 1] == x);
        }
        assert(t1.to_set() =~= t2.to_set());
        lemma_sorted_unique(t1, t2);
        assert(l1 =~= seq![a] + t1);
        assert(l2 =~= seq![b] + t2);
    }
}

/// A strictly sorted list is the sorted list of its own names.
pub proof fn lemma_sorted_list_of(l: Seq<Seq<char>>)
    requires
        strictly_sorted(l),
    ensures
        sorted_list(l.to_set()) == l,
{
    let c = sorted_list(l.to_set());
    assert(strictly_sorted(c) && c.to_set() == l.to_set());
    lemma_sorted_unique(c, l);
}

/// Whether two strings are the same sequence of characters.
pub fn same_text(a: &str, b: &str) -> (r: bool)
    ensures
        r == (a@ == b@),
{
    let n = a.unicode_len();
    let m = b.unicode_len();
    if n != m {
        return false;
    }
    let mut k: usize = 0;
    while k < n
        invariant
            n == a@.len(),
            m == b@.len(),
            n == m,
            k <= n,
            forall|i: int| 0 <= i < k ==> a@[i] == b@[i],
        decreases n - k,
    {
        if a.get_char(k) != b.get_char(k) {
            return false;
        }
        k = k + 1;
    }
    assert(a@ =~= b@);
    true
}

/// Whether `a` comes strictly before `b` in lexicographic order.
pub fn lex_less(a: &str, b: &str) -> (r: bool)
    ensures
        r == lex_lt(a@, b@),
{
    let n = a.unicode_len();
    let m = b.unicode_len();
    let mut k: usize = 0;
    assert(a@.skip(0) =~= a@);
    assert(b@.skip(0) =~= b@);
    while k < n && k < m
        invariant
            n == a@.len(),
            m == b@.len(),
            k <= n,
            k <= m,
            lex_lt(a@, b@) == lex_lt(a@.skip(k as int), b@.skip(k as int)),
        decreases n - k,
    {
        let ca = a.get_char(k);
        let cb = b.get_char(k);
        let ghost sa = a@.skip(k as int);
        let ghost sb = b@.skip(k as int);
        assert(sa[0] == ca && sb[0] == cb);
        if ca < cb {
            return true;
        }
        if ca != cb {
            return false;
        }
        assert(sa.drop_first() =~= a@.skip(k + 1));
        assert(sb.drop_first() =~= b@.skip(k + 1));
        k = k + 1;
    }
    k < m
}

/// A sorted collection of distinct names.
pub struct SortedNames {
    names: Vec<String>,
}

impl View for SortedNames {
    type V = Seq<Seq<char>>;

    closed spec fn view(&self) -> Seq<Seq<char>> {
        self.names.deep_view()
    }
}

impl SortedNames {
    /// The collection is strictly sorted: sorted, with no name twice.
    pub open spec fn wf(&self) -> bool {
        strictly_sorted(self@)
    }

    /// The names that the collection holds.
    pub open spec fn names(&self) -> Set<Seq<char>> {
        self@.to_set()
    }

    /// An empty collection.
    pub fn new() -> (r: SortedNames)
        ensures
            r.wf(),
            r@ == Seq::<Seq<char>>::empty(),
    {
        let r = SortedNames { names: Vec::new() };
        assert(r@ =~= Seq::<Seq<char>>::empty());
        r
    }

    /// The number of names held.
    pub fn len(&self) -> (n: usize)
        ensures
            n == self@.len(),
    {
        self.names.len()
    }

    /// The name at position `i` of the sorted order.
    pub fn get(&self, i: usize) -> (s: &String)
        requires
            i < self@.len(),
        ensures
            s@ == self@[i as int],
    {
        &self.names[i]
    }

    /// Adds `name` at its place in the order; a name already held is not added twice.
    pub fn insert(&mut self, name: &str)
        requires
            old(self).wf(),
        ensures
            final(self).wf(),
            final(self).names() == old(self).names().insert(name@),
    {
        let n = self.names.len();
        let mut p: usize = 0;
        while p < n && lex_less(self.names[p].as_str(), name)
            invariant
                n == self.names@.len(),
                n == self@.len(),
                p <= n,
                self@ == self.names.deep_view(),
                forall|k: int| 0 <= k < p ==> lex_lt(self@[k], name@),
            decreases n - p,
        {
            assert(self@[p as int] == self.names@[p as int]@);
            p = p + 1;
        }
        let ghost before = self@;
        if p < n {
            assert(self@[p as int] == self.names@[p as int]@);
            assert(!lex_lt(self@[p as int], name@));
            if same_text(self.names[p].as_str(), name) {
                assert(self.names() =~= self.names().insert(name@));
                return;
            }
            proof {
                lemma_lex_total(self@[p as int], name@);
            }
        }
        let owned = name.to_string();
        proof {
            vstd::string::to_string_from_display_ensures_for_str(name, owned);
        }
        self.names.insert(p, owned);
        let ghost after = self@;
        assert(after =~= before.insert(p as int, name@));
        assert forall|i: int, j: int| 0 <= i < j < after.len() implies lex_lt(
            #[trigger] after[i],
            #[trigger] after[j],
        ) by {
            if j < p {
                assert(after[i] == before[i] && after[j] == before[j]);
            } else if j == p {
                assert(after[i] == before[i]);
            } else if i == p {
                assert(after[j] == before[j - 1]);
                if j - 1 > p {
                    assert(lex_lt(before[p as int], before[j - 1]));
                    lemma_lex_transitive(name@, before[p as int], before[j - 1]);
                }
            } else if i < p {
                assert(after[i] == before[i] && after[j] == before[j - 1]);
            } else {
                assert(after[i] == before[i - 1] && after[j] == before[j - 1]);
            }
        }
        assert(self.names() =~= before.to_set().insert(name@)) by {
            assert forall|x: Seq<char>| self.names().contains(x) implies before.to_set().insert(
                name@,
            ).contains(x) by {
                let k = choose|k: int| 0 <= k < after.len() && after[k] == x;
                if k < p {
                    assert(before[k] == x);
                } else if k > p {
                    assert(before[k - 1] == x);
                }
            }
            assert forall|x: Seq<char>| before.to_set().insert(name@).contains(x) implies self.names().contains(x) by {
                if x == name@ {
                    assert(after[p as int] == x);
                } else {
                    let k = choose|k: int| 0 <= k < before.len() && before[k] == x;
                    if k < p {
                        assert(after[k] == x);
                    } else {
                        assert(after[k + 1] == x);
                    }
                }
            }
        }
    }
}

} // verus!
