//! A bounded cache of the identifiers of the messages received, used to
//! drop messages that arrive twice.  When full, the oldest identifier is
//! forgotten to make room for a new one.
use vstd::prelude::*;
use rustc_hash::{FxBuildHasher, FxHashSet};

verus! {

#[verifier::external_type_specification]
#[verifier::external_body]
pub struct ExFxBuildHasher(FxBuildHasher);

/// The strings a hash set holds.
pub uninterp spec fn fx_set_contents(s: FxHashSet<String>) -> Set<Seq<char>>;

/// `FxHashSet::default`: an empty set.
#[verifier::external_body]
fn fx_set_new() -> (s: FxHashSet<String>)
    ensures
        fx_set_contents(s) == Set::<Seq<char>>::empty(),
{
    FxHashSet::default()
}

/// `HashSet::contains` on an `FxHashSet<String>`: whether the set holds a
/// string equal to `e`.
#[verifier::external_body]
fn fx_set_contains(s: &FxHashSet<String>, e: &str) -> (r: bool)
    ensures
        r == fx_set_contents(*s).contains(e@),
{
    s.contains(e)
}

/// `HashSet::insert` on an `FxHashSet<String>`: the set then holds `e`.
#[verifier::external_body]
fn fx_set_insert(s: &mut FxHashSet<String>, e: String)
    ensures
        fx_set_contents(*final(s)) == fx_set_contents(*old(s)).insert(e@),
{
    s.insert(e);
}

/// `HashSet::remove` on an `FxHashSet<String>`: the set then no longer holds
/// a string equal to `e`.
#[verifier::external_body]
fn fx_set_remove(s: &mut FxHashSet<String>, e: &str)
    ensures
        fx_set_contents(*final(s)) == fx_set_contents(*old(s)).remove(e@),
{
    s.remove(e);
}

/// Outcome of adding an identifier to the cache.
#[derive(Debug, Clone, Copy, PartialEq, Eq, Structural)]
pub enum CacheResult {
    Inserted,
    Duplicate,
}

/// The cache: the identifiers as a set (for lookup) and in arrival order
/// (for eviction), holding at most `capacity` of them.
pub struct CacheFx {
    pub set: FxHashSet<String>,
    pub order: Vec<String>,
    pub capacity: u8,
}

/// The identifiers a cache holds after `e` was pushed into one holding `v`
/// with room for `cap`.
pub open spec fn cache_after_push(v: Seq<Seq<char>>, cap: nat, e: Seq<char>) -> Seq<Seq<char>> {
    if v.contains(e) {
        v
    } else if v.len() < cap {
        v.push(e)
    } else {
        v.drop_first().push(e)
    }
}

/// The cache after pushing each of `others` in turn.
pub open spec fn push_all(v: Seq<Seq<char>>, cap: nat, others: Seq<Seq<char>>) -> Seq<Seq<char>>
    decreases others.len(),
{
    if others.len() == 0 {
        v
    } else {
        push_all(cache_after_push(v, cap, others[0]), cap, others.drop_first())
    }
}

/// The strings of a vector, as character sequences.
pub open spec fn strings_view(v: Seq<String>) -> Seq<Seq<char>> {
    v.map_values(|s: String| s@)
}

impl View for CacheFx {
    type V = Seq<Seq<char>>;

    /// The identifiers held, oldest first.
    open spec fn view(&self) -> Seq<Seq<char>> {
        strings_view(self.order@)
    }
}

impl CacheFx {
    /// The set and the order hold the same identifiers, each once.
    pub open spec fn consistent(&self) -> bool {
        &&& fx_set_contents(self.set) == self@.to_set()
        &&& self@.no_duplicates()
    }

    /// Consistent, and holding no more than the capacity.
    pub open spec fn wf(&self) -> bool {
        &&& self.consistent()
        &&& self@.len() <= self.capacity
    }

    /// An empty cache for `capacity` identifiers.
    pub fn with_capacity(capacity: u8) -> (c: CacheFx)
        ensures
            c.wf(),
            c@ == Seq::<Seq<char>>::empty(),
            c.capacity == capacity,
    {
        let c = CacheFx { set: fx_set_new(), order: Vec::new(), capacity };
        assert(c@ =~= Seq::<Seq<char>>::empty());
        assert(c@.to_set() =~= Set::<Seq<char>>::empty());
        c
    }

    /// Whether the cache holds `elem`.
    pub fn contains(&self, elem: &str) -> (r: bool)
        requires
            self.consistent(),
        ensures
            r == self@.contains(elem@),
    {
        fx_set_contains(&self.set, elem)
    }

    pub fn is_empty(&self) -> (r: bool)
        ensures
            r == (self@.len() == 0),
    {
        self.order.len() == 0
    }

    pub fn len(&self) -> (n: usize)
        ensures
            n == self@.len(),
    {
        self.order.len()
    }

    /// Appends `elem`, which the cache does not hold.
    fn insert(&mut self, elem: &str)
        requires
            old(self).wf(),
            !old(self)@.contains(elem@),
            old(self)@.len() < old(self).capacity,
        ensures
            final(self).wf(),
            final(self)@ == old(self)@.push(elem@),
            final(self).capacity == old(self).capacity,
    {
        let ghost old_view = self@;
        fx_set_insert(&mut self.set, elem.to_owned());
        self.order.push(elem.to_owned());
        assert(self@ =~= old_view.push(elem@));
        proof {
            lemma_push_to_set(old_view, elem@);
        }
    }

    /// Forgets the oldest identifier, if any.
    pub fn pop_oldest(&mut self)
        requires
            old(self).consistent(),
        ensures
            final(self).consistent(),
            old(self).wf() ==> final(self).wf(),
            final(self)@ == (if old(self)@.len() == 0 { old(self)@ } else { old(self)@.drop_first() }),
            final(self).capacity == old(self).capacity,
    {
        if self.order.len() > 0 {
            let ghost old_view = self@;
            fx_set_remove(&mut self.set, self.order[0].as_str());
            self.order.remove(0);
            assert(self@ =~= old_view.drop_first());
            proof {
                lemma_drop_first_to_set(old_view);
            }
        }
    }

    /// Adds `elem`: a duplicate is reported and changes nothing; otherwise
    /// `elem` is appended, first forgetting the oldest identifier when the
    /// cache is full.
    pub fn push(&mut self, elem: &str) -> (r: CacheResult)
        requires
            old(self).wf(),
            old(self).capacity > 0,
        ensures
            final(self).wf(),
            final(self).capacity == old(self).capacity,
            (r == CacheResult::Duplicate) == old(self)@.contains(elem@),
            final(self)@ == cache_after_push(old(self)@, old(self).capacity as nat, elem@),
    {
        if !fx_set_contains(&self.set, elem) {
            if self.order.len() < self.capacity as usize {
                self.insert(elem);
                CacheResult::Inserted
            } else {
                self.pop_oldest();
                assert(!self@.contains(elem@)) by {
                    if self@.contains(elem@) {
                        let i = choose|i: int| 0 <= i < self@.len() && self@[i] == elem@;
                        assert(old(self)@[i + 1] == elem@);
                    }
                }
                self.insert(elem);
                CacheResult::Inserted
            }
        } else {
            CacheResult::Duplicate
        }
    }
}

proof fn lemma_push_to_set(s: Seq<Seq<char>>, x: Seq<char>)
    requires
        s.no_duplicates(),
        !s.contains(x),
    ensures
        s.push(x).to_set() == s.to_set().insert(x),
        s.push(x).no_duplicates(),
{
    assert forall|y: Seq<char>| s.push(x).contains(y) <==> s.to_set().insert(x).contains(y) by {
        if s.contains(y) {
            let i = choose|i: int| 0 <= i < s.len() && s[i] == y;
            assert(s.push(x)[i] == y);
        }
        if s.push(x).contains(y) && y != x {
            let i = choose|i: int| 0 <= i < s.push(x).len() && s.push(x)[i] == y;
            assert(s[i] == y);
        }
        if y == x {
            assert(s.push(x)[s.len() as int] == x);
        }
    }
    assert(s.push(x).to_set() =~= s.to_set().insert(x));
}

proof fn lemma_drop_first_to_set(s: Seq<Seq<char>>)
    requires
        s.no_duplicates(),
        s.len() > 0,
    ensures
        s.drop_first().to_set() == s.to_set().remove(s[0]),
        s.drop_first().no_duplicates(),
{
    assert forall|y: Seq<char>| s.drop_first().contains(y) <==> s.to_set().remove(s[0]).contains(y) by {
        if s.drop_first().contains(y) {
            let i = choose|i: int| 0 <= i < s.drop_first().len() && s.drop_first()[i] == y;
            assert(s[i + 1] == y);
        }
        if s.contains(y) && y != s[0] {
            let i = choose|i: int| 0 <= i < s.len() && s[i] == y;
            assert(i != 0);
            assert(s.drop_first()[i - 1] == y);
        }
    }
    assert(s.drop_first().to_set() =~= s.to_set().remove(s[0]));
}

/// After a push the cache holds the identifier pushed.
pub proof fn law_push_then_contains(v: Seq<Seq<char>>, cap: nat, e: Seq<char>)
    requires
        cap > 0,
    ensures
        cache_after_push(v, cap, e).contains(e),
{
    if !v.contains(e) {
        let w = cache_after_push(v, cap, e);
        assert(w[w.len() - 1] == e);
    }
}

/// A cache never holds more identifiers than its capacity, nor one twice.
pub proof fn law_push_keeps_bounds(v: Seq<Seq<char>>, cap: nat, e: Seq<char>)
    requires
        cap > 0,
        v.len() <= cap,
        v.no_duplicates(),
    ensures
        cache_after_push(v, cap, e).len() <= cap,
        cache_after_push(v, cap, e).no_duplicates(),
{
    if !v.contains(e) {
        if v.len() < cap {
            lemma_push_to_set(v, e);
        } else {
            lemma_drop_first_to_set(v);
            assert(!v.drop_first().contains(e)) by {
                if v.drop_first().contains(e) {
                    let i = choose|i: int| 0 <= i < v.drop_first().len() && v.drop_first()[i] == e;
                    assert(v[i + 1] == e);
                }
            }
            lemma_push_to_set(v.drop_first(), e);
        }
    }
}

/// Pushing the same identifier twice is the same as pushing it once: the
/// second push is a duplicate.
pub proof fn law_push_twice_is_push_once(v: Seq<Seq<char>>, cap: nat, e: Seq<char>)
    requires
        cap > 0,
    ensures
        cache_after_push(cache_after_push(v, cap, e), cap, e) == cache_after_push(v, cap, e),
{
    law_push_then_contains(v, cap, e);
}

/// When the cache is full, a new identifier evicts the oldest one and only
/// that one; the others keep their order.
pub proof fn law_full_cache_evicts_oldest(v: Seq<Seq<char>>, cap: nat, e: Seq<char>)
    requires
        cap > 0,
        v.len() == cap,
        v.no_duplicates(),
        !v.contains(e),
    ensures
        !cache_after_push(v, cap, e).contains(v[0]),
        cache_after_push(v, cap, e).len() == cap,
        forall|i: int| 1 <= i < v.len() ==> cache_after_push(v, cap, e)[i - 1] == v[i],
{
    lemma_drop_first_to_set(v);
    assert(v.contains(v[0]));
    let w = cache_after_push(v, cap, e);
    if w.contains(v[0]) {
        let i = choose|i: int| 0 <= i < w.len() && w[i] == v[0];
        if i < w.len() - 1 {
            assert(v[i + 1] == v[0]);
        }
    }
}

proof fn lemma_to_set_cons(others: Seq<Seq<char>>)
    requires
        others.len() > 0,
    ensures
        others.to_set() == others.drop_first().to_set().insert(others[0]),
{
    let rest = others.drop_first();
    assert forall|x: Seq<char>| others.to_set().contains(x) <==> rest.to_set().insert(others[0]).contains(x) by {
        if others.contains(x) && x != others[0] {
            let i = choose|i: int| 0 <= i < others.len() && others[i] == x;
            assert(rest[i - 1] == x);
        }
        if rest.contains(x) {
            let i = choose|i: int| 0 <= i < rest.len() && rest[i] == x;
            assert(others[i + 1] == x);
        }
        if x == others[0] {
            assert(others[0] == x);
        }
    }
    assert(others.to_set() =~= rest.to_set().insert(others[0]));
}

/// An identifier at position `p` of a cache stays in it while the
/// identifiers behind it, with those still to come, are fewer than the
/// capacity: `seen` holds every identifier behind it.
proof fn lemma_stays_in_cache(w: Seq<Seq<char>>, cap: nat, others: Seq<Seq<char>>, p: int, seen: Set<Seq<char>>)
    requires
        cap > 0,
        w.len() <= cap,
        w.no_duplicates(),
        0 <= p < w.len(),
        seen.finite(),
        forall|i: int| p < i < w.len() ==> seen.contains(#[trigger] w[i]),
        seen.union(others.to_set()).len() < cap,
    ensures
        push_all(w, cap, others).contains(w[p]),
    decreases others.len(),
{
    broadcast use vstd::seq_lib::seq_to_set_is_finite;
    broadcast use vstd::set::group_set_axioms;
    let u = w[p];
    if others.len() == 0 {
        assert(w[p] == u);
    } else {
        let e = others[0];
        let rest = others.drop_first();
        let w2 = cache_after_push(w, cap, e);
        let seen2 = seen.insert(e);
        law_push_keeps_bounds(w, cap, e);
        lemma_to_set_cons(others);
        assert(seen2.union(rest.to_set()) =~= seen.union(others.to_set()));
        if w.contains(e) {
            lemma_stays_in_cache(w2, cap, rest, p, seen2);
        } else if w.len() < cap {
            assert forall|i: int| p < i < w2.len() implies seen2.contains(#[trigger] w2[i]) by {
                if i < w.len() {
                    assert(w2[i] == w[i]);
                }
            }
            assert(w2[p] == u);
            lemma_stays_in_cache(w2, cap, rest, p, seen2);
        } else {
            let behind = w.subrange(p + 1, w.len() as int);
            assert(behind.no_duplicates()) by {
                assert forall|i: int, j: int| 0 <= i < behind.len() && 0 <= j < behind.len() && i != j
                    implies behind[i] != behind[j] by {
                    assert(behind[i] == w[i + p + 1] && behind[j] == w[j + p + 1]);
                }
            }
            behind.unique_seq_to_set();
            assert(!behind.to_set().contains(e)) by {
                if behind.contains(e) {
                    let i = choose|i: int| 0 <= i < behind.len() && behind[i] == e;
                    assert(w[i + p + 1] == e);
                }
            }
            assert(behind.to_set().insert(e).subset_of(seen.union(others.to_set()))) by {
                assert forall|x: Seq<char>| behind.to_set().insert(e).contains(x) implies seen.union(
                    others.to_set()).contains(x) by {
                    if x != e {
                        let i = choose|i: int| 0 <= i < behind.len() && behind[i] == x;
                        assert(w[i + p + 1] == x);
                    } else {
                        assert(others[0] == e);
                    }
                }
            }
            vstd::set_lib::lemma_len_subset(behind.to_set().insert(e), seen.union(others.to_set()));
            assert(p >= 1);
            assert forall|i: int| p - 1 < i < w2.len() implies seen2.contains(#[trigger] w2[i]) by {
                if i < w2.len() - 1 {
                    assert(w2[i] == w[i + 1]);
                }
            }
            assert(w2[p - 1] == u);
            lemma_stays_in_cache(w2, cap, rest, p - 1, seen2);
        }
    }
}

/// An identifier pushed into a cache that did not hold it stays there while
/// fewer distinct identifiers than the capacity follow it, however often
/// each comes.
pub proof fn law_stays_while_distinct_others_fit(v: Seq<Seq<char>>, cap: nat, u: Seq<char>, others: Seq<Seq<char>>)
    requires
        cap > 0,
        v.len() <= cap,
        v.no_duplicates(),
        !v.contains(u),
        others.to_set().len() < cap,
    ensures
        push_all(cache_after_push(v, cap, u), cap, others).contains(u),
{
    broadcast use vstd::set::group_set_axioms;
    let w = cache_after_push(v, cap, u);
    law_push_keeps_bounds(v, cap, u);
    assert(w[w.len() - 1] == u);
    assert(Set::<Seq<char>>::empty().union(others.to_set()) =~= others.to_set());
    lemma_stays_in_cache(w, cap, others, w.len() - 1, Set::empty());
}

} // verus!
