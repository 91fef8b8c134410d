//! The subscription table of the message broker: for each message type, the
//! subscribers that receive it, in the order they subscribed.  Only a
//! subscriber registered in the broker (with a queue to receive on) can
//! subscribe or unsubscribe; the queues themselves are the caller's part.
use vstd::prelude::*;
use arrayvec::ArrayVec;
use crate::subscriber::{Subscriber, MAX_SUBSCRIBERS};

verus! {

/// The subscribers of one message type.
pub type SubscribedList = ArrayVec<Subscriber, MAX_SUBSCRIBERS>;

/// What a subscribers list holds, in order.
pub uninterp spec fn subscribed_items(l: SubscribedList) -> Seq<Subscriber>;

/// `ArrayVec::new`: an empty list.
#[verifier::external_body]
fn subscribed_new() -> (l: SubscribedList)
    ensures
        subscribed_items(l) == Seq::<Subscriber>::empty(),
{
    ArrayVec::new()
}

/// `ArrayVec::as_slice`: the subscribers in order.
#[verifier::external_body]
fn subscribed_as_slice(l: &SubscribedList) -> (s: &[Subscriber])
    ensures
        s@ == subscribed_items(*l),
        s@.len() <= MAX_SUBSCRIBERS,
{
    l.as_slice()
}

/// `ArrayVec::push`: appends `s`; it panics when the list is full.
#[verifier::external_body]
fn subscribed_push(l: &mut SubscribedList, s: Subscriber)
    requires
        subscribed_items(*old(l)).len() < MAX_SUBSCRIBERS,
    ensures
        subscribed_items(*final(l)) == subscribed_items(*old(l)).push(s),
{
    l.push(s)
}

/// `ArrayVec::remove`: takes out the subscriber at `i`; it panics when `i` is
/// out of bounds.
#[verifier::external_body]
fn subscribed_remove(l: &mut SubscribedList, i: usize) -> (s: Subscriber)
    requires
        i < subscribed_items(*old(l)).len(),
    ensures
        s == subscribed_items(*old(l))[i as int],
        subscribed_items(*final(l)) == subscribed_items(*old(l)).remove(i as int),
{
    l.remove(i)
}

/// The position of the first `s` in `l`, or -1.
pub open spec fn first_pos(l: Seq<Subscriber>, s: Subscriber) -> int
    decreases l.len(),
{
    if l.len() == 0 {
        -1
    } else if l[0] == s {
        0
    } else {
        let p = first_pos(l.drop_first(), s);
        if p < 0 { -1 } else { p + 1 }
    }
}

/// `l` without its first `s`; `l` itself when it holds none.
pub open spec fn without_first(l: Seq<Subscriber>, s: Subscriber) -> Seq<Subscriber> {
    if first_pos(l, s) < 0 { l } else { l.remove(first_pos(l, s)) }
}

proof fn lemma_first_pos(l: Seq<Subscriber>, s: Subscriber)
    ensures
        -1 <= first_pos(l, s) < l.len(),
        first_pos(l, s) >= 0 ==> l[first_pos(l, s)] == s,
        first_pos(l, s) >= 0 ==> forall|j: int| 0 <= j < first_pos(l, s) ==> l[j] != s,
        first_pos(l, s) < 0 <==> !l.contains(s),
    decreases l.len(),
{
    if l.len() > 0 {
        lemma_first_pos(l.drop_first(), s);
        if l[0] != s {
            if first_pos(l.drop_first(), s) >= 0 {
                let p = first_pos(l.drop_first(), s);
                assert forall|j: int| 0 <= j < p + 1 implies l[j] != s by {
                    if j > 0 {
                        assert(l[j] == l.drop_first()[j - 1]);
                    }
                }
                assert(l[p + 1] == l.drop_first()[p]);
            } else {
                assert forall|j: int| 0 <= j < l.len() implies l[j] != s by {
                    if j > 0 {
                        assert(l[j] == l.drop_first()[j - 1]);
                    }
                }
            }
        }
    }
}

/// The subscription table.
pub struct SubscriptionTable {
    pub lists: Vec<SubscribedList>,
}

impl View for SubscriptionTable {
    type V = Seq<Seq<Subscriber>>;

    /// For each message type, its subscribers in order.
    open spec fn view(&self) -> Seq<Seq<Subscriber>> {
        self.lists@.map_values(|l: SubscribedList| subscribed_items(l))
    }
}

impl SubscriptionTable {
    /// A table for `count_types` message types, with no subscriber.
    pub fn new(count_types: usize) -> (t: SubscriptionTable)
        ensures
            t@.len() == count_types,
            forall|i: int| 0 <= i < count_types ==> #[trigger] t@[i] == Seq::<Subscriber>::empty(),
    {
        let mut lists: Vec<SubscribedList> = Vec::new();
        let mut i: usize = 0;
        while i < count_types
            invariant
                i <= count_types,
                lists@.len() == i,
                forall|j: int| 0 <= j < i ==> #[trigger] subscribed_items(lists@[j]) == Seq::<Subscriber>::empty(),
            decreases count_types - i,
        {
            lists.push(subscribed_new());
            i = i + 1;
        }
        SubscriptionTable { lists }
    }

    /// Whether `msg_type` has a subscriber: a message of a type with none is
    /// not sent at all.
    pub fn has_subscribers(&self, msg_type: usize) -> (r: bool)
        requires
            msg_type < self@.len(),
        ensures
            r == (self@[msg_type as int].len() > 0),
    {
        subscribed_as_slice(&self.lists[msg_type]).len() > 0
    }

    /// The subscribers a message of `msg_type` is delivered to, in order.
    pub fn recipients(&self, msg_type: usize) -> (r: Vec<Subscriber>)
        requires
            msg_type < self@.len(),
        ensures
            r@ == self@[msg_type as int],
    {
        let s = subscribed_as_slice(&self.lists[msg_type]);
        let mut r: Vec<Subscriber> = Vec::new();
        let mut i: usize = 0;
        while i < s.len()
            invariant
                i <= s@.len(),
                r@ == s@.subrange(0, i as int),
            decreases s.len() - i,
        {
            r.push(s[i]);
            i = i + 1;
            assert(r@ =~= s@.subrange(0, i as int));
        }
        assert(r@ =~= s@);
        r
    }

    /// Subscribes `s` to `msg_type`, when `s` is registered (`registered`):
    /// it is appended to the subscribers of that type, and `true` returned.
    /// An unregistered subscriber changes nothing and gets `false`.
    pub fn subscribe(&mut self, msg_type: usize, s: Subscriber, registered: bool) -> (r: bool)
        requires
            msg_type < old(self)@.len(),
            registered ==> old(self)@[msg_type as int].len() < MAX_SUBSCRIBERS,
        ensures
            r == registered,
            registered ==> final(self)@ == old(self)@.update(msg_type as int, old(self)@[msg_type as int].push(s)),
            !registered ==> final(self)@ == old(self)@,
    {
        if registered {
            let mut l = self.lists.remove(msg_type);
            subscribed_push(&mut l, s);
            self.lists.insert(msg_type, l);
            proof {
                assert(self@ =~= old(self)@.update(msg_type as int, old(self)@[msg_type as int].push(s)));
            }
            true
        } else {
            false
        }
    }

    /// Removes the first `s` among the subscribers of `msg_type`, if `s` is
    /// registered; tells whether one was removed.
    pub fn unsubscribe(&mut self, msg_type: usize, s: Subscriber, registered: bool) -> (r: bool)
        requires
            msg_type < old(self)@.len(),
        ensures
            r == (registered && old(self)@[msg_type as int].contains(s)),
            registered ==> final(self)@ == old(self)@.update(msg_type as int, without_first(old(self)@[msg_type as int], s)),
            !registered ==> final(self)@ == old(self)@,
    {
        if registered {
            self.remove_first(msg_type, s)
        } else {
            false
        }
    }

    fn remove_first(&mut self, msg_type: usize, s: Subscriber) -> (r: bool)
        requires
            msg_type < old(self)@.len(),
        ensures
            r == old(self)@[msg_type as int].contains(s),
            final(self)@ == old(self)@.update(msg_type as int, without_first(old(self)@[msg_type as int], s)),
    {
        let ghost l0 = self@[msg_type as int];
        proof {
            lemma_first_pos(l0, s);
        }
        let items = subscribed_as_slice(&self.lists[msg_type]);
        let mut i: usize = 0;
        let mut found: Option<usize> = None;
        while i < items.len()
            invariant
                i <= items@.len(),
                items@ == l0,
                -1 <= first_pos(l0, s) < l0.len(),
                first_pos(l0, s) >= 0 ==> l0[first_pos(l0, s)] == s,
                first_pos(l0, s) >= 0 ==> forall|j: int| 0 <= j < first_pos(l0, s) ==> l0[j] != s,
                first_pos(l0, s) < 0 <==> !l0.contains(s),
                found is None ==> forall|j: int| 0 <= j < i ==> l0[j] != s,
                found matches Some(p) ==> p == first_pos(l0, s),
            decreases items.len() - i,
        {
            if found.is_none() && items[i] == s {
                found = Some(i);
            }
            i = i + 1;
        }
        match found {
            Some(p) => {
                let mut l = self.lists.remove(msg_type);
                let _ = subscribed_remove(&mut l, p);
                self.lists.insert(msg_type, l);
                proof {
                    assert(self@ =~= old(self)@.update(msg_type as int, without_first(l0, s)));
                }
                true
            },
            None => {
                assert(!l0.contains(s));
                assert(self@ =~= old(self)@.update(msg_type as int, without_first(l0, s)));
                false
            },
        }
    }

    /// Removes the first `s` from the subscribers of every message type, if
    /// `s` is registered; tells whether one was removed anywhere.
    pub fn unsubscribe_all(&mut self, s: Subscriber, registered: bool) -> (r: bool)
        ensures
            final(self)@.len() == old(self)@.len(),
            r == (registered && exists|t: int| 0 <= t < old(self)@.len() && #[trigger] old(self)@[t].contains(s)),
            registered ==> forall|t: int| 0 <= t < old(self)@.len()
                ==> #[trigger] final(self)@[t] == without_first(old(self)@[t], s),
            !registered ==> final(self)@ == old(self)@,
    {
        if !registered {
            return false;
        }
        let mut result = false;
        let mut t: usize = 0;
        let n = self.lists.len();
        while t < n
            invariant
                t <= n,
                n == old(self)@.len(),
                self@.len() == n,
                forall|k: int| 0 <= k < t ==> #[trigger] self@[k] == without_first(old(self)@[k], s),
                forall|k: int| t <= k < n ==> #[trigger] self@[k] == old(self)@[k],
                result == exists|k: int| 0 <= k < t && #[trigger] old(self)@[k].contains(s),
            decreases n - t,
        {
            let removed = self.remove_first(t, s);
            proof {
                if removed {
                    assert(old(self)@[t as int].contains(s));
                }
                if !result && !removed {
                    assert forall|k: int| 0 <= k < t + 1 implies !(#[trigger] old(self)@[k].contains(s)) by {
                        if k < t {
                            assert(!(exists|k2: int| 0 <= k2 < t && #[trigger] old(self)@[k2].contains(s)));
                        }
                    }
                }
            }
            result = result || removed;
            t = t + 1;
        }
        result
    }
}

/// Subscribing a registered subscriber that did not receive a message type,
/// and then unsubscribing it, leaves that type's subscribers as they were.
pub proof fn law_subscribe_then_unsubscribe(l: Seq<Subscriber>, s: Subscriber)
    requires
        !l.contains(s),
    ensures
        without_first(l.push(s), s) == l,
{
    lemma_first_pos(l.push(s), s);
    lemma_first_pos(l, s);
    assert(l.push(s)[l.len() as int] == s);
    let p = first_pos(l.push(s), s);
    assert(p == l.len()) by {
        if p < l.len() {
            assert(l.push(s)[p] == l[p]);
        }
    }
    assert(l.push(s).remove(l.len() as int) =~= l);
}

} // verus!
