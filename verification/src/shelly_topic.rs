//! The parts of the topic a device publishes on: the device's identifier,
//! found from the first dash of the topic, and the kind of message.
use vstd::prelude::*;

verus! {

/// The characters of `s` from position `start` up to `end` (not included),
/// cut at the end of `s`; none when `end` does not come after `start`.
pub open spec fn char_range(s: Seq<char>, start: int, end: int) -> Seq<char> {
    if end <= start {
        Seq::empty()
    } else {
        let a = if start < s.len() { start } else { s.len() as int };
        let b = if end < s.len() { end } else { s.len() as int };
        s.subrange(a, b)
    }
}

/// Whether `i` is the position of the first dash of `s`.
pub open spec fn is_first_dash(s: Seq<char>, i: int) -> bool {
    &&& 0 <= i < s.len()
    &&& s[i] == '-'
    &&& forall|j: int| 0 <= j < i ==> s[j] != '-'
}

/// See `char_range`.
pub fn chars_between(s: &Vec<char>, start: usize, end: usize) -> (r: Vec<char>)
    ensures
        r@ == char_range(s@, start as int, end as int),
{
    let mut r: Vec<char> = Vec::new();
    if end <= start {
        return r;
    }
    let a = if start < s.len() { start } else { s.len() };
    let b = if end < s.len() { end } else { s.len() };
    let mut i: usize = a;
    while i < b
        invariant
            a <= b <= s@.len(),
            a <= i <= b,
            r@ == s@.subrange(a as int, i as int),
        decreases b - i,
    {
        r.push(s[i]);
        assert(r@ =~= s@.subrange(a as int, i + 1));
        i = i + 1;
    }
    r
}

/// The identifier of the device and the kind of message in `topic`: the
/// characters from its first dash up to position 12, and those from 13 past
/// the dash up to position 6.  None when the topic has no dash.
pub fn shelly_topic_parts(topic: &Vec<char>) -> (r: Option<(Vec<char>, Vec<char>)>)
    ensures
        r is None <==> !topic@.contains('-'),
        r matches Some((id, kind)) ==> exists|d: int| {
            &&& is_first_dash(topic@, d)
            &&& id@ == char_range(topic@, d, 12)
            &&& kind@ == char_range(topic@, d + 13, 6)
        },
{
    let mut d: usize = 0;
    while d < topic.len() && topic[d] != '-'
        invariant
            d <= topic@.len(),
            forall|j: int| 0 <= j < d ==> topic@[j] != '-',
        decreases topic.len() - d,
    {
        d = d + 1;
    }
    if d == topic.len() {
        assert(!topic@.contains('-')) by {
            if topic@.contains('-') {
                let k = choose|k: int| 0 <= k < topic@.len() && topic@[k] == '-';
                assert(topic@[k] != '-');
            }
        }
        return None;
    }
    assert(topic@[d as int] == '-');
    let id = chars_between(topic, d, 12);
    let kind = if d < usize::MAX - 13 { chars_between(topic, d + 13, 6) } else { Vec::new() };
    assert(kind@ == char_range(topic@, d + 13, 6));
    assert(is_first_dash(topic@, d as int));
    Some((id, kind))
}

} // verus!
