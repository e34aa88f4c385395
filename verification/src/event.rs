use vstd::prelude::*;

verus! {

/// One signal pushed from a producer to an observer: an item, successful
/// completion, or a terminal failure carrying an error payload.
#[derive(Clone, Copy)]
pub enum Event<T, E> {
    Next(T),
    Complete,
    Error(E),
}

/// A terminal signal ends the stream for the observer that receives it.
pub open spec fn is_terminal<T, E>(e: Event<T, E>) -> bool {
    match e {
        Event::Next(_) => false,
        Event::Complete => true,
        Event::Error(_) => true,
    }
}

/// A sequence of events is a lawful delivery when only its last element may be
/// terminal: at most one terminal signal, completion and error mutually
/// exclusive, and no item after either.
pub open spec fn valid_delivery<T, E>(s: Seq<Event<T, E>>) -> bool {
    forall|i: int| 0 <= i < s.len() - 1 ==> !is_terminal(s[i])
}

/// Whether some event in `s` is terminal.
pub open spec fn has_terminal<T, E>(s: Seq<Event<T, E>>) -> bool {
    exists|i: int| 0 <= i < s.len() && is_terminal(s[i])
}

/// What a conforming implementation hands to one observer out of the issued
/// sequence `s`: the prefix of `s` up to and including the first terminal
/// signal, with everything a producer issues after that suppressed.
pub open spec fn delivered_of<T, E>(s: Seq<Event<T, E>>) -> Seq<Event<T, E>>
    decreases s.len(),
{
    if s.len() == 0 {
        Seq::empty()
    } else if is_terminal(s[0]) {
        seq![s[0]]
    } else {
        seq![s[0]] + delivered_of(s.skip(1))
    }
}

/// Every delivery is lawful and order-preserving: what an observer receives is
/// a prefix of the sequence the producer issued, it is a valid delivery (no
/// event follows a terminal signal), and when the producer issued no terminal
/// signal the observer receives the issued sequence whole.
pub proof fn lemma_delivered_prefix<T, E>(s: Seq<Event<T, E>>)
    ensures
        delivered_of(s).len() <= s.len(),
        forall|i: int| 0 <= i < delivered_of(s).len() ==> delivered_of(s)[i] == s[i],
        valid_delivery(delivered_of(s)),
        !has_terminal(s) ==> delivered_of(s) == s,
    decreases s.len(),
{
    if s.len() == 0 {
    } else if is_terminal(s[0]) {
        assert(has_terminal(s)) by {
            assert(0 <= 0 < s.len() && is_terminal(s[0]));
        };
    } else {
        lemma_delivered_prefix(s.skip(1));
        let d = delivered_of(s);
        assert forall|i: int| 0 <= i < d.len() implies d[i] == s[i] by {
            if i >= 1 {
                assert(d[i] == delivered_of(s.skip(1))[i - 1]);
                assert(delivered_of(s.skip(1))[i - 1] == s.skip(1)[i - 1]);
            }
        };
        assert forall|i: int| 0 <= i < d.len() - 1 implies !is_terminal(d[i]) by {
            if i >= 1 {
                assert(delivered_of(s.skip(1))[i - 1] == d[i]);
            }
        };
        if !has_terminal(s) {
            assert(!has_terminal(s.skip(1))) by {
                if has_terminal(s.skip(1)) {
                    let j = choose|j: int|
                        0 <= j < s.skip(1).len() && is_terminal(s.skip(1)[j]);
                    assert(s.skip(1)[j] == s[j + 1]);
                    assert(0 <= j + 1 < s.len() && is_terminal(s[j + 1]));
                }
            };
            assert(delivered_of(s.skip(1)) == s.skip(1));
            assert(d =~= s);
        }
    }
}

/// Cutting the issued sequence at its first terminal signal: if nothing in the
/// first `i` events is terminal and the event at `i` is, the whole delivery is
/// the prefix of length `i + 1`.
pub proof fn lemma_delivered_cut<T, E>(s: Seq<Event<T, E>>, i: int)
    requires
        0 <= i < s.len(),
        !has_terminal(s.take(i)),
        is_terminal(s[i]),
    ensures
        delivered_of(s) == s.take(i + 1),
    decreases i,
{
    if i == 0 {
        assert(delivered_of(s) =~= s.take(1));
    } else {
        assert(!is_terminal(s[0])) by {
            if is_terminal(s[0]) {
                assert(s.take(i)[0] == s[0]);
                assert(0 <= 0 < s.take(i).len() && is_terminal(s.take(i)[0]));
            }
        };
        let t = s.skip(1);
        assert(!has_terminal(t.take(i - 1))) by {
            if has_terminal(t.take(i - 1)) {
                let j = choose|j: int|
                    0 <= j < t.take(i - 1).len() && #[trigger] is_terminal(t.take(i - 1)[j]);
                assert(t.take(i - 1)[j] == s[j + 1]);
                assert(s.take(i)[j + 1] == s[j + 1]);
                assert(0 <= j + 1 < s.take(i).len() && is_terminal(s.take(i)[j + 1]));
            }
        };
        assert(t[i - 1] == s[i]);
        lemma_delivered_cut(t, i - 1);
        assert(delivered_of(s) == seq![s[0]] + t.take(i));
        assert(seq![s[0]] + t.take(i) =~= s.take(i + 1));
    }
}

} // verus!
