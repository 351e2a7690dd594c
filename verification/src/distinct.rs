//! Removing repeated values from a sequence while keeping the order in which
//! the values first occur.

use vstd::prelude::*;

verus! {

/// The values of `s` in the order of their first occurrence, each once.
pub open spec fn first_occurrences<T>(s: Seq<T>) -> Seq<T>
    decreases s.len(),
{
    if s.len() == 0 {
        Seq::empty()
    } else {
        let before = first_occurrences(s.drop_last());
        if before.contains(s.last()) {
            before
        } else {
            before.push(s.last())
        }
    }
}

/// `first_occurrences(s)` holds no value twice, holds exactly the values of
/// `s`, is no longer than `s`, and is empty only if `s` is.
pub proof fn lemma_first_occurrences<T>(s: Seq<T>)
    ensures
        first_occurrences(s).no_duplicates(),
        forall|x: T|
            #![trigger first_occurrences(s).contains(x)]
            #![trigger s.contains(x)]
            first_occurrences(s).contains(x) <==> s.contains(x),
        first_occurrences(s).len() <= s.len(),
        s.len() > 0 ==> first_occurrences(s).len() > 0,
    decreases s.len(),
{
    if s.len() > 0 {
        let front = s.drop_last();
        let before = first_occurrences(front);
        let out = first_occurrences(s);
        lemma_first_occurrences(front);
        assert(out == if before.contains(s.last()) {
            before
        } else {
            before.push(s.last())
        });
        assert forall|x: T| s.contains(x) implies out.contains(x) by {
            let i = choose|i: int| 0 <= i < s.len() && s[i] == x;
            if i < s.len() - 1 {
                assert(front[i] == x);
                assert(front.contains(x));
                assert(before.contains(x));
                let k = choose|k: int| 0 <= k < before.len() && before[k] == x;
                assert(out[k] == x);
            } else if !before.contains(x) {
                assert(out[before.len() as int] == x);
            }
        }
        assert forall|x: T| out.contains(x) implies s.contains(x) by {
            let k = choose|k: int| 0 <= k < out.len() && out[k] == x;
            if k < before.len() {
                assert(before[k] == x);
                assert(before.contains(x));
                assert(front.contains(x));
                let i = choose|i: int| 0 <= i < front.len() && front[i] == x;
                assert(s[i] == x);
            } else {
                assert(s[s.len() - 1] == x);
            }
        }
    }
}

} // verus!
