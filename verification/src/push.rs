//! The compute side of push delivery: which targets a queued notification
//! still needs to reach.

use vstd::prelude::*;

use crate::text::contains_id;

verus! {

/// The targets a notification is queued for: the queued identities without
/// those already online, each kept once, at its first occurrence.
pub open spec fn spec_offline_recipients(
    recipients: Seq<Seq<char>>,
    online: Seq<Seq<char>>,
) -> Seq<Seq<char>>
    decreases recipients.len(),
{
    if recipients.len() == 0 {
        Seq::empty()
    } else {
        let rest = spec_offline_recipients(recipients.drop_last(), online);
        let last = recipients.last();
        if online.contains(last) || recipients.drop_last().contains(last) {
            rest
        } else {
            rest.push(last)
        }
    }
}

/// The queue holds exactly the queued identities that are not online.
pub proof fn lemma_offline_recipients_membership(
    recipients: Seq<Seq<char>>,
    online: Seq<Seq<char>>,
    x: Seq<char>,
)
    ensures
        spec_offline_recipients(recipients, online).contains(x) == (recipients.contains(x)
            && !online.contains(x)),
    decreases recipients.len(),
{
    if recipients.len() == 0 {
        assert(!spec_offline_recipients(recipients, online).contains(x));
        assert(!recipients.contains(x));
    } else {
        let front = recipients.drop_last();
        let last = recipients.last();
        lemma_offline_recipients_membership(front, online, x);
        let rest = spec_offline_recipients(front, online);

        assert(recipients.contains(x) == (front.contains(x) || x == last)) by {
            if front.contains(x) {
                let i = choose|i: int| 0 <= i < front.len() && front[i] == x;
                assert(recipients[i] == x);
            }
            if x == last {
                assert(recipients[recipients.len() - 1] == x);
            }
            if recipients.contains(x) {
                let i = choose|i: int| 0 <= i < recipients.len() && recipients[i] == x;
                if i < recipients.len() - 1 {
                    assert(front[i] == x);
                }
            }
        }

        if !(online.contains(last) || front.contains(last)) {
            let pushed = rest.push(last);
            assert(pushed.contains(x) == (rest.contains(x) || x == last)) by {
                if rest.contains(x) {
                    let i = choose|i: int| 0 <= i < rest.len() && rest[i] == x;
                    assert(pushed[i] == x);
                }
                if x == last {
                    assert(pushed[rest.len() as int] == x);
                }
                if pushed.contains(x) {
                    let i = choose|i: int| 0 <= i < pushed.len() && pushed[i] == x;
                    if i < rest.len() {
                        assert(rest[i] == x);
                    }
                }
            }
        }
    }
}

/// No identity is queued twice.
pub proof fn lemma_offline_recipients_no_duplicates(
    recipients: Seq<Seq<char>>,
    online: Seq<Seq<char>>,
)
    ensures
        spec_offline_recipients(recipients, online).no_duplicates(),
    decreases recipients.len(),
{
    if recipients.len() != 0 {
        let front = recipients.drop_last();
        let last = recipients.last();
        lemma_offline_recipients_no_duplicates(front, online);
        let rest = spec_offline_recipients(front, online);
        if !(online.contains(last) || front.contains(last)) {
            lemma_offline_recipients_membership(front, online, last);
            assert(!rest.contains(last));
            let pushed = rest.push(last);
            assert(pushed.no_duplicates()) by {
                assert forall|i: int, j: int|
                    0 <= i < pushed.len() && 0 <= j < pushed.len() && i != j implies pushed[i]
                    != pushed[j] by {
                    if i < rest.len() && j < rest.len() {
                        assert(rest[i] == pushed[i] && rest[j] == pushed[j]);
                    } else if i < rest.len() {
                        assert(pushed[j] == last);
                        if pushed[i] == last {
                            assert(rest[i] == last);
                            assert(rest.contains(last));
                        }
                    } else {
                        assert(pushed[i] == last);
                        if pushed[j] == last && j < rest.len() {
                            assert(rest[j] == last);
                            assert(rest.contains(last));
                        }
                    }
                }
            }
        }
    }
}

/// The targets a queued notification still needs to reach: the queued
/// identities deduplicated, with the online ones left out, first
/// occurrences first.
pub fn offline_recipients(recipients: &Vec<String>, online: &Vec<String>) -> (r: Vec<String>)
    ensures
        r.deep_view() == spec_offline_recipients(recipients.deep_view(), online.deep_view()),
{
    let ghost rv = recipients.deep_view();
    let ghost ov = online.deep_view();
    let mut result: Vec<String> = Vec::new();
    let mut i: usize = 0;
    while i < recipients.len()
        invariant
            0 <= i <= recipients@.len(),
            rv == recipients.deep_view(),
            ov == online.deep_view(),
            result.deep_view() == spec_offline_recipients(rv.take(i as int), ov),
        decreases recipients@.len() - i,
    {
        let ghost prefix = rv.take(i as int);
        let ghost next = rv.take(i as int + 1);
        proof {
            assert(rv[i as int] == recipients@[i as int]@);
            assert(next.drop_last() =~= prefix);
            assert(next.last() == rv[i as int]);
            lemma_offline_recipients_membership(prefix, ov, rv[i as int]);
        }
        let candidate = &recipients[i];
        if !contains_id(online, candidate.as_str()) && !contains_id(&result, candidate.as_str()) {
            let ghost before = result.deep_view();
            result.push(candidate.clone());
            proof {
                assert(result.deep_view() =~= before.push(rv[i as int]));
            }
        }
        i += 1;
    }
    proof {
        assert(rv.take(recipients@.len() as int) =~= rv);
    }
    result
}

} // verus!
