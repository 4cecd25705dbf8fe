//! What holds of every pagination run, proved over the run model of
//! [`crate::pagination`].
use vstd::arithmetic::div_mod::lemma_fundamental_div_mod;
use vstd::arithmetic::div_mod::lemma_fundamental_div_mod_converse;
use vstd::prelude::*;

use crate::api::ApiError;
use crate::pagination::after_query;
use crate::pagination::after_reply;
use crate::pagination::next_query;
use crate::pagination::outcome;
use crate::pagination::run;
use crate::pagination::start;
use crate::pagination::PageQuery;
use crate::pagination::Progress;
use crate::pagination::Reply;
use crate::pagination::OFFSET_LIMIT;
use crate::pagination::PAGE_SIZE;

verus! {

/// The number of pages of a hundred that `n` records fill: ceil(n / 100).
pub open spec fn page_count(n: nat) -> nat {
    ((n + 99) / 100) as nat
}

/// A server that holds `all` and hands them out a hundred at a time, in
/// order; every page but the last carries a token, the `k`-th being
/// `tokens[k]`.
pub open spec fn served_pages<T>(all: Seq<T>, tokens: Seq<Seq<char>>) -> Seq<Reply<T>> {
    Seq::new(
        page_count(all.len()),
        |k: int|
            Ok(
                (
                    all.subrange(
                        100 * k,
                        if 100 * k + 100 <= all.len() {
                            100 * k + 100
                        } else {
                            all.len() as int
                        },
                    ),
                    if k + 1 < page_count(all.len()) {
                        Some(tokens[k])
                    } else {
                        None
                    },
                ),
            ),
    )
}

/// The most records a request lets the server send: its `maxRecords`, or a
/// full page.
pub open spec fn allowance(q: PageQuery) -> nat {
    match q.max_records {
        Some(m) => m,
        None => PAGE_SIZE as nat,
    }
}

/// The server's replies, from index `i` on, send no more records than the
/// requests that they answer allow.
pub open spec fn within_allowance<T>(s: Progress<T>, replies: Seq<Reply<T>>, i: nat) -> bool
    decreases replies.len() - i,
{
    match next_query(s) {
        None => true,
        Some(q) => if i < replies.len() {
            (replies[i as int] is Ok ==> replies[i as int]->Ok_0.0.len() <= allowance(q))
                && within_allowance(after_reply(after_query(s), replies[i as int]), replies, i + 1)
        } else {
            true
        },
    }
}

proof fn lemma_page_count_bounds(n: nat)
    requires
        n > 0,
    ensures
        100 * (page_count(n) - 1) < n <= 100 * page_count(n),
{
    lemma_fundamental_div_mod((n + 99) as int, 100);
}

proof fn lemma_page_count_step(b: nat)
    requires
        b > 0,
    ensures
        b <= 100 ==> page_count(b) == 1,
        b > 100 ==> page_count(b) == page_count((b - 100) as nat) + 1,
{
    lemma_fundamental_div_mod((b + 99) as int, 100);
    if b <= 100 {
        lemma_fundamental_div_mod_converse((b + 99) as int, 100, 1, b - 1);
    } else {
        lemma_fundamental_div_mod(((b - 100) + 99) as int, 100);
        lemma_fundamental_div_mod_converse(
            (b + 99) as int,
            100,
            (((b - 100) + 99) / 100) + 1,
            ((b - 100) + 99) % 100,
        );
    }
}

/// The state of an uncapped run against [`served_pages`] before page `k`.
spec fn serving_state<T>(all: Seq<T>, tokens: Seq<Seq<char>>, k: nat) -> Progress<T> {
    Progress {
        remaining: None,
        offset: if k == 0 {
            None
        } else {
            Some(tokens[k - 1])
        },
        records: all.subrange(0, 100 * k as int),
        finished: false,
        failure: None,
    }
}

proof fn lemma_serving_from<T>(all: Seq<T>, tokens: Seq<Seq<char>>, k: nat)
    requires
        all.len() > 0,
        tokens.len() + 1 >= page_count(all.len()),
        forall|j: int| 0 <= j < tokens.len() ==> (#[trigger] tokens[j]).len() <= OFFSET_LIMIT,
        k < page_count(all.len()),
    ensures
        ({
            let (qs, end) = run(serving_state(all, tokens, k), served_pages(all, tokens), k);
            &&& qs.len() == page_count(all.len()) - k
            &&& forall|j: int|
                0 <= j < qs.len() ==> #[trigger] qs[j] == (PageQuery {
                    max_records: None,
                    offset: if k + j == 0 {
                        None
                    } else {
                        Some(tokens[k + j - 1])
                    },
                })
            &&& outcome(end) == Ok::<Seq<T>, ApiError>(all)
        }),
    decreases page_count(all.len()) - k,
{
    let n = all.len();
    let p = page_count(n);
    let replies = served_pages(all, tokens);
    let s = serving_state(all, tokens, k);
    lemma_page_count_bounds(n);
    assert(100 * k < n) by {
        assert(100 * k <= 100 * (p - 1));
    }
    let q = next_query(s)->Some_0;
    assert(after_query(s) == s);
    let s2 = after_reply(s, replies[k as int]);
    assert(run(s, replies, k) == (seq![q] + run(s2, replies, k + 1).0, run(s2, replies, k + 1).1));
    if k + 1 < p {
        assert(100 * k + 100 <= 100 * (p - 1));
        assert(all.subrange(0, 100 * k as int) + all.subrange(100 * k as int, 100 * k as int + 100) =~= all.subrange(
            0,
            100 * (k as int + 1),
        ));
        assert(s2 == serving_state(all, tokens, k + 1));
        lemma_serving_from(all, tokens, k + 1);
        let (qs2, end2) = run(s2, replies, k + 1);
        let (qs, end) = run(s, replies, k);
        assert(qs == seq![q] + qs2);
        assert forall|j: int| 0 <= j < qs.len() implies #[trigger] qs[j] == (PageQuery {
            max_records: None,
            offset: if k + j == 0 {
                None
            } else {
                Some(tokens[k + j - 1])
            },
        }) by {
            if j > 0 {
                assert(qs[j] == qs2[j - 1]);
            }
        }
    } else {
        assert(100 * k + 100 >= n);
        assert(all.subrange(0, 100 * k as int) + all.subrange(100 * k as int, n as int) =~= all);
        assert(s2.records == all);
        assert(next_query(s2) is None);
        assert(run(s2, replies, k + 1) == (Seq::<PageQuery>::empty(), s2));
        assert(run(s, replies, k).0 =~= seq![q]);
    }
}

/// Without a cap, a run against a server that holds `n > 0` records in pages
/// of a hundred (with tokens short enough to forward) issues ceil(n / 100)
/// requests, none of them with `maxRecords`, and returns all `n` records in
/// the server's order.
pub proof fn lemma_complete_without_cap<T>(all: Seq<T>, tokens: Seq<Seq<char>>)
    requires
        all.len() > 0,
        tokens.len() + 1 >= page_count(all.len()),
        forall|j: int| 0 <= j < tokens.len() ==> (#[trigger] tokens[j]).len() <= OFFSET_LIMIT,
    ensures
        ({
            let (qs, end) = run(start::<T>(None), served_pages(all, tokens), 0);
            &&& qs.len() == page_count(all.len())
            &&& forall|j: int| 0 <= j < qs.len() ==> (#[trigger] qs[j]).max_records is None
            &&& outcome(end) == Ok::<Seq<T>, ApiError>(all)
        }),
{
    lemma_page_count_bounds(all.len());
    assert(all.subrange(0, 0) =~= Seq::<T>::empty());
    assert(serving_state(all, tokens, 0) == start::<T>(None));
    lemma_serving_from(all, tokens, 0);
    let (qs, end) = run(start::<T>(None), served_pages(all, tokens), 0);
    assert forall|j: int| 0 <= j < qs.len() implies (#[trigger] qs[j]).max_records is None by {
        assert(qs[j] == (PageQuery {
            max_records: None,
            offset: if j == 0 {
                None
            } else {
                Some(tokens[j - 1])
            },
        }));
    }
}

proof fn lemma_capped_more_available<T>(s: Progress<T>, replies: Seq<Reply<T>>, i: nat, b: nat)
    requires
        b > 0,
        s.remaining == Some(b),
        !s.finished,
        s.failure is None,
        i + page_count(b) <= replies.len(),
        forall|j: int|
            0 <= j < replies.len() ==> {
                &&& (#[trigger] replies[j]) is Ok
                &&& replies[j]->Ok_0.1 is Some
                &&& replies[j]->Ok_0.1->Some_0.len() <= OFFSET_LIMIT
            },
    ensures
        ({
            let (qs, end) = run(s, replies, i);
            &&& qs.len() == page_count(b)
            &&& forall|j: int| 0 <= j < qs.len() - 1 ==> (#[trigger] qs[j]).max_records is None
            &&& qs[qs.len() - 1].max_records == Some((b - 100 * (page_count(b) - 1)) as nat)
            &&& end.failure is None
        }),
    decreases b,
{
    lemma_page_count_step(b);
    let q = next_query(s)->Some_0;
    let s2 = after_reply(after_query(s), replies[i as int]);
    assert(run(s, replies, i) == (seq![q] + run(s2, replies, i + 1).0, run(s2, replies, i + 1).1));
    let (qs, end) = run(s, replies, i);
    if b > 100 {
        lemma_page_count_step((b - 100) as nat);
        lemma_capped_more_available(s2, replies, i + 1, (b - 100) as nat);
        let (qs2, end2) = run(s2, replies, i + 1);
        assert(qs == seq![q] + qs2);
        assert forall|j: int| 0 <= j < qs.len() - 1 implies (#[trigger] qs[j]).max_records is None by {
            if j > 0 {
                assert(qs[j] == qs2[j - 1]);
            }
        }
        assert(qs[qs.len() - 1] == qs2[qs2.len() - 1]);
    } else {
        assert(next_query(s2) is None);
        assert(run(s2, replies, i + 1) == (Seq::<PageQuery>::empty(), s2));
        assert(qs =~= seq![q]);
    }
}

/// With a cap of `m > 0` and a server that has more records than that (every
/// reply carries a token, short enough to forward), a run issues ceil(m / 100) requests; only the last
/// one sends `maxRecords`, and it asks for `m mod 100`, or for a hundred where
/// that is zero.
pub proof fn lemma_cap_final_request<T>(m: nat, replies: Seq<Reply<T>>)
    requires
        m > 0,
        page_count(m) <= replies.len(),
        forall|j: int|
            0 <= j < replies.len() ==> {
                &&& (#[trigger] replies[j]) is Ok
                &&& replies[j]->Ok_0.1 is Some
                &&& replies[j]->Ok_0.1->Some_0.len() <= OFFSET_LIMIT
            },
    ensures
        ({
            let (qs, end) = run(start::<T>(Some(m)), replies, 0);
            &&& qs.len() == page_count(m)
            &&& forall|j: int| 0 <= j < qs.len() - 1 ==> (#[trigger] qs[j]).max_records is None
            &&& qs[qs.len() - 1].max_records == Some(
                if m % 100 == 0 {
                    100
                } else {
                    m % 100
                },
            )
            &&& outcome(end) is Ok
        }),
{
    lemma_capped_more_available(start::<T>(Some(m)), replies, 0, m);
    lemma_fundamental_div_mod(m as int, 100);
    lemma_fundamental_div_mod((m + 99) as int, 100);
    if m % 100 == 0 {
        lemma_fundamental_div_mod_converse((m + 99) as int, 100, (m / 100) as int, 99);
    } else {
        lemma_fundamental_div_mod_converse((m + 99) as int, 100, (m / 100) as int + 1, (m % 100) as int - 1);
    }
}

proof fn lemma_capped_bound<T>(m: nat, s: Progress<T>, replies: Seq<Reply<T>>, i: nat)
    requires
        s.remaining is Some,
        s.records.len() + s.remaining->Some_0 <= m,
        within_allowance(s, replies, i),
    ensures
        run(s, replies, i).1.records.len() <= m,
    decreases replies.len() - i,
{
    if next_query(s) is Some && i < replies.len() {
        lemma_capped_bound(m, after_reply(after_query(s), replies[i as int]), replies, i + 1);
    }
}

/// With a cap of `m`, a run never gathers more than `m` records, however
/// many the server holds, as long as no reply sends more records than its
/// request allows.
pub proof fn lemma_cap_bound<T>(m: nat, replies: Seq<Reply<T>>)
    requires
        within_allowance(start::<T>(Some(m)), replies, 0),
    ensures
        run(start::<T>(Some(m)), replies, 0).1.records.len() <= m,
{
    lemma_capped_bound(m, start::<T>(Some(m)), replies, 0);
}

/// A cap of zero issues no request and returns no records.
pub proof fn lemma_zero_cap<T>(replies: Seq<Reply<T>>)
    ensures
        run(start::<T>(Some(0)), replies, 0).0.len() == 0,
        outcome(run(start::<T>(Some(0)), replies, 0).1) == Ok::<Seq<T>, ApiError>(seq![]),
{
}

proof fn lemma_offsets_from<T>(s: Progress<T>, replies: Seq<Reply<T>>, i: nat)
    ensures
        ({
            let (qs, end) = run(s, replies, i);
            &&& qs.len() > 0 ==> qs[0].offset == s.offset
            &&& forall|k: int|
                0 < k < qs.len() ==> {
                    &&& #[trigger] replies[i + k - 1] is Ok
                    &&& replies[i + k - 1]->Ok_0.1 is Some
                    &&& qs[k].offset == replies[i + k - 1]->Ok_0.1
                }
        }),
    decreases replies.len() - i,
{
    if next_query(s) is Some && i < replies.len() {
        let s2 = after_reply(after_query(s), replies[i as int]);
        lemma_offsets_from(s2, replies, i + 1);
        let (qs, end) = run(s, replies, i);
        let (qs2, end2) = run(s2, replies, i + 1);
        assert(qs == seq![next_query(s)->Some_0] + qs2);
        assert forall|k: int| 0 < k < qs.len() implies {
            &&& #[trigger] replies[i + k - 1] is Ok
            &&& replies[i + k - 1]->Ok_0.1 is Some
            &&& qs[k].offset == replies[i + k - 1]->Ok_0.1
        } by {
            assert(qs[k] == qs2[k - 1]);
            if k > 1 {
                assert(replies[(i + 1) + (k - 1) - 1] == replies[i + k - 1]);
            }
        }
    }
}

/// The first request of a run carries no token; every later one carries
/// exactly the token of the page just before it. So a page without a token
/// is the last one asked for, however far the run is from its cap.
pub proof fn lemma_offset_propagation<T>(max_records: Option<nat>, replies: Seq<Reply<T>>)
    ensures
        ({
            let (qs, end) = run(start::<T>(max_records), replies, 0);
            &&& qs.len() > 0 ==> qs[0].offset is None
            &&& forall|k: int|
                0 < k < qs.len() ==> {
                    &&& #[trigger] replies[k - 1] is Ok
                    &&& replies[k - 1]->Ok_0.1 is Some
                    &&& qs[k].offset == replies[k - 1]->Ok_0.1
                }
        }),
{
    lemma_offsets_from(start::<T>(max_records), replies, 0);
    let (qs, end) = run(start::<T>(max_records), replies, 0);
    assert forall|k: int| 0 < k < qs.len() implies {
        &&& #[trigger] replies[k - 1] is Ok
        &&& replies[k - 1]->Ok_0.1 is Some
        &&& qs[k].offset == replies[k - 1]->Ok_0.1
    } by {
        assert(replies[0 + k - 1] == replies[k - 1]);
    }
}

proof fn lemma_failure_from<T>(s: Progress<T>, replies: Seq<Reply<T>>, i: nat, k: nat)
    requires
        i <= k < replies.len(),
        replies[k as int] is Err,
        run(s, replies, i).0.len() > k - i,
    ensures
        run(s, replies, i).0.len() == k - i + 1,
        outcome(run(s, replies, i).1) == Err::<Seq<T>, ApiError>(replies[k as int]->Err_0),
    decreases k - i,
{
    let q = next_query(s)->Some_0;
    assert(next_query(s) is Some);
    let s2 = after_reply(after_query(s), replies[i as int]);
    assert(run(s, replies, i) == (seq![q] + run(s2, replies, i + 1).0, run(s2, replies, i + 1).1));
    if i < k {
        lemma_failure_from(s2, replies, i + 1, k);
    } else {
        assert(next_query(s2) is None);
        assert(run(s2, replies, i + 1) == (Seq::<PageQuery>::empty(), s2));
        assert(run(s, replies, i).0 =~= seq![q]);
    }
}

/// When the reply to a run's `k`-th request is an error, the run asks for
/// nothing more and returns that error, whatever pages came before it.
pub proof fn lemma_failure_discards<T>(max_records: Option<nat>, replies: Seq<Reply<T>>, k: nat)
    requires
        k < replies.len(),
        replies[k as int] is Err,
        run(start::<T>(max_records), replies, 0).0.len() > k,
    ensures
        run(start::<T>(max_records), replies, 0).0.len() == k + 1,
        outcome(run(start::<T>(max_records), replies, 0).1) == Err::<Seq<T>, ApiError>(
            replies[k as int]->Err_0,
        ),
{
    lemma_failure_from(start::<T>(max_records), replies, 0, k);
}

} // verus!
