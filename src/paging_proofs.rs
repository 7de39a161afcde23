use vstd::prelude::*;

use vstd::arithmetic::div_mod::{lemma_fundamental_div_mod, lemma_fundamental_div_mod_converse};

use crate::pagination::{
    after_failure, after_page, after_poll, awaiting_page, initial_state, poll_result,
    HistoryAction, HistoryState,
};
use crate::watch_history::PlexWatchHistoryItem;

verus! {

/// The page a well-behaved server returns for a request at `offset` of
/// `size` records, over a history that holds `records`.
pub open spec fn served_page(records: Seq<PlexWatchHistoryItem>, offset: nat, size: nat) -> Seq<
    PlexWatchHistoryItem,
> {
    if offset >= records.len() {
        Seq::empty()
    } else if offset + size >= records.len() {
        records.subrange(offset as int, records.len() as int)
    } else {
        records.subrange(offset as int, (offset + size) as int)
    }
}

/// One request for a record against such a server: the next state, what the
/// consumer receives (`None`: end of the sequence), and the offsets of the
/// fetches that were made.
pub open spec fn produce(s: HistoryState, records: Seq<PlexWatchHistoryItem>) -> (
    HistoryState,
    Option<PlexWatchHistoryItem>,
    Seq<nat>,
) {
    match poll_result(s) {
        HistoryAction::Emit(item) => (after_poll(s), Some(item), Seq::empty()),
        HistoryAction::End => (after_poll(s), None, Seq::empty()),
        HistoryAction::Fetch { .. } => {
            let page = served_page(records, s.offset, s.page_size);
            (
                after_page(s, page),
                if page.len() == 0 {
                    None
                } else {
                    Some(page[0])
                },
                seq![s.offset],
            )
        },
    }
}

/// `calls` requests for a record in a row, starting in state `s`.
pub open spec fn run(s: HistoryState, records: Seq<PlexWatchHistoryItem>, calls: nat) -> (
    HistoryState,
    Seq<Option<PlexWatchHistoryItem>>,
    Seq<nat>,
)
    decreases calls,
{
    if calls == 0 {
        (s, Seq::empty(), Seq::empty())
    } else {
        let (t, out, fetched) = produce(s, records);
        let (u, outs, more) = run(t, records, (calls - 1) as nat);
        (u, seq![out] + outs, fetched + more)
    }
}

/// Each record of `records` as a produced value.
pub open spec fn yielded(records: Seq<PlexWatchHistoryItem>) -> Seq<Option<PlexWatchHistoryItem>> {
    records.map_values(|r: PlexWatchHistoryItem| Some(r))
}

/// Once the sequence has ended, every further request yields the end signal,
/// fetches nothing and leaves the state as it is.
pub proof fn lemma_ended_stays_ended(s: HistoryState, records: Seq<PlexWatchHistoryItem>, calls: nat)
    requires
        s.finished,
    ensures
        run(s, records, calls).0 == s,
        run(s, records, calls).1 == Seq::new(calls, |i: int| None::<PlexWatchHistoryItem>),
        run(s, records, calls).2 == Seq::<nat>::empty(),
    decreases calls,
{
    if calls > 0 {
        lemma_ended_stays_ended(s, records, (calls - 1) as nat);
        assert(run(s, records, calls).1 =~= Seq::new(calls, |i: int| None::<PlexWatchHistoryItem>));
        assert(run(s, records, calls).2 =~= Seq::<nat>::empty());
    }
}

/// Idempotence of exhaustion: a request answered by the end signal leaves a
/// finished sequence, which answers every later request with the end signal
/// again, without a fetch and without a change of state.
pub proof fn lemma_exhaustion_is_idempotent(s: HistoryState)
    requires
        poll_result(s) == HistoryAction::End,
    ensures
        after_poll(s).finished,
        poll_result(after_poll(s)) == HistoryAction::End,
        after_poll(after_poll(s)) == after_poll(s),
{
}

/// An empty page ends the sequence for good, as an end signal does.
pub proof fn lemma_empty_page_ends(s: HistoryState)
    ensures
        after_page(s, Seq::empty()).finished,
        poll_result(after_page(s, Seq::empty())) == HistoryAction::End,
        after_poll(after_page(s, Seq::empty())) == after_page(s, Seq::empty()),
{
}

/// Error propagation: after a failed fetch, whose error the pending request
/// reports, the sequence is over: later requests get the end signal and
/// cause no fetch.
pub proof fn lemma_failure_is_terminal(s: HistoryState)
    ensures
        after_failure(s).finished,
        poll_result(after_failure(s)) == HistoryAction::End,
        after_poll(after_failure(s)) == after_failure(s),
{
}

/// Offset monotonicity: a fetch asks for the current offset, handing out
/// buffered records leaves it unchanged, and a received page moves it on by
/// exactly the number of records the page held, whatever was asked for.
pub proof fn lemma_offset_advances_by_received(s: HistoryState, page: Seq<PlexWatchHistoryItem>)
    requires
        awaiting_page(s),
        s.offset <= u32::MAX,
        s.page_size <= u32::MAX,
    ensures
        poll_result(s) == (HistoryAction::Fetch {
            offset: s.offset as u32,
            page_size: s.page_size as u32,
        }),
        after_poll(s).offset == s.offset,
        after_page(s, page).offset == s.offset + page.len(),
{
}

/// Handing out buffered records never changes the offset.
pub proof fn lemma_poll_keeps_offset(s: HistoryState)
    ensures
        after_poll(s).offset == s.offset,
        after_poll(s).page_size == s.page_size,
{
}

/// A sequence on its last page hands out what it holds, then ends, with no
/// fetch.
proof fn lemma_drain_last_page(s: HistoryState, records: Seq<PlexWatchHistoryItem>)
    requires
        !s.finished,
        s.last_page,
    ensures
        run(s, records, s.pending.len() + 1).0.finished,
        run(s, records, s.pending.len() + 1).1 == yielded(s.pending).push(None),
        run(s, records, s.pending.len() + 1).2 == Seq::<nat>::empty(),
    decreases s.pending.len(),
{
    let n = s.pending.len();
    if n == 0 {
        let rest = run(after_poll(s), records, 0);
        assert(rest.1 == Seq::<Option<PlexWatchHistoryItem>>::empty());
        assert(rest.2 == Seq::<nat>::empty());
        assert(run(s, records, 1).1 =~= yielded(s.pending).push(None));
        assert(run(s, records, 1).2 =~= Seq::<nat>::empty());
    } else {
        let t = after_poll(s);
        lemma_drain_last_page(t, records);
        assert(t.pending.len() + 1 == n);
        assert(run(s, records, n + 1).1 =~= yielded(s.pending).push(None));
        assert(run(s, records, n + 1).2 =~= Seq::<nat>::empty());
    }
}

/// From a state that holds the records just before `offset` and may still
/// fetch, the rest of the history comes out in order, followed by the end
/// signal, with one fetch per full page and one more for the rest.
proof fn lemma_rest_of_history(s: HistoryState, records: Seq<PlexWatchHistoryItem>)
    requires
        !s.finished,
        !s.last_page,
        s.page_size > 0,
        s.pending.len() <= s.offset <= records.len(),
        s.pending == records.subrange(s.offset - s.pending.len(), s.offset as int),
    ensures
        ({
            let calls = s.pending.len() + (records.len() - s.offset) + 1;
            let (end, outs, fetched) = run(s, records, calls as nat);
            &&& end.finished
            &&& outs == yielded(
                records.subrange(s.offset - s.pending.len(), records.len() as int),
            ).push(None)
            &&& fetched.len() == (records.len() - s.offset) / (s.page_size as int) + 1
            &&& forall|k: int|
                0 <= k < fetched.len() ==> #[trigger] fetched[k] == s.offset + k * s.page_size
        }),
    decreases s.pending.len() + (records.len() - s.offset),
{
    let n = records.len() as int;
    let o = s.offset as int;
    let l = s.pending.len() as int;
    let p = s.page_size as int;
    let calls = (l + (n - o) + 1) as nat;
    if l > 0 {
        let t = after_poll(s);
        assert(t.pending =~= records.subrange(o - (l - 1), o));
        lemma_rest_of_history(t, records);
        let (end, outs, fetched) = run(s, records, calls);
        assert(outs =~= yielded(records.subrange(o - l, n)).push(None));
        assert(fetched =~= run(t, records, (calls - 1) as nat).2);
    } else {
        let page = served_page(records, s.offset, s.page_size);
        let t = after_page(s, page);
        if o == n {
            assert(page.len() == 0);
            assert(calls == 1);
            let rest = run(t, records, 0);
            assert(rest.1 == Seq::<Option<PlexWatchHistoryItem>>::empty());
            assert(rest.2 == Seq::<nat>::empty());
            let (end, outs, fetched) = run(s, records, calls);
            assert(outs =~= yielded(records.subrange(o - l, n)).push(None));
            assert(fetched =~= seq![s.offset]);
            assert(0int / p == 0) by (nonlinear_arith)
                requires
                    p > 0,
            ;
        } else if n - o >= p {
            assert(page =~= records.subrange(o, o + p));
            assert(t.pending =~= records.subrange(o + p - (p - 1), o + p));
            lemma_rest_of_history(t, records);
            let (end, outs, fetched) = run(s, records, calls);
            let rest = run(t, records, (calls - 1) as nat);
            assert(outs =~= yielded(records.subrange(o - l, n)).push(None));
            assert(fetched =~= seq![s.offset] + rest.2);
            assert((n - o - p) / p + 1 == (n - o) / p) by {
                lemma_fundamental_div_mod(n - o - p, p);
                let q = (n - o - p) / p;
                let r = (n - o - p) % p;
                assert(0 <= r < p) by (nonlinear_arith)
                    requires
                        p > 0,
                        r == (n - o - p) % p,
                ;
                assert(n - o == (q + 1) * p + r) by (nonlinear_arith)
                    requires
                        n - o - p == p * q + r,
                ;
                lemma_fundamental_div_mod_converse(n - o, p, q + 1, r);
            }
            assert forall|k: int| 0 <= k < fetched.len() implies #[trigger] fetched[k] == o + k
                * p by {
                if k > 0 {
                    assert(fetched[k] == rest.2[k - 1]);
                    assert(o + p + (k - 1) * p == o + k * p) by (nonlinear_arith);
                } else {
                    assert(k * p == 0) by (nonlinear_arith)
                        requires
                            k == 0,
                    ;
                }
            }
        } else {
            assert(page =~= records.subrange(o, n));
            assert(t.pending =~= records.subrange(o + 1, n));
            lemma_drain_last_page(t, records);
            assert(t.pending.len() + 1 == calls - 1);
            let (end, outs, fetched) = run(s, records, calls);
            assert(outs =~= yielded(records.subrange(o - l, n)).push(None));
            assert(fetched =~= seq![s.offset]);
            assert((n - o) / p == 0) by {
                lemma_fundamental_div_mod_converse(n - o, p, 0, n - o);
            }
        }
    }
}

/// A fresh sequence with page size `page_size`, over a server holding
/// `records`, yields exactly those records in server order and then the end
/// signal. It fetches `records.len() / page_size + 1` pages, the k-th at
/// offset `k * page_size`; where the page size does not divide the number of
/// records, that is the number of records divided by the page size, rounded
/// up. Where it does divide it (no record at all included), the last fetch
/// is the one that comes back empty.
pub proof fn lemma_sequence_yields_history(
    section: Seq<char>,
    records: Seq<PlexWatchHistoryItem>,
    page_size: nat,
)
    requires
        page_size > 0,
    ensures
        ({
            let (end, outs, fetched) = run(
                initial_state(section, page_size),
                records,
                records.len() + 1,
            );
            &&& end.finished
            &&& outs == yielded(records).push(None)
            &&& fetched.len() == records.len() / page_size + 1
            &&& records.len() % page_size != 0 ==> fetched.len() == (records.len() + page_size
                - 1) / page_size as int
            &&& forall|k: int| 0 <= k < fetched.len() ==> #[trigger] fetched[k] == k * page_size
        }),
{
    let s = initial_state(section, page_size);
    assert(s.pending =~= records.subrange(0, 0));
    lemma_rest_of_history(s, records);
    assert(records.subrange(0, records.len() as int) =~= records);
    let n = records.len() as int;
    let p = page_size as int;
    if n % p != 0 {
        lemma_fundamental_div_mod(n, p);
        let q = n / p;
        let r = n % p;
        assert(0 <= r < p) by (nonlinear_arith)
            requires
                p > 0,
                r == n % p,
        ;
        assert(n + p - 1 == (q + 1) * p + (r - 1)) by (nonlinear_arith)
            requires
                n == p * q + r,
        ;
        lemma_fundamental_div_mod_converse(n + p - 1, p, q + 1, r - 1);
    }
}

} // verus!
