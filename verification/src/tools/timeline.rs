//! Putting event log entries on a timeline: each record once, the newest
//! first.

use crate::errors::WinkitError;
use crate::models::EventInfo;
use crate::order::{
    comes_before, is_stable_order, key_lt, key_of_latest, keys_view, latest_key, lemma_latest_key,
    stable_order, text_lt,
};
use crate::text::opt_view;
use vstd::prelude::*;

verus! {

/// Did an earlier place already hold this record?
pub open spec fn seen_before(ids: Seq<Option<u64>>, i: int) -> bool {
    ids[i] is Some && (exists|k: int| 0 <= k < i && #[trigger] ids[k] == ids[i])
}

/// The places that are kept: the first of each record, and all without one.
pub open spec fn kept_places(ids: Seq<Option<u64>>, n: int) -> Seq<int>
    decreases n,
{
    if n <= 0 {
        Seq::empty()
    } else {
        let before = kept_places(ids, n - 1);
        if seen_before(ids, n - 1) {
            before
        } else {
            before.push(n - 1)
        }
    }
}

/// The keys by which kept places come newest first.
pub open spec fn time_keys(times: Seq<Option<Seq<char>>>, kept: Seq<int>) -> Seq<Seq<u64>> {
    kept.map_values(|i: int| latest_key(times[i]))
}

/// Is `places` the timeline: the kept places, newest first, those of the same
/// time as they stood, those without a time last?
pub open spec fn is_timeline(
    places: Seq<int>,
    ids: Seq<Option<u64>>,
    times: Seq<Option<Seq<char>>>,
) -> bool {
    let kept = kept_places(ids, ids.len() as int);
    exists|order: Seq<usize>| #[trigger]
        is_stable_order(time_keys(times, kept), order) && places == order.map_values(
            |k: usize| kept[k as int],
        )
}

/// The record numbers of events.
pub open spec fn ids_of(events: Seq<EventInfo>) -> Seq<Option<u64>> {
    events.map_values(|e: EventInfo| e.record_id)
}

/// The times of events.
pub open spec fn times_of(events: Seq<EventInfo>) -> Seq<Option<Seq<char>>> {
    events.map_values(|e: EventInfo| opt_view(e.time_created))
}

/// Are `places` the timeline of these events?
pub open spec fn is_event_timeline(places: Seq<int>, events: Seq<EventInfo>) -> bool {
    is_timeline(places, ids_of(events), times_of(events))
}

/// Places taken as integers.
pub open spec fn ints(v: Seq<usize>) -> Seq<int> {
    v.map_values(|i: usize| i as int)
}

proof fn lemma_kept_places(ids: Seq<Option<u64>>, n: int)
    requires
        0 <= n <= ids.len(),
    ensures
        kept_places(ids, n).len() <= n,
        forall|k: int|
            0 <= k < kept_places(ids, n).len() ==> 0 <= #[trigger] kept_places(ids, n)[k] < n
                && !seen_before(ids, kept_places(ids, n)[k]),
        forall|i: int, j: int|
            0 <= i < j < kept_places(ids, n).len() ==> #[trigger] kept_places(ids, n)[i]
                < #[trigger] kept_places(ids, n)[j],
        forall|p: int|
            0 <= p < n && !seen_before(ids, p) ==> #[trigger] kept_places(ids, n).contains(p),
    decreases n,
{
    if n > 0 {
        lemma_kept_places(ids, n - 1);
        let before = kept_places(ids, n - 1);
        let now = kept_places(ids, n);
        assert forall|p: int| 0 <= p < n && !seen_before(ids, p) implies #[trigger] now.contains(
            p,
        ) by {
            if p < n - 1 {
                assert(before.contains(p));
                let k = choose|k: int| 0 <= k < before.len() && before[k] == p;
                assert(now[k] == p);
            } else {
                assert(now[now.len() - 1] == p);
            }
        }
    }
}

fn was_seen(events: &Vec<EventInfo>, i: usize) -> (r: bool)
    requires
        i < events@.len(),
    ensures
        r == seen_before(ids_of(events@), i as int),
{
    let ghost ids = ids_of(events@);
    match events[i].record_id {
        None => false,
        Some(id) => {
            let mut k: usize = 0;
            while k < i
                invariant
                    ids == ids_of(events@),
                    k <= i < events@.len(),
                    ids[i as int] == Some(id),
                    forall|m: int| 0 <= m < k ==> #[trigger] ids[m] != ids[i as int],
                decreases i - k,
            {
                assert(ids[k as int] == events@[k as int].record_id);
                let same_id = match events[k].record_id {
                    Some(other) => other == id,
                    None => false,
                };
                if same_id {
                    return true;
                }
                k = k + 1;
            }
            false
        },
    }
}

/// The timeline of events: each record once, the newest first.
pub fn timeline(events: &Vec<EventInfo>) -> (r: Vec<usize>)
    ensures
        is_event_timeline(ints(r@), events@),
        forall|i: int| 0 <= i < r@.len() ==> #[trigger] r@[i] < events@.len(),
        r@.len() <= events@.len(),
{
    let ghost ids = ids_of(events@);
    let ghost times = times_of(events@);
    let n: usize = events.len();
    let mut kept: Vec<usize> = Vec::new();
    let mut keys: Vec<Vec<u64>> = Vec::new();
    let mut i: usize = 0;
    assert(ints(kept@) =~= kept_places(ids, 0));
    assert(keys_view(keys@) =~= time_keys(times, kept_places(ids, 0)));
    while i < n
        invariant
            n == events@.len(),
            ids == ids_of(events@),
            times == times_of(events@),
            i <= n,
            ints(kept@) == kept_places(ids, i as int),
            keys_view(keys@) == time_keys(times, kept_places(ids, i as int)),
            forall|k: int| 0 <= k < kept@.len() ==> #[trigger] kept@[k] < n,
            kept@.len() <= i,
        decreases n - i,
    {
        let ghost before = ints(kept@);
        let ghost old_keys = keys_view(keys@);
        if !was_seen(events, i) {
            kept.push(i);
            assert(ints(kept@) =~= before.push(i as int));
            let key = key_of_latest(&events[i].time_created);
            assert(times[i as int] == opt_view(events@[i as int].time_created));
            keys.push(key);
            assert(keys_view(keys@) =~= old_keys.push(key@));
            assert(time_keys(times, before.push(i as int)) =~= time_keys(times, before).push(
                latest_key(times[i as int]),
            ));
        }
        i = i + 1;
    }
    let order = stable_order(&keys);
    let ghost kept_seq = kept_places(ids, ids.len() as int);
    assert(keys@.len() == keys_view(keys@).len());
    assert(kept@.len() == ints(kept@).len());
    assert(time_keys(times, kept_seq).len() == kept_seq.len());
    let mut out: Vec<usize> = Vec::new();
    let mut j: usize = 0;
    while j < order.len()
        invariant
            n == events@.len(),
            j <= order@.len(),
            order@.len() == kept@.len(),
            ints(kept@) == kept_seq,
            forall|k: int| 0 <= k < order@.len() ==> #[trigger] order@[k] < kept@.len(),
            forall|k: int| 0 <= k < kept@.len() ==> #[trigger] kept@[k] < n,
            out@.len() == j,
            forall|k: int| 0 <= k < j ==> #[trigger] out@[k] < n,
            forall|k: int|
                0 <= k < j ==> (#[trigger] out@[k]) as int == kept_seq[order@[k] as int],
        decreases order@.len() - j,
    {
        assert(order@[j as int] < kept@.len());
        let at: usize = kept[order[j]];
        assert(kept_seq[order@[j as int] as int] == at as int);
        out.push(at);
        j = j + 1;
    }
    assert(ints(out@) =~= order@.map_values(|k: usize| kept_seq[k as int]));
    assert(is_stable_order(time_keys(times, kept_seq), order@));
    out
}

/// On a timeline every record stands once, and an event stands before another
/// only if it is not older.
pub proof fn law_timeline_is_newest_first(
    places: Seq<int>,
    ids: Seq<Option<u64>>,
    times: Seq<Option<Seq<char>>>,
    a: int,
    b: int,
)
    requires
        is_timeline(places, ids, times),
        times.len() == ids.len(),
        0 <= a < b < places.len(),
    ensures
        0 <= places[a] < ids.len(),
        0 <= places[b] < ids.len(),
        places[a] != places[b],
        ids[places[a]] is Some ==> ids[places[a]] != ids[places[b]],
        times[places[a]] is None ==> times[places[b]] is None,
        times[places[a]] is Some && times[places[b]] is Some ==> !text_lt(
            times[places[a]]->0,
            times[places[b]]->0,
        ),
{
    let kept = kept_places(ids, ids.len() as int);
    lemma_kept_places(ids, ids.len() as int);
    let order = choose|order: Seq<usize>| #[trigger]
        is_stable_order(time_keys(times, kept), order) && places == order.map_values(
            |k: usize| kept[k as int],
        );
    let keys = time_keys(times, kept);
    let x = order[a] as int;
    let y = order[b] as int;
    assert(comes_before(keys, x, y));
    assert(places[a] == kept[x] && places[b] == kept[y]);
    let p = kept[x];
    let q = kept[y];
    if x == y {
        crate::order::lemma_key_irreflexive(keys[x]);
    }
    assert(p != q);
    assert(!seen_before(ids, p) && !seen_before(ids, q));
    if ids[p] is Some && ids[p] == ids[q] {
        if p < q {
            assert(ids[p] == ids[q]);
            assert(seen_before(ids, q));
        } else {
            assert(seen_before(ids, p));
        }
    }
    lemma_latest_key(times[p], times[q]);
    lemma_latest_key(times[q], times[p]);
    assert(keys[x] == latest_key(times[p]) && keys[y] == latest_key(times[q]));
    if key_lt(keys[y], keys[x]) {
        crate::order::lemma_before_asymmetric(keys, x, y);
    }
    if times[p] is None && times[q] is Some {
        assert(key_lt(keys[y], keys[x]));
    }
}

/// What the machine gave for a query.
pub type Reply = Result<Vec<EventInfo>, WinkitError>;

/// The events of all replies, each with the place of its query.
pub open spec fn gathered(replies: Seq<Reply>) -> Seq<(EventInfo, int)>
    decreases replies.len(),
{
    if replies.len() == 0 {
        Seq::empty()
    } else {
        let before = gathered(replies.drop_last());
        match replies.last() {
            Ok(events) => before + events@.map_values(
                |e: EventInfo| (e, replies.len() - 1),
            ),
            Err(_) => before,
        }
    }
}

/// The events of all replies.
pub open spec fn gathered_events(replies: Seq<Reply>) -> Seq<EventInfo> {
    gathered(replies).map_values(|g: (EventInfo, int)| g.0)
}

/// The events of all replies, and the place of the query of each.
pub fn gather(replies: &Vec<Reply>) -> (r: (Vec<EventInfo>, Vec<usize>))
    ensures
        r.0@ == gathered_events(replies@),
        r.1@.len() == r.0@.len(),
        forall|i: int|
            0 <= i < r.1@.len() ==> (#[trigger] r.1@[i]) as int == gathered(replies@)[i].1
                && r.1@[i] < replies@.len(),
{
    let mut events: Vec<EventInfo> = Vec::new();
    let mut queries: Vec<usize> = Vec::new();
    let mut i: usize = 0;
    assert(events@ =~= gathered_events(replies@.take(0)));
    while i < replies.len()
        invariant
            i <= replies@.len(),
            events@ == gathered_events(replies@.take(i as int)),
            queries@.len() == events@.len(),
            forall|k: int|
                0 <= k < queries@.len() ==> (#[trigger] queries@[k]) as int == gathered(
                    replies@.take(i as int),
                )[k].1 && queries@[k] < i,
        decreases replies@.len() - i,
    {
        let ghost seen = gathered(replies@.take(i as int));
        let ghost now = gathered(replies@.take(i + 1));
        assert(replies@.take(i + 1).drop_last() == replies@.take(i as int));
        match &replies[i] {
            Ok(found) => {
                let ghost tagged = found@.map_values(|e: EventInfo| (e, i as int));
                assert(now =~= seen + tagged);
                let mut j: usize = 0;
                while j < found.len()
                    invariant
                        i < replies@.len(),
                        j <= found@.len(),
                        seen.len() + j == events@.len(),
                        queries@.len() == events@.len(),
                        tagged == found@.map_values(|e: EventInfo| (e, i as int)),
                        events@ =~= seen.map_values(|g: (EventInfo, int)| g.0) + found@.take(
                            j as int,
                        ),
                        forall|k: int|
                            0 <= k < queries@.len() ==> (#[trigger] queries@[k]) as int == (seen
                                + tagged)[k].1 && queries@[k] <= i,
                    decreases found@.len() - j,
                {
                    events.push(found[j].clone());
                    queries.push(i);
                    assert((seen + tagged)[seen.len() + j] == tagged[j as int]);
                    j = j + 1;
                }
                assert(found@.take(found@.len() as int) == found@);
                assert(events@ =~= gathered_events(replies@.take(i + 1)));
            },
            Err(_) => {},
        }
        i = i + 1;
    }
    assert(replies@.take(replies@.len() as int) == replies@);
    (events, queries)
}

/// Nothing is lost on a timeline: of every record one event stands on it, the one
/// that came first, and every event without a record number does.
pub proof fn law_timeline_is_complete(
    places: Seq<int>,
    ids: Seq<Option<u64>>,
    times: Seq<Option<Seq<char>>>,
    p: int,
)
    requires
        is_timeline(places, ids, times),
        times.len() == ids.len(),
        ids.len() <= usize::MAX,
        0 <= p < ids.len(),
    ensures
        ids[p] is None ==> places.contains(p),
        ids[p] is Some ==> exists|a: int|
            0 <= a < places.len() && 0 <= #[trigger] places[a] <= p && ids[places[a]] == ids[p],
    decreases p,
{
    let kept = kept_places(ids, ids.len() as int);
    lemma_kept_places(ids, ids.len() as int);
    let order = choose|order: Seq<usize>| #[trigger]
        is_stable_order(time_keys(times, kept), order) && places == order.map_values(
            |k: usize| kept[k as int],
        );
    if seen_before(ids, p) {
        let k = choose|k: int| 0 <= k < p && #[trigger] ids[k] == ids[p];
        law_timeline_is_complete(places, ids, times, k);
    } else {
        assert(kept.contains(p));
        let k = choose|k: int| 0 <= k < kept.len() && kept[k] == p;
        assert(order.contains(k as usize));
        let a = choose|a: int| 0 <= a < order.len() && order[a] == k as usize;
        assert(places[a] == p);
        assert(places.contains(p));
    }
}

/// Every gathered event came with the reply to its query, and everything that came
/// is gathered.
pub proof fn law_everything_is_gathered(replies: Seq<Reply>)
    ensures
        forall|i: int|
            0 <= i < gathered(replies).len() ==> {
                let (e, q) = #[trigger] gathered(replies)[i];
                0 <= q < replies.len() && replies[q] is Ok && replies[q]->Ok_0@.contains(e)
            },
        forall|q: int, k: int|
            0 <= q < replies.len() && replies[q] is Ok && 0 <= k < replies[q]->Ok_0@.len()
                ==> gathered(replies).contains((#[trigger] replies[q]->Ok_0@[k], q)),
    decreases replies.len(),
{
    if replies.len() > 0 {
        let rest = replies.drop_last();
        let last = replies.len() - 1;
        law_everything_is_gathered(rest);
        let before = gathered(rest);
        let all = gathered(replies);
        assert forall|i: int| 0 <= i < all.len() implies {
            let (e, q) = #[trigger] all[i];
            0 <= q < replies.len() && replies[q] is Ok && replies[q]->Ok_0@.contains(e)
        } by {
            if i < before.len() {
                assert(all[i] == before[i]);
                assert(rest[before[i].1] == replies[before[i].1]);
            } else {
                let own = replies[last]->Ok_0@;
                assert(all[i] == (own[i - before.len()], last));
            }
        }
        assert forall|q: int, k: int|
            0 <= q < replies.len() && replies[q] is Ok && 0 <= k
                < replies[q]->Ok_0@.len() implies all.contains(
            (#[trigger] replies[q]->Ok_0@[k], q),
        ) by {
            let e = replies[q]->Ok_0@[k];
            if q < last {
                assert(rest[q] == replies[q]);
                assert(before.contains((rest[q]->Ok_0@[k], q)));
                let i = choose|i: int| 0 <= i < before.len() && before[i] == (e, q);
                assert(all[i] == (e, q));
            } else {
                assert(all[before.len() + k] == (e, q));
            }
        }
    }
}

/// What stands on a timeline is one of the events.
pub proof fn lemma_timeline_range(
    places: Seq<int>,
    ids: Seq<Option<u64>>,
    times: Seq<Option<Seq<char>>>,
    i: int,
)
    requires
        is_timeline(places, ids, times),
        0 <= i < places.len(),
    ensures
        0 <= places[i] < ids.len(),
{
    let kept = kept_places(ids, ids.len() as int);
    lemma_kept_places(ids, ids.len() as int);
    let order = choose|order: Seq<usize>| #[trigger]
        is_stable_order(time_keys(times, kept), order) && places == order.map_values(
            |k: usize| kept[k as int],
        );
    assert(order[i] < time_keys(times, kept).len());
    assert(places[i] == kept[order[i] as int]);
}

} // verus!
