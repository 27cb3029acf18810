//! Per-sender fixed-window rate limiting.
//!
//! Each peer has a record `(window_start, count)`. A message starts a new
//! window when the peer is unseen or when more than the interval has passed
//! since the window started; otherwise it adds one to the count. A message is
//! accepted when the count, after the update, is at most the maximum.
use crate::peer::PeerIdentifier;
use std::time::{Duration, Instant};
use vstd::prelude::*;

verus! {

/// Length of one rate-limit window, in milliseconds.
pub const RATE_LIMIT_INTERVAL_MS: u64 = 60_000;

/// Messages a peer may send within one window.
pub const MAX_MESSAGES_PER_INTERVAL: usize = 100;

#[verifier::external_type_specification]
#[verifier::external_body]
pub struct ExInstant(Instant);

/// Relies on `Instant::now`: reads the monotonic clock.
#[verifier::external_body]
fn clock_now() -> (r: Instant) {
    Instant::now()
}

/// Relies on `Instant::elapsed`: the time since `origin`.
#[verifier::external_body]
fn elapsed_since(origin: &Instant) -> (r: Duration) {
    origin.elapsed()
}

/// Relies on `Duration::as_millis`: the whole milliseconds of `d`.
#[verifier::external_body]
fn whole_millis(d: &Duration) -> (r: u128) {
    d.as_millis()
}

/// Time from `start` to `now`; zero when `now` lies before `start`.
pub open spec fn elapsed(start: u64, now: u64) -> int {
    if now >= start {
        now - start
    } else {
        0
    }
}

/// The count after one more message in the same window. The count stops at
/// `usize::MAX`, far above the maximum, so acceptance is unaffected.
pub open spec fn bumped(count: usize) -> usize {
    if count < usize::MAX {
        (count + 1) as usize
    } else {
        count
    }
}

/// The record of a peer after a message at time `now`, given its record
/// before (`None` for an unseen peer).
pub open spec fn next_record(rec: Option<(u64, usize)>, now: u64) -> (u64, usize) {
    match rec {
        None => (now, 1),
        Some((start, count)) => if elapsed(start, now) > RATE_LIMIT_INTERVAL_MS {
            (now, 1)
        } else {
            (start, bumped(count))
        },
    }
}

/// Whether a record after an update admits the message.
pub open spec fn admits(rec: (u64, usize)) -> bool {
    rec.1 <= MAX_MESSAGES_PER_INTERVAL
}

/// The record of `peer` in a table, if any.
pub open spec fn record_of(m: Map<Seq<u8>, (u64, usize)>, peer: Seq<u8>) -> Option<(u64, usize)> {
    if m.contains_key(peer) {
        Some(m[peer])
    } else {
        None
    }
}

/// The table after a message from `peer` at time `now`.
pub open spec fn after_message(m: Map<Seq<u8>, (u64, usize)>, peer: Seq<u8>, now: u64) -> Map<
    Seq<u8>,
    (u64, usize),
> {
    m.insert(peer, next_record(record_of(m, peer), now))
}

/// Whether a message from `peer` at time `now` is accepted by the table `m`.
pub open spec fn accepts(m: Map<Seq<u8>, (u64, usize)>, peer: Seq<u8>, now: u64) -> bool {
    admits(next_record(record_of(m, peer), now))
}

/// The verdicts on messages from `peer` at the successive times `times`,
/// starting from the table `m`.
pub open spec fn verdicts(m: Map<Seq<u8>, (u64, usize)>, peer: Seq<u8>, times: Seq<u64>) -> Seq<
    bool,
>
    decreases times.len(),
{
    if times.len() == 0 {
        Seq::empty()
    } else {
        seq![accepts(m, peer, times[0])] + verdicts(
            after_message(m, peer, times[0]),
            peer,
            times.drop_first(),
        )
    }
}

proof fn lemma_verdicts_in_window(
    m: Map<Seq<u8>, (u64, usize)>,
    peer: Seq<u8>,
    start: u64,
    count: usize,
    times: Seq<u64>,
)
    requires
        m.contains_key(peer),
        m[peer] == (start, count),
        count + times.len() < usize::MAX,
        forall|i: int| 0 <= i < times.len() ==> start <= #[trigger] times[i] <= start + RATE_LIMIT_INTERVAL_MS,
    ensures
        verdicts(m, peer, times).len() == times.len(),
        forall|i: int|
            0 <= i < times.len() ==> #[trigger] verdicts(m, peer, times)[i] == (count + i + 1
                <= MAX_MESSAGES_PER_INTERVAL),
    decreases times.len(),
{
    if times.len() > 0 {
        let m1 = after_message(m, peer, times[0]);
        let rest = times.drop_first();
        assert(m1[peer] == (start, (count + 1) as usize));
        assert forall|i: int| 0 <= i < rest.len() implies start <= #[trigger] rest[i] <= start
            + RATE_LIMIT_INTERVAL_MS by {
            assert(rest[i] == times[i + 1]);
        }
        lemma_verdicts_in_window(m1, peer, start, (count + 1) as usize, rest);
        let v = verdicts(m, peer, times);
        assert forall|i: int| 0 <= i < times.len() implies #[trigger] v[i] == (count + i + 1
            <= MAX_MESSAGES_PER_INTERVAL) by {
            if i > 0 {
                assert(v[i] == verdicts(m1, peer, rest)[i - 1]);
            }
        }
    }
}

/// The table after messages from `peer` at the successive times `times`,
/// starting from the table `m`.
pub open spec fn replay(m: Map<Seq<u8>, (u64, usize)>, peer: Seq<u8>, times: Seq<u64>) -> Map<
    Seq<u8>,
    (u64, usize),
>
    decreases times.len(),
{
    if times.len() == 0 {
        m
    } else {
        replay(after_message(m, peer, times[0]), peer, times.drop_first())
    }
}

proof fn lemma_replay_in_window(
    m: Map<Seq<u8>, (u64, usize)>,
    peer: Seq<u8>,
    start: u64,
    count: usize,
    times: Seq<u64>,
)
    requires
        m.contains_key(peer),
        m[peer] == (start, count),
        count + times.len() < usize::MAX,
        forall|i: int| 0 <= i < times.len() ==> start <= #[trigger] times[i] <= start + RATE_LIMIT_INTERVAL_MS,
    ensures
        replay(m, peer, times).contains_key(peer),
        replay(m, peer, times)[peer] == (start, (count + times.len()) as usize),
    decreases times.len(),
{
    if times.len() > 0 {
        let m1 = after_message(m, peer, times[0]);
        let rest = times.drop_first();
        assert(m1[peer] == (start, (count + 1) as usize));
        assert forall|i: int| 0 <= i < rest.len() implies start <= #[trigger] rest[i] <= start
            + RATE_LIMIT_INTERVAL_MS by {
            assert(rest[i] == times[i + 1]);
        }
        lemma_replay_in_window(m1, peer, start, (count + 1) as usize, rest);
    }
}

/// Within one window, a peer that was unseen has its first
/// `MAX_MESSAGES_PER_INTERVAL` messages accepted and the next one rejected;
/// after its `k`-th message its record is the window's start and `k`.
/// The window is the interval that starts at the first message's time.
pub proof fn lemma_window_capacity(m: Map<Seq<u8>, (u64, usize)>, peer: Seq<u8>, times: Seq<u64>)
    requires
        !m.contains_key(peer),
        times.len() == MAX_MESSAGES_PER_INTERVAL + 1,
        forall|i: int|
            0 <= i < times.len() ==> times[0] <= #[trigger] times[i] <= times[0]
                + RATE_LIMIT_INTERVAL_MS,
    ensures
        verdicts(m, peer, times).len() == times.len(),
        forall|i: int| 0 <= i < MAX_MESSAGES_PER_INTERVAL ==> #[trigger] verdicts(m, peer, times)[i],
        !verdicts(m, peer, times)[MAX_MESSAGES_PER_INTERVAL as int],
        forall|k: int|
            1 <= k <= times.len() ==> #[trigger] replay(m, peer, times.take(k))[peer] == (
                times[0],
                k as usize,
            ),
{
    let m1 = after_message(m, peer, times[0]);
    let rest = times.drop_first();
    assert forall|k: int| 1 <= k <= times.len() implies #[trigger] replay(m, peer, times.take(k))[peer]
        == (times[0], k as usize) by {
        let ts = times.take(k);
        let tail = ts.drop_first();
        assert(tail =~= rest.take(k - 1));
        assert forall|i: int| 0 <= i < tail.len() implies times[0] <= #[trigger] tail[i] <= times[0]
            + RATE_LIMIT_INTERVAL_MS by {
            assert(tail[i] == times[i + 1]);
        }
        assert(m1[peer] == (times[0], 1usize));
        lemma_replay_in_window(m1, peer, times[0], 1, tail);
        assert(replay(m, peer, ts) == replay(m1, peer, tail));
    }
    assert forall|i: int| 0 <= i < rest.len() implies times[0] <= #[trigger] rest[i] <= times[0]
        + RATE_LIMIT_INTERVAL_MS by {
        assert(rest[i] == times[i + 1]);
    }
    lemma_verdicts_in_window(m1, peer, times[0], 1, rest);
    let v = verdicts(m, peer, times);
    assert forall|i: int| 0 <= i < MAX_MESSAGES_PER_INTERVAL implies #[trigger] v[i] by {
        if i > 0 {
            assert(v[i] == verdicts(m1, peer, rest)[i - 1]);
        }
    }
    assert(v[MAX_MESSAGES_PER_INTERVAL as int] == verdicts(m1, peer, rest)[MAX_MESSAGES_PER_INTERVAL
        - 1]);
}

/// One peer's record.
struct RateRecord {
    peer: Vec<u8>,
    window_start: u64,
    count: usize,
}

/// Fixed-window message counter, one record per peer.
pub struct RateLimiter {
    origin: Instant,
    records: Vec<RateRecord>,
}

impl View for RateLimiter {
    type V = Map<Seq<u8>, (u64, usize)>;

    closed spec fn view(&self) -> Map<Seq<u8>, (u64, usize)> {
        Map::new(
            |p: Seq<u8>| exists|i: int| 0 <= i < self.records@.len() && self.records@[i].peer@ == p,
            |p: Seq<u8>|
                {
                    let i = choose|i: int| 0 <= i < self.records@.len() && self.records@[i].peer@ == p;
                    (self.records@[i].window_start, self.records@[i].count)
                },
        )
    }
}

impl RateLimiter {
    /// Records hold pairwise distinct peers.
    pub closed spec fn wf(&self) -> bool {
        forall|i: int, j: int|
            0 <= i < self.records@.len() && 0 <= j < self.records@.len() && i != j
                ==> self.records@[i].peer@ != self.records@[j].peer@
    }

    proof fn lemma_view_at(&self, i: int)
        requires
            self.wf(),
            0 <= i < self.records@.len(),
        ensures
            self@.contains_key(self.records@[i].peer@),
            self@[self.records@[i].peer@] == (self.records@[i].window_start, self.records@[i].count),
    {
        let p = self.records@[i].peer@;
        let j = choose|j: int| 0 <= j < self.records@.len() && self.records@[j].peer@ == p;
        assert(j == i);
    }

    /// A limiter with no records, whose clock starts now.
    pub fn new() -> (r: RateLimiter)
        ensures
            r.wf(),
            r@ == Map::<Seq<u8>, (u64, usize)>::empty(),
    {
        let r = RateLimiter { origin: clock_now(), records: Vec::new() };
        assert(r@ =~= Map::<Seq<u8>, (u64, usize)>::empty());
        r
    }

    /// Milliseconds on this limiter's clock, which starts when the limiter
    /// is made. The clock reads as `u64::MAX` once it has run past what that holds.
    pub fn now_millis(&self) -> u64 {
        let ms = whole_millis(&elapsed_since(&self.origin));
        if ms > u64::MAX as u128 {
            u64::MAX
        } else {
            ms as u64
        }
    }

    /// Index of the record of `peer`, if there is one.
    fn find(&self, peer: &Vec<u8>) -> (r: Option<usize>)
        requires
            self.wf(),
        ensures
            r matches Some(i) ==> i < self.records@.len() && self.records@[i as int].peer@ == peer@,
            r is None ==> !self@.contains_key(peer@),
    {
        let mut i: usize = 0;
        while i < self.records.len()
            invariant
                i <= self.records@.len(),
                forall|k: int| 0 <= k < i ==> self.records@[k].peer@ != peer@,
            decreases self.records@.len() - i,
        {
            if crate::peer::bytes_equal(&self.records[i].peer, peer) {
                return Some(i);
            }
            i = i + 1;
        }
        None
    }

    /// Records a message from `peer` at time `now` (milliseconds on any
    /// clock that the caller uses consistently) and says whether it is
    /// accepted.
    pub fn check_rate_limit_at(&mut self, peer: &PeerIdentifier, now: u64) -> (r: bool)
        requires
            old(self).wf(),
        ensures
            final(self).wf(),
            final(self)@ == after_message(old(self)@, peer@, now),
            r == accepts(old(self)@, peer@, now),
            !old(self)@.contains_key(peer@) ==> r && final(self)@[peer@] == (now, 1usize),
            old(self)@.contains_key(peer@) && elapsed(old(self)@[peer@].0, now)
                > RATE_LIMIT_INTERVAL_MS ==> r && final(self)@[peer@] == (now, 1usize),
    {
        let key = peer.to_bytes();
        let ghost m0 = self@;
        match self.find(&key) {
            None => {
                self.records.push(RateRecord { peer: key, window_start: now, count: 1 });
                let ghost n = self.records@.len() - 1;
                assert forall|i: int, j: int|
                    0 <= i < self.records@.len() && 0 <= j < self.records@.len() && i != j
                        implies self.records@[i].peer@ != self.records@[j].peer@ by {
                    if i == n || j == n {
                        let k = if i == n { j } else { i };
                        assert(old(self).records@[k] == self.records@[k]);
                        if self.records@[k].peer@ == peer@ {
                            old(self).lemma_view_at(k);
                        }
                    }
                }
                proof {
                    self.lemma_view_at(n);
                }
                assert(self@ =~= after_message(m0, peer@, now)) by {
                    assert forall|p: Seq<u8>| #[trigger] self@.contains_key(p) == after_message(m0, peer@, now).contains_key(p) by {
                        if self@.contains_key(p) && p != peer@ {
                            let i = choose|i: int| 0 <= i < self.records@.len() && self.records@[i].peer@ == p;
                            assert(old(self).records@[i] == self.records@[i]);
                        }
                        if m0.contains_key(p) {
                            let i = choose|i: int| 0 <= i < old(self).records@.len() && old(self).records@[i].peer@ == p;
                            assert(old(self).records@[i] == self.records@[i]);
                        }
                    }
                    assert forall|p: Seq<u8>| #[trigger] self@.contains_key(p) && p != peer@ implies self@[p] == m0[p] by {
                        let i = choose|i: int| 0 <= i < self.records@.len() && self.records@[i].peer@ == p;
                        assert(old(self).records@[i] == self.records@[i]);
                        self.lemma_view_at(i);
                        old(self).lemma_view_at(i);
                    }
                }
                true
            },
            Some(i) => {
                proof {
                    self.lemma_view_at(i as int);
                }
                let start = self.records[i].window_start;
                let count = self.records[i].count;
                let elapsed_ms: u64 = if now >= start { now - start } else { 0 };
                let (new_start, new_count) = if elapsed_ms > RATE_LIMIT_INTERVAL_MS {
                    (now, 1usize)
                } else if count < usize::MAX {
                    (start, count + 1)
                } else {
                    (start, count)
                };
                let kept = crate::peer::copy_bytes(&self.records[i].peer);
                self.records.set(i, RateRecord { peer: kept, window_start: new_start, count: new_count });
                assert forall|a: int, b: int|
                    0 <= a < self.records@.len() && 0 <= b < self.records@.len() && a != b
                        implies self.records@[a].peer@ != self.records@[b].peer@ by {
                    assert(self.records@[a].peer@ == old(self).records@[a].peer@);
                    assert(self.records@[b].peer@ == old(self).records@[b].peer@);
                }
                proof {
                    self.lemma_view_at(i as int);
                }
                assert(self@ =~= after_message(m0, peer@, now)) by {
                    assert forall|p: Seq<u8>| #[trigger] self@.contains_key(p) == after_message(m0, peer@, now).contains_key(p) by {
                        if self@.contains_key(p) {
                            let k = choose|k: int| 0 <= k < self.records@.len() && self.records@[k].peer@ == p;
                            assert(old(self).records@[k].peer@ == self.records@[k].peer@);
                        }
                        if m0.contains_key(p) {
                            let k = choose|k: int| 0 <= k < old(self).records@.len() && old(self).records@[k].peer@ == p;
                            assert(old(self).records@[k].peer@ == self.records@[k].peer@);
                        }
                    }
                    assert forall|p: Seq<u8>| #[trigger] self@.contains_key(p) && p != peer@ implies self@[p] == m0[p] by {
                        let k = choose|k: int| 0 <= k < self.records@.len() && self.records@[k].peer@ == p;
                        assert(old(self).records@[k] == self.records@[k]);
                        self.lemma_view_at(k);
                        old(self).lemma_view_at(k);
                    }
                }
                new_count <= MAX_MESSAGES_PER_INTERVAL
            },
        }
    }

    /// Records a message from `peer` now and says whether it is accepted.
    pub fn check_rate_limit(&mut self, peer: &PeerIdentifier) -> (r: bool)
        requires
            old(self).wf(),
        ensures
            final(self).wf(),
            exists|now: u64|
                final(self)@ == after_message(old(self)@, peer@, now) && r == accepts(
                    old(self)@,
                    peer@,
                    now,
                ),
            !old(self)@.contains_key(peer@) ==> r,
    {
        let now = self.now_millis();
        self.check_rate_limit_at(peer, now)
    }
}

} // verus!
