use vstd::prelude::*;

verus! {

/// The value of a 64-bit counter that held `x` after `by` is added: counters
/// wrap around, as the atomic cells that publish them do.
pub open spec fn counter_sum(x: u64, by: u64) -> u64 {
    if x + by <= u64::MAX {
        (x + by) as u64
    } else {
        (x + by - 0x1_0000_0000_0000_0000) as u64
    }
}

/// `x` brought into the range of a signed 64-bit gauge, for `x` within one
/// full turn of that range.
pub open spec fn gauge_wrap(x: int) -> i64 {
    if x > i64::MAX {
        (x - 0x1_0000_0000_0000_0000) as i64
    } else if x < i64::MIN {
        (x + 0x1_0000_0000_0000_0000) as i64
    } else {
        x as i64
    }
}

/// A byte count as the signed amount by which it moves a gauge.
pub open spec fn gauge_amount(bytes: u64) -> int {
    if bytes > i64::MAX {
        bytes - 0x1_0000_0000_0000_0000
    } else {
        bytes as int
    }
}

/// Adds `by` to a counter.
pub fn counter_add(x: u64, by: u64) -> (r: u64)
    ensures
        r == counter_sum(x, by),
{
    if by <= u64::MAX - x {
        x + by
    } else {
        by - (u64::MAX - x) - 1
    }
}

/// Moves a gauge by `bytes`, up or down.
pub fn gauge_move(x: i64, bytes: u64, up: bool) -> (r: i64)
    ensures
        r == gauge_wrap(
            if up {
                x + gauge_amount(bytes)
            } else {
                x - gauge_amount(bytes)
            },
        ),
{
    let amount: i128 = if bytes > 0x7fff_ffff_ffff_ffff {
        bytes as i128 - 0x1_0000_0000_0000_0000
    } else {
        bytes as i128
    };
    let wide: i128 = if up {
        x as i128 + amount
    } else {
        x as i128 - amount
    };
    if wide > 0x7fff_ffff_ffff_ffff {
        (wide - 0x1_0000_0000_0000_0000) as i64
    } else if wide < -0x8000_0000_0000_0000 {
        (wide + 0x1_0000_0000_0000_0000) as i64
    } else {
        wide as i64
    }
}

/// The counters and the gauge of one cache.
#[derive(Clone, Copy, Debug, PartialEq, Eq, Structural)]
pub struct CacheMetrics {
    /// Lookups that found a published object.
    pub lookup_hits: u64,
    /// Hit handlers that were finished.
    pub served_hits: u64,
    /// Lookups that found nothing, and miss handlers asked for.
    pub misses: u64,
    /// Objects published.
    pub inserts: u64,
    /// Purges asked for.
    pub purge_attempts: u64,
    /// Purges that removed a body.
    pub evictions: u64,
    /// Sum of the lengths of the bodies removed.
    pub evicted_bytes: u64,
    /// Bytes held: those found at start, plus those published, minus those
    /// removed.
    pub size_bytes: i64,
}

impl CacheMetrics {
    /// Fresh counters, and a gauge that starts at the size that an earlier
    /// run left behind.
    pub fn new(prev_size: i64) -> (m: CacheMetrics)
        ensures
            m == (CacheMetrics {
                lookup_hits: 0,
                served_hits: 0,
                misses: 0,
                inserts: 0,
                purge_attempts: 0,
                evictions: 0,
                evicted_bytes: 0,
                size_bytes: prev_size,
            }),
    {
        CacheMetrics {
            lookup_hits: 0,
            served_hits: 0,
            misses: 0,
            inserts: 0,
            purge_attempts: 0,
            evictions: 0,
            evicted_bytes: 0,
            size_bytes: prev_size,
        }
    }

    /// The metrics after a body of `bytes` bytes is published.
    pub open spec fn admitted(self, bytes: u64) -> CacheMetrics {
        CacheMetrics {
            inserts: counter_sum(self.inserts, 1),
            size_bytes: gauge_wrap(self.size_bytes + gauge_amount(bytes)),
            ..self
        }
    }

    /// The metrics after a purge that was asked for has ended: with a body of
    /// `bytes` bytes removed, or with nothing removed.
    pub open spec fn purged(self, existed: bool, bytes: u64) -> CacheMetrics {
        if existed {
            CacheMetrics {
                evictions: counter_sum(self.evictions, 1),
                evicted_bytes: counter_sum(self.evicted_bytes, bytes),
                size_bytes: gauge_wrap(self.size_bytes - gauge_amount(bytes)),
                ..self
            }
        } else {
            self
        }
    }

    /// Counts a lookup that found a published object.
    pub fn record_lookup_hit(&mut self)
        ensures
            *final(self) == (CacheMetrics {
                lookup_hits: counter_sum(old(self).lookup_hits, 1),
                ..*old(self)
            }),
    {
        self.lookup_hits = counter_add(self.lookup_hits, 1);
    }

    /// Counts a hit handler that was finished.
    pub fn record_served_hit(&mut self)
        ensures
            *final(self) == (CacheMetrics {
                served_hits: counter_sum(old(self).served_hits, 1),
                ..*old(self)
            }),
    {
        self.served_hits = counter_add(self.served_hits, 1);
    }

    /// Counts a miss.
    pub fn record_miss(&mut self)
        ensures
            *final(self) == (CacheMetrics { misses: counter_sum(old(self).misses, 1), ..*old(self) }),
    {
        self.misses = counter_add(self.misses, 1);
    }

    /// Counts a purge that was asked for.
    pub fn record_purge_attempt(&mut self)
        ensures
            *final(self) == (CacheMetrics {
                purge_attempts: counter_sum(old(self).purge_attempts, 1),
                ..*old(self)
            }),
    {
        self.purge_attempts = counter_add(self.purge_attempts, 1);
    }

    /// Counts a published body of `bytes` bytes.
    pub fn record_insert(&mut self, bytes: u64)
        ensures
            *final(self) == old(self).admitted(bytes),
    {
        self.inserts = counter_add(self.inserts, 1);
        self.size_bytes = gauge_move(self.size_bytes, bytes, true);
    }

    /// Counts the end of a purge.
    pub fn record_purge(&mut self, existed: bool, bytes: u64)
        ensures
            *final(self) == old(self).purged(existed, bytes),
    {
        if existed {
            self.evictions = counter_add(self.evictions, 1);
            self.evicted_bytes = counter_add(self.evicted_bytes, bytes);
            self.size_bytes = gauge_move(self.size_bytes, bytes, false);
        }
    }
}

/// What changes the number of bytes that a cache holds.
pub enum SizeEvent {
    /// A body of this many bytes was published.
    Admitted(u64),
    /// A body of this many bytes was removed by a purge.
    Purged(u64),
}

/// The bytes that `events` add to a cache, those removed counting against
/// those published.
pub open spec fn net_bytes(events: Seq<SizeEvent>) -> int
    decreases events.len(),
{
    if events.len() == 0 {
        0
    } else {
        net_bytes(events.drop_last()) + (match events.last() {
            SizeEvent::Admitted(n) => n as int,
            SizeEvent::Purged(n) => -(n as int),
        })
    }
}

/// The metrics after `events`, in their order.
pub open spec fn after_events(metrics: CacheMetrics, events: Seq<SizeEvent>) -> CacheMetrics
    decreases events.len(),
{
    if events.len() == 0 {
        metrics
    } else {
        let before = after_events(metrics, events.drop_last());
        match events.last() {
            SizeEvent::Admitted(n) => before.admitted(n),
            SizeEvent::Purged(n) => before.purged(true, n),
        }
    }
}

/// Whether the size of a cache that starts at `seed` stays within the range
/// of its gauge all through `events`, none of which moves more bytes than
/// the gauge can hold.
pub open spec fn size_in_range(seed: i64, events: Seq<SizeEvent>) -> bool {
    forall|k: int|
        0 <= k <= events.len() ==> {
            &&& i64::MIN <= seed + #[trigger] net_bytes(events.take(k)) <= i64::MAX
            &&& k < events.len() ==> (match events[k] {
                SizeEvent::Admitted(n) => n <= i64::MAX,
                SizeEvent::Purged(n) => n <= i64::MAX,
            })
        }
}

/// The size gauge is the size that the cache started with, plus the lengths
/// of all bodies published since, minus the lengths of all bodies purged:
/// as long as that number stays within the range of the gauge.
pub proof fn law_size_is_seed_plus_net(metrics: CacheMetrics, events: Seq<SizeEvent>)
    requires
        size_in_range(metrics.size_bytes, events),
    ensures
        after_events(metrics, events).size_bytes == metrics.size_bytes + net_bytes(events),
    decreases events.len(),
{
    if events.len() > 0 {
        let front = events.drop_last();
        assert forall|k: int| 0 <= k <= front.len() implies {
            &&& i64::MIN <= metrics.size_bytes + #[trigger] net_bytes(front.take(k)) <= i64::MAX
            &&& k < front.len() ==> (match front[k] {
                SizeEvent::Admitted(n) => n <= i64::MAX,
                SizeEvent::Purged(n) => n <= i64::MAX,
            })
        } by {
            assert(front.take(k) =~= events.take(k));
            if k < front.len() {
                assert(front[k] == events[k]);
            }
        }
        law_size_is_seed_plus_net(metrics, front);
        assert(events.take(events.len() as int) =~= events);
        assert(events.take(events.len() - 1) =~= front);
        let k = events.len() - 1;
        assert(i64::MIN <= metrics.size_bytes + net_bytes(events.take(k)) <= i64::MAX);
        assert(i64::MIN <= metrics.size_bytes + net_bytes(events.take(events.len() as int))
            <= i64::MAX);
    }
}

} // verus!
