use vstd::prelude::*;
use crate::packet::{PacketView, ScheduledPacket};
use crate::status::StatusCode;
use crate::tick::{due, is_due, tick_delta, ticks_between};

verus! {

/// The limits that a queue is made with.
#[derive(Clone, Copy, Debug, PartialEq, Eq, Structural)]
pub struct QueueConfig {
    /// Most packets that the queue holds at once.
    pub capacity: usize,
    /// A packet must lie less than this many ticks behind now.
    pub grace: u32,
    /// A packet may lie at most this many ticks ahead of now.
    pub horizon: u32,
    /// Two reservations must lie at least this many ticks apart.
    pub guard: u32,
}

/// A stretch of ticks kept free for a beacon: `length` ticks from `start` on.
#[derive(Clone, Copy, Debug, PartialEq, Eq, Structural)]
pub struct BeaconWindow {
    pub start: u32,
    pub length: u32,
}

/// Whether `tick` lies closer than `guard` ticks to the stretch of `length`
/// ticks that begins at `start`: strictly between the point `guard` ticks
/// before its start and the point `guard` ticks after its end.
pub open spec fn near(guard: u32, start: u32, length: u32, tick: u32) -> bool {
    let d = tick_delta(start, tick);
    -(guard as int) < d && d < length as int + guard as int
}

/// Where a packet scheduled at `tick` goes among `entries`, as seen from
/// `now`: just after the last entry that is not later than it.
pub open spec fn slot_of(entries: Seq<PacketView>, now: u32, tick: u32) -> int
    decreases entries.len(),
{
    if entries.len() == 0 {
        0
    } else if tick_delta(now, entries.last().count_us) <= tick_delta(now, tick) {
        entries.len() as int
    } else {
        slot_of(entries.drop_last(), now, tick)
    }
}

/// Index of the entry that is scheduled earliest as seen from `now`, the
/// first of them where several share that tick; 0 for an empty sequence.
pub open spec fn earliest_of(entries: Seq<PacketView>, now: u32) -> int
    decreases entries.len(),
{
    if entries.len() <= 1 {
        0
    } else {
        let k = earliest_of(entries.drop_last(), now);
        if tick_delta(now, entries.last().count_us) < tick_delta(now, entries[k].count_us) {
            entries.len() - 1
        } else {
            k
        }
    }
}

/// Whether `entries` ascend in time as seen from `now`.
pub open spec fn ascending(entries: Seq<PacketView>, now: u32) -> bool {
    forall|i: int, j: int|
        0 <= i < j < entries.len() ==> tick_delta(now, #[trigger] entries[i].count_us)
            <= tick_delta(now, #[trigger] entries[j].count_us)
}

/// A queue as a mathematical value: its limits, the beacon windows reserved
/// in it, and the pending packets in the order in which it keeps them.
pub struct QueueModel {
    pub config: QueueConfig,
    pub beacons: Seq<BeaconWindow>,
    pub entries: Seq<PacketView>,
}

impl QueueModel {
    /// The queue never holds more than its capacity.
    pub open spec fn wf(self) -> bool {
        self.entries.len() <= self.config.capacity
    }

    /// The queue holds as many packets as it may.
    pub open spec fn full(self) -> bool {
        self.entries.len() >= self.config.capacity
    }

    /// `tick` lies at or behind the point `grace` ticks before `now`.
    pub open spec fn too_late(self, now: u32, tick: u32) -> bool {
        tick_delta(now, tick) <= -(self.config.grace as int)
    }

    /// `tick` lies more than `horizon` ticks ahead of `now`.
    pub open spec fn too_early(self, now: u32, tick: u32) -> bool {
        tick_delta(now, tick) > self.config.horizon as int
    }

    /// `tick` lies closer than the guard interval to a pending packet.
    pub open spec fn hits_packet(self, tick: u32) -> bool {
        exists|i: int|
            0 <= i < self.entries.len() && near(
                self.config.guard,
                (#[trigger] self.entries[i]).count_us,
                0,
                tick,
            )
    }

    /// `tick` lies closer than the guard interval to a reserved beacon window.
    pub open spec fn hits_beacon(self, tick: u32) -> bool {
        exists|i: int|
            0 <= i < self.beacons.len() && near(
                self.config.guard,
                (#[trigger] self.beacons[i]).start,
                self.beacons[i].length,
                tick,
            )
    }

    /// What the queue answers to a packet scheduled at `tick` that is offered
    /// at `now`. A full queue refuses whatever the timing; then lateness
    /// counts, then earliness, then a pending packet nearby, then a beacon.
    pub open spec fn verdict(self, now: u32, tick: u32) -> StatusCode {
        if self.full() {
            StatusCode::QueueFull
        } else if self.too_late(now, tick) {
            StatusCode::TooLate
        } else if self.too_early(now, tick) {
            StatusCode::TooEarly
        } else if self.hits_packet(tick) {
            StatusCode::CollisionPacket
        } else if self.hits_beacon(tick) {
            StatusCode::CollisionBeacon
        } else {
            StatusCode::Accepted
        }
    }

    /// The queue with `packet` put in its place as seen from `now`.
    pub open spec fn inserted(self, now: u32, packet: PacketView) -> QueueModel {
        QueueModel {
            entries: self.entries.insert(slot_of(self.entries, now, packet.count_us), packet),
            ..self
        }
    }

    /// The queue after `packet` was offered at `now`.
    pub open spec fn offered(self, now: u32, packet: PacketView) -> QueueModel {
        if self.verdict(now, packet.count_us) == StatusCode::Accepted {
            self.inserted(now, packet)
        } else {
            self
        }
    }

    /// Index of the packet that leaves next as seen from `now`.
    pub open spec fn earliest(self, now: u32) -> int {
        earliest_of(self.entries, now)
    }

    /// There is a pending packet, and the earliest one is due at `now`.
    pub open spec fn has_due(self, now: u32) -> bool {
        self.entries.len() > 0 && is_due(now, self.entries[self.earliest(now)].count_us)
    }

    /// The queue without the packet that leaves at `now`; unchanged where
    /// none is due.
    pub open spec fn popped(self, now: u32) -> QueueModel {
        if self.has_due(now) {
            QueueModel { entries: self.entries.remove(self.earliest(now)), ..self }
        } else {
            self
        }
    }

    /// With a beacon window added to the reserved ones.
    pub open spec fn reserved(self, window: BeaconWindow) -> QueueModel {
        QueueModel { beacons: self.beacons.push(window), ..self }
    }
}

/// Whether `tick` lies closer than `guard` to the stretch from `start`.
pub fn is_near(guard: u32, start: u32, length: u32, tick: u32) -> (r: bool)
    ensures
        r == near(guard, start, length, tick),
{
    let d: i64 = ticks_between(start, tick);
    -(guard as i64) < d && d < length as i64 + guard as i64
}

/// The `slot_of` position bounds the entries round it: none from it on is at
/// or before `tick`, and the one before it is not later than `tick`.
pub proof fn lemma_slot_of(entries: Seq<PacketView>, now: u32, tick: u32)
    ensures
        0 <= slot_of(entries, now, tick) <= entries.len(),
        slot_of(entries, now, tick) > 0 ==> tick_delta(
            now,
            entries[slot_of(entries, now, tick) - 1].count_us,
        ) <= tick_delta(now, tick),
        forall|j: int|
            slot_of(entries, now, tick) <= j < entries.len() ==> tick_delta(
                now,
                (#[trigger] entries[j]).count_us,
            ) > tick_delta(now, tick),
    decreases entries.len(),
{
    if entries.len() > 0 && !(tick_delta(now, entries.last().count_us) <= tick_delta(now, tick)) {
        let front = entries.drop_last();
        lemma_slot_of(front, now, tick);
        let k = slot_of(front, now, tick);
        assert(k > 0 ==> front[k - 1] == entries[k - 1]);
        assert forall|j: int| k <= j < entries.len() implies tick_delta(
            now,
            (#[trigger] entries[j]).count_us,
        ) > tick_delta(now, tick) by {
            if j < front.len() {
                assert(front[j] == entries[j]);
            }
        }
    }
}

/// The `earliest_of` index names an entry that none precedes in time, and
/// before which every entry is strictly later.
pub proof fn lemma_earliest_of(entries: Seq<PacketView>, now: u32)
    requires
        entries.len() > 0,
    ensures
        0 <= earliest_of(entries, now) < entries.len(),
        forall|j: int|
            0 <= j < entries.len() ==> tick_delta(
                now,
                entries[earliest_of(entries, now)].count_us,
            ) <= tick_delta(now, (#[trigger] entries[j]).count_us),
        forall|j: int|
            0 <= j < earliest_of(entries, now) ==> tick_delta(
                now,
                entries[earliest_of(entries, now)].count_us,
            ) < tick_delta(now, (#[trigger] entries[j]).count_us),
    decreases entries.len(),
{
    if entries.len() > 1 {
        let front = entries.drop_last();
        lemma_earliest_of(front, now);
        let k = earliest_of(front, now);
        assert(front[k] == entries[k]);
        assert forall|j: int| 0 <= j < entries.len() implies tick_delta(
            now,
            entries[earliest_of(entries, now)].count_us,
        ) <= tick_delta(now, (#[trigger] entries[j]).count_us) by {
            if j < front.len() {
                assert(front[j] == entries[j]);
            }
        }
        assert forall|j: int| 0 <= j < earliest_of(entries, now) implies tick_delta(
            now,
            entries[earliest_of(entries, now)].count_us,
        ) < tick_delta(now, (#[trigger] entries[j]).count_us) by {
            if j < front.len() {
                assert(front[j] == entries[j]);
            }
        }
    }
}

/// An index with the two properties of `lemma_earliest_of` is the earliest.
pub proof fn lemma_earliest_unique(entries: Seq<PacketView>, now: u32, k: int)
    requires
        0 <= k < entries.len(),
        forall|j: int|
            0 <= j < entries.len() ==> tick_delta(now, entries[k].count_us) <= tick_delta(
                now,
                (#[trigger] entries[j]).count_us,
            ),
        forall|j: int|
            0 <= j < k ==> tick_delta(now, entries[k].count_us) < tick_delta(
                now,
                (#[trigger] entries[j]).count_us,
            ),
    ensures
        earliest_of(entries, now) == k,
{
    lemma_earliest_of(entries, now);
    let e = earliest_of(entries, now);
    if e < k {
        assert(tick_delta(now, entries[k].count_us) < tick_delta(now, entries[e].count_us));
        assert(tick_delta(now, entries[e].count_us) <= tick_delta(now, entries[k].count_us));
    } else if k < e {
        assert(tick_delta(now, entries[e].count_us) < tick_delta(now, entries[k].count_us));
        assert(tick_delta(now, entries[k].count_us) <= tick_delta(now, entries[e].count_us));
    }
}

/// A packet put in its place keeps an ascending queue ascending, as seen from
/// the tick at which it was offered.
pub proof fn lemma_insert_keeps_ascending(q: QueueModel, now: u32, packet: PacketView)
    requires
        ascending(q.entries, now),
    ensures
        ascending(q.inserted(now, packet).entries, now),
{
    let k = slot_of(q.entries, now, packet.count_us);
    lemma_slot_of(q.entries, now, packet.count_us);
    let after = q.inserted(now, packet).entries;
    assert forall|i: int, j: int| 0 <= i < j < after.len() implies tick_delta(
        now,
        #[trigger] after[i].count_us,
    ) <= tick_delta(now, #[trigger] after[j].count_us) by {
        let a = if i < k { i } else { i - 1 };
        let b = if j < k { j } else { j - 1 };
        if i != k {
            assert(after[i] == q.entries[a]);
        }
        if j != k {
            assert(after[j] == q.entries[b]);
        }
        if j == k {
            assert(k > 0);
            assert(tick_delta(now, q.entries[i].count_us) <= tick_delta(
                now,
                q.entries[k - 1].count_us,
            ));
        }
    }
}

/// In a queue that ascends as seen from `now`, the packet that leaves next
/// is the first one.
pub proof fn lemma_ascending_head(entries: Seq<PacketView>, now: u32)
    requires
        entries.len() > 0,
        ascending(entries, now),
    ensures
        earliest_of(entries, now) == 0,
{
    lemma_earliest_unique(entries, now, 0);
}

/// A packet that the queue accepted comes out again, and leaves the queue as
/// it was before, at any tick at which it is due, unless a packet that was
/// pending before is due then as well and not scheduled after it.
pub proof fn lemma_enqueue_then_pop(q: QueueModel, now: u32, packet: PacketView, later: u32)
    requires
        q.verdict(now, packet.count_us) == StatusCode::Accepted,
        is_due(later, packet.count_us),
        forall|i: int|
            0 <= i < q.entries.len() ==> !(is_due(later, (#[trigger] q.entries[i]).count_us)
                && tick_delta(later, q.entries[i].count_us) <= tick_delta(
                later,
                packet.count_us,
            )),
    ensures
        q.offered(now, packet).has_due(later),
        q.offered(now, packet).entries[q.offered(now, packet).earliest(later)] == packet,
        q.offered(now, packet).popped(later) == q,
{
    let k = slot_of(q.entries, now, packet.count_us);
    lemma_slot_of(q.entries, now, packet.count_us);
    let after = q.offered(now, packet).entries;
    assert(after[k] == packet);
    assert forall|j: int| 0 <= j < after.len() && j != k implies tick_delta(
        later,
        packet.count_us,
    ) < tick_delta(later, (#[trigger] after[j]).count_us) by {
        let b = if j < k { j } else { j - 1 };
        assert(after[j] == q.entries[b]);
    }
    lemma_earliest_unique(after, later, k);
    assert(after.remove(k) =~= q.entries);
}

/// The queue holds what was accepted and has not left: an accepted packet
/// adds itself once and moves no other, and a pop takes out the one packet
/// that it returns.
pub proof fn lemma_contents(q: QueueModel, now: u32, packet: PacketView)
    ensures
        q.verdict(now, packet.count_us) == StatusCode::Accepted ==> q.offered(
            now,
            packet,
        ).entries.to_multiset() == q.entries.to_multiset().insert(packet),
        q.verdict(now, packet.count_us) != StatusCode::Accepted ==> q.offered(now, packet) == q,
        q.has_due(now) ==> q.popped(now).entries.to_multiset() == q.entries.to_multiset().remove(
            q.entries[q.earliest(now)],
        ),
        !q.has_due(now) ==> q.popped(now) == q,
{
    if q.verdict(now, packet.count_us) == StatusCode::Accepted {
        lemma_slot_of(q.entries, now, packet.count_us);
        vstd::seq_lib::to_multiset_insert(
            q.entries,
            slot_of(q.entries, now, packet.count_us),
            packet,
        );
    }
    if q.has_due(now) {
        lemma_earliest_of(q.entries, now);
        vstd::seq_lib::to_multiset_remove(q.entries, q.earliest(now));
    }
}

/// The views of `items`, in their order.
pub open spec fn views(items: Seq<ScheduledPacket>) -> Seq<PacketView> {
    items.map_values(|p: ScheduledPacket| p@)
}

/// The pending transmissions of one concentrator, bounded in number and kept
/// in the order of their ticks. Each operation is one step: a caller that
/// shares the queue holds its lock for exactly one call.
pub struct TimeQueue {
    config: QueueConfig,
    beacons: Vec<BeaconWindow>,
    items: Vec<ScheduledPacket>,
}

impl View for TimeQueue {
    type V = QueueModel;

    closed spec fn view(&self) -> QueueModel {
        QueueModel { config: self.config, beacons: self.beacons@, entries: views(self.items@) }
    }
}

impl TimeQueue {
    /// An empty queue with the given limits and no beacon window reserved.
    pub fn new(config: QueueConfig) -> (q: TimeQueue)
        ensures
            q@.config == config,
            q@.beacons == Seq::<BeaconWindow>::empty(),
            q@.entries == Seq::<PacketView>::empty(),
            q@.wf(),
    {
        let q = TimeQueue { config, beacons: Vec::new(), items: Vec::new() };
        assert(views(q.items@) =~= Seq::<PacketView>::empty());
        q
    }

    /// The limits that the queue was made with.
    pub fn config(&self) -> (c: QueueConfig)
        ensures
            c == self@.config,
    {
        self.config
    }

    /// Number of pending packets.
    pub fn len(&self) -> (n: usize)
        ensures
            n == self@.entries.len(),
    {
        self.items.len()
    }

    /// Whether no packet is pending.
    pub fn is_empty(&self) -> (r: bool)
        ensures
            r == (self@.entries.len() == 0),
    {
        self.items.len() == 0
    }

    /// Whether the queue holds as many packets as it may.
    pub fn is_full(&self) -> (r: bool)
        ensures
            r == self@.full(),
    {
        self.items.len() >= self.config.capacity
    }

    /// Keeps the ticks of `window` free of packets that are offered from now
    /// on. Packets that are pending stay.
    pub fn reserve_beacon(&mut self, window: BeaconWindow)
        ensures
            final(self)@ == old(self)@.reserved(window),
    {
        self.beacons.push(window);
    }

    /// Gives up every reserved beacon window.
    pub fn clear_beacons(&mut self)
        ensures
            final(self)@ == (QueueModel { beacons: Seq::<BeaconWindow>::empty(), ..old(self)@ }),
    {
        self.beacons.clear();
    }

    fn near_packet(&self, tick: u32) -> (r: bool)
        ensures
            r == self@.hits_packet(tick),
    {
        let mut i: usize = 0;
        while i < self.items.len()
            invariant
                i <= self.items.len(),
                forall|j: int|
                    0 <= j < i ==> !near(
                        self.config.guard,
                        (#[trigger] self@.entries[j]).count_us,
                        0,
                        tick,
                    ),
            decreases self.items.len() - i,
        {
            if is_near(self.config.guard, self.items[i].count_us, 0, tick) {
                assert(self@.entries[i as int] == self.items[i as int]@);
                return true;
            }
            assert(self@.entries[i as int] == self.items[i as int]@);
            i += 1;
        }
        false
    }

    fn near_beacon(&self, tick: u32) -> (r: bool)
        ensures
            r == self@.hits_beacon(tick),
    {
        let mut i: usize = 0;
        while i < self.beacons.len()
            invariant
                i <= self.beacons.len(),
                forall|j: int|
                    0 <= j < i ==> !near(
                        self.config.guard,
                        (#[trigger] self@.beacons[j]).start,
                        self@.beacons[j].length,
                        tick,
                    ),
            decreases self.beacons.len() - i,
        {
            let w = self.beacons[i];
            if is_near(self.config.guard, w.start, w.length, tick) {
                assert(self@.beacons[i as int] == w);
                return true;
            }
            i += 1;
        }
        false
    }

    /// What the queue would answer at `now` to a packet scheduled at `tick`.
    /// The queue stays as it is.
    pub fn verdict(&self, now: u32, tick: u32) -> (code: StatusCode)
        ensures
            code == self@.verdict(now, tick),
    {
        let ahead: i64 = ticks_between(now, tick);
        if self.is_full() {
            StatusCode::QueueFull
        } else if ahead <= -(self.config.grace as i64) {
            StatusCode::TooLate
        } else if ahead > self.config.horizon as i64 {
            StatusCode::TooEarly
        } else if self.near_packet(tick) {
            StatusCode::CollisionPacket
        } else if self.near_beacon(tick) {
            StatusCode::CollisionBeacon
        } else {
            StatusCode::Accepted
        }
    }

    fn slot(&self, now: u32, tick: u32) -> (k: usize)
        ensures
            k == slot_of(self@.entries, now, tick),
            k <= self.items.len(),
    {
        let ahead: i64 = ticks_between(now, tick);
        let mut k: usize = self.items.len();
        assert(self@.entries.take(k as int) =~= self@.entries);
        while k > 0 && ticks_between(now, self.items[k - 1].count_us) > ahead
            invariant
                k <= self.items.len(),
                ahead == tick_delta(now, tick),
                slot_of(self@.entries, now, tick) == slot_of(
                    self@.entries.take(k as int),
                    now,
                    tick,
                ),
            decreases k,
        {
            proof {
                let cut = self@.entries.take(k as int);
                assert(cut.last() == self.items[k - 1]@);
                assert(cut.drop_last() =~= self@.entries.take(k - 1));
            }
            k -= 1;
        }
        proof {
            let cut = self@.entries.take(k as int);
            if k > 0 {
                assert(cut.last() == self.items[k - 1]@);
            }
        }
        k
    }

    /// Offers `packet` to the queue at tick `now`. The queue takes it exactly
    /// when `verdict` says `Accepted`, and puts it just after the pending
    /// packets that are not later than it; otherwise the queue stays as it
    /// was and the refusal says why.
    pub fn enqueue(&mut self, now: u32, packet: ScheduledPacket) -> (r: Result<(), StatusCode>)
        ensures
            final(self)@ == old(self)@.offered(now, packet@),
            old(self)@.wf() ==> final(self)@.wf(),
            match r {
                Ok(_) => old(self)@.verdict(now, packet.count_us) == StatusCode::Accepted,
                Err(code) => code == old(self)@.verdict(now, packet.count_us) && code
                    != StatusCode::Accepted,
            },
            old(self)@.full() ==> r == Err::<(), StatusCode>(StatusCode::QueueFull),
            !old(self)@.full() && old(self)@.too_late(now, packet.count_us) ==> r == Err::<
                (),
                StatusCode,
            >(StatusCode::TooLate),
            final(self)@.entries.len() == old(self)@.entries.len() + (if r is Ok {
                1int
            } else {
                0int
            }),
    {
        let code = self.verdict(now, packet.count_us);
        if !code.accepted() {
            return Err(code);
        }
        let k = self.slot(now, packet.count_us);
        assert(views(self.items@.insert(k as int, packet)) =~= views(self.items@).insert(
            k as int,
            packet@,
        ));
        self.items.insert(k, packet);
        Ok(())
    }

    fn earliest(&self, now: u32) -> (k: usize)
        requires
            self@.entries.len() > 0,
        ensures
            k == self@.earliest(now),
            k < self.items.len(),
    {
        let mut best: usize = 0;
        let mut best_ahead: i64 = ticks_between(now, self.items[0].count_us);
        let mut i: usize = 1;
        assert(self@.entries[0] == self.items[0]@);
        while i < self.items.len()
            invariant
                1 <= i <= self.items.len(),
                best < i,
                best_ahead == tick_delta(now, self@.entries[best as int].count_us),
                best == earliest_of(self@.entries.take(i as int), now),
            decreases self.items.len() - i,
        {
            let ahead: i64 = ticks_between(now, self.items[i].count_us);
            proof {
                let cut = self@.entries.take(i + 1);
                assert(cut.last() == self.items[i as int]@);
                assert(cut.drop_last() =~= self@.entries.take(i as int));
                assert(cut[best as int] == self@.entries[best as int]);
                assert(self@.entries[i as int] == self.items[i as int]@);
            }
            if ahead < best_ahead {
                best = i;
                best_ahead = ahead;
            }
            i += 1;
        }
        assert(self@.entries.take(i as int) =~= self@.entries);
        best
    }

    /// Takes out the packet that is scheduled earliest as seen from `now`, if
    /// it is due. Where the queue is empty or its earliest packet still lies
    /// ahead of `now`, nothing comes out and the queue stays as it was.
    pub fn pop(&mut self, now: u32) -> (r: Option<ScheduledPacket>)
        ensures
            final(self)@ == old(self)@.popped(now),
            old(self)@.wf() ==> final(self)@.wf(),
            match r {
                Some(p) => old(self)@.has_due(now) && p@ == old(self)@.entries[old(
                    self,
                )@.earliest(now)],
                None => !old(self)@.has_due(now),
            },
            r is None <==> old(self)@.entries.len() == 0 || !is_due(
                now,
                old(self)@.entries[old(self)@.earliest(now)].count_us,
            ),
    {
        if self.items.len() == 0 {
            return None;
        }
        let k = self.earliest(now);
        assert(self@.entries[k as int] == self.items[k as int]@);
        if !due(now, self.items[k].count_us) {
            return None;
        }
        assert(views(self.items@.remove(k as int)) =~= views(self.items@).remove(k as int));
        let p = self.items.remove(k);
        Some(p)
    }
}

} // verus!
