use vstd::prelude::*;

verus! {

/// What a scheduled entry delivers when it fires.
#[derive(Debug, Clone, Copy, PartialEq, Eq, Structural)]
pub enum ScheduledDeviceEvent {
    TimerExpiry,
    VBlank,
    DmaCompletion { channel: u8 },
    ServiceWake { pid: u32 },
}

impl ScheduledDeviceEvent {
    /// Rank among events that fire at the same cycle: timer, V-blank, DMA, wake.
    pub open spec fn rank(self) -> u8 {
        match self {
            ScheduledDeviceEvent::TimerExpiry => 0,
            ScheduledDeviceEvent::VBlank => 1,
            ScheduledDeviceEvent::DmaCompletion { .. } => 2,
            ScheduledDeviceEvent::ServiceWake { .. } => 3,
        }
    }

    pub fn priority(self) -> (rank: u8)
        ensures
            rank == self.rank(),
    {
        match self {
            ScheduledDeviceEvent::TimerExpiry => 0,
            ScheduledDeviceEvent::VBlank => 1,
            ScheduledDeviceEvent::DmaCompletion { .. } => 2,
            ScheduledDeviceEvent::ServiceWake { .. } => 3,
        }
    }
}

/// A pending entry: when it fires, when it was inserted, and what it delivers.
#[derive(Debug, Clone, Copy, PartialEq, Eq, Structural)]
pub struct ScheduledEvent {
    pub at_cycle: u64,
    pub order: u64,
    pub event: ScheduledDeviceEvent,
}

/// Delivery order: by fire-at cycle, then by event rank, then by insertion.
pub open spec fn delivered_by(a: ScheduledEvent, b: ScheduledEvent) -> bool {
    a.at_cycle < b.at_cycle || (a.at_cycle == b.at_cycle && (a.event.rank() < b.event.rank() || (
    a.event.rank() == b.event.rank() && a.order <= b.order)))
}

/// Whether every entry is delivered by the entries after it.
pub open spec fn in_delivery_order(s: Seq<ScheduledEvent>) -> bool {
    forall|i: int, j: int| 0 <= i < j < s.len() ==> delivered_by(#[trigger] s[i], #[trigger] s[j])
}

/// Index of the first entry at or after `from` that `e` must be delivered before.
pub open spec fn slot_for(s: Seq<ScheduledEvent>, e: ScheduledEvent, from: int) -> int
    decreases s.len() - from,
{
    if from < 0 || from >= s.len() {
        s.len() as int
    } else if !delivered_by(s[from], e) {
        from
    } else {
        slot_for(s, e, from + 1)
    }
}

/// An ordered sequence with one more entry put in its place.
pub open spec fn placed(s: Seq<ScheduledEvent>, e: ScheduledEvent) -> Seq<ScheduledEvent> {
    s.insert(slot_for(s, e, 0), e)
}

/// The entries in delivery order.
pub open spec fn delivery_order(s: Seq<ScheduledEvent>) -> Seq<ScheduledEvent>
    decreases s.len(),
{
    if s.len() == 0 {
        Seq::empty()
    } else {
        placed(delivery_order(s.drop_last()), s.last())
    }
}

/// The entries that have fired by cycle `now`, in insertion order.
pub open spec fn due(pending: Seq<ScheduledEvent>, now: u64) -> Seq<ScheduledEvent>
    decreases pending.len(),
{
    if pending.len() == 0 {
        Seq::empty()
    } else if pending.last().at_cycle <= now {
        due(pending.drop_last(), now).push(pending.last())
    } else {
        due(pending.drop_last(), now)
    }
}

/// The entries that have not fired by cycle `now`, in insertion order.
pub open spec fn not_due(pending: Seq<ScheduledEvent>, now: u64) -> Seq<ScheduledEvent>
    decreases pending.len(),
{
    if pending.len() == 0 {
        Seq::empty()
    } else if pending.last().at_cycle <= now {
        not_due(pending.drop_last(), now)
    } else {
        not_due(pending.drop_last(), now).push(pending.last())
    }
}

/// What the entries deliver.
pub open spec fn payloads(s: Seq<ScheduledEvent>) -> Seq<ScheduledDeviceEvent> {
    Seq::new(s.len(), |i: int| s[i].event)
}

/// Model of the scheduler.
pub struct SchedulerModel {
    pub cycles: u64,
    pub next_order: u64,
    pub pending: Seq<ScheduledEvent>,
}

pub open spec fn saturating_sum(a: u64, b: u64) -> u64 {
    if a + b > u64::MAX {
        u64::MAX
    } else {
        (a + b) as u64
    }
}

impl SchedulerModel {
    pub open spec fn initial() -> SchedulerModel {
        SchedulerModel { cycles: 0, next_order: 0, pending: Seq::empty() }
    }

    pub open spec fn ticked(self, cycles: u32) -> SchedulerModel {
        SchedulerModel { cycles: saturating_sum(self.cycles, cycles as u64), ..self }
    }

    pub open spec fn scheduled_at(self, at_cycle: u64, event: ScheduledDeviceEvent) -> SchedulerModel {
        SchedulerModel {
            next_order: saturating_sum(self.next_order, 1),
            pending: self.pending.push(
                ScheduledEvent { at_cycle, order: self.next_order, event },
            ),
            ..self
        }
    }

    pub open spec fn scheduled_in(self, delay: u64, event: ScheduledDeviceEvent) -> SchedulerModel {
        self.scheduled_at(saturating_sum(self.cycles, delay), event)
    }

    /// What a drain delivers: the due entries in delivery order.
    pub open spec fn drained(self) -> Seq<ScheduledDeviceEvent> {
        payloads(delivery_order(due(self.pending, self.cycles)))
    }

    /// The scheduler after a drain: only the entries that are not due remain.
    pub open spec fn after_drain(self) -> SchedulerModel {
        SchedulerModel { pending: not_due(self.pending, self.cycles), ..self }
    }
}

/// Cycle counter with a list of deferred device events.
pub struct Scheduler {
    cycles: u64,
    next_order: u64,
    pending: Vec<ScheduledEvent>,
}

impl View for Scheduler {
    type V = SchedulerModel;

    closed spec fn view(&self) -> SchedulerModel {
        SchedulerModel { cycles: self.cycles, next_order: self.next_order, pending: self.pending@ }
    }
}

fn before_or_equal(a: &ScheduledEvent, b: &ScheduledEvent) -> (r: bool)
    ensures
        r == delivered_by(*a, *b),
{
    a.at_cycle < b.at_cycle || (a.at_cycle == b.at_cycle && (a.event.priority()
        < b.event.priority() || (a.event.priority() == b.event.priority() && a.order <= b.order)))
}

fn place(sorted: &mut Vec<ScheduledEvent>, e: ScheduledEvent)
    ensures
        final(sorted)@ == placed(old(sorted)@, e),
{
    let mut i: usize = 0;
    while i < sorted.len() && before_or_equal(&sorted[i], &e)
        invariant
            i <= sorted@.len(),
            sorted@ == old(sorted)@,
            slot_for(sorted@, e, 0) == slot_for(sorted@, e, i as int),
        decreases sorted@.len() - i,
    {
        i += 1;
    }
    sorted.insert(i, e);
}

impl Scheduler {
    pub fn new() -> (scheduler: Self)
        ensures
            scheduler@ == SchedulerModel::initial(),
    {
        Scheduler { cycles: 0, next_order: 0, pending: Vec::new() }
    }

    pub fn reset(&mut self)
        ensures
            final(self)@ == SchedulerModel::initial(),
    {
        self.cycles = 0;
        self.next_order = 0;
        self.pending.clear();
    }

    /// Advances the cycle counter, saturating at its maximum.
    pub fn tick(&mut self, cycles: u32)
        ensures
            final(self)@ == old(self)@.ticked(cycles),
            final(self)@.cycles >= old(self)@.cycles,
    {
        self.cycles = self.cycles.saturating_add(cycles as u64);
    }

    /// Schedules `event` to fire `cycles_from_now` cycles after the current one.
    pub fn schedule_in(&mut self, cycles_from_now: u64, event: ScheduledDeviceEvent)
        ensures
            final(self)@ == old(self)@.scheduled_in(cycles_from_now, event),
    {
        let at_cycle = self.cycles.saturating_add(cycles_from_now);
        self.schedule_at(at_cycle, event);
    }

    /// Schedules `event` to fire once the cycle counter has reached `at_cycle`.
    pub fn schedule_at(&mut self, at_cycle: u64, event: ScheduledDeviceEvent)
        ensures
            final(self)@ == old(self)@.scheduled_at(at_cycle, event),
    {
        let entry = ScheduledEvent { at_cycle, order: self.next_order, event };
        self.next_order = self.next_order.saturating_add(1);
        self.pending.push(entry);
    }

    /// Removes the entries whose fire-at cycle has been reached and returns what
    /// they deliver, ordered by fire-at cycle, then event rank, then insertion.
    pub fn drain_due_events(&mut self) -> (events: Vec<ScheduledDeviceEvent>)
        ensures
            events@ == old(self)@.drained(),
            final(self)@ == old(self)@.after_drain(),
    {
        let ghost all = self.pending@;
        let now = self.cycles;
        let mut fired: Vec<ScheduledEvent> = Vec::new();
        let mut remain: Vec<ScheduledEvent> = Vec::new();
        let mut i: usize = 0;
        while i < self.pending.len()
            invariant
                i <= all.len(),
                self.pending@ == all,
                self.cycles == now,
                self.next_order == old(self).next_order,
                fired@ == delivery_order(due(all.subrange(0, i as int), now)),
                remain@ == not_due(all.subrange(0, i as int), now),
            decreases all.len() - i,
        {
            let entry = self.pending[i];
            assert(all.subrange(0, i + 1).drop_last() =~= all.subrange(0, i as int));
            assert(all.subrange(0, i + 1).last() == entry);
            if entry.at_cycle <= now {
                let ghost before = due(all.subrange(0, i as int), now);
                assert(before.push(entry).drop_last() =~= before);
                assert(before.push(entry).last() == entry);
                place(&mut fired, entry);
            } else {
                remain.push(entry);
            }
            i += 1;
        }
        assert(all.subrange(0, all.len() as int) =~= all);
        self.pending = remain;
        let mut events: Vec<ScheduledDeviceEvent> = Vec::new();
        let mut k: usize = 0;
        while k < fired.len()
            invariant
                k <= fired@.len(),
                events@ == payloads(fired@).subrange(0, k as int),
            decreases fired@.len() - k,
        {
            events.push(fired[k].event);
            assert(events@ =~= payloads(fired@).subrange(0, k + 1));
            k += 1;
        }
        assert(payloads(fired@).subrange(0, fired@.len() as int) =~= payloads(fired@));
        events
    }

    pub fn cycles(&self) -> (cycles: u64)
        ensures
            cycles == self@.cycles,
    {
        self.cycles
    }
}

impl Default for Scheduler {
    fn default() -> (scheduler: Self)
        ensures
            scheduler@ == SchedulerModel::initial(),
    {
        Scheduler::new()
    }
}

/// The slot found for an entry lies behind everything that is delivered by it and
/// in front of the first entry that is not.
pub proof fn lemma_slot_for(s: Seq<ScheduledEvent>, e: ScheduledEvent, from: int)
    requires
        0 <= from <= s.len(),
    ensures
        from <= slot_for(s, e, from) <= s.len(),
        forall|i: int| from <= i < slot_for(s, e, from) ==> delivered_by(#[trigger] s[i], e),
        slot_for(s, e, from) < s.len() ==> !delivered_by(s[slot_for(s, e, from)], e),
    decreases s.len() - from,
{
    if from < s.len() && delivered_by(s[from], e) {
        lemma_slot_for(s, e, from + 1);
    }
}

/// Placing an entry keeps the delivery order, adds exactly that entry, and keeps
/// every other one.
pub proof fn lemma_placed(s: Seq<ScheduledEvent>, e: ScheduledEvent)
    requires
        in_delivery_order(s),
    ensures
        in_delivery_order(placed(s, e)),
        placed(s, e).len() == s.len() + 1,
        forall|x: ScheduledEvent| placed(s, e).contains(x) <==> (x == e || s.contains(x)),
{
    lemma_slot_for(s, e, 0);
    let k = slot_for(s, e, 0);
    let p = placed(s, e);
    assert forall|i: int, j: int| 0 <= i < j < p.len() implies delivered_by(
        #[trigger] p[i],
        #[trigger] p[j],
    ) by {
        if j == k {
            assert(p[i] == s[i]);
        } else if i == k {
            assert(p[j] == s[j - 1]);
            assert(!delivered_by(s[k], e));
            if j - 1 > k {
                assert(delivered_by(s[k], s[j - 1]));
            }
        } else {
            let si = if i < k {
                i
            } else {
                i - 1
            };
            let sj = if j < k {
                j
            } else {
                j - 1
            };
            assert(p[i] == s[si] && p[j] == s[sj]);
        }
    }
    assert forall|x: ScheduledEvent| p.contains(x) <==> (x == e || s.contains(x)) by {
        if p.contains(x) {
            let i = choose|i: int| 0 <= i < p.len() && p[i] == x;
            if i < k {
                assert(s[i] == x);
            } else if i > k {
                assert(s[i - 1] == x);
            }
        }
        if x == e {
            assert(p[k] == x);
        }
        if s.contains(x) {
            let i = choose|i: int| 0 <= i < s.len() && s[i] == x;
            if i < k {
                assert(p[i] == x);
            } else {
                assert(p[i + 1] == x);
            }
        }
    }
}

/// The delivery order of any entries is ordered by fire-at cycle, event rank and
/// insertion, and holds exactly the entries given.
pub proof fn lemma_delivery_order(s: Seq<ScheduledEvent>)
    ensures
        in_delivery_order(delivery_order(s)),
        delivery_order(s).len() == s.len(),
        forall|x: ScheduledEvent| delivery_order(s).contains(x) <==> s.contains(x),
    decreases s.len(),
{
    if s.len() > 0 {
        let front = s.drop_last();
        lemma_delivery_order(front);
        lemma_placed(delivery_order(front), s.last());
        assert forall|x: ScheduledEvent| delivery_order(s).contains(x) <==> s.contains(x) by {
            if s.contains(x) {
                let i = choose|i: int| 0 <= i < s.len() && s[i] == x;
                if i < s.len() - 1 {
                    assert(front[i] == x);
                }
            }
            if front.contains(x) {
                let i = choose|i: int| 0 <= i < front.len() && front[i] == x;
                assert(s[i] == x);
            }
            assert(s[s.len() - 1] == s.last());
        }
    }
}

/// The due entries are those of the pending list that have fired, the others are
/// those that have not; together they are the whole list.
pub proof fn lemma_due_split(pending: Seq<ScheduledEvent>, now: u64)
    ensures
        forall|x: ScheduledEvent| due(pending, now).contains(x) <==> (pending.contains(x) && x.at_cycle <= now),
        forall|x: ScheduledEvent| not_due(pending, now).contains(x) <==> (pending.contains(x) && x.at_cycle > now),
        due(pending, now).len() + not_due(pending, now).len() == pending.len(),
    decreases pending.len(),
{
    if pending.len() > 0 {
        let front = pending.drop_last();
        let last = pending.last();
        lemma_due_split(front, now);
        assert forall|x: ScheduledEvent| due(pending, now).contains(x) <==> (pending.contains(x)
            && x.at_cycle <= now) by {
            if pending.contains(x) {
                let i = choose|i: int| 0 <= i < pending.len() && pending[i] == x;
                if i < pending.len() - 1 {
                    assert(front[i] == x);
                }
            }
            if front.contains(x) {
                let i = choose|i: int| 0 <= i < front.len() && front[i] == x;
                assert(pending[i] == x);
            }
            assert(pending[pending.len() - 1] == last);
            if last.at_cycle <= now {
                let d = due(front, now);
                assert(d.push(last)[d.len() as int] == last);
                if d.push(last).contains(x) {
                    let i = choose|i: int| 0 <= i < d.push(last).len() && d.push(last)[i] == x;
                    if i < d.len() {
                        assert(d[i] == x);
                    }
                }
                if d.contains(x) {
                    let i = choose|i: int| 0 <= i < d.len() && d[i] == x;
                    assert(d.push(last)[i] == x);
                }
            }
        }
        assert forall|x: ScheduledEvent| not_due(pending, now).contains(x) <==> (pending.contains(x)
            && x.at_cycle > now) by {
            if pending.contains(x) {
                let i = choose|i: int| 0 <= i < pending.len() && pending[i] == x;
                if i < pending.len() - 1 {
                    assert(front[i] == x);
                }
            }
            if front.contains(x) {
                let i = choose|i: int| 0 <= i < front.len() && front[i] == x;
                assert(pending[i] == x);
            }
            assert(pending[pending.len() - 1] == last);
            if last.at_cycle > now {
                let d = not_due(front, now);
                assert(d.push(last)[d.len() as int] == last);
                if d.push(last).contains(x) {
                    let i = choose|i: int| 0 <= i < d.push(last).len() && d.push(last)[i] == x;
                    if i < d.len() {
                        assert(d[i] == x);
                    }
                }
                if d.contains(x) {
                    let i = choose|i: int| 0 <= i < d.len() && d[i] == x;
                    assert(d.push(last)[i] == x);
                }
            }
        }
    }
}

/// Nothing is due in a list from which the due entries were removed.
pub proof fn lemma_nothing_due_after_drain(pending: Seq<ScheduledEvent>, now: u64)
    ensures
        due(not_due(pending, now), now) == Seq::<ScheduledEvent>::empty(),
        not_due(not_due(pending, now), now) == not_due(pending, now),
    decreases pending.len(),
{
    if pending.len() > 0 {
        lemma_nothing_due_after_drain(pending.drop_last(), now);
        if pending.last().at_cycle > now {
            let d = not_due(pending.drop_last(), now);
            assert(d.push(pending.last()).drop_last() =~= d);
        }
    }
}

/// A drain delivers exactly the entries whose fire-at cycle is not later than the
/// current cycle, ordered by fire-at cycle, then event rank, then insertion order;
/// a second drain at the same cycle delivers nothing and changes nothing. The
/// cycle counter never runs backwards.
pub proof fn law_drain_order_is_stable(s: SchedulerModel, cycles: u32)
    ensures
        in_delivery_order(delivery_order(due(s.pending, s.cycles))),
        forall|x: ScheduledEvent|
            delivery_order(due(s.pending, s.cycles)).contains(x) <==> (s.pending.contains(x)
                && x.at_cycle <= s.cycles),
        s.drained().len() == due(s.pending, s.cycles).len(),
        s.after_drain().drained() == Seq::<ScheduledDeviceEvent>::empty(),
        s.after_drain().after_drain() == s.after_drain(),
        s.ticked(cycles).cycles >= s.cycles,
        s.after_drain().cycles == s.cycles,
{
    lemma_delivery_order(due(s.pending, s.cycles));
    lemma_due_split(s.pending, s.cycles);
    lemma_nothing_due_after_drain(s.pending, s.cycles);
    assert(s.after_drain().drained() =~= Seq::<ScheduledDeviceEvent>::empty());
}

/// Scheduling relative to now is scheduling at the current cycle plus the delay.
pub proof fn law_schedule_in_is_schedule_at(s: SchedulerModel, delay: u64, event: ScheduledDeviceEvent)
    requires
        s.cycles + delay <= u64::MAX,
    ensures
        s.scheduled_in(delay, event) == s.scheduled_at((s.cycles + delay) as u64, event),
{
}

} // verus!
