use vstd::prelude::*;
use priority_queue::PriorityQueue;
use std::cmp::Reverse;
use std::collections::hash_map::RandomState;

verus! {

#[verifier::external_type_specification]
#[verifier::external_body]
#[verifier::reject_recursive_types(I)]
#[verifier::reject_recursive_types(P)]
#[verifier::reject_recursive_types(H)]
pub struct ExPriorityQueue<I, P, H>(PriorityQueue<I, P, H>);

#[verifier::external_type_specification]
#[verifier::external_body]
#[verifier::reject_recursive_types(T)]
pub struct ExReverse<T>(Reverse<T>);

/// What a queue of events holds: each queued item with the cycle count at which it is due.
/// The queue keeps one entry per item.
pub uninterp spec fn queue_contents(q: PriorityQueue<u128, Reverse<usize>, RandomState>) -> Map<u128, usize>;

/// The contents of an empty queue.
pub open spec fn no_events() -> Map<u128, usize> {
    Map::empty()
}

/// `PriorityQueue::new`: an empty queue.
#[verifier::external_body]
fn queue_new() -> (q: PriorityQueue<u128, Reverse<usize>, RandomState>)
    ensures
        queue_contents(q) == no_events(),
{
    PriorityQueue::new()
}

/// `PriorityQueue::push`: inserts `item` due at `time`, or moves it to `time` if it is
/// already queued.
#[verifier::external_body]
fn queue_push(q: &mut PriorityQueue<u128, Reverse<usize>, RandomState>, item: u128, time: usize)
    ensures
        queue_contents(*final(q)) == queue_contents(*old(q)).insert(item, time),
{
    q.push(item, Reverse(time));
}

/// `PriorityQueue::remove`: drops `item` if it is queued.
#[verifier::external_body]
fn queue_remove(q: &mut PriorityQueue<u128, Reverse<usize>, RandomState>, item: u128)
    ensures
        queue_contents(*final(q)) == queue_contents(*old(q)).remove(item),
{
    q.remove(&item);
}

/// `PriorityQueue::peek`: an entry with the greatest priority, that is the earliest time
/// (which one among equal times is left open), or `None` when the queue is empty.
#[verifier::external_body]
fn queue_peek(q: &PriorityQueue<u128, Reverse<usize>, RandomState>) -> (r: Option<(u128, usize)>)
    ensures
        r is None <==> queue_contents(*q) == no_events(),
        r matches Some((item, time)) ==> {
            &&& queue_contents(*q).contains_key(item)
            &&& queue_contents(*q)[item] == time
            &&& forall|other: u128| #[trigger]
                queue_contents(*q).contains_key(other) ==> time <= queue_contents(*q)[other]
        },
{
    match q.peek() {
        Some((item, Reverse(time))) => Some((*item, *time)),
        None => None,
    }
}

/// `PriorityQueue::pop`: removes and returns an entry with the earliest time, or `None` when
/// the queue is empty.
#[verifier::external_body]
fn queue_pop(q: &mut PriorityQueue<u128, Reverse<usize>, RandomState>) -> (r: Option<(u128, usize)>)
    ensures
        r is None <==> queue_contents(*old(q)) == no_events(),
        r is None ==> queue_contents(*final(q)) == queue_contents(*old(q)),
        r matches Some((item, time)) ==> {
            &&& queue_contents(*old(q)).contains_key(item)
            &&& queue_contents(*old(q))[item] == time
            &&& forall|other: u128| #[trigger]
                queue_contents(*old(q)).contains_key(other) ==> time <= queue_contents(*old(q))[other]
            &&& queue_contents(*final(q)) == queue_contents(*old(q)).remove(item)
        },
{
    match q.pop() {
        Some((item, Reverse(time))) => Some((item, time)),
        None => None,
    }
}

/// `PriorityQueue::iter`: every queued item with its due time, each item once, in the
/// queue's internal order (which this contract leaves open).
#[verifier::external_body]
fn queue_entries(q: &PriorityQueue<u128, Reverse<usize>, RandomState>) -> (r: Vec<(u128, usize)>)
    ensures
        forall|i: int| #![trigger r@[i]] 0 <= i < r@.len() ==> queue_contents(*q).contains_key(r@[i].0)
            && queue_contents(*q)[r@[i].0] == r@[i].1,
        forall|i: int, j: int| #![trigger r@[i], r@[j]] 0 <= i < j < r@.len() ==> r@[i].0 != r@[j].0,
        forall|k: u128| #[trigger] queue_contents(*q).contains_key(k) ==> exists|i: int|
            0 <= i < r@.len() && r@[i].0 == k,
{
    q.iter().map(|(item, time)| (*item, time.0)).collect()
}

/// Something the emulator does at a given cycle.
#[derive(Copy, Clone, PartialEq, Eq, Structural)]
pub enum EventType {
    Vblank,
    HblankStart,
    HblankEnd,
    DmaFinished(usize),
    UnhaltDma(usize),
    TickCDRom,
    TickSpu,
    ControllerByteTransfer,
}

/// The queue key of an event: the variant in the low byte, a channel above it.
pub open spec fn event_code(e: EventType) -> u128 {
    match e {
        EventType::Vblank => 0,
        EventType::HblankStart => 1,
        EventType::HblankEnd => 2,
        EventType::DmaFinished(c) => (3 + 256 * (c as u128)) as u128,
        EventType::UnhaltDma(c) => (4 + 256 * (c as u128)) as u128,
        EventType::TickCDRom => 5,
        EventType::TickSpu => 6,
        EventType::ControllerByteTransfer => 7,
    }
}

/// The event with queue key `code`, if it is one.
pub open spec fn event_of_code(code: u128) -> Option<EventType> {
    let v = code % 256;
    let c = code / 256;
    if v == 0 && c == 0 {
        Some(EventType::Vblank)
    } else if v == 1 && c == 0 {
        Some(EventType::HblankStart)
    } else if v == 2 && c == 0 {
        Some(EventType::HblankEnd)
    } else if v == 3 && c <= usize::MAX {
        Some(EventType::DmaFinished(c as usize))
    } else if v == 4 && c <= usize::MAX {
        Some(EventType::UnhaltDma(c as usize))
    } else if v == 5 && c == 0 {
        Some(EventType::TickCDRom)
    } else if v == 6 && c == 0 {
        Some(EventType::TickSpu)
    } else if v == 7 && c == 0 {
        Some(EventType::ControllerByteTransfer)
    } else {
        None
    }
}

/// A key that decodes to an event is that event's key.
pub proof fn lemma_code_of_event(code: u128)
    requires
        event_of_code(code) is Some,
    ensures
        event_code(event_of_code(code)->0) == code,
{
    assert(code == 256 * (code / 256) + code % 256);
}

/// The events `m` with each saved entry of `saved` put back, in order.
pub open spec fn restored(m: Map<u128, usize>, saved: Seq<(EventType, usize)>) -> Map<u128, usize>
    decreases saved.len(),
{
    if saved.len() == 0 {
        m
    } else {
        restored(m, saved.drop_last()).insert(event_code(saved.last().0), saved.last().1)
    }
}

/// Decoding a queue key gives back the event it was made from.
pub proof fn lemma_event_code_roundtrip(e: EventType)
    ensures
        event_of_code(event_code(e)) == Some(e),
{
}

fn encode_event(e: EventType) -> (r: u128)
    ensures
        r == event_code(e),
{
    match e {
        EventType::Vblank => 0,
        EventType::HblankStart => 1,
        EventType::HblankEnd => 2,
        EventType::DmaFinished(c) => 3 + 256 * (c as u128),
        EventType::UnhaltDma(c) => 4 + 256 * (c as u128),
        EventType::TickCDRom => 5,
        EventType::TickSpu => 6,
        EventType::ControllerByteTransfer => 7,
    }
}

fn decode_event(code: u128) -> (r: Option<EventType>)
    ensures
        r == event_of_code(code),
{
    let v = code % 256;
    let c = code / 256;
    if v == 0 && c == 0 {
        Some(EventType::Vblank)
    } else if v == 1 && c == 0 {
        Some(EventType::HblankStart)
    } else if v == 2 && c == 0 {
        Some(EventType::HblankEnd)
    } else if v == 3 && c <= usize::MAX as u128 {
        Some(EventType::DmaFinished(c as usize))
    } else if v == 4 && c <= usize::MAX as u128 {
        Some(EventType::UnhaltDma(c as usize))
    } else if v == 5 && c == 0 {
        Some(EventType::TickCDRom)
    } else if v == 6 && c == 0 {
        Some(EventType::TickSpu)
    } else if v == 7 && c == 0 {
        Some(EventType::ControllerByteTransfer)
    } else {
        None
    }
}

/// Events ordered by the cycle at which they are due.
pub struct Scheduler {
    pub cycles: usize,
    pub queue: PriorityQueue<u128, Reverse<usize>, RandomState>,
}

impl Scheduler {
    /// The pending events with their due cycles.
    pub open spec fn events(&self) -> Map<u128, usize> {
        queue_contents(self.queue)
    }

    /// Every queued key is the key of an event, and there are finitely many.
    pub open spec fn wf(&self) -> bool {
        &&& self.events().dom().finite()
        &&& forall|k: u128| #[trigger] self.events().contains_key(k) ==> event_of_code(k) is Some
    }

    pub fn new() -> (r: Self)
        ensures
            r.wf(),
            r.cycles == 0,
            r.events() == no_events(),
    {
        Self { cycles: 0, queue: queue_new() }
    }

    /// The pending events with their due cycles, each event once, for a saved state.
    pub fn serialize_scheduler(&self) -> (r: Vec<(EventType, usize)>)
        requires
            self.wf(),
        ensures
            forall|i: int| #![trigger r@[i]] 0 <= i < r@.len() ==> self.events().contains_key(event_code(r@[i].0))
                && self.events()[event_code(r@[i].0)] == r@[i].1,
            forall|i: int, j: int| #![trigger r@[i], r@[j]] 0 <= i < j < r@.len() ==> r@[i].0 != r@[j].0,
            forall|k: u128| #[trigger] self.events().contains_key(k) ==> exists|i: int|
                0 <= i < r@.len() && event_code(r@[i].0) == k,
    {
        let entries = queue_entries(&self.queue);
        let mut r: Vec<(EventType, usize)> = Vec::new();
        let mut i: usize = 0;
        while i < entries.len()
            invariant
                self.wf(),
                i <= entries@.len(),
                r@.len() == i,
                forall|j: int| 0 <= j < entries@.len() ==> self.events().contains_key(#[trigger] entries@[j].0)
                    && self.events()[entries@[j].0] == entries@[j].1,
                forall|a: int, b: int| #![trigger entries@[a], entries@[b]] 0 <= a < b < entries@.len() ==> entries@[a].0 != entries@[b].0,
                forall|k: u128| #[trigger] self.events().contains_key(k) ==> exists|j: int|
                    0 <= j < entries@.len() && entries@[j].0 == k,
                forall|j: int| #![trigger r@[j]] 0 <= j < i ==> event_code(r@[j].0) == entries@[j].0 && r@[j].1 == entries@[j].1,
            decreases entries@.len() - i,
        {
            let (code, time) = entries[i];
            proof {
                assert(self.events().contains_key(entries@[i as int].0));
                lemma_code_of_event(code);
            }
            match decode_event(code) {
                Some(e) => r.push((e, time)),
                None => {},
            }
            i += 1;
        }
        proof {
            assert forall|a: int, b: int| #![trigger r@[a], r@[b]] 0 <= a < b < r@.len() implies r@[a].0 != r@[b].0 by {
                assert(entries@[a].0 != entries@[b].0);
            }
            assert forall|k: u128| #[trigger] self.events().contains_key(k) implies exists|j: int|
                0 <= j < r@.len() && event_code(r@[j].0) == k by {
                let j = choose|j: int| 0 <= j < entries@.len() && entries@[j].0 == k;
                assert(event_code(r@[j].0) == entries@[j].0);
            }
        }
        r
    }

    /// Puts saved events back: each entry is queued at its saved due cycle.
    pub fn deserialize_scheduler(&mut self, saved: &Vec<(EventType, usize)>)
        requires
            old(self).wf(),
        ensures
            final(self).wf(),
            final(self).cycles == old(self).cycles,
            final(self).events() == restored(old(self).events(), saved@),
    {
        let mut i: usize = 0;
        while i < saved.len()
            invariant
                self.wf(),
                i <= saved@.len(),
                self.cycles == old(self).cycles,
                self.events() == restored(old(self).events(), saved@.take(i as int)),
            decreases saved@.len() - i,
        {
            let (e, time) = saved[i];
            let code = encode_event(e);
            proof {
                lemma_event_code_roundtrip(e);
                assert(saved@.take(i + 1).drop_last() =~= saved@.take(i as int));
            }
            queue_push(&mut self.queue, code, time);
            i += 1;
        }
        proof {
            assert(saved@.take(saved@.len() as int) =~= saved@);
        }
    }

    /// Queues `event_type` to happen `time` cycles from now, replacing an earlier entry of the
    /// same event.
    pub fn schedule(&mut self, event_type: EventType, time: usize)
        requires
            old(self).wf(),
            old(self).cycles + time <= usize::MAX,
        ensures
            final(self).wf(),
            final(self).cycles == old(self).cycles,
            final(self).events() == old(self).events().insert(
                event_code(event_type),
                (old(self).cycles + time) as usize,
            ),
    {
        let code = encode_event(event_type);
        proof {
            lemma_event_code_roundtrip(event_type);
        }
        queue_push(&mut self.queue, code, self.cycles + time);
    }

    /// Drops `event_type` from the queue.
    pub fn remove(&mut self, event_type: EventType)
        requires
            old(self).wf(),
        ensures
            final(self).wf(),
            final(self).cycles == old(self).cycles,
            final(self).events() == old(self).events().remove(event_code(event_type)),
    {
        let code = encode_event(event_type);
        queue_remove(&mut self.queue, code);
    }

    /// Whether `time` is the earliest due cycle among the pending events.
    pub open spec fn is_earliest(&self, time: usize) -> bool {
        &&& exists|k: u128| #[trigger] self.events().contains_key(k) && self.events()[k] == time
        &&& forall|k: u128| #[trigger] self.events().contains_key(k) ==> time <= self.events()[k]
    }

    /// Takes the next event if it is due: the event and how many cycles late it is. Which of
    /// several events due at the same cycle comes first is left open.
    pub fn get_next_event(&mut self) -> (r: Option<(EventType, usize)>)
        requires
            old(self).wf(),
            old(self).events() != no_events(),
        ensures
            final(self).wf(),
            final(self).cycles == old(self).cycles,
            r is None ==> final(self).events() == old(self).events() && forall|k: u128| #[trigger]
                old(self).events().contains_key(k) ==> old(self).cycles < old(self).events()[k],
            r matches Some((e, late)) ==> {
                let code = event_code(e);
                &&& old(self).events().contains_key(code)
                &&& old(self).is_earliest(old(self).events()[code])
                &&& old(self).events()[code] <= old(self).cycles
                &&& late == old(self).cycles - old(self).events()[code]
                &&& final(self).events() == old(self).events().remove(code)
            },
    {
        let (_, time) = queue_peek(&self.queue).unwrap();
        if self.cycles >= time {
            let cycles_left = self.cycles - time;
            let (code, t) = queue_pop(&mut self.queue).unwrap();
            proof {
                assert(event_of_code(code) is Some);
                let e = event_of_code(code).unwrap();
                assert(event_code(e) == code) by {
                    assert(code == (code % 256) + 256 * (code / 256));
                }
            }
            let event_type = decode_event(code).unwrap();
            return Some((event_type, cycles_left));
        }
        None
    }

    /// The due cycle of the earliest pending event, or 0 when there is none.
    pub fn get_cycles_to_next_event(&self) -> (r: usize)
        requires
            self.wf(),
        ensures
            self.events() == no_events() ==> r == 0,
            self.events() != no_events() ==> self.is_earliest(r),
    {
        match queue_peek(&self.queue) {
            Some((_, time)) => time,
            None => 0,
        }
    }

    /// Restarts the cycle count at 0, moving every pending event by the same amount. Returns
    /// the amount.
    pub fn rebase_cycles(&mut self) -> (r: usize)
        requires
            old(self).wf(),
            forall|k: u128| #[trigger]
                old(self).events().contains_key(k) ==> old(self).cycles <= old(self).events()[k],
        ensures
            final(self).wf(),
            r == old(self).cycles,
            final(self).cycles == 0,
            final(self).events() == Map::new(
                |k: u128| old(self).events().contains_key(k),
                |k: u128| (old(self).events()[k] - old(self).cycles) as usize,
            ),
    {
        let to_subtract = self.cycles;
        self.cycles = 0;
        let ghost m = self.events();
        let mut pending: Vec<(u128, usize)> = Vec::new();
        loop
            invariant_except_break
                forall|k: u128| #[trigger]
                    self.events().contains_key(k) ==> m.contains_key(k) && self.events()[k] == m[k],
            invariant
                self.cycles == 0,
                self.events().dom().finite(),
                m.dom().finite(),
                forall|k: u128| #[trigger] m.contains_key(k) ==> event_of_code(k) is Some,
                forall|k: u128| #[trigger] m.contains_key(k) ==> to_subtract <= m[k],
                forall|j: int|
                    0 <= j < pending.len() ==> {
                        &&& m.contains_key(#[trigger] pending@[j].0)
                        &&& pending@[j].1 == m[pending@[j].0] - to_subtract
                        &&& !self.events().contains_key(pending@[j].0)
                    },
                forall|k: u128| #[trigger]
                    m.contains_key(k) ==> self.events().contains_key(k) || exists|j: int|
                        0 <= j < pending.len() && pending@[j].0 == k,
                forall|i: int, j: int|
                    0 <= i < j < pending.len() ==> pending@[i].0 != pending@[j].0,
            ensures
                self.events() == no_events(),
            decreases self.events().len(),
        {
            match queue_pop(&mut self.queue) {
                Some((code, time)) => {
                    let ghost before = pending@;
                    pending.push((code, time - to_subtract));
                    proof {
                        assert forall|k: u128| #[trigger] m.contains_key(k) implies self.events().contains_key(k)
                            || exists|j: int| 0 <= j < pending.len() && pending@[j].0 == k by {
                            if k == code {
                                assert(pending@[before.len() as int].0 == k);
                            } else if !self.events().contains_key(k) {
                                let j = choose|j: int| 0 <= j < before.len() && before[j].0 == k;
                                assert(pending@[j].0 == k);
                            }
                        }
                    }
                },
                None => {
                    break ;
                },
            }
        }
        let mut i: usize = 0;
        while i < pending.len()
            invariant
                0 <= i <= pending.len(),
                self.cycles == 0,
                self.events().dom().finite(),
                forall|k: u128| #[trigger] m.contains_key(k) ==> event_of_code(k) is Some,
                forall|j: int|
                    0 <= j < pending.len() ==> {
                        &&& m.contains_key(#[trigger] pending@[j].0)
                        &&& pending@[j].1 == m[pending@[j].0] - to_subtract
                    },
                forall|k: u128| #[trigger]
                    m.contains_key(k) ==> exists|j: int| 0 <= j < pending.len() && pending@[j].0 == k,
                forall|a: int, b: int|
                    0 <= a < b < pending.len() ==> pending@[a].0 != pending@[b].0,
                forall|k: u128| #[trigger]
                    self.events().contains_key(k) <==> exists|j: int| 0 <= j < i && pending@[j].0 == k,
                forall|j: int| 0 <= j < i ==> self.events()[#[trigger] pending@[j].0] == pending@[j].1,
            decreases pending.len() - i,
        {
            let (code, time) = pending[i];
            queue_push(&mut self.queue, code, time);
            proof {
                assert forall|k: u128| #[trigger]
                    self.events().contains_key(k) <==> exists|j: int| 0 <= j < i + 1 && pending@[j].0 == k by {
                    if k == code {
                        assert(pending@[i as int].0 == k);
                    }
                }
            }
            i = i + 1;
        }
        proof {
            let target = Map::new(|k: u128| m.contains_key(k), |k: u128| (m[k] - to_subtract) as usize);
            assert forall|k: u128| #[trigger] self.events().contains_key(k) <==> target.contains_key(k) by {
                if m.contains_key(k) {
                    let j = choose|j: int| 0 <= j < pending.len() && pending@[j].0 == k;
                }
            }
            assert forall|k: u128| #[trigger] self.events().contains_key(k) implies self.events()[k] == target[k] by {
                let j = choose|j: int| 0 <= j < pending.len() && pending@[j].0 == k;
                assert(self.events()[pending@[j].0] == pending@[j].1);
            }
            assert(self.events() =~= target);
            assert forall|k: u128| #[trigger] self.events().contains_key(k) implies event_of_code(k) is Some by {
                assert(m.contains_key(k));
            }
        }
        to_subtract
    }

    pub fn tick(&mut self, cycles: usize)
        requires
            old(self).cycles + cycles <= usize::MAX,
        ensures
            final(self).cycles == old(self).cycles + cycles,
            final(self).queue == old(self).queue,
    {
        self.cycles = self.cycles + cycles;
    }
}

} // verus!
