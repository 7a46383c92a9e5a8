//! The polling source: diffs whole-keyboard snapshots into events.
//!
//! The platform exposes no event stream, only "is this key currently
//! down" queries. Each call takes the instantaneous pressed state of
//! every virtual-key code, diffs it against the stored snapshot in
//! one fixed ascending pass over the code range, appends every
//! discovered transition to a pending queue, and then delivers the
//! front of the queue. Transitions discovered by one scan share the
//! scan's wall-clock instant and are ordered by ascending code; this
//! tie-break is an accepted approximation of hardware timing, not a
//! causal order.
use std::collections::VecDeque;
use vstd::prelude::*;

use crate::event::KeyEvent;
use crate::event::LocalInstant;
use crate::keys::PressEvent;
use crate::time::now_local;
use crate::vk::FIRST_VK_CODE;
use crate::vk::MAX_VK_CODE;
use crate::vk::get_vk_text;
use crate::vk::spec_vk_is_used;
use crate::vk::spec_vk_text;
use crate::vk::vk_is_used;

verus! {

/// Platform initialization hook; the polling source needs none.
pub fn init() {
}

/// A transition discovered by a scan and not yet delivered: its kind,
/// the virtual-key code it was observed on, and the instant of the
/// scan that discovered it.
#[derive(Copy, Clone, PartialEq, Eq, Structural, Debug)]
pub struct PendingEvent {
    pub kind: PressEvent,
    pub code: usize,
    pub time: LocalInstant,
}

/// The per-code pressed/released memory the diff runs against. One
/// boolean per virtual-key code, flipped only by the diff step.
pub struct PressedKeysSnapshot {
    pressed: Vec<bool>,
}

impl View for PressedKeysSnapshot {
    type V = Seq<bool>;

    closed spec fn view(&self) -> Seq<bool> {
        self.pressed@
    }
}

impl PressedKeysSnapshot {
    /// The snapshot always covers the whole code range.
    pub open spec fn wf(&self) -> bool {
        self@.len() == MAX_VK_CODE
    }

    /// A fresh snapshot: every key unpressed.
    pub fn new() -> (s: PressedKeysSnapshot)
        ensures
            s.wf(),
            forall|i: int| 0 <= i < MAX_VK_CODE ==> !(#[trigger] s@[i]),
    {
        let mut pressed: Vec<bool> = Vec::new();
        let mut i: usize = 0;
        while i < MAX_VK_CODE
            invariant
                i <= MAX_VK_CODE,
                pressed@.len() == i,
                forall|j: int| 0 <= j < i ==> !(#[trigger] pressed@[j]),
            decreases MAX_VK_CODE - i,
        {
            pressed.push(false);
            i = i + 1;
        }
        PressedKeysSnapshot { pressed }
    }

    /// Marks `code` as held.
    pub fn press(&mut self, code: usize)
        requires
            old(self).wf(),
            code < MAX_VK_CODE,
        ensures
            final(self).wf(),
            final(self)@ == old(self)@.update(code as int, true),
    {
        self.pressed.set(code, true);
    }

    /// Marks `code` as released.
    pub fn release(&mut self, code: usize)
        requires
            old(self).wf(),
            code < MAX_VK_CODE,
        ensures
            final(self).wf(),
            final(self)@ == old(self)@.update(code as int, false),
    {
        self.pressed.set(code, false);
    }

    /// Whether the snapshot holds `code` as pressed.
    pub fn is_already_pressed(&self, code: usize) -> (r: bool)
        requires
            self.wf(),
            code < MAX_VK_CODE,
        ensures
            r == self@[code as int],
    {
        self.pressed[code]
    }
}

/// The transitions one scan discovers among the codes below `upto`,
/// in ascending code order: for every used code whose instantaneous
/// state differs from the snapshot, a press or release stamped with
/// the scan instant.
pub open spec fn spec_scan(prev: Seq<bool>, cur: Seq<bool>, ts: LocalInstant, upto: int) -> Seq<
    PendingEvent,
>
    decreases upto,
{
    if upto <= FIRST_VK_CODE {
        Seq::empty()
    } else {
        let c = upto - 1;
        spec_scan(prev, cur, ts, c) + if spec_vk_is_used(c as usize) && cur[c] != prev[c] {
            seq![
                PendingEvent {
                    kind: if cur[c] {
                        PressEvent::Press
                    } else {
                        PressEvent::Release
                    },
                    code: c as usize,
                    time: ts,
                },
            ]
        } else {
            Seq::empty()
        }
    }
}

/// The snapshot after a scan against `cur`: every used code holds its
/// instantaneous state, every unused code keeps its old value.
pub open spec fn spec_snapshot_after(prev: Seq<bool>, cur: Seq<bool>) -> Seq<bool> {
    Seq::new(prev.len(), |i: int| if spec_vk_is_used(i as usize) { cur[i] } else { prev[i] })
}

/// Every transition one scan discovers carries the scan's instant and
/// a used code inside the scanned range, and the discovered
/// transitions are strictly ascending by code.
pub proof fn lemma_scan_ordered(prev: Seq<bool>, cur: Seq<bool>, ts: LocalInstant, upto: int)
    requires
        upto <= MAX_VK_CODE,
    ensures
        forall|i: int| #![auto]
            0 <= i < spec_scan(prev, cur, ts, upto).len() ==> spec_scan(prev, cur, ts, upto)[i].time
                == ts && FIRST_VK_CODE <= spec_scan(prev, cur, ts, upto)[i].code < upto,
        forall|i: int, j: int| #![auto]
            0 <= i < j < spec_scan(prev, cur, ts, upto).len() ==> spec_scan(
                prev,
                cur,
                ts,
                upto,
            )[i].code < spec_scan(prev, cur, ts, upto)[j].code,
    decreases upto,
{
    if upto > FIRST_VK_CODE {
        lemma_scan_ordered(prev, cur, ts, upto - 1);
        let s0 = spec_scan(prev, cur, ts, upto - 1);
        let s = spec_scan(prev, cur, ts, upto);
        assert forall|i: int, j: int| 0 <= i < j < s.len() implies s[i].code < s[j].code by {
            assert(spec_scan(prev, cur, ts, upto - 1)[i] == s0[i]);
            assert(s[i] == s0[i]);
            assert(FIRST_VK_CODE <= s0[i].code < upto - 1);
            if j < s0.len() {
                assert(spec_scan(prev, cur, ts, upto - 1)[j] == s0[j]);
                assert(s[j] == s0[j]);
                assert(s0[i].code < s0[j].code);
            } else {
                assert(s[j].code == upto - 1);
            }
        }
    }
}

/// What one delivery step leaves behind: the queue first grows by
/// everything the scan discovered, then the front element, if any, is
/// delivered with its label resolved; the snapshot takes over the
/// instantaneous state of every used code.
pub open spec fn spec_next_post(
    pre_snap: Seq<bool>,
    pre_queue: Seq<PendingEvent>,
    post_snap: Seq<bool>,
    post_queue: Seq<PendingEvent>,
    states: Seq<bool>,
    ts: LocalInstant,
    r: Option<KeyEvent>,
) -> bool {
    let q = pre_queue + spec_scan(pre_snap, states, ts, MAX_VK_CODE as int);
    &&& post_snap == spec_snapshot_after(pre_snap, states)
    &&& (q.len() == 0 ==> r is None && post_queue == q)
    &&& (q.len() > 0 ==> post_queue == q.drop_first() && (r matches Some(e) && e.kind == q[0].kind
        && e.time == q[0].time && e.label@ == spec_vk_text(q[0].code, false)))
}

/// Produces normalized events by polling: holds the snapshot the diff
/// runs against and the FIFO queue of transitions discovered but not
/// yet delivered. Delivery order equals discovery order, across scans
/// as well as within one.
pub struct PolledStateSource {
    snapshot: PressedKeysSnapshot,
    queue: VecDeque<PendingEvent>,
}

impl PolledStateSource {
    /// The snapshot contents.
    pub closed spec fn snapshot_view(&self) -> Seq<bool> {
        self.snapshot@
    }

    /// The pending transitions, front first.
    pub closed spec fn queue_view(&self) -> Seq<PendingEvent> {
        self.queue@
    }

    /// The snapshot always covers the whole code range.
    pub closed spec fn wf(&self) -> bool {
        self.snapshot.wf()
    }

    /// A fresh source: every key unpressed, nothing pending.
    pub fn new() -> (s: PolledStateSource)
        ensures
            s.wf(),
            s.queue_view() == Seq::<PendingEvent>::empty(),
            forall|i: int| 0 <= i < MAX_VK_CODE ==> !(#[trigger] s.snapshot_view()[i]),
    {
        PolledStateSource { snapshot: PressedKeysSnapshot::new(), queue: VecDeque::new() }
    }

    /// One diff pass: walks the code range in ascending order, and
    /// for every used code whose instantaneous state differs from the
    /// snapshot appends the transition to the queue and flips the
    /// snapshot bit. Every transition this scan appends carries `now`.
    fn scan(&mut self, states: &[bool], now: LocalInstant)
        requires
            old(self).wf(),
            states@.len() == MAX_VK_CODE,
        ensures
            final(self).wf(),
            final(self).queue_view() == old(self).queue_view() + spec_scan(
                old(self).snapshot_view(),
                states@,
                now,
                MAX_VK_CODE as int,
            ),
            final(self).snapshot_view() == spec_snapshot_after(old(self).snapshot_view(), states@),
    {
        let mut code: usize = FIRST_VK_CODE;
        while code < MAX_VK_CODE
            invariant
                FIRST_VK_CODE <= code <= MAX_VK_CODE,
                states@.len() == MAX_VK_CODE,
                self.snapshot.wf(),
                self.queue@ == old(self).queue@ + spec_scan(
                    old(self).snapshot@,
                    states@,
                    now,
                    code as int,
                ),
                forall|i: int|
                    0 <= i < MAX_VK_CODE ==> #[trigger] self.snapshot@[i] == (if i < code
                        && spec_vk_is_used(i as usize) {
                        states@[i]
                    } else {
                        old(self).snapshot@[i]
                    }),
            decreases MAX_VK_CODE - code,
        {
            if vk_is_used(code) {
                let cur = states[code];
                let was = self.snapshot.is_already_pressed(code);
                if cur != was {
                    if cur {
                        self.snapshot.press(code);
                        self.queue.push_back(
                            PendingEvent { kind: PressEvent::Press, code, time: now },
                        );
                    } else {
                        self.snapshot.release(code);
                        self.queue.push_back(
                            PendingEvent { kind: PressEvent::Release, code, time: now },
                        );
                    }
                }
            }
            proof {
                assert(self.queue@ =~= old(self).queue@ + spec_scan(
                    old(self).snapshot@,
                    states@,
                    now,
                    code + 1,
                ));
            }
            code = code + 1;
        }
        proof {
            assert(self.snapshot@ =~= spec_snapshot_after(old(self).snapshot@, states@));
        }
    }

    /// One poll step against externally queried states, with the scan
    /// instant handed in: scans, then delivers the front of the queue
    /// if anything is pending. Never blocks.
    pub fn next_event(&mut self, states: &[bool], now: LocalInstant) -> (r: Option<KeyEvent>)
        requires
            old(self).wf(),
            states@.len() == MAX_VK_CODE,
        ensures
            final(self).wf(),
            spec_next_post(
                old(self).snapshot_view(),
                old(self).queue_view(),
                final(self).snapshot_view(),
                final(self).queue_view(),
                states@,
                now,
                r,
            ),
    {
        self.scan(states, now);
        match self.queue.pop_front() {
            None => None,
            Some(p) => Some(
                KeyEvent { kind: p.kind, label: get_vk_text(p.code, false), time: p.time },
            ),
        }
    }

    /// One poll step stamped with the current wall clock, sampled
    /// once so that every transition discovered by this scan shares
    /// one instant.
    pub fn poll(&mut self, states: &[bool]) -> (r: Option<KeyEvent>)
        requires
            old(self).wf(),
            states@.len() == MAX_VK_CODE,
        ensures
            final(self).wf(),
            exists|ts: LocalInstant|
                ts.wf() && #[trigger] spec_next_post(
                    old(self).snapshot_view(),
                    old(self).queue_view(),
                    final(self).snapshot_view(),
                    final(self).queue_view(),
                    states@,
                    ts,
                    r,
                ),
    {
        let now = now_local();
        self.next_event(states, now)
    }

    /// Whether the caller should yield the thread briefly: true
    /// exactly when nothing is pending, so that a wait never delays a
    /// transition that is already known.
    pub fn should_idle_wait(&self) -> (r: bool)
        ensures
            r == (self.queue_view().len() == 0),
    {
        self.queue.len() == 0
    }
}

} // verus!
