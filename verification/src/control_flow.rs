//! Wake-up policies of the event loop, and how the requests of many windows
//! merge into one.

use crate::event::Event;
use vstd::prelude::*;

verus! {

/// How the event loop should wait after an event has been processed.
///
/// Instants are nanoseconds on the monotonic clock of the event loop.
#[derive(Clone, Copy, Debug, PartialEq, Eq, Structural)]
pub enum SchedulePolicy {
    /// Run the next iteration at once.
    Poll,
    /// Sleep until the next event arrives.
    Wait,
    /// Sleep until the next event arrives or the instant is reached.
    WaitUntil(u64),
    /// Close the window that asked; for the loop as a whole, stop.
    Terminate,
}

/// Some entry of `s` asks for polling.
pub open spec fn has_poll(s: Seq<SchedulePolicy>) -> bool {
    exists|i: int| 0 <= i < s.len() && s[i] == SchedulePolicy::Poll
}

/// Some entry of `s` carries a deadline.
pub open spec fn has_deadline(s: Seq<SchedulePolicy>) -> bool {
    exists|i: int| 0 <= i < s.len() && #[trigger] s[i] is WaitUntil
}

/// `t` is a deadline of `s` and no deadline of `s` is earlier.
pub open spec fn is_earliest(s: Seq<SchedulePolicy>, t: u64) -> bool {
    &&& exists|i: int| 0 <= i < s.len() && s[i] == SchedulePolicy::WaitUntil(t)
    &&& forall|j: int| 0 <= j < s.len() && #[trigger] s[j] is WaitUntil ==> t <= s[j]->0
}

/// The earliest deadline among the entries of `s`.
pub open spec fn earliest(s: Seq<SchedulePolicy>) -> u64 {
    choose|t: u64| is_earliest(s, t)
}

/// The policy that serves every request in `s`: polling wins over any
/// deadline, the earliest deadline wins over plain waiting, and requests to
/// terminate a single window do not count.
pub open spec fn merged(s: Seq<SchedulePolicy>) -> SchedulePolicy {
    if has_poll(s) {
        SchedulePolicy::Poll
    } else if has_deadline(s) {
        SchedulePolicy::WaitUntil(earliest(s))
    } else {
        SchedulePolicy::Wait
    }
}

/// An earliest deadline is unique.
pub proof fn lemma_earliest_unique(s: Seq<SchedulePolicy>, t: u64)
    requires
        is_earliest(s, t),
    ensures
        earliest(s) == t,
{
    let u = earliest(s);
    assert(is_earliest(s, u));
    let i = choose|i: int| 0 <= i < s.len() && s[i] == SchedulePolicy::WaitUntil(t);
    let j = choose|j: int| 0 <= j < s.len() && s[j] == SchedulePolicy::WaitUntil(u);
    assert(s[i] is WaitUntil);
    assert(s[j] is WaitUntil);
}

/// Merges the wake-up requests of all windows into the policy of the loop.
pub fn merge(policies: &Vec<SchedulePolicy>) -> (flow: SchedulePolicy)
    ensures
        flow == merged(policies@),
{
    let mut flow = SchedulePolicy::Wait;
    let mut i: usize = 0;
    while i < policies.len()
        invariant
            i <= policies.len(),
            flow == merged(policies@.take(i as int)),
        decreases policies.len() - i,
    {
        let ghost before = policies@.take(i as int);
        let ghost after = policies@.take(i + 1);
        proof {
            assert(after =~= before.push(policies@[i as int]));
            lemma_merged_push(before, policies@[i as int]);
        }
        match policies[i] {
            SchedulePolicy::Poll => {
                flow = SchedulePolicy::Poll;
            },
            SchedulePolicy::Wait => {},
            SchedulePolicy::Terminate => {},
            SchedulePolicy::WaitUntil(when_new) => {
                match flow {
                    SchedulePolicy::Poll => {},
                    SchedulePolicy::WaitUntil(when_current) => {
                        if when_new < when_current {
                            flow = SchedulePolicy::WaitUntil(when_new);
                        }
                    },
                    _ => {
                        flow = SchedulePolicy::WaitUntil(when_new);
                    },
                }
            },
        }
        i += 1;
    }
    proof {
        assert(policies@.take(policies.len() as int) =~= policies@);
    }
    flow
}

/// What one more request does to a merged policy.
pub open spec fn absorb(flow: SchedulePolicy, request: SchedulePolicy) -> SchedulePolicy {
    match request {
        SchedulePolicy::Poll => SchedulePolicy::Poll,
        SchedulePolicy::Wait => flow,
        SchedulePolicy::Terminate => flow,
        SchedulePolicy::WaitUntil(t) => match flow {
            SchedulePolicy::Poll => SchedulePolicy::Poll,
            SchedulePolicy::WaitUntil(u) => if t < u {
                SchedulePolicy::WaitUntil(t)
            } else {
                SchedulePolicy::WaitUntil(u)
            },
            _ => SchedulePolicy::WaitUntil(t),
        },
    }
}

/// Merging can be done one request at a time, in the order of the sequence.
pub proof fn lemma_merged_push(s: Seq<SchedulePolicy>, p: SchedulePolicy)
    ensures
        merged(s.push(p)) == absorb(merged(s), p),
{
    let e = s.push(p);
    let n = s.len() as int;
    assert(e[n] == p);
    assert forall|i: int| 0 <= i < n implies e[i] == s[i] by {}
    if has_poll(s) {
        let i = choose|i: int| 0 <= i < s.len() && s[i] == SchedulePolicy::Poll;
        assert(e[i] == SchedulePolicy::Poll);
    } else if p == SchedulePolicy::Poll {
        assert(e[n] == SchedulePolicy::Poll);
    } else {
        assert(!has_poll(e)) by {
            if has_poll(e) {
                let i = choose|i: int| 0 <= i < e.len() && e[i] == SchedulePolicy::Poll;
                if i < n {
                    assert(s[i] == SchedulePolicy::Poll);
                }
            }
        }
        if has_deadline(s) {
            let u = earliest(s);
            lemma_earliest_exists(s);
            assert(is_earliest(s, u));
            let i = choose|i: int| 0 <= i < s.len() && s[i] == SchedulePolicy::WaitUntil(u);
            assert(e[i] is WaitUntil);
            match p {
                SchedulePolicy::WaitUntil(t) => {
                    let m = if t < u { t } else { u };
                    assert(is_earliest(e, m)) by {
                        if t < u {
                            assert(e[n] == SchedulePolicy::WaitUntil(m));
                        } else {
                            assert(e[i] == SchedulePolicy::WaitUntil(m));
                        }
                        assert forall|j: int| 0 <= j < e.len() && #[trigger] e[j] is WaitUntil
                            implies m <= e[j]->0 by {
                            if j < n {
                                assert(s[j] is WaitUntil);
                            }
                        }
                    }
                    lemma_earliest_unique(e, m);
                },
                _ => {
                    assert(is_earliest(e, u)) by {
                        assert(e[i] == SchedulePolicy::WaitUntil(u));
                        assert forall|j: int| 0 <= j < e.len() && #[trigger] e[j] is WaitUntil
                            implies u <= e[j]->0 by {
                            if j < n {
                                assert(s[j] is WaitUntil);
                            }
                        }
                    }
                    lemma_earliest_unique(e, u);
                },
            }
        } else {
            match p {
                SchedulePolicy::WaitUntil(t) => {
                    assert(e[n] is WaitUntil);
                    assert(is_earliest(e, t)) by {
                        assert(e[n] == SchedulePolicy::WaitUntil(t));
                        assert forall|j: int| 0 <= j < e.len() && #[trigger] e[j] is WaitUntil
                            implies t <= e[j]->0 by {
                            if j < n {
                                assert(s[j] is WaitUntil);
                            }
                        }
                    }
                    lemma_earliest_unique(e, t);
                },
                _ => {
                    assert(!has_deadline(e)) by {
                        if has_deadline(e) {
                            let j = choose|j: int| 0 <= j < e.len() && #[trigger] e[j] is WaitUntil;
                            if j < n {
                                assert(s[j] is WaitUntil);
                            }
                        }
                    }
                },
            }
        }
    }
}

/// A sequence with a deadline has an earliest one.
pub proof fn lemma_earliest_exists(s: Seq<SchedulePolicy>)
    requires
        has_deadline(s),
    ensures
        is_earliest(s, earliest(s)),
    decreases s.len(),
{
    let k = choose|k: int| 0 <= k < s.len() && #[trigger] s[k] is WaitUntil;
    let head = s.drop_last();
    let last = s.last();
    assert(s =~= head.push(last));
    if has_deadline(head) {
        lemma_earliest_exists(head);
        let u = earliest(head);
        let i = choose|i: int| 0 <= i < head.len() && head[i] == SchedulePolicy::WaitUntil(u);
        assert(s[i] == SchedulePolicy::WaitUntil(u));
        let m = if last is WaitUntil && last->0 < u { last->0 } else { u };
        assert(is_earliest(s, m)) by {
            if last is WaitUntil && last->0 < u {
                assert(s[s.len() - 1] == SchedulePolicy::WaitUntil(m));
            }
            assert forall|j: int| 0 <= j < s.len() && #[trigger] s[j] is WaitUntil
                implies m <= s[j]->0 by {
                if j < head.len() {
                    assert(head[j] is WaitUntil);
                }
            }
        }
    } else {
        assert(last is WaitUntil) by {
            if k < head.len() {
                assert(head[k] is WaitUntil);
            }
        }
        let t = last->0;
        assert(is_earliest(s, t)) by {
            assert(s[s.len() - 1] == SchedulePolicy::WaitUntil(t));
            assert forall|j: int| 0 <= j < s.len() && #[trigger] s[j] is WaitUntil
                implies t <= s[j]->0 by {
                if j < head.len() {
                    assert(head[j] is WaitUntil);
                }
            }
        }
    }
}

/// Polling wins over waiting and over any deadline.
pub proof fn law_poll_dominates(t1: u64)
    ensures
        merged(seq![SchedulePolicy::Poll, SchedulePolicy::Wait, SchedulePolicy::WaitUntil(t1)])
            == SchedulePolicy::Poll,
{
    let s = seq![SchedulePolicy::Poll, SchedulePolicy::Wait, SchedulePolicy::WaitUntil(t1)];
    assert(s[0] == SchedulePolicy::Poll);
}

/// Of two deadlines the earlier one is kept, and waiting adds nothing.
pub proof fn law_earliest_deadline_wins(t1: u64, t2: u64)
    ensures
        merged(seq![SchedulePolicy::Wait, SchedulePolicy::WaitUntil(t1), SchedulePolicy::WaitUntil(t2)])
            == SchedulePolicy::WaitUntil(if t1 <= t2 { t1 } else { t2 }),
{
    let s = seq![SchedulePolicy::Wait, SchedulePolicy::WaitUntil(t1), SchedulePolicy::WaitUntil(t2)];
    let m = if t1 <= t2 { t1 } else { t2 };
    assert(s[1] is WaitUntil);
    assert(!has_poll(s));
    assert(is_earliest(s, m)) by {
        if t1 <= t2 {
            assert(s[1] == SchedulePolicy::WaitUntil(m));
        } else {
            assert(s[2] == SchedulePolicy::WaitUntil(m));
        }
    }
    lemma_earliest_unique(s, m);
}

/// With no request at all, and with nothing but requests to wait, the loop waits.
pub proof fn law_wait_is_neutral()
    ensures
        merged(Seq::<SchedulePolicy>::empty()) == SchedulePolicy::Wait,
        merged(seq![SchedulePolicy::Wait]) == SchedulePolicy::Wait,
{
    let s = seq![SchedulePolicy::Wait];
    assert(!has_poll(s));
    assert(!has_deadline(s));
}

/// The merged policy only depends on which requests occur, not on their order.
pub proof fn law_merge_ignores_order(a: Seq<SchedulePolicy>, b: Seq<SchedulePolicy>)
    requires
        forall|i: int| 0 <= i < a.len() ==> b.contains(#[trigger] a[i]),
        forall|i: int| 0 <= i < b.len() ==> a.contains(#[trigger] b[i]),
    ensures
        merged(a) == merged(b),
{
    lemma_same_entries(a, b);
    lemma_same_entries(b, a);
    if !has_poll(a) && has_deadline(a) {
        lemma_earliest_exists(a);
        let t = earliest(a);
        assert(is_earliest(b, t)) by {
            let i = choose|i: int| 0 <= i < a.len() && a[i] == SchedulePolicy::WaitUntil(t);
            assert(b.contains(a[i]));
            assert forall|j: int| 0 <= j < b.len() && #[trigger] b[j] is WaitUntil
                implies t <= b[j]->0 by {
                assert(a.contains(b[j]));
                let k = choose|k: int| 0 <= k < a.len() && a[k] == b[j];
                assert(a[k] is WaitUntil);
            }
        }
        lemma_earliest_unique(b, t);
    }
}

proof fn lemma_same_entries(a: Seq<SchedulePolicy>, b: Seq<SchedulePolicy>)
    requires
        forall|i: int| 0 <= i < a.len() ==> b.contains(#[trigger] a[i]),
    ensures
        has_poll(a) ==> has_poll(b),
        has_deadline(a) ==> has_deadline(b),
{
    if has_poll(a) {
        let i = choose|i: int| 0 <= i < a.len() && a[i] == SchedulePolicy::Poll;
        assert(b.contains(a[i]));
    }
    if has_deadline(a) {
        let i = choose|i: int| 0 <= i < a.len() && #[trigger] a[i] is WaitUntil;
        assert(b.contains(a[i]));
        let k = choose|k: int| 0 <= k < b.len() && b[k] == a[i];
        assert(b[k] is WaitUntil);
    }
}

/// The policy of the whole loop after one event: the merged requests of the
/// windows while any window is left, and the end of the loop once none is.
pub open spec fn loop_policy(requests: Seq<SchedulePolicy>, live_windows: nat) -> SchedulePolicy {
    if live_windows == 0 {
        SchedulePolicy::Terminate
    } else {
        merged(requests)
    }
}

/// Decides how the event loop goes on after one event has been handled.
pub fn loop_schedule(requests: &Vec<SchedulePolicy>, live_windows: usize) -> (flow: SchedulePolicy)
    ensures
        flow == loop_policy(requests@, live_windows as nat),
{
    let flow = merge(requests);
    if live_windows == 0 {
        SchedulePolicy::Terminate
    } else {
        flow
    }
}

/// The policy of the loop after an event, whatever its kind. An event for
/// the application itself, which no window handles, makes the loop poll.
pub open spec fn policy_after(event: Event, requests: Seq<SchedulePolicy>, live_windows: nat) -> SchedulePolicy {
    if event.for_windows() {
        loop_policy(requests, live_windows)
    } else {
        loop_policy(seq![SchedulePolicy::Poll], live_windows)
    }
}

/// Decides how the event loop goes on after `event`: `requests` holds what
/// the windows asked for in the pass for the event, if there was one.
pub fn schedule_after(event: &Event, requests: &Vec<SchedulePolicy>, live_windows: usize) -> (flow:
    SchedulePolicy)
    ensures
        flow == policy_after(*event, requests@, live_windows as nat),
        !event.for_windows() && live_windows > 0 ==> flow == SchedulePolicy::Poll,
{
    if event.is_for_windows() {
        loop_schedule(requests, live_windows)
    } else {
        let mut poll: Vec<SchedulePolicy> = Vec::new();
        poll.push(SchedulePolicy::Poll);
        proof {
            assert(poll@ =~= seq![SchedulePolicy::Poll]);
            assert(poll@[0] == SchedulePolicy::Poll);
        }
        loop_schedule(&poll, live_windows)
    }
}

/// A repaint delay at or above this many nanoseconds means "no hurry".
pub const REPAINT_HORIZON_NANOS: u128 = 10_000_000_000;

/// What a window asks of the loop after it has drawn a frame.
#[derive(Clone, Copy, Debug, PartialEq, Eq, Structural)]
pub struct RepaintPlan {
    /// The wake-up request of the window.
    pub schedule: SchedulePolicy,
    /// Whether the window must be asked to redraw right away.
    pub redraw_now: bool,
}

/// The plan that follows from a frame: `quit` is the wish of the window to
/// close, `delay` the repaint delay of its own viewport in nanoseconds, `now`
/// the instant at which the frame ended.
pub open spec fn repaint_plan(quit: bool, delay: u128, now: u64) -> RepaintPlan {
    if quit {
        RepaintPlan { schedule: SchedulePolicy::Terminate, redraw_now: false }
    } else if delay == 0 {
        RepaintPlan { schedule: SchedulePolicy::Poll, redraw_now: true }
    } else if delay < REPAINT_HORIZON_NANOS {
        RepaintPlan { schedule: SchedulePolicy::WaitUntil((now + delay) as u64), redraw_now: false }
    } else {
        RepaintPlan { schedule: SchedulePolicy::Wait, redraw_now: false }
    }
}

/// The deadline `now + delay` is an instant of the clock.
pub open spec fn deadline_representable(quit: bool, delay: u128, now: u64) -> bool {
    !quit && 0 < delay < REPAINT_HORIZON_NANOS ==> now + delay <= u64::MAX
}

/// Tells whether the deadline that a frame asks for is an instant of the clock.
pub fn deadline_fits(quit: bool, delay: u128, now: u64) -> (fits: bool)
    ensures
        fits == deadline_representable(quit, delay, now),
{
    quit || delay == 0 || delay >= REPAINT_HORIZON_NANOS || delay <= (u64::MAX - now) as u128
}

/// Derives the wake-up request of a window from the frame it has just drawn.
pub fn derive_schedule(quit: bool, delay: u128, now: u64) -> (plan: RepaintPlan)
    requires
        deadline_representable(quit, delay, now),
    ensures
        plan == repaint_plan(quit, delay, now),
{
    if quit {
        RepaintPlan { schedule: SchedulePolicy::Terminate, redraw_now: false }
    } else if delay == 0 {
        RepaintPlan { schedule: SchedulePolicy::Poll, redraw_now: true }
    } else if delay < REPAINT_HORIZON_NANOS {
        let deadline: u64 = now + delay as u64;
        RepaintPlan { schedule: SchedulePolicy::WaitUntil(deadline), redraw_now: false }
    } else {
        RepaintPlan { schedule: SchedulePolicy::Wait, redraw_now: false }
    }
}

} // verus!
