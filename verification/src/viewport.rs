//! Viewports: secondary windows that exist because the frame of another
//! window asks for them, and the registry of those that a family of windows
//! has materialized or is about to.

use crate::window_builder::WindowBuilder;
use vstd::prelude::*;

verus! {

/// The identifier of the root viewport: the window that a family starts from.
pub const ROOT: u64 = 0;

/// What a frame says of the window that a viewport should get.
#[derive(Debug)]
pub struct ViewportBuilder {
    /// The title, where the frame sets one.
    pub title: Option<String>,
    /// The size of the client area in logical pixels, width first.
    pub inner_size: Option<(u32, u32)>,
    /// Whether the user can resize the window.
    pub resizable: Option<bool>,
    /// Whether the window has a frame and a title bar.
    pub decorations: Option<bool>,
}

impl Clone for ViewportBuilder {
    fn clone(&self) -> (copy: Self)
        ensures
            copy == *self,
    {
        let title = match &self.title {
            Some(text) => Some(text.clone()),
            None => None,
        };
        ViewportBuilder {
            title,
            inner_size: self.inner_size,
            resizable: self.resizable,
            decorations: self.decorations,
        }
    }
}

/// Names the callback that draws a viewport which has no state of its own.
/// The callback itself stays with the UI library.
#[derive(Clone, Copy, Debug, PartialEq, Eq, Structural)]
pub struct DeferredViewportUiCallback {
    /// The handle under which the embedding program finds the callback.
    pub handle: u64,
}

/// What the end of a frame reports of one viewport.
#[derive(Debug)]
pub struct ViewportOutput {
    /// The identifier of the viewport.
    pub id: u64,
    /// After how many nanoseconds the viewport wants to be painted again.
    pub repaint_delay: u128,
    /// The viewport as the frame describes it.
    pub builder: ViewportBuilder,
    /// The native window that this description amounts to.
    pub window: WindowBuilder,
    /// The callback that draws the viewport, for a deferred one.
    pub callback: Option<DeferredViewportUiCallback>,
}

impl Clone for ViewportOutput {
    fn clone(&self) -> (copy: Self)
        ensures
            copy == *self,
    {
        ViewportOutput {
            id: self.id,
            repaint_delay: self.repaint_delay,
            builder: self.builder.clone(),
            window: self.window.clone(),
            callback: self.callback,
        }
    }
}

/// The frame reports the viewport `id`.
pub open spec fn reported(frame: Seq<ViewportOutput>, id: u64) -> bool {
    exists|k: int| 0 <= k < frame.len() && (#[trigger] frame[k]).id == id
}

/// The repaint delay that the frame reports for the viewport `id`: that of
/// its first record, and none at all where the frame does not report it.
pub open spec fn delay_of(frame: Seq<ViewportOutput>, id: u64) -> u128
    decreases frame.len(),
{
    if frame.len() == 0 {
        0
    } else if frame[0].id == id {
        frame[0].repaint_delay
    } else {
        delay_of(frame.subrange(1, frame.len() as int), id)
    }
}

/// The identifiers that stay in a registry after a frame. The frame of a
/// primary window is authoritative: what it no longer reports is gone. The
/// frame of a window that is itself a deferred viewport removes nothing.
pub open spec fn kept(registry: Set<u64>, frame: Seq<ViewportOutput>, authoritative: bool) -> Set<u64> {
    if authoritative {
        registry.filter(|id: u64| reported(frame, id))
    } else {
        registry
    }
}

/// The record at position `k` of the frame asks for a window that does not
/// exist yet: it is not the root, the registry does not know it after the
/// frame has been taken into account, and no earlier record of the frame
/// names the same viewport.
pub open spec fn is_new(registry: Set<u64>, frame: Seq<ViewportOutput>, authoritative: bool, k: int) -> bool {
    &&& 0 <= k < frame.len()
    &&& frame[k].id != ROOT
    &&& !kept(registry, frame, authoritative).contains(frame[k].id)
    &&& forall|j: int| 0 <= j < k ==> (#[trigger] frame[j]).id != frame[k].id
}

/// `spawn` lists, in the order of the frame, the positions of all records
/// that ask for a window that does not exist yet.
pub open spec fn is_spawn_list(
    registry: Set<u64>,
    frame: Seq<ViewportOutput>,
    authoritative: bool,
    spawn: Seq<usize>,
) -> bool {
    &&& forall|x: int| 0 <= x < spawn.len() ==> is_new(registry, frame, authoritative, #[trigger] spawn[x] as int)
    &&& forall|x: int, y: int| 0 <= x < y < spawn.len() ==> #[trigger] spawn[x] < #[trigger] spawn[y]
    &&& forall|k: usize| is_new(registry, frame, authoritative, k as int) ==> #[trigger] spawn.contains(k)
}

/// The registry after the frame: what was kept, and every viewport other
/// than the root that the frame reports.
pub open spec fn reconciled(registry: Set<u64>, frame: Seq<ViewportOutput>, authoritative: bool) -> Set<u64> {
    kept(registry, frame, authoritative).union(Set::new(|id: u64| id != ROOT && reported(frame, id)))
}

/// What a frame changes for the family of the window that drew it.
pub struct Reconciliation {
    /// The positions, in the frame, of the viewports that need a window.
    pub spawn: Vec<usize>,
    /// The window that drew the frame is a deferred viewport that its parent
    /// no longer asks for, so it has to close.
    pub orphaned: bool,
}

/// The set of viewport identifiers that one family of windows shares.
pub struct ViewportRegistry {
    ids: Vec<u64>,
}

impl ViewportRegistry {
    /// No identifier is held twice.
    pub closed spec fn wf(&self) -> bool {
        self.ids@.no_duplicates()
    }

    /// The identifiers in the registry.
    pub closed spec fn view(&self) -> Set<u64> {
        self.ids@.to_set()
    }

    /// An empty registry.
    pub fn new() -> (registry: Self)
        ensures
            registry.wf(),
            registry@ == Set::<u64>::empty(),
    {
        let registry = ViewportRegistry { ids: Vec::new() };
        assert(registry.ids@.to_set() =~= Set::<u64>::empty());
        registry
    }

    /// The number of identifiers in the registry.
    pub fn len(&self) -> (n: usize)
        requires
            self.wf(),
        ensures
            n == self@.len(),
            self@.finite(),
    {
        proof {
            self.ids@.unique_seq_to_set();
        }
        self.ids.len()
    }

    /// Tells whether the registry holds `id`.
    pub fn contains(&self, id: u64) -> (found: bool)
        ensures
            found == self@.contains(id),
    {
        let mut i: usize = 0;
        while i < self.ids.len()
            invariant
                i <= self.ids.len(),
                forall|k: int| 0 <= k < i ==> self.ids@[k] != id,
            decreases self.ids.len() - i,
        {
            if self.ids[i] == id {
                assert(self.ids@.contains(id));
                return true;
            }
            i += 1;
        }
        false
    }

    /// Enters `id` into the registry.
    pub fn insert(&mut self, id: u64)
        requires
            old(self).wf(),
        ensures
            final(self).wf(),
            final(self)@ == old(self)@.insert(id),
    {
        if !self.contains(id) {
            let ghost before = self.ids@;
            self.ids.push(id);
            proof {
                lemma_push_to_set(before, id);
            }
        } else {
            assert(self@.insert(id) =~= self@);
        }
    }

    /// Drops every identifier that the frame does not report.
    pub fn retain_reported(&mut self, frame: &Vec<ViewportOutput>)
        requires
            old(self).wf(),
        ensures
            final(self).wf(),
            final(self)@ == kept(old(self)@, frame@, true),
    {
        let mut remaining: Vec<u64> = Vec::new();
        let mut i: usize = 0;
        while i < self.ids.len()
            invariant
                i <= self.ids.len(),
                self.ids@.no_duplicates(),
                remaining@.no_duplicates(),
                forall|x: u64|
                    remaining@.contains(x) <==> (exists|k: int|
                        0 <= k < i && self.ids@[k] == x && reported(frame@, x)),
            decreases self.ids.len() - i,
        {
            let id = self.ids[i];
            if reports(frame, id) {
                let ghost before = remaining@;
                assert(!before.contains(id)) by {
                    if before.contains(id) {
                        let k = choose|k: int| 0 <= k < i && self.ids@[k] == id && reported(frame@, id);
                    }
                }
                remaining.push(id);
                proof {
                    assert(remaining@ =~= before.push(id));
                    assert forall|x: u64|
                        remaining@.contains(x) <==> (exists|k: int|
                            0 <= k < i + 1 && self.ids@[k] == x && reported(frame@, x)) by {
                        if remaining@.contains(x) {
                            let j = choose|j: int| 0 <= j < remaining@.len() && remaining@[j] == x;
                            if j < before.len() {
                                assert(before.contains(x));
                                let k = choose|k: int|
                                    0 <= k < i && self.ids@[k] == x && reported(frame@, x);
                                assert(0 <= k < i + 1 && self.ids@[k] == x && reported(frame@, x));
                            } else {
                                assert(0 <= i < i + 1 && self.ids@[i as int] == x && reported(frame@, x));
                            }
                        }
                        if exists|k: int| 0 <= k < i + 1 && self.ids@[k] == x && reported(frame@, x) {
                            let k = choose|k: int|
                                0 <= k < i + 1 && self.ids@[k] == x && reported(frame@, x);
                            if k < i {
                                assert(before.contains(x));
                                let j = choose|j: int| 0 <= j < before.len() && before[j] == x;
                                assert(remaining@[j] == x);
                            } else {
                                assert(remaining@[before.len() as int] == x);
                            }
                        }
                    }
                }
            } else {
                proof {
                    assert forall|x: u64|
                        remaining@.contains(x) <==> (exists|k: int|
                            0 <= k < i + 1 && self.ids@[k] == x && reported(frame@, x)) by {
                        if remaining@.contains(x) {
                            let k = choose|k: int|
                                0 <= k < i && self.ids@[k] == x && reported(frame@, x);
                            assert(0 <= k < i + 1 && self.ids@[k] == x && reported(frame@, x));
                        }
                    }
                }
            }
            i += 1;
        }
        proof {
            let target = kept(self@, frame@, true);
            assert(remaining@.to_set() =~= target) by {
                assert forall|x: u64| remaining@.to_set().contains(x) <==> target.contains(x) by {
                    if remaining@.contains(x) {
                        let k = choose|k: int|
                            0 <= k < i && self.ids@[k] == x && reported(frame@, x);
                        assert(self.ids@.contains(x));
                    }
                    if target.contains(x) {
                        assert(self.ids@.contains(x));
                        let k = choose|k: int| 0 <= k < self.ids@.len() && self.ids@[k] == x;
                        assert(0 <= k < i && self.ids@[k] == x && reported(frame@, x));
                    }
                }
            }
        }
        self.ids = remaining;
    }

    /// Brings the registry in line with a frame that a window of the family
    /// has drawn, and tells what follows from the frame.
    ///
    /// `authoritative` says that the window is a primary one, whose frame
    /// decides which viewports exist; `own` is the viewport of the window.
    pub fn reconcile(&mut self, frame: &Vec<ViewportOutput>, authoritative: bool, own: u64) -> (outcome:
        Reconciliation)
        requires
            old(self).wf(),
        ensures
            final(self).wf(),
            final(self)@ == reconciled(old(self)@, frame@, authoritative),
            is_spawn_list(old(self)@, frame@, authoritative, outcome.spawn@),
            outcome.spawn.len() <= frame.len(),
            outcome.orphaned == (!authoritative && !old(self)@.contains(own)),
    {
        let mut orphaned = false;
        if authoritative {
            self.retain_reported(frame);
        } else if !self.contains(own) {
            orphaned = true;
        }
        let ghost base = self@;
        assert(base == kept(old(self)@, frame@, authoritative));
        let mut spawn: Vec<usize> = Vec::new();
        let mut k: usize = 0;
        while k < frame.len()
            invariant
                k <= frame.len(),
                spawn.len() <= k,
                self.wf(),
                base == kept(old(self)@, frame@, authoritative),
                self@ == base.union(
                    Set::new(|id: u64| id != ROOT && reported(frame@.take(k as int), id)),
                ),
                forall|x: int|
                    0 <= x < spawn.len() ==> #[trigger] spawn[x] < k && is_new(
                        old(self)@,
                        frame@,
                        authoritative,
                        spawn[x] as int,
                    ),
                forall|x: int, y: int| 0 <= x < y < spawn.len() ==> #[trigger] spawn[x] < #[trigger] spawn[y],
                forall|j: usize|
                    j < k && is_new(old(self)@, frame@, authoritative, j as int) ==> #[trigger] spawn@.contains(
                        j,
                    ),
            decreases frame.len() - k,
        {
            let id = frame[k].id;
            let ghost seen = frame@.take(k as int);
            let ghost next = frame@.take(k + 1);
            let ghost before = self@;
            let ghost listed = spawn@;
            proof {
                assert(next =~= seen.push(frame@[k as int]));
                assert forall|x: u64| reported(next, x) <==> (reported(seen, x) || x == id) by {
                    if reported(next, x) {
                        let j = choose|j: int| 0 <= j < next.len() && (#[trigger] next[j]).id == x;
                        if j < k {
                            assert(seen[j].id == x);
                        }
                    }
                    if reported(seen, x) {
                        let j = choose|j: int| 0 <= j < seen.len() && (#[trigger] seen[j]).id == x;
                        assert(next[j].id == x);
                    }
                    if x == id {
                        assert(next[k as int].id == x);
                    }
                }
            }
            if id != ROOT && !self.contains(id) {
                self.insert(id);
                spawn.push(k);
                proof {
                    assert(spawn@ =~= listed.push(k));
                    assert(is_new(old(self)@, frame@, authoritative, k as int)) by {
                        assert(!base.contains(id));
                        assert forall|j: int| 0 <= j < k implies (#[trigger] frame@[j]).id != id by {
                            if frame@[j].id == id {
                                assert(seen[j].id == id);
                                assert(reported(seen, id));
                                assert(before.contains(id));
                            }
                        }
                    }
                    assert forall|j: usize|
                        j < k + 1 && is_new(
                            old(self)@,
                            frame@,
                            authoritative,
                            j as int,
                        ) implies #[trigger] spawn@.contains(j) by {
                        if j < k {
                            assert(listed.contains(j));
                            let x = choose|x: int| 0 <= x < listed.len() && listed[x] == j;
                            assert(spawn@[x] == j);
                        } else {
                            assert(spawn@[listed.len() as int] == j);
                        }
                    }
                }
            } else {
                proof {
                    assert(!is_new(old(self)@, frame@, authoritative, k as int)) by {
                        if id != ROOT {
                            assert(before.contains(id));
                            if !base.contains(id) {
                                assert(reported(seen, id));
                                let j = choose|j: int| 0 <= j < seen.len() && (#[trigger] seen[j]).id == id;
                                assert(frame@[j].id == id);
                            }
                        }
                    }
                }
            }
            proof {
                assert(self@ =~= base.union(Set::new(|x: u64| x != ROOT && reported(next, x))));
            }
            k += 1;
        }
        proof {
            assert(frame@.take(frame.len() as int) =~= frame@);
        }
        Reconciliation { spawn, orphaned }
    }
}

/// Tells whether the frame reports the viewport `id`.
pub fn reports(frame: &Vec<ViewportOutput>, id: u64) -> (found: bool)
    ensures
        found == reported(frame@, id),
{
    let mut k: usize = 0;
    while k < frame.len()
        invariant
            k <= frame.len(),
            forall|j: int| 0 <= j < k ==> (#[trigger] frame@[j]).id != id,
        decreases frame.len() - k,
    {
        if frame[k].id == id {
            return true;
        }
        k += 1;
    }
    false
}

/// The repaint delay, in nanoseconds, that the frame reports for the
/// viewport `id`; zero where the frame does not report it.
pub fn repaint_delay(frame: &Vec<ViewportOutput>, id: u64) -> (delay: u128)
    ensures
        delay == delay_of(frame@, id),
{
    let mut k: usize = 0;
    assert(frame@.subrange(0, frame.len() as int) =~= frame@);
    while k < frame.len()
        invariant
            k <= frame.len(),
            delay_of(frame@, id) == delay_of(frame@.subrange(k as int, frame.len() as int), id),
        decreases frame.len() - k,
    {
        let ghost rest = frame@.subrange(k as int, frame.len() as int);
        assert(rest[0] == frame@[k as int]);
        if frame[k].id == id {
            return frame[k].repaint_delay;
        }
        proof {
            assert(rest.subrange(1, rest.len() as int) =~= frame@.subrange(k + 1, frame.len() as int));
        }
        k += 1;
    }
    assert(frame@.subrange(k as int, frame.len() as int).len() == 0);
    0
}

/// Among the records that name the viewport `id` one comes first.
proof fn lemma_first_record(frame: Seq<ViewportOutput>, id: u64) -> (k: int)
    requires
        reported(frame, id),
    ensures
        0 <= k < frame.len(),
        frame[k].id == id,
        forall|j: int| 0 <= j < k ==> (#[trigger] frame[j]).id != id,
    decreases frame.len(),
{
    let last = frame.len() - 1;
    let head = frame.take(last);
    if reported(head, id) {
        let k = lemma_first_record(head, id);
        assert(frame[k] == head[k]);
        assert forall|j: int| 0 <= j < k implies (#[trigger] frame[j]).id != id by {
            assert(frame[j] == head[j]);
        }
        k
    } else {
        let w = choose|w: int| 0 <= w < frame.len() && (#[trigger] frame[w]).id == id;
        if w < last {
            assert(head[w].id == id);
        }
        assert forall|j: int| 0 <= j < last implies (#[trigger] frame[j]).id != id by {
            if frame[j].id == id {
                assert(head[j].id == id);
            }
        }
        last
    }
}

/// A frame that reports a registered viewport and one that is new, and no
/// other, asks for exactly one window, that of the new viewport, and leaves
/// both in the registry. This holds of every window of the family, as long
/// as the new viewport is not the root.
pub proof fn law_new_viewport_is_spawned_once(
    frame: Seq<ViewportOutput>,
    a: u64,
    b: u64,
    authoritative: bool,
    spawn: Seq<usize>,
)
    requires
        frame.len() <= usize::MAX,
        a != b,
        b != ROOT,
        forall|id: u64| reported(frame, id) <==> (id == a || id == b),
        is_spawn_list(set![a], frame, authoritative, spawn),
    ensures
        reconciled(set![a], frame, authoritative) == set![a, b],
        spawn.len() == 1,
        frame[spawn[0] as int].id == b,
{
    let registry = set![a];
    assert(reported(frame, a));
    assert(reported(frame, b));
    assert(kept(registry, frame, authoritative) =~= registry);
    assert(reconciled(registry, frame, authoritative) =~= set![a, b]) by {
        assert forall|id: u64| reconciled(registry, frame, authoritative).contains(id) <==> set![a, b].contains(
            id,
        ) by {
            if id == b {
                assert(id != ROOT && reported(frame, id));
            }
        }
    }
    let k = lemma_first_record(frame, b);
    assert(is_new(registry, frame, authoritative, k));
    let position = k as usize;
    assert(is_new(registry, frame, authoritative, position as int));
    assert(spawn.contains(position));
    assert forall|x: int| 0 <= x < spawn.len() implies #[trigger] spawn[x] == k by {
        let p = spawn[x] as int;
        assert(is_new(registry, frame, authoritative, p));
        assert(reported(frame, frame[p].id));
        assert(frame[p].id == b);
        if p < k {
            assert(frame[p].id != b);
        }
        if k < p {
            assert(frame[k].id != frame[p].id);
        }
    }
    if spawn.len() > 1 {
        assert(spawn[0] < spawn[1]);
    }
}

/// The frame of a primary window that no longer reports a registered
/// viewport removes it from the registry and asks for no window.
pub proof fn law_unreported_viewport_is_removed(frame: Seq<ViewportOutput>, a: u64, b: u64, spawn: Seq<usize>)
    requires
        a != b,
        forall|id: u64| reported(frame, id) <==> id == a,
        is_spawn_list(set![a, b], frame, true, spawn),
    ensures
        reconciled(set![a, b], frame, true) == set![a],
        spawn.len() == 0,
{
    let registry = set![a, b];
    assert(reported(frame, a));
    assert(!reported(frame, b));
    assert(kept(registry, frame, true) =~= set![a]);
    assert(reconciled(registry, frame, true) =~= set![a]);
    if spawn.len() > 0 {
        let p = spawn[0] as int;
        assert(is_new(registry, frame, true, p));
        assert(reported(frame, frame[p].id));
    }
}

proof fn lemma_push_to_set(s: Seq<u64>, id: u64)
    requires
        s.no_duplicates(),
        !s.contains(id),
    ensures
        s.push(id).no_duplicates(),
        s.push(id).to_set() == s.to_set().insert(id),
{
    let t = s.push(id);
    assert forall|x: u64| t.to_set().contains(x) <==> s.to_set().insert(id).contains(x) by {
        if t.contains(x) {
            let k = choose|k: int| 0 <= k < t.len() && t[k] == x;
            if k < s.len() {
                assert(s[k] == x);
            }
        }
        if s.contains(x) {
            let k = choose|k: int| 0 <= k < s.len() && s[k] == x;
            assert(t[k] == x);
        }
        if x == id {
            assert(t[s.len() as int] == x);
        }
    }
    assert(t.to_set() =~= s.to_set().insert(id));
}

} // verus!
