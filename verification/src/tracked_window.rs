//! What an individual window holds: its options, and the holder of its
//! graphics context with the activation state of that context.

pub use crate::container::{
    CommonWindowData, IndeterminateWindowedContext, RedrawResponse, TrackedWindow,
    TrackedWindowContainer, TrackedWindowControl,
};
use crate::control_flow::SchedulePolicy;
use vstd::prelude::*;

verus! {

/// The shader dialect that the painter of a window is told to use.
#[derive(Clone, Copy, Debug, PartialEq, Eq, Structural)]
pub enum ShaderVersion {
    Gl120,
    Gl140,
    Es100,
    Es300,
}

/// The options for a window.
#[derive(Clone, Copy, Debug, PartialEq, Eq, Structural)]
pub struct TrackedWindowOptions {
    /// Should the window wait for the vertical blank when it presents a frame.
    pub vsync: bool,
    /// Optionally sets the shader version for the window.
    pub shader: Option<ShaderVersion>,
}

/// Enumerates the kinds of errors that display creation can have.
#[derive(Clone, Copy, Debug, PartialEq, Eq, Structural)]
pub enum DisplayCreationError {
    /// The rendering backend offers no display for the native window.
    DisplayUnavailable,
    /// The backend rejected every rendering configuration that was tried.
    NoUsableConfiguration,
    /// The request names a viewport registry that does not exist.
    UnknownRegistry,
}

impl DisplayCreationError {
    /// A sentence that describes the error.
    pub fn message(&self) -> (text: String)
        ensures
            text@ == (match *self {
                DisplayCreationError::DisplayUnavailable => "no display is available for the window"@,
                DisplayCreationError::NoUsableConfiguration =>
                    "no rendering configuration produced a usable surface"@,
                DisplayCreationError::UnknownRegistry => "the viewport registry of the request is unknown"@,
            }),
    {
        match self {
            DisplayCreationError::DisplayUnavailable => "no display is available for the window".to_string(),
            DisplayCreationError::NoUsableConfiguration =>
                "no rendering configuration produced a usable surface".to_string(),
            DisplayCreationError::UnknownRegistry =>
                "the viewport registry of the request is unknown".to_string(),
        }
    }
}

/// How presenting a frame waits for the display.
#[derive(Clone, Copy, Debug, PartialEq, Eq, Structural)]
pub enum SwapInterval {
    /// Present at once.
    DontWait,
    /// Wait for this many vertical blanks.
    Wait(u32),
}

/// The state of a rendering context that has not been made current.
#[derive(Clone, Copy, Debug, PartialEq, Eq, Structural)]
pub struct NotCurrentContext {}

/// The state of a rendering context that has been made current at least
/// once. Whether it still is depends on what other windows have done since.
#[derive(Clone, Copy, Debug, PartialEq, Eq, Structural)]
pub struct PossiblyCurrentContext {}

/// The rendering context that is current on the thread of the event loop.
/// At most one is, whatever the number of windows.
#[derive(Clone, Copy, Debug, PartialEq, Eq, Structural)]
pub struct CurrentContext {
    /// The native window whose context is current.
    pub window: Option<u64>,
}

/// The least extent of a rendering surface is one pixel.
pub open spec fn at_least_one(extent: u32) -> u32 {
    if extent < 1 {
        1
    } else {
        extent
    }
}

/// The current context once the context of `window` has been made current.
pub open spec fn activated(current: CurrentContext, window: u64) -> CurrentContext {
    CurrentContext { window: Some(window) }
}

/// Making the context of a window current a second time changes nothing.
pub proof fn law_activation_is_idempotent(current: CurrentContext, window: u64)
    ensures
        activated(activated(current, window), window) == activated(current, window),
{
}

/// A holder of context and related items
pub struct ContextHolder<T> {
    /// The activation state of the context being held
    context: T,
    /// The native window
    window: u64,
    /// The width of the rendering surface in pixels
    width: u32,
    /// The height of the rendering surface in pixels
    height: u32,
    /// The options for the display
    options: TrackedWindowOptions,
    /// The last control flow of the window
    control_flow: Option<SchedulePolicy>,
}

impl<T> ContextHolder<T> {
    /// The native window that the context draws to.
    pub closed spec fn window_id(&self) -> u64 {
        self.window
    }

    /// The last control flow of the window.
    pub closed spec fn last_flow(&self) -> Option<SchedulePolicy> {
        self.control_flow
    }

    /// The size of the rendering surface, width first.
    pub closed spec fn surface(&self) -> (u32, u32) {
        (self.width, self.height)
    }

    /// The options that the holder was made with.
    pub closed spec fn display_options(&self) -> TrackedWindowOptions {
        self.options
    }

    /// The rendering surface is at least one pixel wide and high.
    pub open spec fn wf(&self) -> bool {
        self.surface().0 >= 1 && self.surface().1 >= 1
    }

    /// Create a new context holder for the native window `window`, whose
    /// rendering surface is `width` by `height` pixels.
    pub fn new(context: T, window: u64, width: u32, height: u32, options: TrackedWindowOptions) -> (holder:
        Self)
        requires
            width >= 1,
            height >= 1,
        ensures
            holder.wf(),
            holder.window_id() == window,
            holder.surface() == (width, height),
            holder.display_options() == options,
            holder.last_flow() == Some(SchedulePolicy::Poll),
    {
        ContextHolder { context, window, width, height, options, control_flow: Some(SchedulePolicy::Poll) }
    }

    /// Get the native window
    pub fn window(&self) -> (id: u64)
        ensures
            id == self.window_id(),
    {
        self.window
    }

    /// The size of the rendering surface, width first.
    pub fn surface_size(&self) -> (size: (u32, u32))
        ensures
            size == self.surface(),
    {
        (self.width, self.height)
    }

    /// The last control flow of the window.
    pub fn control_flow(&self) -> (flow: Option<SchedulePolicy>)
        ensures
            flow == self.last_flow(),
    {
        self.control_flow
    }

    /// The options of the holder.
    pub fn options(&self) -> (options: TrackedWindowOptions)
        ensures
            options == self.display_options(),
    {
        self.options
    }
}

impl ContextHolder<PossiblyCurrentContext> {
    /// Call swap_buffers. Presenting a frame begins with the swap interval,
    /// which is set anew for every frame, as some platforms forget it: this
    /// is the interval to set before the buffers of the surface are swapped.
    pub fn swap_buffers(&self) -> (interval: SwapInterval)
        ensures
            interval == if self.display_options().vsync {
                SwapInterval::Wait(1)
            } else {
                SwapInterval::DontWait
            },
    {
        if self.options.vsync {
            SwapInterval::Wait(1)
        } else {
            SwapInterval::DontWait
        }
    }

    /// Resize the surface to the specified size. The size cannot be zero in
    /// either dimension: an extent of zero becomes one.
    pub fn resize(&mut self, width: u32, height: u32)
        ensures
            final(self).surface() == (at_least_one(width), at_least_one(height)),
            final(self).wf(),
            final(self).window_id() == old(self).window_id(),
            final(self).display_options() == old(self).display_options(),
            final(self).last_flow() == old(self).last_flow(),
    {
        self.width = if width < 1 { 1 } else { width };
        self.height = if height < 1 { 1 } else { height };
    }

    /// Make a possibly current context current
    pub fn make_current(&self, current: &mut CurrentContext)
        ensures
            *final(current) == activated(*old(current), self.window_id()),
    {
        current.window = Some(self.window);
    }
}

impl ContextHolder<NotCurrentContext> {
    /// Transforms a not current context into a possibly current context
    pub fn make_current(self, current: &mut CurrentContext) -> (holder: ContextHolder<PossiblyCurrentContext>)
        ensures
            *final(current) == activated(*old(current), self.window_id()),
            holder.window_id() == self.window_id(),
            holder.surface() == self.surface(),
            holder.display_options() == self.display_options(),
            holder.last_flow() == self.last_flow(),
            self.wf() ==> holder.wf(),
    {
        current.window = Some(self.window);
        ContextHolder {
            context: PossiblyCurrentContext {  },
            window: self.window,
            width: self.width,
            height: self.height,
            options: self.options,
            control_flow: self.control_flow,
        }
    }
}

/// Candidate `a` is tried before candidate `b`: it has fewer samples, or as
/// many and stands earlier in the list of the backend.
pub open spec fn tried_before(samples: Seq<u8>, a: int, b: int) -> bool {
    samples[a] < samples[b] || (samples[a] == samples[b] && a < b)
}

/// `order` lists every candidate once, cheapest first.
pub open spec fn is_candidate_order(samples: Seq<u8>, order: Seq<usize>) -> bool {
    &&& order.len() == samples.len()
    &&& forall|k: int| 0 <= k < order.len() ==> 0 <= #[trigger] order[k] < samples.len()
    &&& forall|j: usize| j < samples.len() ==> #[trigger] order.contains(j)
    &&& forall|x: int, y: int|
        0 <= x < y < order.len() ==> tried_before(samples, #[trigger] order[x] as int, #[trigger] order[y] as int)
}

/// The order in which the rendering configurations of a display are tried:
/// by ascending number of samples, and among equals in the order in which the
/// backend listed them. `samples` holds the sample count of each candidate;
/// the result holds their positions.
pub fn candidate_order(samples: &Vec<u8>) -> (order: Vec<usize>)
    ensures
        is_candidate_order(samples@, order@),
{
    let mut order: Vec<usize> = Vec::new();
    let mut i: usize = 0;
    while i < samples.len()
        invariant
            i <= samples.len(),
            order.len() == i,
            forall|k: int| 0 <= k < order.len() ==> 0 <= #[trigger] order[k] < i,
            forall|j: usize| j < i ==> #[trigger] order@.contains(j),
            forall|x: int, y: int|
                0 <= x < y < order.len() ==> tried_before(
                    samples@,
                    #[trigger] order[x] as int,
                    #[trigger] order[y] as int,
                ),
        decreases samples.len() - i,
    {
        let mut p: usize = 0;
        while p < order.len() && samples[order[p]] <= samples[i]
            invariant
                p <= order.len(),
                order.len() == i,
                i < samples.len(),
                forall|k: int| 0 <= k < order.len() ==> 0 <= #[trigger] order[k] < i,
                forall|k: int| 0 <= k < p ==> samples[#[trigger] order[k] as int] <= samples[i as int],
            decreases order.len() - p,
        {
            p += 1;
        }
        let ghost before = order@;
        order.insert(p, i);
        proof {
            assert forall|j: usize| j < i + 1 implies #[trigger] order@.contains(j) by {
                if j < i {
                    assert(before.contains(j));
                    let k = choose|k: int| 0 <= k < before.len() && before[k] == j;
                    if k < p {
                        assert(order@[k] == j);
                    } else {
                        assert(order@[k + 1] == j);
                    }
                } else {
                    assert(order@[p as int] == i);
                }
            }
            assert forall|x: int, y: int| 0 <= x < y < order.len() implies tried_before(
                samples@,
                #[trigger] order[x] as int,
                #[trigger] order[y] as int,
            ) by {
                let bx = if x < p { x } else { x - 1 };
                let by = if y < p { y } else { y - 1 };
                if x == p {
                    // the new candidate against a later one
                    assert(order[y] == before[by]);
                    if p < by {
                        assert(tried_before(samples@, before[p as int] as int, before[by] as int));
                    }
                } else if y == p {
                    assert(order[x] == before[bx]);
                } else {
                    assert(order[x] == before[bx]);
                    assert(order[y] == before[by]);
                    assert(tried_before(samples@, before[bx] as int, before[by] as int));
                }
            }
        }
        i += 1;
    }
    order
}

/// The search for a rendering configuration that the backend accepts. The
/// candidates are tried in their order; the search fails once every one of
/// them has been rejected, and not before.
pub struct ConfigSearch {
    order: Vec<usize>,
    rejected: usize,
}

impl ConfigSearch {
    /// The positions of the candidates, in the order in which they are tried.
    pub closed spec fn order(&self) -> Seq<usize> {
        self.order@
    }

    /// How many candidates the backend has rejected.
    pub closed spec fn rejected(&self) -> nat {
        self.rejected as nat
    }

    /// No more candidates have been rejected than there are.
    pub open spec fn wf(&self) -> bool {
        self.rejected() <= self.order().len()
    }

    /// Begins the search among the candidates whose sample counts are `samples`.
    pub fn begin(samples: &Vec<u8>) -> (search: Self)
        ensures
            search.wf(),
            is_candidate_order(samples@, search.order()),
            search.rejected() == 0,
    {
        ConfigSearch { order: candidate_order(samples), rejected: 0 }
    }

    /// The candidate to try next, or the error of the search when the backend
    /// has rejected them all.
    pub fn candidate(&self) -> (next: Result<usize, DisplayCreationError>)
        requires
            self.wf(),
        ensures
            next == (if self.rejected() < self.order().len() {
                Ok::<usize, DisplayCreationError>(self.order()[self.rejected() as int])
            } else {
                Err::<usize, DisplayCreationError>(DisplayCreationError::NoUsableConfiguration)
            }),
    {
        if self.rejected < self.order.len() {
            Ok(self.order[self.rejected])
        } else {
            Err(DisplayCreationError::NoUsableConfiguration)
        }
    }

    /// Notes that the backend has rejected the candidate that was tried.
    /// Once all are rejected, nothing changes any more.
    pub fn reject(&mut self)
        requires
            old(self).wf(),
        ensures
            final(self).wf(),
            final(self).order() == old(self).order(),
            final(self).rejected() == (if old(self).rejected() < old(self).order().len() {
                old(self).rejected() + 1
            } else {
                old(self).rejected()
            }),
    {
        if self.rejected < self.order.len() {
            self.rejected += 1;
        }
    }
}

} // verus!
