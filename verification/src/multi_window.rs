//! The set of all windows of a program, and the requests that windows are
//! made from.

use crate::container::{
    after_handler, aftermath, answered, checked_out, forced_to_close, last_minted, requested,
    rooted, wish, within_limits, CommonWindowData, DispatchPlan, HandlerOutcome,
    IndeterminateWindowedContext, NativeWindow, TrackedWindow, TrackedWindowContainer,
};
use crate::control_flow::{deadline_fits, SchedulePolicy};
use crate::event::{addressed_to, Event, Handler, WindowEvent};
pub use crate::identity::{get_window_id, new_id};
use crate::identity::WindowTable;
use crate::tracked_window::{
    activated, ContextHolder, CurrentContext, DisplayCreationError, PossiblyCurrentContext,
    TrackedWindowOptions,
};
use crate::viewport::{
    repaint_delay, DeferredViewportUiCallback, ViewportBuilder, ViewportRegistry, ROOT,
};
use crate::window_builder::WindowBuilder;
use vstd::prelude::*;

verus! {

/// A struct defining how a new window is to be created.
pub struct NewWindowRequest<W> {
    /// The state of the window. A window without one is a viewport, drawn
    /// by the frame of another window.
    pub window_state: Option<W>,
    /// Specifies how to build the native window
    pub builder: WindowBuilder,
    /// Other options for the window.
    pub options: TrackedWindowOptions,
    /// An id by which the program finds the actual window of the request once it exists.
    pub id: u32,
    /// The viewport options
    pub viewport: Option<ViewportBuilder>,
    /// The viewport id
    pub viewport_id: Option<u64>,
    /// The viewport registry, shared among the set of related windows, by its
    /// handle; a request without one starts a family of its own
    pub viewportset: Option<usize>,
    /// The viewport callback
    pub viewport_callback: Option<DeferredViewportUiCallback>,
}

impl<W> NewWindowRequest<W> {
    /// Create a new root window
    pub fn new(window_state: W, builder: WindowBuilder, options: TrackedWindowOptions, id: u32) -> (request:
        Self)
        ensures
            request == (NewWindowRequest {
                window_state: Some(window_state),
                builder,
                options,
                id,
                viewport: None,
                viewport_id: None,
                viewportset: None,
                viewport_callback: None,
            }),
    {
        NewWindowRequest {
            window_state: Some(window_state),
            builder,
            options,
            id,
            viewport: None,
            viewport_id: None,
            viewportset: None,
            viewport_callback: None,
        }
    }

    /// Create a new viewport window: one that belongs to the family of the
    /// registry `viewportset` and shows the viewport `vp_id`.
    pub fn new_viewport(
        builder: WindowBuilder,
        options: TrackedWindowOptions,
        id: u32,
        vp_builder: ViewportBuilder,
        vp_id: u64,
        viewportset: usize,
        vpcb: Option<DeferredViewportUiCallback>,
    ) -> (request: Self)
        ensures
            request == (NewWindowRequest::<W> {
                window_state: None,
                builder,
                options,
                id,
                viewport: Some(vp_builder),
                viewport_id: Some(vp_id),
                viewportset: Some(viewportset),
                viewport_callback: vpcb,
            }),
    {
        NewWindowRequest {
            window_state: None,
            builder,
            options,
            id,
            viewport: Some(vp_builder),
            viewport_id: Some(vp_id),
            viewport_callback: vpcb,
            viewportset: Some(viewportset),
        }
    }
}

/// A font that every window gets when its UI context is made: the bytes of
/// the font file, registered under `name` both as font data and as a font
/// family of that name.
pub struct Font {
    /// The name of the font and of its family.
    pub name: String,
    /// The bytes of the font file.
    pub data: Vec<u8>,
}

/// A font named `name` is among `fonts`.
pub open spec fn has_font(fonts: Seq<Font>, name: Seq<char>) -> bool {
    exists|i: int| 0 <= i < fonts.len() && (#[trigger] fonts[i]).name@ == name
}

/// `i` is the position of the first font named `name` among `fonts`.
pub open spec fn first_font(fonts: Seq<Font>, name: Seq<char>, i: int) -> bool {
    &&& 0 <= i < fonts.len()
    &&& fonts[i].name@ == name
    &&& forall|j: int| 0 <= j < i ==> (#[trigger] fonts[j]).name@ != name
}

/// `after` is `before` with `font` registered: in the place of the font of
/// the same name where there is one, and at the end otherwise.
pub open spec fn font_registered(before: Seq<Font>, font: Font, after: Seq<Font>) -> bool {
    if has_font(before, font.name@) {
        exists|i: int| #[trigger] first_font(before, font.name@, i) && after == before.update(i, font)
    } else {
        after == before.push(font)
    }
}

/// The table of tokens once the window of `token` has been realized as the
/// native window `native`. A token that was never minted is not entered.
pub open spec fn published(table: Map<u32, Option<u64>>, token: u32, native: u64) -> Map<u32, Option<u64>> {
    if table.contains_key(token) {
        table.insert(token, Some(native))
    } else {
        table
    }
}

/// `container` is the container that `request` asks for, realized as the
/// native window `native`, in the family of the registry `handle`.
pub open spec fn container_of<W>(
    container: TrackedWindowContainer<W>,
    request: NewWindowRequest<W>,
    native: NativeWindow,
    handle: usize,
) -> bool {
    &&& container.state() == request.window_state
    &&& container.common().gl_window matches IndeterminateWindowedContext::NotCurrent(holder) && {
        &&& holder.window_id() == native.id
        &&& holder.surface() == (native.width, native.height)
        &&& holder.display_options() == request.options
        &&& holder.last_flow() == Some(SchedulePolicy::Poll)
    }
    &&& container.common().egui is None
    &&& container.common().viewportset == handle
    &&& container.common().viewportid == (match request.viewport_id {
        Some(id) => id,
        None => ROOT,
    })
    &&& container.common().shader == request.options.shader
    &&& container.common().vb == request.viewport
    &&& container.common().viewportcb == request.viewport_callback
}

/// A window that has been added takes the events of the native window that
/// was realized for it, and not those of any other window.
pub proof fn law_added_window_takes_its_events<W>(
    container: TrackedWindowContainer<W>,
    request: NewWindowRequest<W>,
    native: NativeWindow,
    handle: usize,
    other: u64,
    event: WindowEvent,
)
    requires
        container_of(container, request, native, handle),
    ensures
        addressed_to(Event::WindowEvent { window_id: native.id, event }, container.window_id()),
        other != native.id ==> !addressed_to(
            Event::WindowEvent { window_id: other, event },
            container.window_id(),
        ),
{
}

/// The registry that the window of a request belongs to, among `count`
/// registries: the one it names, or a new one behind them. `None` where the
/// request names a registry that does not exist.
pub open spec fn family_of<W>(request: NewWindowRequest<W>, count: nat) -> Option<usize> {
    match request.viewportset {
        Some(handle) => if handle < count {
            Some(handle)
        } else {
            None
        },
        None => Some(count as usize),
    }
}

/// The identifiers of each registry.
pub open spec fn families(registries: Seq<ViewportRegistry>) -> Seq<Set<u64>> {
    Seq::new(registries.len(), |i: int| registries[i]@)
}

/// Every registry is well formed.
pub open spec fn registries_wf(registries: Seq<ViewportRegistry>) -> bool {
    forall|i: int| 0 <= i < registries.len() ==> (#[trigger] registries[i]).wf()
}

/// Every container has custody of its graphics context and belongs to one
/// of `count` registries.
pub open spec fn containers_wf<W>(containers: Seq<TrackedWindowContainer<W>>, count: nat) -> bool {
    forall|i: int|
        0 <= i < containers.len() ==> (#[trigger] containers[i]).wf() && containers[i].common().viewportset
            < count
}

/// Turns a request into the container of the native window that was realized
/// for it, and publishes the native window under the token of the request.
fn materialize<W>(
    registries: &mut Vec<ViewportRegistry>,
    request: NewWindowRequest<W>,
    native: NativeWindow,
    table: &mut WindowTable,
) -> (made: Result<TrackedWindowContainer<W>, DisplayCreationError>)
    requires
        native.width >= 1,
        native.height >= 1,
        registries_wf(old(registries)@),
    ensures
        registries_wf(final(registries)@),
        match made {
            Ok(container) => {
                &&& family_of(request, old(registries)@.len()) matches Some(handle)
                &&& container.wf()
                &&& container_of(container, request, native, handle)
                &&& handle < final(registries)@.len()
                &&& families(final(registries)@) == (if request.viewportset is None {
                    families(old(registries)@).push(Set::empty())
                } else {
                    families(old(registries)@)
                })
                &&& final(table)@ == published(old(table)@, request.id, native.id)
                &&& final(table).last_issued() == old(table).last_issued()
            },
            Err(error) => {
                &&& family_of(request, old(registries)@.len()) is None
                &&& error == DisplayCreationError::UnknownRegistry
                &&& *final(registries) == *old(registries)
                &&& *final(table) == *old(table)
            },
        },
{
    let handle = match request.viewportset {
        Some(handle) => {
            if handle >= registries.len() {
                return Err(DisplayCreationError::UnknownRegistry);
            }
            handle
        },
        None => {
            let handle = registries.len();
            let ghost before = registries@;
            registries.push(ViewportRegistry::new());
            proof {
                assert(families(registries@) =~= families(before).push(Set::empty()));
            }
            handle
        },
    };
    let viewportid = match request.viewport_id {
        Some(id) => id,
        None => ROOT,
    };
    let container = TrackedWindowContainer::create(
        request.window_state,
        handle,
        viewportid,
        request.viewport_callback,
        native,
        &request.options,
        request.viewport,
    );
    table.publish(request.id, Some(native.id));
    Ok(container)
}

/// The main struct of the crate. Owns the windows of the program, the fonts
/// that every window gets, and the viewport registries of the families of
/// windows.
pub struct MultiWindow<W> {
    /// The windows for the application.
    windows: Vec<TrackedWindowContainer<W>>,
    /// A list of fonts to install on every UI context
    fonts: Vec<Font>,
    /// The viewport registries, one for each family of windows
    registries: Vec<ViewportRegistry>,
    /// The graphics context that is current
    current: CurrentContext,
}

impl<W> Default for MultiWindow<W> {
    fn default() -> (multi_window: Self)
        ensures
            multi_window.wf(),
            multi_window.windows() == Seq::<TrackedWindowContainer<W>>::empty(),
            multi_window.fonts() == Seq::<Font>::empty(),
            multi_window.families() == Seq::<Set<u64>>::empty(),
            multi_window.current() == (CurrentContext { window: None }),
    {
        Self::new()
    }
}

impl<W> MultiWindow<W> {
    /// The live windows, in the order in which they were added.
    pub closed spec fn windows(&self) -> Seq<TrackedWindowContainer<W>> {
        self.windows@
    }

    /// The fonts that a new UI context gets.
    pub closed spec fn fonts(&self) -> Seq<Font> {
        self.fonts@
    }

    /// The viewports that each family of windows has registered.
    pub closed spec fn families(&self) -> Seq<Set<u64>> {
        families(self.registries@)
    }

    /// The graphics context that is current.
    pub closed spec fn current(&self) -> CurrentContext {
        self.current
    }

    /// Every window has custody of its graphics context and belongs to a
    /// family, and every registry is well formed.
    pub closed spec fn wf(&self) -> bool {
        &&& registries_wf(self.registries@)
        &&& containers_wf(self.windows@, self.registries@.len())
    }

    /// In a well-formed collection no window is without its graphics context.
    pub proof fn lemma_custody(&self)
        requires
            self.wf(),
        ensures
            forall|i: int|
                0 <= i < self.windows().len() ==> !((#[trigger] self.windows()[i]).common().gl_window is Empty),
            forall|i: int|
                0 <= i < self.windows().len() ==> (#[trigger] self.windows()[i]).common().viewportset
                    < self.families().len(),
    {
        assert forall|i: int| 0 <= i < self.windows().len() implies !((
        #[trigger] self.windows()[i]).common().gl_window is Empty) by {
            assert(self.windows@[i].wf());
        }
    }

    /// Creates a new `MultiWindow`.
    pub fn new() -> (multi_window: Self)
        ensures
            multi_window.wf(),
            multi_window.windows() == Seq::<TrackedWindowContainer<W>>::empty(),
            multi_window.fonts() == Seq::<Font>::empty(),
            multi_window.families() == Seq::<Set<u64>>::empty(),
            multi_window.current() == (CurrentContext { window: None }),
    {
        let multi_window = MultiWindow {
            windows: Vec::new(),
            fonts: Vec::new(),
            registries: Vec::new(),
            current: CurrentContext { window: None },
        };
        proof {
            assert(families(multi_window.registries@) =~= Seq::<Set<u64>>::empty());
        }
        multi_window
    }

    /// The number of live windows.
    pub fn len(&self) -> (n: usize)
        ensures
            n == self.windows().len(),
    {
        self.windows.len()
    }

    /// Tells whether no window is left.
    pub fn is_empty(&self) -> (empty: bool)
        ensures
            empty == (self.windows().len() == 0),
    {
        self.windows.len() == 0
    }

    /// The live windows.
    pub fn containers(&self) -> (windows: &Vec<TrackedWindowContainer<W>>)
        ensures
            windows@ == self.windows(),
    {
        &self.windows
    }

    /// The fonts that every new UI context gets.
    pub fn font_list(&self) -> (fonts: &Vec<Font>)
        ensures
            fonts@ == self.fonts(),
    {
        &self.fonts
    }

    /// The viewport registry behind `handle`, if there is one.
    pub fn registry(&self, handle: usize) -> (registry: Option<&ViewportRegistry>)
        ensures
            registry is Some <==> handle < self.families().len(),
            registry matches Some(found) ==> found@ == self.families()[handle as int] && (self.wf()
                ==> found.wf()),
    {
        if handle < self.registries.len() {
            Some(&self.registries[handle])
        } else {
            None
        }
    }

    /// The native window whose graphics context is current.
    pub fn current_context(&self) -> (current: CurrentContext)
        ensures
            current == self.current(),
    {
        self.current
    }

    /// Add a font that is applied to every window. Be sure to call this
    /// before the windows that should see it are dispatched to: fonts are
    /// applied once, when the UI context of a window is made. A font of the
    /// same name is replaced.
    pub fn add_font(&mut self, name: String, data: Vec<u8>)
        ensures
            font_registered(old(self).fonts(), Font { name, data }, final(self).fonts()),
            final(self).windows() == old(self).windows(),
            final(self).families() == old(self).families(),
            final(self).current() == old(self).current(),
            old(self).wf() ==> final(self).wf(),
    {
        let mut i: usize = 0;
        while i < self.fonts.len()
            invariant
                i <= self.fonts.len(),
                *self == *old(self),
                forall|j: int| 0 <= j < i ==> (#[trigger] self.fonts@[j]).name@ != name@,
            decreases self.fonts.len() - i,
        {
            if self.fonts[i].name == name {
                let ghost font = Font { name, data };
                self.fonts.set(i, Font { name, data });
                proof {
                    assert(first_font(old(self).fonts(), font.name@, i as int));
                    assert(has_font(old(self).fonts(), font.name@));
                }
                return ;
            }
            i += 1;
        }
        self.fonts.push(Font { name, data });
    }

    /// Adds a window to the `MultiWindow`: `realized` is what the backends
    /// made of the request, a native window or the reason why there is none.
    /// If custom fonts are desired, call `add_font` first.
    ///
    /// The native window is published under the token of the request.
    pub fn add(
        &mut self,
        window: NewWindowRequest<W>,
        realized: Result<NativeWindow, DisplayCreationError>,
        table: &mut WindowTable,
    ) -> (added: Result<(), DisplayCreationError>)
        requires
            old(self).wf(),
            realized matches Ok(native) ==> native.width >= 1 && native.height >= 1,
        ensures
            final(self).wf(),
            final(self).fonts() == old(self).fonts(),
            final(self).current() == old(self).current(),
            match added {
                Ok(_) => {
                    &&& realized matches Ok(native)
                    &&& family_of(window, old(self).families().len()) matches Some(handle)
                    &&& final(self).windows().len() == old(self).windows().len() + 1
                    &&& final(self).windows().drop_last() == old(self).windows()
                    &&& container_of(final(self).windows().last(), window, native, handle)
                    &&& final(self).families() == (if window.viewportset is None {
                        old(self).families().push(Set::empty())
                    } else {
                        old(self).families()
                    })
                    &&& final(table)@ == published(old(table)@, window.id, native.id)
                    &&& final(table).last_issued() == old(table).last_issued()
                },
                Err(error) => {
                    &&& error == (match realized {
                        Err(cause) => cause,
                        Ok(_) => DisplayCreationError::UnknownRegistry,
                    })
                    &&& realized is Ok ==> family_of(window, old(self).families().len()) is None
                    &&& *final(self) == *old(self)
                    &&& *final(table) == *old(table)
                },
            },
    {
        let native = match realized {
            Ok(native) => native,
            Err(error) => {
                return Err(error);
            },
        };
        let ghost before = self.windows@;
        let ghost count = self.registries@.len();
        match materialize(&mut self.registries, window, native, table) {
            Ok(container) => {
                self.windows.push(container);
                proof {
                    assert(self.windows@.drop_last() =~= before);
                    assert(families(self.registries@).len() >= families(old(self).registries@).len());
                    assert(self.registries@.len() >= count);
                    assert forall|i: int| 0 <= i < self.windows@.len() implies (
                    #[trigger] self.windows@[i]).wf() && self.windows@[i].common().viewportset
                        < self.registries@.len() by {
                        if i < before.len() {
                            assert(before[i].wf());
                        }
                    }
                }
                Ok(())
            },
            Err(error) => Err(error),
        }
    }
}

/// What becomes of a window after a dispatch.
#[derive(Clone, Copy, Debug, PartialEq, Eq, Structural)]
pub enum Verdict {
    /// The window stays, and this is what it asks of the event loop.
    Stays { schedule: SchedulePolicy },
    /// The window is closed.
    Leaves,
}

/// The verdict on a window that asked for `requested`, where `permitted`
/// says whether the window may close now. A window that asked for its end
/// and may not have it stays, and the loop is told to wait.
pub open spec fn verdict_of(requested: SchedulePolicy, permitted: bool) -> Verdict {
    if requested == SchedulePolicy::Terminate {
        if permitted {
            Verdict::Leaves
        } else {
            Verdict::Stays { schedule: SchedulePolicy::Wait }
        }
    } else {
        Verdict::Stays { schedule: requested }
    }
}

/// Decides what becomes of a window after a dispatch.
pub fn settle(requested: SchedulePolicy, permitted: bool) -> (verdict: Verdict)
    ensures
        verdict == verdict_of(requested, permitted),
{
    match requested {
        SchedulePolicy::Terminate => {
            if permitted {
                Verdict::Leaves
            } else {
                Verdict::Stays { schedule: SchedulePolicy::Wait }
            }
        },
        _ => Verdict::Stays { schedule: requested },
    }
}

/// A window that asked for its end, or was made to, and may not close stays
/// open; the loop is told to wait, not to end.
pub proof fn law_denied_quit_keeps_window()
    ensures
        verdict_of(SchedulePolicy::Terminate, false) == (Verdict::Stays { schedule: SchedulePolicy::Wait }),
{
}

/// Once no root window is left, a window that is not a root window asks for
/// its end whatever its handler wished, and leaves if it may.
pub proof fn law_root_gone_closes_others(wish: SchedulePolicy, is_root: bool, permitted: bool)
    requires
        !is_root,
    ensures
        requested(wish, forced_to_close(false, is_root)) == SchedulePolicy::Terminate,
        permitted ==> verdict_of(requested(wish, forced_to_close(false, is_root)), permitted)
            == Verdict::Leaves,
{
}

/// One of the windows is a root window.
pub open spec fn any_root<W: TrackedWindow<C>, C>(windows: Seq<TrackedWindowContainer<W>>) -> bool {
    exists|i: int| 0 <= i < windows.len() && rooted::<W, C>((#[trigger] windows[i]).state())
}

/// The window at position `k` is the next that the event is dispatched to:
/// the last of `pending` that it is addressed to.
pub open spec fn is_next<W>(pending: Seq<TrackedWindowContainer<W>>, event: Event, k: int) -> bool {
    &&& 0 <= k < pending.len()
    &&& addressed_to(event, pending[k].window_id())
    &&& forall|j: int| k < j < pending.len() ==> !addressed_to(event, (#[trigger] pending[j]).window_id())
}

/// The event is addressed to none of the windows.
pub open spec fn none_addressed<W>(pending: Seq<TrackedWindowContainer<W>>, event: Event) -> bool {
    forall|j: int| 0 <= j < pending.len() ==> !addressed_to(event, (#[trigger] pending[j]).window_id())
}

/// Every window among `windows` that the event is addressed to has been
/// dispatched to: its graphics context has been made current, it has a UI
/// context, and, where no root window existed at the start of the pass, it
/// has a state of its own (a window without one would have left).
pub open spec fn dispatched<W>(
    windows: Seq<TrackedWindowContainer<W>>,
    event: Event,
    root_window_exists: bool,
) -> bool {
    forall|i: int|
        0 <= i < windows.len() && addressed_to(event, (#[trigger] windows[i]).window_id()) ==> {
            &&& windows[i].common().gl_window is PossiblyCurrent
            &&& windows[i].common().egui is Some
            &&& !root_window_exists ==> windows[i].state() is Some
        }
}

/// One pass over the windows for one event. The windows are visited from
/// the last to the first; those that the event is not addressed to are
/// passed over. Windows that are added during the pass are not visited.
pub struct DispatchPass<W> {
    /// The collection; its windows are those that have not been visited
    host: MultiWindow<W>,
    /// The event of the pass
    event: Event,
    /// The windows that have been visited and stay, in the order of the visits
    handled: Vec<TrackedWindowContainer<W>>,
    /// The windows that were added during the pass
    added: Vec<TrackedWindowContainer<W>>,
    /// What the windows that stay ask of the event loop
    flows: Vec<SchedulePolicy>,
    /// A root window existed when the pass began
    root_window_exists: bool,
}

/// The next step of a pass.
pub enum PassStep<W> {
    /// The event is dispatched to a window: its handler has to run.
    Dispatch(ActiveDispatch<W>),
    /// Every window has been visited: the collection as the pass leaves it,
    /// and what its windows ask of the event loop.
    Done(MultiWindow<W>, Vec<SchedulePolicy>),
}

/// A dispatch that is under way: the graphics context of the window has been
/// taken out of its container and made current, and the handler has to run.
pub struct ActiveDispatch<W> {
    /// The pass that the dispatch belongs to
    pass: DispatchPass<W>,
    /// The container of the window, without its graphics context
    window: TrackedWindowContainer<W>,
    /// The graphics context of the window
    holder: ContextHolder<PossiblyCurrentContext>,
    /// What the backends have to do
    plan: DispatchPlan,
}

/// What a dispatch ends in.
pub struct Finished<W> {
    /// The pass, to be gone on with.
    pub pass: DispatchPass<W>,
    /// What became of the window.
    pub verdict: Verdict,
    /// The windows to create; each is to be realized and added to the pass.
    pub windows_to_create: Vec<NewWindowRequest<W>>,
    /// The native window must be asked to redraw at once.
    pub redraw_now: bool,
}

impl<W> MultiWindow<W> {
    /// Begins a pass over the windows for `event`. Whether a root window
    /// exists is settled here, once for the whole pass.
    pub fn begin_pass<C>(self, event: Event) -> (pass: DispatchPass<W>) where W: TrackedWindow<C>
        requires
            self.wf(),
        ensures
            pass.wf(),
            pass.pending() == self.windows(),
            pass.handled() == Seq::<TrackedWindowContainer<W>>::empty(),
            pass.added() == Seq::<TrackedWindowContainer<W>>::empty(),
            pass.flows() == Seq::<SchedulePolicy>::empty(),
            pass.event() == event,
            pass.root_window_exists() == any_root::<W, C>(self.windows()),
            pass.fonts() == self.fonts(),
            pass.families() == self.families(),
            pass.current() == self.current(),
    {
        let mut root_window_exists = false;
        let mut i: usize = 0;
        while i < self.windows.len()
            invariant
                i <= self.windows.len(),
                root_window_exists == any_root::<W, C>(self.windows@.take(i as int)),
            decreases self.windows.len() - i,
        {
            let ghost seen = self.windows@.take(i as int);
            let ghost next = self.windows@.take(i + 1);
            let is_root = match self.windows[i].get_window_data() {
                Some(window) => window.is_root(),
                None => false,
            };
            proof {
                assert(next[i as int] == self.windows@[i as int]);
                if any_root::<W, C>(seen) {
                    let j = choose|j: int| 0 <= j < seen.len() && rooted::<W, C>((#[trigger] seen[j]).state());
                    assert(next[j] == seen[j]);
                }
                if any_root::<W, C>(next) {
                    let j = choose|j: int| 0 <= j < next.len() && rooted::<W, C>((#[trigger] next[j]).state());
                    if j < i {
                        assert(seen[j] == next[j]);
                    }
                }
            }
            if is_root {
                root_window_exists = true;
            }
            i += 1;
        }
        proof {
            assert(self.windows@.take(self.windows.len() as int) =~= self.windows@);
        }
        DispatchPass {
            host: self,
            event,
            handled: Vec::new(),
            added: Vec::new(),
            flows: Vec::new(),
            root_window_exists,
        }
    }
}

impl<W> DispatchPass<W> {
    /// The windows that have not been visited yet; the last is next.
    pub closed spec fn pending(&self) -> Seq<TrackedWindowContainer<W>> {
        self.host.windows@
    }

    /// The windows that have been visited and stay, in the order of the visits.
    pub closed spec fn handled(&self) -> Seq<TrackedWindowContainer<W>> {
        self.handled@
    }

    /// The windows that were added during the pass.
    pub closed spec fn added(&self) -> Seq<TrackedWindowContainer<W>> {
        self.added@
    }

    /// What the windows that stay ask of the event loop.
    pub closed spec fn flows(&self) -> Seq<SchedulePolicy> {
        self.flows@
    }

    /// The event of the pass.
    pub closed spec fn event(&self) -> Event {
        self.event
    }

    /// A root window existed when the pass began.
    pub closed spec fn root_window_exists(&self) -> bool {
        self.root_window_exists
    }

    /// The fonts that a new UI context gets.
    pub closed spec fn fonts(&self) -> Seq<Font> {
        self.host.fonts@
    }

    /// The viewports that each family of windows has registered.
    pub closed spec fn families(&self) -> Seq<Set<u64>> {
        families(self.host.registries@)
    }

    /// The graphics context that is current.
    pub closed spec fn current(&self) -> CurrentContext {
        self.host.current
    }

    /// Every window of the pass has custody of its graphics context and
    /// belongs to a family, and every registry is well formed.
    pub closed spec fn wf(&self) -> bool {
        &&& self.host.wf()
        &&& containers_wf(self.handled@, self.host.registries@.len())
        &&& containers_wf(self.added@, self.host.registries@.len())
        &&& dispatched(self.handled@, self.event, self.root_window_exists)
    }

    /// The fonts that every new UI context gets.
    pub fn font_list(&self) -> (fonts: &Vec<Font>)
        ensures
            fonts@ == self.fonts(),
    {
        &self.host.fonts
    }

    /// Tells whether a root window existed when the pass began.
    pub fn root_existed(&self) -> (existed: bool)
        ensures
            existed == self.root_window_exists(),
    {
        self.root_window_exists
    }

    /// The number of windows that have not been visited yet.
    pub fn pending_count(&self) -> (n: usize)
        ensures
            n == self.pending().len(),
    {
        self.host.windows.len()
    }

    /// Adds a window while the pass is under way: `realized` is what the
    /// backends made of the request. The window is not visited in this pass;
    /// at its end it stands behind the others.
    pub fn add(
        &mut self,
        window: NewWindowRequest<W>,
        realized: Result<NativeWindow, DisplayCreationError>,
        table: &mut WindowTable,
    ) -> (added: Result<(), DisplayCreationError>)
        requires
            old(self).wf(),
            realized matches Ok(native) ==> native.width >= 1 && native.height >= 1,
        ensures
            final(self).wf(),
            final(self).pending() == old(self).pending(),
            final(self).handled() == old(self).handled(),
            final(self).flows() == old(self).flows(),
            final(self).event() == old(self).event(),
            final(self).root_window_exists() == old(self).root_window_exists(),
            final(self).fonts() == old(self).fonts(),
            final(self).current() == old(self).current(),
            match added {
                Ok(_) => {
                    &&& realized matches Ok(native)
                    &&& family_of(window, old(self).families().len()) matches Some(handle)
                    &&& final(self).added().len() == old(self).added().len() + 1
                    &&& final(self).added().drop_last() == old(self).added()
                    &&& container_of(final(self).added().last(), window, native, handle)
                    &&& final(self).families() == (if window.viewportset is None {
                        old(self).families().push(Set::empty())
                    } else {
                        old(self).families()
                    })
                    &&& final(table)@ == published(old(table)@, window.id, native.id)
                    &&& final(table).last_issued() == old(table).last_issued()
                },
                Err(error) => {
                    &&& error == (match realized {
                        Err(cause) => cause,
                        Ok(_) => DisplayCreationError::UnknownRegistry,
                    })
                    &&& realized is Ok ==> family_of(window, old(self).families().len()) is None
                    &&& *final(self) == *old(self)
                    &&& *final(table) == *old(table)
                },
            },
    {
        let native = match realized {
            Ok(native) => native,
            Err(error) => {
                return Err(error);
            },
        };
        let ghost before = self.added@;
        let ghost count = self.host.registries@.len();
        match materialize(&mut self.host.registries, window, native, table) {
            Ok(container) => {
                self.added.push(container);
                proof {
                    assert(self.added@.drop_last() =~= before);
                    assert(families(self.host.registries@).len() >= families(old(self).host.registries@).len());
                    assert(self.host.registries@.len() >= count);
                    assert forall|i: int| 0 <= i < self.added@.len() implies (#[trigger] self.added@[i]).wf()
                        && self.added@[i].common().viewportset < self.host.registries@.len() by {
                        if i < before.len() {
                            assert(before[i].wf());
                        }
                    }
                    assert forall|i: int| 0 <= i < self.handled@.len() implies (
                    #[trigger] self.handled@[i]).wf() && self.handled@[i].common().viewportset
                        < self.host.registries@.len() by {
                        assert(old(self).handled@[i].wf());
                    }
                    assert forall|i: int| 0 <= i < self.host.windows@.len() implies (
                    #[trigger] self.host.windows@[i]).wf() && self.host.windows@[i].common().viewportset
                        < self.host.registries@.len() by {
                        assert(old(self).host.windows@[i].wf());
                    }
                }
                Ok(())
            },
            Err(error) => Err(error),
        }
    }

    /// Goes on to the next window that the event is addressed to, and takes
    /// its graphics context out for the dispatch; or ends the pass, when no
    /// such window is left, and puts the windows back in their order, those
    /// that were added behind the others.
    pub fn next(self) -> (step: PassStep<W>)
        requires
            self.wf(),
        ensures
            match step {
                PassStep::Dispatch(active) => {
                    &&& active.wf()
                    &&& exists|k: int|
                        {
                            &&& #[trigger] is_next(self.pending(), self.event(), k)
                            &&& active.pass().pending() == self.pending().take(k)
                            &&& active.pass().handled() == self.handled() + self.pending().skip(
                                k + 1,
                            ).reverse()
                            &&& checked_out(
                                self.pending()[k],
                                self.event(),
                                active.window(),
                                active.holder(),
                                active.plan(),
                            )
                        }
                    &&& active.pass().added() == self.added()
                    &&& active.pass().flows() == self.flows()
                    &&& active.pass().event() == self.event()
                    &&& active.pass().root_window_exists() == self.root_window_exists()
                    &&& active.pass().fonts() == self.fonts()
                    &&& active.pass().families() == self.families()
                    &&& active.pass().current() == activated(self.current(), active.plan().window)
                },
                PassStep::Done(host, flows) => {
                    &&& none_addressed(self.pending(), self.event())
                    &&& host.wf()
                    &&& forall|i: int|
                        0 <= i < host.windows().len() ==> !((
                        #[trigger] host.windows()[i]).common().gl_window is Empty)
                    &&& host.windows() == self.pending() + self.handled().reverse() + self.added()
                    &&& dispatched(
                        self.pending() + self.handled().reverse(),
                        self.event(),
                        self.root_window_exists(),
                    )
                    &&& flows@ == self.flows()
                    &&& host.fonts() == self.fonts()
                    &&& host.families() == self.families()
                    &&& host.current() == self.current()
                },
            },
    {
        let ghost pending = self.host.windows@;
        let ghost visited = self.handled@;
        let ghost count = self.host.registries@.len();
        let DispatchPass { mut host, event, mut handled, mut added, flows, root_window_exists } = self;
        loop
            invariant
                host.windows@.len() <= pending.len(),
                host.windows@ == pending.take(host.windows@.len() as int),
                handled@ == visited + pending.skip(host.windows@.len() as int).reverse(),
                forall|j: int|
                    host.windows@.len() <= j < pending.len() ==> !addressed_to(
                        event,
                        (#[trigger] pending[j]).window_id(),
                    ),
                host.registries == self.host.registries,
                host.fonts == self.host.fonts,
                host.current == self.host.current,
                count == host.registries@.len(),
                registries_wf(host.registries@),
                containers_wf(pending, count),
                containers_wf(visited, count),
                containers_wf(added@, count),
                dispatched(visited, event, root_window_exists),
                added@ == self.added@,
                pending == self.host.windows@,
                visited == self.handled@,
                event == self.event,
                flows == self.flows,
                root_window_exists == self.root_window_exists,
            decreases host.windows@.len(),
        {
            let ghost n = host.windows@.len() as int;
            match host.windows.pop() {
                None => {
                    proof {
                        assert(pending.skip(0) =~= pending);
                        assert(none_addressed(pending, event));
                    }
                    let ghost kept = handled@;
                    while handled.len() > 0
                        invariant
                            handled@.len() <= kept.len(),
                            handled@ == kept.take(handled@.len() as int),
                            host.windows@ == kept.skip(handled@.len() as int).reverse(),
                            host.registries == self.host.registries,
                            host.fonts == self.host.fonts,
                            host.current == self.host.current,
                            added@ == self.added@,
                        decreases handled@.len(),
                    {
                        let ghost m = handled@.len() as int;
                        let ghost before = host.windows@;
                        match handled.pop() {
                            Some(window) => {
                                host.windows.push(window);
                                proof {
                                    assert(host.windows@ =~= kept.skip(m - 1).reverse()) by {
                                        assert(kept.skip(m - 1) =~= seq![kept[m - 1]] + kept.skip(m));
                                        assert(host.windows@ =~= before.push(kept[m - 1]));
                                        lemma_reverse_cons(kept[m - 1], kept.skip(m));
                                    }
                                    assert(handled@ =~= kept.take(m - 1));
                                }
                            },
                            None => {},
                        }
                    }
                    let ghost restored = host.windows@;
                    host.windows.append(&mut added);
                    proof {
                        assert(kept.skip(0) =~= kept);
                        assert(restored == kept.reverse());
                        lemma_reverse_concat(visited, pending.reverse());
                        assert(pending.reverse().reverse() =~= pending);
                        assert(host.windows@ =~= pending + visited.reverse() + self.added@);
                        assert forall|i: int| 0 <= i < host.windows@.len() implies (
                        #[trigger] host.windows@[i]).wf() && host.windows@[i].common().viewportset
                            < count by {
                            if i < pending.len() {
                                assert(host.windows@[i] == pending[i]);
                            } else if i < pending.len() + visited.len() {
                                let r = i - pending.len();
                                assert(host.windows@[i] == visited.reverse()[r]);
                                assert(visited.reverse()[r] == visited[visited.len() - 1 - r]);
                            } else {
                                let r = i - pending.len() - visited.len();
                                assert(host.windows@[i] == self.added@[r]);
                            }
                        }
                    }
                    proof {
                        host.lemma_custody();
                        let lived = pending + visited.reverse();
                        assert forall|i: int|
                            0 <= i < lived.len() && addressed_to(
                                event,
                                (#[trigger] lived[i]).window_id(),
                            ) implies lived[i].common().gl_window is PossiblyCurrent
                            && lived[i].common().egui is Some && (!root_window_exists
                            ==> lived[i].state() is Some) by {
                            if i < pending.len() {
                                assert(lived[i] == pending[i]);
                            } else {
                                let r = i - pending.len();
                                assert(lived[i] == visited[visited.len() - 1 - r]);
                            }
                        }
                    }
                    return PassStep::Done(host, flows);
                },
                Some(mut window) => {
                    proof {
                        assert(window == pending[n - 1]);
                        assert(host.windows@ =~= pending.take(n - 1));
                        assert(window.wf());
                    }
                    if window.matches(&event) {
                        let (holder, plan) = window.check_out(&event, &mut host.current);
                        proof {
                            lemma_dispatched_passed_over(visited, pending.skip(n), event, root_window_exists);
                        }
                        let pass = DispatchPass { host, event, handled, added, flows, root_window_exists };
                        let active = ActiveDispatch { pass, window, holder, plan };
                        proof {
                            let k = n - 1;
                            assert(is_next(pending, event, k));
                            assert(active.pass().handled() == self.handled() + self.pending().skip(
                                k + 1,
                            ).reverse());
                            assert(checked_out(
                                self.pending()[k],
                                self.event(),
                                active.window(),
                                active.holder(),
                                active.plan(),
                            ));
                        }
                        return PassStep::Dispatch(active);
                    } else {
                        let ghost before = handled@;
                        handled.push(window);
                        proof {
                            assert(handled@ =~= visited + pending.skip(n - 1).reverse()) by {
                                assert(pending.skip(n - 1) =~= seq![pending[n - 1]] + pending.skip(n));
                                lemma_reverse_cons(pending[n - 1], pending.skip(n));
                                assert(handled@ =~= before.push(pending[n - 1]));
                            }
                        }
                    }
                },
            }
        }
    }
}

impl<W> ActiveDispatch<W> {
    /// The pass that the dispatch belongs to.
    pub closed spec fn pass(&self) -> DispatchPass<W> {
        self.pass
    }

    /// The container of the window, without its graphics context.
    pub closed spec fn window(&self) -> TrackedWindowContainer<W> {
        self.window
    }

    /// The graphics context of the window.
    pub closed spec fn holder(&self) -> ContextHolder<PossiblyCurrentContext> {
        self.holder
    }

    /// What the backends have to do.
    pub closed spec fn plan(&self) -> DispatchPlan {
        self.plan
    }

    /// The registry of the family of the window, by its handle.
    pub open spec fn family(&self) -> usize {
        self.window().common().viewportset
    }

    /// What the window asks of the event loop once its handler has come to
    /// `outcome`: what the handler makes it wish for, or its end where no
    /// root window existed at the start of the pass and it is none itself.
    pub open spec fn asked<C>(&self, outcome: HandlerOutcome<W>) -> SchedulePolicy where W: TrackedWindow<C> {
        requested(
            wish(
                self.plan().handler,
                outcome,
                self.pass().families()[self.family() as int],
                self.window().common().viewportid,
                self.window().deferred(),
            ).schedule,
            forced_to_close(self.pass().root_window_exists(), rooted::<W, C>(self.window().state())),
        )
    }

    /// What the backends have to do for this dispatch.
    pub fn get_plan(&self) -> (plan: &DispatchPlan)
        ensures
            *plan == self.plan(),
    {
        &self.plan
    }

    /// The holder of the graphics context of the window.
    pub fn get_holder(&self) -> (holder: &ContextHolder<PossiblyCurrentContext>)
        ensures
            *holder == self.holder(),
    {
        &self.holder
    }

    /// The container of the window.
    pub fn get_window(&self) -> (window: &TrackedWindowContainer<W>)
        ensures
            *window == self.window(),
    {
        &self.window
    }

    /// The fonts that a new UI context gets.
    pub fn font_list(&self) -> (fonts: &Vec<Font>)
        ensures
            fonts@ == self.pass().fonts(),
    {
        &self.pass.host.fonts
    }

    /// Tells whether the limits of the machine allow the dispatch to end
    /// with `outcome`: whether `finish` can be called with it.
    pub fn accepts(&self, outcome: &HandlerOutcome<W>, table: &WindowTable) -> (ok: bool)
        requires
            self.wf(),
        ensures
            ok == within_limits(
                self.plan().handler,
                *outcome,
                self.pass().families()[self.family() as int],
                self.window().common().viewportid,
                self.window().deferred(),
                *table,
            ),
    {
        match self.plan.handler {
            Handler::Redraw { .. } => match outcome {
                HandlerOutcome::Frame { response, viewports, now } => {
                    let common = self.window.get_common();
                    let registry = &self.pass.host.registries[common.viewportset];
                    let orphaned = common.viewportcb.is_some() && !registry.contains(common.viewportid);
                    let delay = repaint_delay(viewports, common.viewportid);
                    deadline_fits(response.quit || orphaned, delay, *now) && table.has_room_for(
                        viewports.len(),
                    )
                },
                _ => true,
            },
            _ => true,
        }
    }

    /// The state of the window, for its handler to work on.
    pub fn window_data_mut(&mut self) -> (data: Option<&mut W>)
        ensures
            final(self).pass() == old(self).pass(),
            final(self).holder() == old(self).holder(),
            final(self).plan() == old(self).plan(),
            final(self).window().common() == old(self).window().common(),
            old(self).wf() ==> final(self).wf(),
            old(self).window().state() is None ==> data is None && final(self).window().state() is None,
            old(self).window().state() is Some ==> data is Some && *data->0 == old(self).window().state()->0
                && final(self).window().state() == Some(*final(data->0)),
    {
        self.window.get_window_data_mut()
    }

    /// Ends the dispatch with what came of the handler. The graphics context
    /// goes back into the container of the window. A window that asks for
    /// its end is asked whether it may close; if it may, it leaves the
    /// collection. A window that stays is counted among those visited, and
    /// what it asks of the event loop among the requests of the pass.
    pub fn finish<C>(self, c: &mut C, outcome: HandlerOutcome<W>, table: &mut WindowTable) -> (done: Finished<
        W,
    >) where W: TrackedWindow<C>
        requires
            self.wf(),
            within_limits(
                self.plan().handler,
                outcome,
                self.pass().families()[self.family() as int],
                self.window().common().viewportid,
                self.window().deferred(),
                *old(table),
            ),
        ensures
            done.pass.wf(),
            done.pass.pending() == self.pass().pending(),
            done.pass.added() == self.pass().added(),
            done.pass.event() == self.pass().event(),
            done.pass.root_window_exists() == self.pass().root_window_exists(),
            done.pass.fonts() == self.pass().fonts(),
            done.pass.current() == self.pass().current(),
            self.asked::<C>(outcome) != SchedulePolicy::Terminate ==> done.verdict == (Verdict::Stays {
                schedule: self.asked::<C>(outcome),
            }),
            self.asked::<C>(outcome) == SchedulePolicy::Terminate ==> done.verdict == verdict_of(
                SchedulePolicy::Terminate,
                true,
            ) || done.verdict == verdict_of(SchedulePolicy::Terminate, false),
            self.asked::<C>(outcome) == SchedulePolicy::Terminate && self.window().state() is None
                ==> done.verdict == Verdict::Leaves,
            match done.verdict {
                Verdict::Stays { schedule } => {
                    &&& done.pass.flows() == self.pass().flows().push(schedule)
                    &&& done.pass.handled().len() == self.pass().handled().len() + 1
                    &&& done.pass.handled().drop_last() == self.pass().handled()
                    &&& done.pass.handled().last().common() == (CommonWindowData {
                        gl_window: IndeterminateWindowedContext::PossiblyCurrent(self.holder()),
                        egui: after_handler(self.plan().handler, self.window().common().egui),
                        ..self.window().common()
                    })
                    &&& done.pass.handled().last().state() is Some <==> self.window().state() is Some
                    &&& self.asked::<C>(outcome) != SchedulePolicy::Terminate ==> done.pass.handled().last().state()
                        == self.window().state()
                },
                Verdict::Leaves => {
                    &&& done.pass.flows() == self.pass().flows()
                    &&& done.pass.handled() == self.pass().handled()
                },
            },
            done.redraw_now == wish(
                self.plan().handler,
                outcome,
                self.pass().families()[self.family() as int],
                self.window().common().viewportid,
                self.window().deferred(),
            ).redraw_now,
            done.pass.families().len() == self.pass().families().len(),
            forall|i: int|
                0 <= i < self.pass().families().len() && i != self.family() ==> done.pass.families()[i]
                    == self.pass().families()[i],
            aftermath(
                self.plan().handler,
                outcome,
                !self.window().deferred(),
                self.family(),
                self.pass().families()[self.family() as int],
                done.pass.families()[self.family() as int],
                old(table)@,
                old(table).last_issued(),
                final(table)@,
                done.windows_to_create@,
            ),
            final(table).last_issued() == last_minted(
                old(table).last_issued(),
                answered(self.plan().handler, outcome),
                done.windows_to_create@,
            ),
    {
        let ActiveDispatch { mut pass, mut window, holder, plan } = self;
        let handle = window.get_common().viewportset;
        let ghost registries = pass.host.registries@;
        let registry = &mut pass.host.registries[handle];
        let control = window.check_in::<C>(
            holder,
            plan.handler,
            outcome,
            registry,
            table,
            pass.root_window_exists,
        );
        proof {
            assert(pass.host.registries@.len() == registries.len());
            assert forall|i: int| 0 <= i < registries.len() && i != handle implies families(
                pass.host.registries@,
            )[i] == families(registries)[i] by {
                assert(pass.host.registries@[i] == registries[i]);
            }
            assert(registries_wf(pass.host.registries@)) by {
                assert forall|i: int| 0 <= i < pass.host.registries@.len() implies (
                #[trigger] pass.host.registries@[i]).wf() by {
                    if i != handle {
                        assert(pass.host.registries@[i] == registries[i]);
                    }
                }
            }
        }
        let permitted = match control.requested_control_flow {
            SchedulePolicy::Terminate => window.try_quit(c),
            _ => true,
        };
        let verdict = settle(control.requested_control_flow, permitted);
        match verdict {
            Verdict::Stays { schedule } => {
                let ghost visited = pass.handled@;
                pass.handled.push(window);
                pass.flows.push(schedule);
                proof {
                    assert(pass.handled@.drop_last() =~= visited);
                    assert(pass.handled@.last() == window);
                    assert forall|i: int| 0 <= i < pass.handled@.len() implies (
                    #[trigger] pass.handled@[i]).wf() && pass.handled@[i].common().viewportset
                        < pass.host.registries@.len() by {
                        if i < visited.len() {
                            assert(visited[i].wf());
                        }
                    }
                }
            },
            Verdict::Leaves => {},
        }
        Finished { pass, verdict, windows_to_create: control.windows_to_create, redraw_now: control.redraw_now }
    }

    /// The pass is well formed; the container is without its graphics
    /// context, which is held here and is the current one.
    pub closed spec fn wf(&self) -> bool {
        &&& self.pass.wf()
        &&& self.window.common().gl_window is Empty
        &&& self.window.common().egui is Some
        &&& self.window.common().viewportset < self.pass.host.registries@.len()
        &&& self.holder.wf()
        &&& self.holder.window_id() == self.plan.window
        &&& self.pass.host.current == (CurrentContext { window: Some(self.plan.window) })
    }
}

/// Windows that the event is not addressed to can be passed over in any
/// order without a dispatch.
proof fn lemma_dispatched_passed_over<W>(
    visited: Seq<TrackedWindowContainer<W>>,
    passed: Seq<TrackedWindowContainer<W>>,
    event: Event,
    root_window_exists: bool,
)
    requires
        dispatched(visited, event, root_window_exists),
        none_addressed(passed, event),
    ensures
        dispatched(visited + passed.reverse(), event, root_window_exists),
{
    let all = visited + passed.reverse();
    assert forall|i: int|
        0 <= i < all.len() && addressed_to(
            event,
            (#[trigger] all[i]).window_id(),
        ) implies all[i].common().gl_window is PossiblyCurrent && all[i].common().egui is Some && (
        !root_window_exists ==> all[i].state() is Some) by {
        if i < visited.len() {
            assert(all[i] == visited[i]);
        } else {
            let r = i - visited.len();
            assert(all[i] == passed[passed.len() - 1 - r]);
        }
    }
}

/// Reversing a sequence moves its first element to the end.
proof fn lemma_reverse_cons<T>(head: T, tail: Seq<T>)
    ensures
        (seq![head] + tail).reverse() == tail.reverse().push(head),
{
    assert((seq![head] + tail).reverse() =~= tail.reverse().push(head));
}

/// The reverse of two sequences in a row is their reverses the other way round.
proof fn lemma_reverse_concat<T>(a: Seq<T>, b: Seq<T>)
    ensures
        (a + b).reverse() == b.reverse() + a.reverse(),
{
    assert((a + b).reverse() =~= b.reverse() + a.reverse());
}

} // verus!
