//! The container of one window: the custody of its graphics context, its UI
//! context, its state, and how an event is dispatched to it.
//!
//! Dispatching an event falls into two halves with the work of the backends
//! between them. `check_out` takes the graphics context out of the container,
//! marks it current and says what the backends have to do. `check_in` takes
//! what came of that work, decides what the window asks of the event loop and
//! puts the context back.

use crate::control_flow::{
    deadline_representable, derive_schedule, repaint_plan, RepaintPlan, SchedulePolicy,
};
use crate::event::{addressed_to, handler_for, route, Event, Handler};
use crate::identity::{entered, minted_in_turn, new_id, WindowTable};
use crate::multi_window::NewWindowRequest;
use crate::tracked_window::{
    activated, ContextHolder, CurrentContext, NotCurrentContext, PossiblyCurrentContext,
    ShaderVersion, TrackedWindowOptions,
};
use crate::viewport::{
    delay_of, is_spawn_list, reconciled, repaint_delay, DeferredViewportUiCallback, ViewportBuilder,
    ViewportOutput, ViewportRegistry,
};
use vstd::prelude::*;

verus! {

/// What a kind of window can do. Every kind of window that a program shows
/// implements this for its state; `C` is the state that all windows share.
pub trait TrackedWindow<C> {
    /// The window is a root window. Root windows will close all other windows
    /// when closed. It is valid to have more than one root window open at the
    /// same time.
    ///
    /// This is what `is_root` answers; an implementation that is compiled
    /// without being verified gives both the same body.
    spec fn root(&self) -> bool;

    /// Returns true if the window is a root window.
    fn is_root(&self) -> (root: bool)
        ensures
            root == self.root(),
    ;

    /// Returns true when the window is allowed to close. By default a window
    /// is always allowed to, and being asked changes neither the window nor
    /// the state that the windows share. A kind of window that decides for
    /// itself is bound by none of this.
    fn can_quit(&mut self, c: &mut C) -> (permitted: bool) where Self: Sized
        default_ensures
            permitted,
            *final(self) == *old(self),
            *final(c) == *old(c),
    {
        true
    }

    /// Sets whether or not the window is a root window. Does nothing by default.
    fn set_root(&mut self, root: bool) {
    }
}

/// The return value of the redraw and custom event handlers of a window.
pub struct RedrawResponse<W> {
    /// Should the window exit?
    pub quit: bool,
    /// A list of windows that the window desires to have created.
    pub new_windows: Vec<NewWindowRequest<W>>,
}

impl<W> Default for RedrawResponse<W> {
    fn default() -> (response: Self)
        ensures
            !response.quit,
            response.new_windows@ == Seq::<NewWindowRequest<W>>::empty(),
    {
        RedrawResponse { quit: false, new_windows: Vec::new() }
    }
}

/// Enum of the potential options for a window context
pub enum IndeterminateWindowedContext {
    /// The window context is possibly current
    PossiblyCurrent(ContextHolder<PossiblyCurrentContext>),
    /// The window context is not current
    NotCurrent(ContextHolder<NotCurrentContext>),
    /// The window context is empty: it has been taken out for a dispatch
    Empty,
}

impl IndeterminateWindowedContext {
    /// The native window of the context, where one is held.
    pub open spec fn window_id(&self) -> Option<u64> {
        match *self {
            IndeterminateWindowedContext::PossiblyCurrent(holder) => Some(holder.window_id()),
            IndeterminateWindowedContext::NotCurrent(holder) => Some(holder.window_id()),
            IndeterminateWindowedContext::Empty => None,
        }
    }

    /// A context is held and its surface is not empty.
    pub open spec fn wf(&self) -> bool {
        match *self {
            IndeterminateWindowedContext::PossiblyCurrent(holder) => holder.wf(),
            IndeterminateWindowedContext::NotCurrent(holder) => holder.wf(),
            IndeterminateWindowedContext::Empty => false,
        }
    }

    /// Get the native window
    pub fn window(&self) -> (id: u64)
        requires
            !(self is Empty),
        ensures
            Some(id) == self.window_id(),
    {
        match self {
            IndeterminateWindowedContext::PossiblyCurrent(holder) => holder.window(),
            IndeterminateWindowedContext::NotCurrent(holder) => holder.window(),
            IndeterminateWindowedContext::Empty => 0,
        }
    }
}

/// The UI context of a window, as far as the orchestration tracks it.
#[derive(Clone, Copy, Debug, PartialEq, Eq, Structural)]
pub struct UiContext {
    /// What the context held on the graphics device has been released.
    pub released: bool,
}

/// The common data for all window types
pub struct CommonWindowData {
    /// The context for the window
    pub gl_window: IndeterminateWindowedContext,
    /// The UI context of this window; each window has a separate one, made
    /// when the window is dispatched to for the first time.
    pub egui: Option<UiContext>,
    /// The registry of the family of the window, by its handle
    pub viewportset: usize,
    /// The viewport id for the window
    pub viewportid: u64,
    /// The optional shader version for the window
    pub shader: Option<ShaderVersion>,
    /// The viewport builder
    pub vb: Option<ViewportBuilder>,
    /// The viewport callback
    pub viewportcb: Option<DeferredViewportUiCallback>,
}

/// A native window as the windowing backend has realized it.
#[derive(Clone, Copy, Debug, PartialEq, Eq, Structural)]
pub struct NativeWindow {
    /// The identifier that the backend gave the window.
    pub id: u64,
    /// The width of its client area in pixels.
    pub width: u32,
    /// The height of its client area in pixels.
    pub height: u32,
}

/// How the graphics context of a window was made current for a dispatch.
#[derive(Clone, Copy, Debug, PartialEq, Eq, Structural)]
pub enum Activation {
    /// The context had never been current: it is made so for the first time.
    Fresh,
    /// The context had been current before: it is asserted again, since
    /// another window may have taken its place.
    Reasserted,
}

/// What it takes to make the UI context of a window.
pub struct UiSetup {
    /// The shader version for the painter.
    pub shader: Option<ShaderVersion>,
    /// The builder to apply to the native window, for a viewport.
    pub viewport: Option<ViewportBuilder>,
}

/// What the backends have to do for one dispatch, in this order: make the
/// context of `window` current, make the UI context if `ui_setup` is there,
/// and run the handler.
pub struct DispatchPlan {
    /// The native window that the event is dispatched to.
    pub window: u64,
    /// How the graphics context is made current.
    pub activation: Activation,
    /// Present if the window has no UI context yet and one must be made.
    pub ui_setup: Option<UiSetup>,
    /// The work that the event asks for.
    pub handler: Handler,
}

/// What came of the handler of a dispatch.
pub enum HandlerOutcome<W> {
    /// A frame was drawn: what the window answered, what the end of the
    /// frame reported of each viewport, and the instant at which it ended.
    Frame { response: RedrawResponse<W>, viewports: Vec<ViewportOutput>, now: u64 },
    /// A custom event was handled: what the window answered.
    Response { response: RedrawResponse<W> },
    /// There is nothing to tell.
    Done,
}

/// The eventual result of a dispatch. Used internally for window management.
pub struct TrackedWindowControl<W> {
    /// Indicates how the window desires to respond to future events
    pub requested_control_flow: SchedulePolicy,
    /// A list of windows to be created
    pub windows_to_create: Vec<NewWindowRequest<W>>,
    /// The native window must be asked to redraw at once
    pub redraw_now: bool,
}

/// The frame that counts for a dispatch: the one that the handler asked for.
pub open spec fn frame_of<W>(handler: Handler, outcome: HandlerOutcome<W>) -> Option<
    (bool, Seq<ViewportOutput>, u64),
> {
    match (handler, outcome) {
        (Handler::Redraw { .. }, HandlerOutcome::Frame { response, viewports, now }) => Some(
            (response.quit, viewports@, now),
        ),
        _ => None,
    }
}

/// The windows that the handler of a dispatch asks for. An answer that the
/// handler was not asked for does not count.
pub open spec fn answered<W>(handler: Handler, outcome: HandlerOutcome<W>) -> Seq<NewWindowRequest<W>> {
    match (handler, outcome) {
        (Handler::Redraw { .. }, HandlerOutcome::Frame { response, .. }) => response.new_windows@,
        (Handler::CustomEvent, HandlerOutcome::Response { response }) => response.new_windows@,
        _ => Seq::empty(),
    }
}

/// What a window wishes for after a dispatch, left to itself. `registry` is
/// the registry of its family before the frame, `own` its viewport, and
/// `deferred` says that a deferred callback draws it.
pub open spec fn wish<W>(
    handler: Handler,
    outcome: HandlerOutcome<W>,
    registry: Set<u64>,
    own: u64,
    deferred: bool,
) -> RepaintPlan {
    if handler == Handler::Close {
        RepaintPlan { schedule: SchedulePolicy::Terminate, redraw_now: false }
    } else {
        match frame_of(handler, outcome) {
            Some((quit, viewports, now)) => repaint_plan(
                quit || (deferred && !registry.contains(own)),
                delay_of(viewports, own),
                now,
            ),
            None => RepaintPlan { schedule: SchedulePolicy::Wait, redraw_now: false },
        }
    }
}

/// A window that is not a root window closes when no root window is left.
pub open spec fn forced_to_close(root_window_exists: bool, is_root: bool) -> bool {
    !root_window_exists && !is_root
}

/// What a window asks of the event loop after a dispatch.
pub open spec fn requested(wish: SchedulePolicy, forced: bool) -> SchedulePolicy {
    if forced {
        SchedulePolicy::Terminate
    } else {
        wish
    }
}

/// The request whose viewport window a frame asks for: `output` is the
/// record of the frame, `registry` the family it belongs to, `token` the
/// identity it is given.
pub open spec fn viewport_request<W>(output: ViewportOutput, registry: usize, token: u32) -> NewWindowRequest<W> {
    NewWindowRequest {
        window_state: None,
        builder: output.window,
        options: TrackedWindowOptions { vsync: false, shader: None },
        id: token,
        viewport: Some(output.builder),
        viewport_id: Some(output.id),
        viewportset: Some(registry),
        viewport_callback: output.callback,
    }
}

/// The tokens of the requests, in their order.
pub open spec fn tokens_of<W>(requests: Seq<NewWindowRequest<W>>) -> Seq<u32> {
    Seq::new(requests.len(), |x: int| requests[x].id)
}

/// `minted` holds one request for each position in `spawn`, in that order.
pub open spec fn are_viewport_requests<W>(
    minted: Seq<NewWindowRequest<W>>,
    frame: Seq<ViewportOutput>,
    spawn: Seq<usize>,
    registry: usize,
) -> bool {
    &&& minted.len() == spawn.len()
    &&& forall|x: int|
        0 <= x < minted.len() ==> #[trigger] minted[x] == viewport_request::<W>(
            frame[spawn[x] as int],
            registry,
            minted[x].id,
        )
}

/// The table `after` is the table `before`, whose last token was `last`,
/// once the tokens of `minted` have been minted for them one after the other.
pub open spec fn tokens_entered<W>(
    before: Map<u32, Option<u64>>,
    last: u32,
    after: Map<u32, Option<u64>>,
    minted: Seq<NewWindowRequest<W>>,
) -> bool {
    &&& minted_in_turn(before, last, tokens_of(minted))
    &&& after == entered(before, tokens_of(minted))
}

/// Makes the requests for the viewports of a frame that need a window, and
/// mints a token for each.
pub fn viewport_requests<W>(
    frame: &Vec<ViewportOutput>,
    spawn: &Vec<usize>,
    registry: usize,
    table: &mut WindowTable,
) -> (minted: Vec<NewWindowRequest<W>>)
    requires
        forall|x: int| 0 <= x < spawn.len() ==> #[trigger] spawn[x] < frame.len(),
        old(table).room_for(spawn.len() as nat),
    ensures
        are_viewport_requests(minted@, frame@, spawn@, registry),
        tokens_entered(old(table)@, old(table).last_issued(), final(table)@, minted@),
        final(table).last_issued() == (if minted@.len() == 0 {
            old(table).last_issued()
        } else {
            minted@.last().id
        }),
        final(table)@.dom().len() == old(table)@.dom().len() + spawn.len(),
{
    let mut minted: Vec<NewWindowRequest<W>> = Vec::new();
    let mut x: usize = 0;
    proof {
        table.lemma_finite();
        assert(tokens_of(minted@) =~= Seq::<u32>::empty());
    }
    while x < spawn.len()
        invariant
            x <= spawn.len(),
            forall|x: int| 0 <= x < spawn.len() ==> #[trigger] spawn[x] < frame.len(),
            are_viewport_requests(minted@, frame@, spawn@.take(x as int), registry),
            tokens_entered(old(table)@, old(table).last_issued(), table@, minted@),
            table.last_issued() == (if minted@.len() == 0 {
                old(table).last_issued()
            } else {
                minted@.last().id
            }),
            table@.dom().len() == old(table)@.dom().len() + x,
            table@.dom().finite(),
            old(table).room_for(spawn.len() as nat),
        decreases spawn.len() - x,
    {
        let ghost before = minted@;
        let ghost entered_before = table@;
        let output = &frame[spawn[x]];
        let token = new_id(table);
        let request = NewWindowRequest {
            window_state: None,
            builder: output.window.clone(),
            options: TrackedWindowOptions { vsync: false, shader: None },
            id: token,
            viewport: Some(output.builder.clone()),
            viewport_id: Some(output.id),
            viewportset: Some(registry),
            viewport_callback: output.callback,
        };
        minted.push(request);
        proof {
            table.lemma_finite();
            assert(!entered_before.contains_key(token));
            assert(minted@ =~= before.push(request));
            assert(spawn@.take(x + 1) =~= spawn@.take(x as int).push(spawn@[x as int]));
            assert(tokens_of(minted@) =~= tokens_of(before).push(token));
            assert(tokens_of(minted@).drop_last() =~= tokens_of(before));
            assert(tokens_of(minted@).last() == token);
            if before.len() > 0 {
                assert(tokens_of(before).last() == before.last().id);
            }
        }
        x += 1;
    }
    proof {
        assert(spawn@.take(spawn.len() as int) =~= spawn@);
    }
    minted
}

/// The token that was minted last once the windows in `created` have been
/// asked for, of which those behind `answer` got their token with the
/// dispatch; `last` is the token that was minted last before it.
pub open spec fn last_minted<W>(
    last: u32,
    answer: Seq<NewWindowRequest<W>>,
    created: Seq<NewWindowRequest<W>>,
) -> u32 {
    if created.len() > answer.len() {
        created.last().id
    } else {
        last
    }
}

/// The window state is that of a root window. A window without a state of
/// its own, a viewport, is never one.
pub open spec fn rooted<W: TrackedWindow<C>, C>(state: Option<W>) -> bool {
    state matches Some(window) && window.root()
}

/// The limits of the machine allow the outcome of a handler to be taken in:
/// the deadline that a frame asks for is an instant of the clock, and the
/// table has a token for every viewport of the frame.
pub open spec fn within_limits<W>(
    handler: Handler,
    outcome: HandlerOutcome<W>,
    registry: Set<u64>,
    own: u64,
    deferred: bool,
    table: WindowTable,
) -> bool {
    match frame_of(handler, outcome) {
        Some((quit, viewports, now)) => {
            &&& deadline_representable(
                quit || (deferred && !registry.contains(own)),
                delay_of(viewports, own),
                now,
            )
            &&& table.room_for(viewports.len())
        },
        None => true,
    }
}

/// What a dispatch leaves behind in the registry of the family, the table
/// of tokens and the list of windows to create: the answer of the handler
/// first, then one request for each viewport that a frame newly reports,
/// each under a newly minted token. `authoritative` says that the window is a
/// primary one, whose frame decides which viewports exist; `last` is the token
/// that was minted last before the dispatch.
pub open spec fn aftermath<W>(
    handler: Handler,
    outcome: HandlerOutcome<W>,
    authoritative: bool,
    handle: usize,
    registry_before: Set<u64>,
    registry_after: Set<u64>,
    table_before: Map<u32, Option<u64>>,
    last: u32,
    table_after: Map<u32, Option<u64>>,
    created: Seq<NewWindowRequest<W>>,
) -> bool {
    let answer = answered(handler, outcome);
    match frame_of(handler, outcome) {
        Some((_, viewports, _)) => {
            &&& registry_after == reconciled(registry_before, viewports, authoritative)
            &&& answer.len() <= created.len()
            &&& created.take(answer.len() as int) == answer
            &&& exists|spawn: Seq<usize>|
                {
                    &&& #[trigger] is_spawn_list(registry_before, viewports, authoritative, spawn)
                    &&& are_viewport_requests(created.skip(answer.len() as int), viewports, spawn, handle)
                }
            &&& tokens_entered(table_before, last, table_after, created.skip(answer.len() as int))
        },
        None => {
            &&& registry_after == registry_before
            &&& table_after == table_before
            &&& created == answer
        },
    }
}

/// `after`, `holder` and `plan` are what the first half of a dispatch of
/// `event` makes of the container `before`: the container has given up its
/// context and has a UI context from now on, the holder is that of the
/// context, made current and resized where the event says so, and the plan
/// names the native window, the kind of activation, what it takes to make
/// the UI context where there was none, and the work that the event asks for.
pub open spec fn checked_out<W>(
    before: TrackedWindowContainer<W>,
    event: Event,
    after: TrackedWindowContainer<W>,
    holder: ContextHolder<PossiblyCurrentContext>,
    plan: DispatchPlan,
) -> bool {
    &&& after.state() == before.state()
    &&& after.common() == (CommonWindowData {
        gl_window: IndeterminateWindowedContext::Empty,
        egui: Some(
            match before.common().egui {
                Some(ui) => ui,
                None => UiContext { released: false },
            },
        ),
        ..before.common()
    })
    &&& Some(plan.window) == before.window_id()
    &&& plan.activation == (if before.common().gl_window is NotCurrent {
        Activation::Fresh
    } else {
        Activation::Reasserted
    })
    &&& before.common().egui is Some ==> plan.ui_setup is None
    &&& before.common().egui is None ==> (plan.ui_setup matches Some(setup) && setup.shader
        == before.common().shader && setup.viewport == before.common().vb)
    &&& plan.handler == handler_for(event, before.state() is Some, before.deferred())
    &&& holder.wf()
    &&& holder.window_id() == plan.window
    &&& holder.surface() == (match plan.handler {
        Handler::Resize { width, height } => (width, height),
        _ => held_surface(before.common().gl_window),
    })
    &&& holder.display_options() == held_options(before.common().gl_window)
    &&& holder.last_flow() == held_flow(before.common().gl_window)
}

/// The container of a window
pub struct TrackedWindowContainer<W> {
    /// The common data
    common: CommonWindowData,
    /// The state of the window; a viewport has none
    window: Option<W>,
}

impl<W> TrackedWindowContainer<W> {
    /// The common data for the window
    pub closed spec fn common(&self) -> CommonWindowData {
        self.common
    }

    /// The state of the window, where it has one
    pub closed spec fn state(&self) -> Option<W> {
        self.window
    }

    /// The native window of the container, as far as it can tell.
    pub open spec fn window_id(&self) -> Option<u64> {
        self.common().gl_window.window_id()
    }

    /// The container has custody of its graphics context.
    pub open spec fn wf(&self) -> bool {
        self.common().gl_window.wf()
    }

    /// A deferred callback draws the window.
    pub open spec fn deferred(&self) -> bool {
        self.common().viewportcb is Some
    }

    /// Get the optional window data contained by the window
    pub fn get_window_data(&self) -> (data: Option<&W>)
        ensures
            data is Some <==> self.state() is Some,
            data matches Some(window) ==> *window == self.state()->0,
    {
        self.window.as_ref()
    }

    /// Get the optional window data, mutable, contained by the window
    pub fn get_window_data_mut(&mut self) -> (data: Option<&mut W>)
        ensures
            final(self).common() == old(self).common(),
            old(self).state() is None ==> data is None && final(self).state() is None,
            old(self).state() is Some ==> data is Some && *data->0 == old(self).state()->0
                && final(self).state() == Some(*final(data->0)),
    {
        match &mut self.window {
            Some(window) => Some(window),
            None => None,
        }
    }

    /// Get the common data for the window
    pub fn get_common(&self) -> (common: &CommonWindowData)
        ensures
            *common == self.common(),
    {
        &self.common
    }

    /// Tells whether the container has custody of its graphics context.
    pub fn has_context(&self) -> (held: bool)
        ensures
            held == !(self.common().gl_window is Empty),
    {
        match &self.common.gl_window {
            IndeterminateWindowedContext::Empty => false,
            _ => true,
        }
    }

    /// Retrieve the window id for the container
    pub fn get_window_id(&self) -> (id: Option<u64>)
        ensures
            id == self.window_id(),
    {
        match &self.common.gl_window {
            IndeterminateWindowedContext::PossiblyCurrent(holder) => Some(holder.window()),
            IndeterminateWindowedContext::NotCurrent(holder) => Some(holder.window()),
            IndeterminateWindowedContext::Empty => None,
        }
    }

    /// Create the container of a window that the backend has realized. The
    /// graphics context of the new window has not been made current, and it
    /// has no UI context yet.
    pub fn create(
        window: Option<W>,
        viewportset: usize,
        viewportid: u64,
        viewportcb: Option<DeferredViewportUiCallback>,
        native: NativeWindow,
        options: &TrackedWindowOptions,
        vb: Option<ViewportBuilder>,
    ) -> (container: Self)
        requires
            native.width >= 1,
            native.height >= 1,
        ensures
            container.wf(),
            container.state() == window,
            container.window_id() == Some(native.id),
            container.common().gl_window matches IndeterminateWindowedContext::NotCurrent(holder) && {
                &&& holder.surface() == (native.width, native.height)
                &&& holder.display_options() == *options
                &&& holder.last_flow() == Some(SchedulePolicy::Poll)
            },
            container.common().egui is None,
            container.common().viewportset == viewportset,
            container.common().viewportid == viewportid,
            container.common().shader == options.shader,
            container.common().vb == vb,
            container.common().viewportcb == viewportcb,
    {
        let holder = ContextHolder::new(
            NotCurrentContext {  },
            native.id,
            native.width,
            native.height,
            *options,
        );
        TrackedWindowContainer {
            common: CommonWindowData {
                gl_window: IndeterminateWindowedContext::NotCurrent(holder),
                egui: None,
                viewportset,
                viewportid,
                shader: options.shader,
                vb,
                viewportcb,
            },
            window,
        }
    }

    /// Returns true if the specified event is for this window.
    pub fn matches(&self, event: &Event) -> (yes: bool)
        ensures
            yes == addressed_to(*event, self.window_id()),
    {
        match self.get_window_id() {
            None => true,
            Some(id) => match event {
                Event::WindowEvent { window_id, .. } => *window_id == id,
                Event::UserEvent { target: Some(target) } => *target == id,
                _ => true,
            },
        }
    }

    /// The first half of a dispatch. Takes the graphics context out of the
    /// container and makes it current, notes that the window has a UI
    /// context from now on, and says what the backends have to do.
    ///
    /// The container is without its context until `check_in` puts it back.
    pub fn check_out(&mut self, event: &Event, current: &mut CurrentContext) -> (lease: (
        ContextHolder<PossiblyCurrentContext>,
        DispatchPlan,
    ))
        requires
            old(self).wf(),
        ensures
            checked_out(*old(self), *event, *final(self), lease.0, lease.1),
            *final(current) == activated(*old(current), lease.1.window),
    {
        let mut taken = IndeterminateWindowedContext::Empty;
        core::mem::swap(&mut self.common.gl_window, &mut taken);
        let (mut holder, activation) = match taken {
            IndeterminateWindowedContext::PossiblyCurrent(holder) => {
                holder.make_current(current);
                (holder, Activation::Reasserted)
            },
            IndeterminateWindowedContext::NotCurrent(holder) => {
                (holder.make_current(current), Activation::Fresh)
            },
            IndeterminateWindowedContext::Empty => {
                proof {
                    assert(false);
                }
                (
                    ContextHolder::new(
                        PossiblyCurrentContext {  },
                        0,
                        1,
                        1,
                        TrackedWindowOptions { vsync: false, shader: None },
                    ),
                    Activation::Reasserted,
                )
            },
        };
        let ui_setup = match self.common.egui {
            Some(_) => None,
            None => {
                let viewport = match &self.common.vb {
                    Some(builder) => Some(builder.clone()),
                    None => None,
                };
                self.common.egui = Some(UiContext { released: false });
                Some(UiSetup { shader: self.common.shader, viewport })
            },
        };
        let handler = route(event, self.window.is_some(), self.common.viewportcb.is_some());
        match handler {
            Handler::Resize { width, height } => {
                holder.resize(width, height);
            },
            _ => {},
        }
        let window = holder.window();
        (holder, DispatchPlan { window, activation, ui_setup, handler })
    }

    /// The second half of a dispatch. Takes what came of the handler, brings
    /// the registry of the family in line with a frame that was drawn,
    /// decides what the window asks of the event loop, and puts the graphics
    /// context back into the container.
    ///
    /// A window that is not a root window is made to ask for its end when no
    /// root window existed at the start of the pass.
    pub fn check_in<C>(
        &mut self,
        holder: ContextHolder<PossiblyCurrentContext>,
        handler: Handler,
        outcome: HandlerOutcome<W>,
        registry: &mut ViewportRegistry,
        table: &mut WindowTable,
        root_window_exists: bool,
    ) -> (control: TrackedWindowControl<W>) where W: TrackedWindow<C>
        requires
            old(self).common().gl_window is Empty,
            old(registry).wf(),
            within_limits(
                handler,
                outcome,
                old(registry)@,
                old(self).common().viewportid,
                old(self).deferred(),
                *old(table),
            ),
        ensures
            final(registry).wf(),
            final(self).state() == old(self).state(),
            final(self).common() == (CommonWindowData {
                gl_window: IndeterminateWindowedContext::PossiblyCurrent(holder),
                egui: after_handler(handler, old(self).common().egui),
                ..old(self).common()
            }),
            control.requested_control_flow == requested(
                wish(
                    handler,
                    outcome,
                    old(registry)@,
                    old(self).common().viewportid,
                    old(self).deferred(),
                ).schedule,
                forced_to_close(root_window_exists, rooted::<W, C>(old(self).state())),
            ),
            control.redraw_now == wish(
                handler,
                outcome,
                old(registry)@,
                old(self).common().viewportid,
                old(self).deferred(),
            ).redraw_now,
            aftermath(
                handler,
                outcome,
                !old(self).deferred(),
                old(self).common().viewportset,
                old(registry)@,
                final(registry)@,
                old(table)@,
                old(table).last_issued(),
                final(table)@,
                control.windows_to_create@,
            ),
            final(table).last_issued() == last_minted(
                old(table).last_issued(),
                answered(handler, outcome),
                control.windows_to_create@,
            ),
    {
        let own = self.common.viewportid;
        let deferred = self.common.viewportcb.is_some();
        let handle = self.common.viewportset;
        let mut plan = RepaintPlan { schedule: SchedulePolicy::Wait, redraw_now: false };
        let mut created: Vec<NewWindowRequest<W>> = Vec::new();
        match handler {
            Handler::Redraw { .. } => match outcome {
                HandlerOutcome::Frame { response, viewports, now } => {
                    let authoritative = !deferred;
                    let reconciliation = registry.reconcile(&viewports, authoritative, own);
                    let quit = response.quit || reconciliation.orphaned;
                    plan = derive_schedule(quit, repaint_delay(&viewports, own), now);
                    let mut minted = viewport_requests(&viewports, &reconciliation.spawn, handle, table);
                    let ghost answer = response.new_windows@;
                    let ghost fresh = minted@;
                    created = response.new_windows;
                    created.append(&mut minted);
                    proof {
                        assert(created@.take(answer.len() as int) =~= answer);
                        assert(created@.skip(answer.len() as int) =~= fresh);
                        assert(is_spawn_list(old(registry)@, viewports@, authoritative, reconciliation.spawn@));
                    }
                },
                _ => {},
            },
            Handler::CustomEvent => match outcome {
                HandlerOutcome::Response { response } => {
                    created = response.new_windows;
                },
                _ => {},
            },
            Handler::Close => {
                plan = RepaintPlan { schedule: SchedulePolicy::Terminate, redraw_now: false };
            },
            Handler::Teardown => {
                self.release_ui();
            },
            _ => {},
        }
        let is_root = match &self.window {
            Some(window) => window.is_root(),
            None => false,
        };
        let requested_control_flow = if !root_window_exists && !is_root {
            SchedulePolicy::Terminate
        } else {
            plan.schedule
        };
        self.common.gl_window = IndeterminateWindowedContext::PossiblyCurrent(holder);
        TrackedWindowControl { requested_control_flow, windows_to_create: created, redraw_now: plan.redraw_now }
    }

    /// Asks the window whether it may close now and, if it may, notes that
    /// the UI context gives up what it holds on the graphics device. A
    /// window without a state of its own always may.
    pub fn try_quit<C>(&mut self, c: &mut C) -> (permitted: bool) where W: TrackedWindow<C>
        ensures
            old(self).state() is None ==> permitted && final(self).state() is None,
            old(self).state() is Some ==> final(self).state() is Some,
            final(self).common() == (CommonWindowData {
                egui: match old(self).common().egui {
                    Some(ui) => Some(UiContext { released: ui.released || permitted }),
                    None => None,
                },
                ..old(self).common()
            }),
    {
        let permitted = match &mut self.window {
            Some(window) => window.can_quit(c),
            None => true,
        };
        if permitted {
            self.release_ui();
        }
        permitted
    }

    /// Notes that what the UI context held on the graphics device has been
    /// released. A window without a UI context has nothing to release.
    pub fn release_ui(&mut self)
        ensures
            final(self).state() == old(self).state(),
            final(self).common() == (CommonWindowData {
                egui: match old(self).common().egui {
                    Some(_) => Some(UiContext { released: true }),
                    None => None,
                },
                ..old(self).common()
            }),
    {
        match self.common.egui {
            Some(_) => {
                self.common.egui = Some(UiContext { released: true });
            },
            None => {},
        }
    }
}

/// The UI context of a window once `handler` has run: the handler that tears
/// down releases what the context holds on the graphics device, every other
/// leaves it as it is.
pub open spec fn after_handler(handler: Handler, ui: Option<UiContext>) -> Option<UiContext> {
    match (handler, ui) {
        (Handler::Teardown, Some(_)) => Some(UiContext { released: true }),
        _ => ui,
    }
}

/// The surface of the context that is held.
pub open spec fn held_surface(context: IndeterminateWindowedContext) -> (u32, u32) {
    match context {
        IndeterminateWindowedContext::PossiblyCurrent(holder) => holder.surface(),
        IndeterminateWindowedContext::NotCurrent(holder) => holder.surface(),
        IndeterminateWindowedContext::Empty => (1, 1),
    }
}

/// The options of the context that is held.
pub open spec fn held_options(context: IndeterminateWindowedContext) -> TrackedWindowOptions {
    match context {
        IndeterminateWindowedContext::PossiblyCurrent(holder) => holder.display_options(),
        IndeterminateWindowedContext::NotCurrent(holder) => holder.display_options(),
        IndeterminateWindowedContext::Empty => TrackedWindowOptions { vsync: false, shader: None },
    }
}

/// The last control flow of the context that is held.
pub open spec fn held_flow(context: IndeterminateWindowedContext) -> Option<SchedulePolicy> {
    match context {
        IndeterminateWindowedContext::PossiblyCurrent(holder) => holder.last_flow(),
        IndeterminateWindowedContext::NotCurrent(holder) => holder.last_flow(),
        IndeterminateWindowedContext::Empty => None,
    }
}

} // verus!
