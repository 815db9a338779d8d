use egui_multiwin::container::{
    Activation, DispatchPlan, HandlerOutcome, IndeterminateWindowedContext, NativeWindow,
    RedrawResponse, TrackedWindow,
};
use egui_multiwin::control_flow::{loop_schedule, SchedulePolicy};
use egui_multiwin::demo::{AppCommon, MyWindows, PopupWindow, RootWindow};
use egui_multiwin::event::{Event, Handler, WindowEvent};
use egui_multiwin::identity::{get_window_id, new_id, WindowTable};
use egui_multiwin::multi_window::{settle, MultiWindow, NewWindowRequest, PassStep, Verdict};
use egui_multiwin::tracked_window::{CurrentContext, DisplayCreationError, TrackedWindowOptions};
use egui_multiwin::viewport::{DeferredViewportUiCallback, ViewportBuilder, ViewportOutput, ROOT};
use egui_multiwin::window_builder::WindowBuilder;

/// A window that decides for itself whether it is a root and whether it may quit.
struct Stubborn {
    root: bool,
    may_quit: bool,
    asked: u32,
}

impl TrackedWindow<AppCommon> for Stubborn {
    fn root(&self) -> bool {
        self.root
    }

    fn is_root(&self) -> bool {
        self.root
    }

    fn can_quit(&mut self, c: &mut AppCommon) -> bool {
        self.asked += 1;
        c.clicks += 1;
        self.may_quit
    }

    fn set_root(&mut self, root: bool) {
        self.root = root;
    }
}

fn native(id: u64) -> Result<NativeWindow, DisplayCreationError> {
    Ok(NativeWindow { id, width: 100, height: 100 })
}

fn stubborn(root: bool, may_quit: bool, id: u32) -> NewWindowRequest<Stubborn> {
    NewWindowRequest::new(
        Stubborn { root, may_quit, asked: 0 },
        WindowBuilder::new(),
        TrackedWindowOptions { vsync: false, shader: None },
        id,
    )
}

fn output(id: u64, repaint_delay: u128) -> ViewportOutput {
    ViewportOutput {
        id,
        repaint_delay,
        builder: ViewportBuilder { title: None, inner_size: None, resizable: None, decorations: None },
        window: WindowBuilder::new(),
        callback: Some(DeferredViewportUiCallback { handle: id }),
    }
}

/// Runs one pass. `handler` stands for the backends: it is given the plan of
/// each dispatch and answers with what came of the handler. Windows that are
/// asked for are realized under the identifiers `next_native`, counting up.
fn run_pass<W: TrackedWindow<AppCommon>>(
    multi_window: MultiWindow<W>,
    event: Event,
    common: &mut AppCommon,
    table: &mut WindowTable,
    next_native: &mut u64,
    mut handler: impl FnMut(&DispatchPlan) -> HandlerOutcome<W>,
) -> (MultiWindow<W>, Vec<SchedulePolicy>, Vec<(u64, Verdict)>) {
    let mut verdicts = Vec::new();
    let mut pass = multi_window.begin_pass::<AppCommon>(event);
    loop {
        match pass.next() {
            PassStep::Dispatch(active) => {
                let window = active.get_plan().window;
                let outcome = handler(active.get_plan());
                let done = active.finish(common, outcome, table);
                verdicts.push((window, done.verdict));
                pass = done.pass;
                for request in done.windows_to_create {
                    let realized = native(*next_native);
                    *next_native += 1;
                    pass.add(request, realized, table).expect("the window is added");
                }
            }
            PassStep::Done(multi_window, flows) => return (multi_window, flows, verdicts),
        }
    }
}

fn ids<W>(multi_window: &MultiWindow<W>) -> Vec<Option<u64>> {
    multi_window.containers().iter().map(|window| window.get_window_id()).collect()
}

fn root_and_popup(table: &mut WindowTable) -> MultiWindow<MyWindows> {
    let mut multi_window = MultiWindow::new();
    let root = RootWindow::new(new_id(table));
    let popup = PopupWindow::new("initial popup".to_string(), new_id(table));
    multi_window.add(root, native(1), table).expect("the root window is added");
    multi_window.add(popup, native(2), table).expect("the popup is added");
    multi_window
}

#[test]
fn new_collection_is_empty() {
    let multi_window: MultiWindow<MyWindows> = MultiWindow::new();
    assert!(multi_window.is_empty());
    assert_eq!(multi_window.len(), 0);
    assert!(multi_window.font_list().is_empty());
    assert!(multi_window.registry(0).is_none());
    assert_eq!(multi_window.current_context(), CurrentContext { window: None });
}

#[test]
fn added_window_is_live_and_published() {
    let mut table = WindowTable::new();
    let mut multi_window: MultiWindow<MyWindows> = MultiWindow::new();
    let token = new_id(&mut table);
    assert_eq!(multi_window.add(RootWindow::new(token), native(31), &mut table), Ok(()));
    assert_eq!(multi_window.len(), 1);
    assert_eq!(get_window_id(&table, token), Some(31));
    let container = &multi_window.containers()[0];
    assert_eq!(container.get_window_id(), Some(31));
    assert!(matches!(container.get_common().gl_window, IndeterminateWindowedContext::NotCurrent(_)));
    assert_eq!(container.get_common().viewportid, ROOT);
    assert_eq!(container.get_common().viewportset, 0);
    assert!(multi_window.registry(0).is_some());
    assert_eq!(multi_window.registry(0).map(|registry| registry.len()), Some(0));
}

#[test]
fn added_window_matches_events_of_its_native_window_only() {
    let mut table = WindowTable::new();
    let mut multi_window: MultiWindow<MyWindows> = MultiWindow::new();
    multi_window.add(RootWindow::new(new_id(&mut table)), native(31), &mut table).unwrap();
    let container = &multi_window.containers()[0];
    assert!(container.matches(&Event::WindowEvent { window_id: 31, event: WindowEvent::Other }));
    assert!(!container.matches(&Event::WindowEvent { window_id: 32, event: WindowEvent::Other }));
}

#[test]
fn window_that_was_not_realized_is_not_added() {
    let mut table = WindowTable::new();
    let mut multi_window: MultiWindow<MyWindows> = MultiWindow::new();
    let token = new_id(&mut table);
    let failed = multi_window.add(
        RootWindow::new(token),
        Err(DisplayCreationError::NoUsableConfiguration),
        &mut table,
    );
    assert_eq!(failed, Err(DisplayCreationError::NoUsableConfiguration));
    let failed =
        multi_window.add(RootWindow::new(token), Err(DisplayCreationError::DisplayUnavailable), &mut table);
    assert_eq!(failed, Err(DisplayCreationError::DisplayUnavailable));
    assert!(multi_window.is_empty());
    assert_eq!(get_window_id(&table, token), None);
    assert!(multi_window.registry(0).is_none());
}

#[test]
fn viewport_of_an_unknown_family_is_not_added() {
    let mut table = WindowTable::new();
    let mut multi_window: MultiWindow<MyWindows> = MultiWindow::new();
    let request = NewWindowRequest::new_viewport(
        WindowBuilder::new(),
        TrackedWindowOptions { vsync: false, shader: None },
        new_id(&mut table),
        ViewportBuilder { title: None, inner_size: None, resizable: None, decorations: None },
        0xA,
        0,
        None,
    );
    assert_eq!(multi_window.add(request, native(5), &mut table), Err(DisplayCreationError::UnknownRegistry));
    assert!(multi_window.is_empty());
}

#[test]
fn viewport_joins_the_family_it_names() {
    let mut table = WindowTable::new();
    let mut multi_window: MultiWindow<MyWindows> = MultiWindow::new();
    multi_window.add(RootWindow::new(new_id(&mut table)), native(1), &mut table).unwrap();
    let request = NewWindowRequest::new_viewport(
        WindowBuilder::new(),
        TrackedWindowOptions { vsync: false, shader: None },
        new_id(&mut table),
        ViewportBuilder { title: None, inner_size: None, resizable: None, decorations: None },
        0xA,
        0,
        Some(DeferredViewportUiCallback { handle: 4 }),
    );
    assert_eq!(multi_window.add(request, native(2), &mut table), Ok(()));
    let container = &multi_window.containers()[1];
    assert_eq!(container.get_common().viewportset, 0);
    assert_eq!(container.get_common().viewportid, 0xA);
    assert_eq!(container.get_common().viewportcb, Some(DeferredViewportUiCallback { handle: 4 }));
    assert!(container.get_window_data().is_none());
    assert!(multi_window.registry(1).is_none());
}

#[test]
fn every_plain_window_starts_a_family() {
    let mut table = WindowTable::new();
    let multi_window = root_and_popup(&mut table);
    assert_eq!(multi_window.containers()[0].get_common().viewportset, 0);
    assert_eq!(multi_window.containers()[1].get_common().viewportset, 1);
    assert!(multi_window.registry(1).is_some());
    assert!(multi_window.registry(2).is_none());
}

#[test]
fn fonts_are_kept_by_name() {
    let mut multi_window: MultiWindow<MyWindows> = MultiWindow::new();
    multi_window.add_font("computermodern".to_string(), vec![1, 2, 3]);
    multi_window.add_font("other".to_string(), vec![4]);
    assert_eq!(multi_window.font_list().len(), 2);
    assert_eq!(multi_window.font_list()[0].name, "computermodern");
    assert_eq!(multi_window.font_list()[0].data, vec![1, 2, 3]);
    assert_eq!(multi_window.font_list()[1].name, "other");
}

#[test]
fn font_of_the_same_name_is_replaced() {
    let mut multi_window: MultiWindow<MyWindows> = MultiWindow::new();
    multi_window.add_font("computermodern".to_string(), vec![1, 2, 3]);
    multi_window.add_font("other".to_string(), vec![4]);
    multi_window.add_font("computermodern".to_string(), vec![9]);
    assert_eq!(multi_window.font_list().len(), 2);
    assert_eq!(multi_window.font_list()[0].name, "computermodern");
    assert_eq!(multi_window.font_list()[0].data, vec![9]);
    assert_eq!(multi_window.font_list()[1].data, vec![4]);
}

#[test]
fn settle_keeps_a_window_that_goes_on() {
    assert_eq!(settle(SchedulePolicy::Poll, true), Verdict::Stays { schedule: SchedulePolicy::Poll });
    assert_eq!(settle(SchedulePolicy::Wait, false), Verdict::Stays { schedule: SchedulePolicy::Wait });
    assert_eq!(
        settle(SchedulePolicy::WaitUntil(4), true),
        Verdict::Stays { schedule: SchedulePolicy::WaitUntil(4) }
    );
}

#[test]
fn settle_lets_a_window_leave_that_may() {
    assert_eq!(settle(SchedulePolicy::Terminate, true), Verdict::Leaves);
}

#[test]
fn settle_keeps_a_window_that_may_not_leave() {
    assert_eq!(settle(SchedulePolicy::Terminate, false), Verdict::Stays { schedule: SchedulePolicy::Wait });
}

#[test]
fn root_closes_all() {
    let mut table = WindowTable::new();
    let mut common = AppCommon { clicks: 0 };
    let mut next_native = 100;
    let multi_window = root_and_popup(&mut table);

    // the root window is asked to close
    let close = Event::WindowEvent { window_id: 1, event: WindowEvent::CloseRequested };
    let mut seen = Vec::new();
    let (multi_window, flows, verdicts) =
        run_pass(multi_window, close, &mut common, &mut table, &mut next_native, |plan| {
            seen.push((plan.window, plan.handler));
            HandlerOutcome::Done
        });
    assert_eq!(seen, vec![(1, Handler::Close)]);
    assert_eq!(verdicts, vec![(1, Verdict::Leaves)]);
    assert_eq!(ids(&multi_window), vec![Some(2)]);
    assert_eq!(flows, Vec::new());
    assert_eq!(loop_schedule(&flows, multi_window.len()), SchedulePolicy::Wait);

    // the next event reaches the popup, which finds no root window
    let (multi_window, flows, verdicts) =
        run_pass(multi_window, Event::Other, &mut common, &mut table, &mut next_native, |_| HandlerOutcome::Done);
    assert_eq!(verdicts, vec![(2, Verdict::Leaves)]);
    assert!(multi_window.is_empty());
    assert_eq!(flows, Vec::new());
    assert_eq!(loop_schedule(&flows, multi_window.len()), SchedulePolicy::Terminate);
}

#[test]
fn popup_survives_while_a_root_window_is_left() {
    let mut table = WindowTable::new();
    let mut common = AppCommon { clicks: 0 };
    let mut next_native = 100;
    let multi_window = root_and_popup(&mut table);
    let (multi_window, flows, verdicts) =
        run_pass(multi_window, Event::Other, &mut common, &mut table, &mut next_native, |_| HandlerOutcome::Done);
    assert_eq!(
        verdicts,
        vec![
            (2, Verdict::Stays { schedule: SchedulePolicy::Wait }),
            (1, Verdict::Stays { schedule: SchedulePolicy::Wait }),
        ]
    );
    assert_eq!(ids(&multi_window), vec![Some(1), Some(2)]);
    assert_eq!(flows, vec![SchedulePolicy::Wait, SchedulePolicy::Wait]);
}

#[test]
fn denied_quit_keeps_the_window() {
    let mut table = WindowTable::new();
    let mut common = AppCommon { clicks: 0 };
    let mut next_native = 100;
    let mut multi_window: MultiWindow<Stubborn> = MultiWindow::new();
    multi_window.add(stubborn(true, false, new_id(&mut table)), native(1), &mut table).unwrap();
    let close = Event::WindowEvent { window_id: 1, event: WindowEvent::CloseRequested };
    let (multi_window, flows, verdicts) =
        run_pass(multi_window, close, &mut common, &mut table, &mut next_native, |_| HandlerOutcome::Done);
    assert_eq!(verdicts, vec![(1, Verdict::Stays { schedule: SchedulePolicy::Wait })]);
    assert_eq!(flows, vec![SchedulePolicy::Wait]);
    assert_eq!(ids(&multi_window), vec![Some(1)]);
    assert_eq!(loop_schedule(&flows, multi_window.len()), SchedulePolicy::Wait);
    // the window was asked once
    assert_eq!(multi_window.containers()[0].get_window_data().map(|window| window.asked), Some(1));
    assert_eq!(common.clicks, 1);
    // and its UI context was left alone
    assert_eq!(
        multi_window.containers()[0].get_common().egui,
        Some(egui_multiwin::container::UiContext { released: false })
    );
}

#[test]
fn window_that_goes_on_is_not_asked_whether_it_may_quit() {
    let mut table = WindowTable::new();
    let mut common = AppCommon { clicks: 0 };
    let mut next_native = 100;
    let mut multi_window: MultiWindow<Stubborn> = MultiWindow::new();
    multi_window.add(stubborn(true, false, new_id(&mut table)), native(1), &mut table).unwrap();
    let (multi_window, _, _) =
        run_pass(multi_window, Event::Other, &mut common, &mut table, &mut next_native, |_| HandlerOutcome::Done);
    assert_eq!(multi_window.containers()[0].get_window_data().map(|window| window.asked), Some(0));
    assert_eq!(common.clicks, 0);
}

#[test]
fn forced_close_can_be_denied_too() {
    let mut table = WindowTable::new();
    let mut common = AppCommon { clicks: 0 };
    let mut next_native = 100;
    let mut multi_window: MultiWindow<Stubborn> = MultiWindow::new();
    multi_window.add(stubborn(false, false, new_id(&mut table)), native(1), &mut table).unwrap();
    multi_window.add(stubborn(false, true, new_id(&mut table)), native(2), &mut table).unwrap();
    let (multi_window, flows, verdicts) =
        run_pass(multi_window, Event::Other, &mut common, &mut table, &mut next_native, |_| HandlerOutcome::Done);
    assert_eq!(
        verdicts,
        vec![(2, Verdict::Leaves), (1, Verdict::Stays { schedule: SchedulePolicy::Wait })]
    );
    assert_eq!(ids(&multi_window), vec![Some(1)]);
    assert_eq!(flows, vec![SchedulePolicy::Wait]);
}

#[test]
fn window_that_the_event_is_not_addressed_to_is_passed_over() {
    let mut table = WindowTable::new();
    let mut common = AppCommon { clicks: 0 };
    let mut next_native = 100;
    let mut multi_window: MultiWindow<Stubborn> = MultiWindow::new();
    multi_window.add(stubborn(false, true, new_id(&mut table)), native(1), &mut table).unwrap();
    multi_window.add(stubborn(false, true, new_id(&mut table)), native(2), &mut table).unwrap();
    // no root window exists, yet only the window that is dispatched to closes
    let event = Event::WindowEvent { window_id: 2, event: WindowEvent::Other };
    let (multi_window, flows, verdicts) =
        run_pass(multi_window, event, &mut common, &mut table, &mut next_native, |_| HandlerOutcome::Done);
    assert_eq!(verdicts, vec![(2, Verdict::Leaves)]);
    assert_eq!(ids(&multi_window), vec![Some(1)]);
    assert_eq!(flows, Vec::new());
    assert!(matches!(
        multi_window.containers()[0].get_common().gl_window,
        IndeterminateWindowedContext::NotCurrent(_)
    ));
}

#[test]
fn every_window_keeps_its_context_over_a_pass() {
    let mut table = WindowTable::new();
    let mut common = AppCommon { clicks: 0 };
    let mut next_native = 100;
    let multi_window = root_and_popup(&mut table);
    let events = [
        Event::Other,
        Event::WindowEvent { window_id: 2, event: WindowEvent::RedrawRequested },
        Event::WindowEvent { window_id: 1, event: WindowEvent::Resized { width: 5, height: 5 } },
        Event::UserEvent { target: Some(2) },
        Event::LoopExiting,
    ];
    let mut multi_window = multi_window;
    for event in events {
        let (after, _, verdicts) =
            run_pass(multi_window, event, &mut common, &mut table, &mut next_native, |plan| match plan.handler {
                Handler::Redraw { .. } => HandlerOutcome::Frame {
                    response: RedrawResponse { quit: false, new_windows: Vec::new() },
                    viewports: vec![output(ROOT, 1_000)],
                    now: 0,
                },
                Handler::CustomEvent => HandlerOutcome::Response {
                    response: RedrawResponse { quit: false, new_windows: Vec::new() },
                },
                _ => HandlerOutcome::Done,
            });
        multi_window = after;
        assert_eq!(multi_window.len(), 2);
        for container in multi_window.containers() {
            assert!(container.has_context());
        }
        for (window, _) in verdicts {
            let container = multi_window
                .containers()
                .iter()
                .find(|container| container.get_window_id() == Some(window))
                .expect("the window stays");
            assert!(matches!(
                container.get_common().gl_window,
                IndeterminateWindowedContext::PossiblyCurrent(_)
            ));
        }
    }
}

#[test]
fn pass_plans_the_activation_of_each_window() {
    let mut table = WindowTable::new();
    let mut common = AppCommon { clicks: 0 };
    let mut next_native = 100;
    let multi_window = root_and_popup(&mut table);
    let mut plans = Vec::new();
    let (multi_window, _, _) =
        run_pass(multi_window, Event::Other, &mut common, &mut table, &mut next_native, |plan| {
            plans.push((plan.window, plan.activation, plan.ui_setup.is_some()));
            HandlerOutcome::Done
        });
    assert_eq!(plans, vec![(2, Activation::Fresh, true), (1, Activation::Fresh, true)]);
    assert_eq!(multi_window.current_context(), CurrentContext { window: Some(1) });
    let mut plans = Vec::new();
    let (multi_window, _, _) =
        run_pass(multi_window, Event::Other, &mut common, &mut table, &mut next_native, |plan| {
            plans.push((plan.window, plan.activation, plan.ui_setup.is_some()));
            HandlerOutcome::Done
        });
    assert_eq!(plans, vec![(2, Activation::Reasserted, false), (1, Activation::Reasserted, false)]);
    assert_eq!(ids(&multi_window), vec![Some(1), Some(2)]);
}

#[test]
fn window_opened_in_a_pass_is_dispatched_to_in_the_next() {
    let mut table = WindowTable::new();
    let mut common = AppCommon { clicks: 0 };
    let mut next_native = 100;
    let multi_window = root_and_popup(&mut table);
    let mut visits = Vec::new();
    let (multi_window, flows, _) =
        run_pass(multi_window, Event::UserEvent { target: None }, &mut common, &mut table, &mut next_native, |plan| {
            visits.push(plan.window);
            if plan.window == 1 {
                let popup = PopupWindow::new("late".to_string(), 77);
                HandlerOutcome::Response { response: RedrawResponse { quit: false, new_windows: vec![popup] } }
            } else {
                HandlerOutcome::Done
            }
        });
    assert_eq!(visits, vec![2, 1]);
    assert_eq!(ids(&multi_window), vec![Some(1), Some(2), Some(100)]);
    assert_eq!(flows, vec![SchedulePolicy::Wait, SchedulePolicy::Wait]);
    let mut visits = Vec::new();
    let (_, flows, _) =
        run_pass(multi_window, Event::Other, &mut common, &mut table, &mut next_native, |plan| {
            visits.push(plan.window);
            HandlerOutcome::Done
        });
    assert_eq!(visits, vec![100, 2, 1]);
    assert_eq!(flows.len(), 3);
}

#[test]
fn windows_of_a_closing_window_are_still_opened() {
    let mut table = WindowTable::new();
    let mut common = AppCommon { clicks: 0 };
    let mut next_native = 100;
    let multi_window = root_and_popup(&mut table);
    let event = Event::WindowEvent { window_id: 2, event: WindowEvent::RedrawRequested };
    let (multi_window, flows, verdicts) =
        run_pass(multi_window, event, &mut common, &mut table, &mut next_native, |_| HandlerOutcome::Frame {
            response: RedrawResponse { quit: true, new_windows: vec![PopupWindow::new("heir".to_string(), 9)] },
            viewports: vec![output(ROOT, 0)],
            now: 0,
        });
    assert_eq!(verdicts, vec![(2, Verdict::Leaves)]);
    assert_eq!(ids(&multi_window), vec![Some(1), Some(100)]);
    assert_eq!(flows, Vec::new());
}

#[test]
fn frame_of_the_root_window_opens_and_closes_viewports() {
    let mut table = WindowTable::new();
    let mut common = AppCommon { clicks: 0 };
    let mut next_native = 100;
    let mut multi_window: MultiWindow<MyWindows> = MultiWindow::new();
    multi_window.add(RootWindow::new(new_id(&mut table)), native(1), &mut table).unwrap();
    let redraw_root = Event::WindowEvent { window_id: 1, event: WindowEvent::RedrawRequested };

    // the frame of the root window reports a viewport
    let (multi_window, flows, _) =
        run_pass(multi_window, redraw_root, &mut common, &mut table, &mut next_native, |_| HandlerOutcome::Frame {
            response: RedrawResponse { quit: false, new_windows: Vec::new() },
            viewports: vec![output(ROOT, 3_000_000_000), output(0xA, 0)],
            now: 1_000_000_000,
        });
    assert_eq!(flows, vec![SchedulePolicy::WaitUntil(4_000_000_000)]);
    assert_eq!(ids(&multi_window), vec![Some(1), Some(100)]);
    let viewport = &multi_window.containers()[1];
    assert!(viewport.get_window_data().is_none());
    assert_eq!(viewport.get_common().viewportid, 0xA);
    assert_eq!(viewport.get_common().viewportset, 0);
    assert_eq!(viewport.get_common().viewportcb, Some(DeferredViewportUiCallback { handle: 0xA }));
    assert!(multi_window.registry(0).map(|registry| registry.contains(0xA)).unwrap_or(false));
    // the window of the viewport was published under a fresh token
    assert_eq!(get_window_id(&table, 2), Some(100));

    // the same frame again opens nothing more
    let (multi_window, _, _) =
        run_pass(multi_window, redraw_root, &mut common, &mut table, &mut next_native, |_| HandlerOutcome::Frame {
            response: RedrawResponse { quit: false, new_windows: Vec::new() },
            viewports: vec![output(ROOT, 3_000_000_000), output(0xA, 0)],
            now: 1_000_000_000,
        });
    assert_eq!(ids(&multi_window), vec![Some(1), Some(100)]);

    // the viewport draws itself while it is registered
    let redraw_viewport = Event::WindowEvent { window_id: 100, event: WindowEvent::RedrawRequested };
    let (multi_window, flows, verdicts) =
        run_pass(multi_window, redraw_viewport, &mut common, &mut table, &mut next_native, |plan| {
            assert_eq!(
                plan.handler,
                Handler::Redraw { source: egui_multiwin::event::RedrawSource::Deferred }
            );
            HandlerOutcome::Frame {
                response: RedrawResponse { quit: false, new_windows: Vec::new() },
                viewports: vec![output(0xA, 60_000_000_000)],
                now: 0,
            }
        });
    assert_eq!(verdicts, vec![(100, Verdict::Stays { schedule: SchedulePolicy::Wait })]);
    assert_eq!(flows, vec![SchedulePolicy::Wait]);

    // the root window stops asking for the viewport
    let (multi_window, _, _) =
        run_pass(multi_window, redraw_root, &mut common, &mut table, &mut next_native, |_| HandlerOutcome::Frame {
            response: RedrawResponse { quit: false, new_windows: Vec::new() },
            viewports: vec![output(ROOT, 3_000_000_000)],
            now: 0,
        });
    assert_eq!(multi_window.registry(0).map(|registry| registry.len()), Some(0));
    assert_eq!(ids(&multi_window), vec![Some(1), Some(100)]);

    // and the viewport closes with its next frame
    let (multi_window, flows, verdicts) =
        run_pass(multi_window, redraw_viewport, &mut common, &mut table, &mut next_native, |_| HandlerOutcome::Frame {
            response: RedrawResponse { quit: false, new_windows: Vec::new() },
            viewports: Vec::new(),
            now: 0,
        });
    assert_eq!(verdicts, vec![(100, Verdict::Leaves)]);
    assert_eq!(ids(&multi_window), vec![Some(1)]);
    assert_eq!(flows, Vec::new());
}

#[test]
fn pass_reports_whether_a_root_window_existed() {
    let mut table = WindowTable::new();
    let multi_window = root_and_popup(&mut table);
    let pass = multi_window.begin_pass::<AppCommon>(Event::Other);
    assert!(pass.root_existed());
    assert_eq!(pass.pending_count(), 2);

    let mut only_popup: MultiWindow<MyWindows> = MultiWindow::new();
    only_popup.add(PopupWindow::new("alone".to_string(), 1), native(1), &mut table).unwrap();
    assert!(!only_popup.begin_pass::<AppCommon>(Event::Other).root_existed());

    let empty: MultiWindow<MyWindows> = MultiWindow::new();
    assert!(!empty.begin_pass::<AppCommon>(Event::Other).root_existed());
}

#[test]
fn handler_can_change_the_state_of_the_window() {
    let mut table = WindowTable::new();
    let mut common = AppCommon { clicks: 0 };
    let mut multi_window: MultiWindow<Stubborn> = MultiWindow::new();
    multi_window.add(stubborn(true, true, new_id(&mut table)), native(1), &mut table).unwrap();
    let pass = multi_window.begin_pass::<AppCommon>(Event::Other);
    let multi_window = match pass.next() {
        PassStep::Dispatch(mut active) => {
            assert_eq!(active.get_holder().window(), 1);
            assert!(!active.get_window().has_context());
            active.window_data_mut().expect("the window has a state").asked = 40;
            match active.finish(&mut common, HandlerOutcome::Done, &mut table).pass.next() {
                PassStep::Done(multi_window, _) => multi_window,
                PassStep::Dispatch(_) => panic!("no window is left to visit"),
            }
        }
        PassStep::Done(_, _) => panic!("the event is addressed to the window"),
    };
    assert_eq!(multi_window.containers()[0].get_window_data().map(|window| window.asked), Some(40));
}

#[test]
fn window_opened_while_the_root_closes_lives_one_pass_longer() {
    let mut table = WindowTable::new();
    let mut common = AppCommon { clicks: 0 };
    let mut next_native = 100;
    let mut multi_window: MultiWindow<MyWindows> = MultiWindow::new();
    multi_window.add(RootWindow::new(new_id(&mut table)), native(1), &mut table).unwrap();

    // the root window quits and asks for a popup with the same frame
    let redraw = Event::WindowEvent { window_id: 1, event: WindowEvent::RedrawRequested };
    let (multi_window, flows, verdicts) =
        run_pass(multi_window, redraw, &mut common, &mut table, &mut next_native, |_| HandlerOutcome::Frame {
            response: RedrawResponse { quit: true, new_windows: vec![PopupWindow::new("late".to_string(), 50)] },
            viewports: vec![output(ROOT, 0)],
            now: 0,
        });
    assert_eq!(verdicts, vec![(1, Verdict::Leaves)]);
    assert_eq!(ids(&multi_window), vec![Some(100)]);
    assert_eq!(loop_schedule(&flows, multi_window.len()), SchedulePolicy::Wait);

    // with the next pass the popup finds no root window and closes
    let (multi_window, flows, verdicts) =
        run_pass(multi_window, Event::Other, &mut common, &mut table, &mut next_native, |_| HandlerOutcome::Done);
    assert_eq!(verdicts, vec![(100, Verdict::Leaves)]);
    assert!(multi_window.is_empty());
    assert_eq!(loop_schedule(&flows, multi_window.len()), SchedulePolicy::Terminate);
}

#[test]
fn window_that_fails_in_a_pass_leaves_the_pass_as_it_was() {
    let mut table = WindowTable::new();
    let multi_window = root_and_popup(&mut table);
    let mut pass = multi_window.begin_pass::<AppCommon>(Event::Other);
    let failed = pass.add(
        PopupWindow::new("never".to_string(), 60),
        Err(DisplayCreationError::NoUsableConfiguration),
        &mut table,
    );
    assert_eq!(failed, Err(DisplayCreationError::NoUsableConfiguration));
    let orphan = NewWindowRequest::new_viewport(
        WindowBuilder::new(),
        TrackedWindowOptions { vsync: false, shader: None },
        61,
        ViewportBuilder { title: None, inner_size: None, resizable: None, decorations: None },
        0xA,
        7,
        None,
    );
    assert_eq!(pass.add(orphan, native(9), &mut table), Err(DisplayCreationError::UnknownRegistry));
    assert_eq!(pass.pending_count(), 2);
    let mut common = AppCommon { clicks: 0 };
    let mut step = pass.next();
    let multi_window = loop {
        match step {
            PassStep::Dispatch(active) => {
                step = active.finish(&mut common, HandlerOutcome::Done, &mut table).pass.next();
            }
            PassStep::Done(multi_window, _) => break multi_window,
        }
    };
    assert_eq!(ids(&multi_window), vec![Some(1), Some(2)]);
}

#[test]
fn dispatch_accepts_what_the_machine_can_hold() {
    let mut table = WindowTable::new();
    let mut multi_window: MultiWindow<MyWindows> = MultiWindow::new();
    multi_window.add(RootWindow::new(new_id(&mut table)), native(1), &mut table).unwrap();
    let redraw = Event::WindowEvent { window_id: 1, event: WindowEvent::RedrawRequested };
    let pass = multi_window.begin_pass::<AppCommon>(redraw);
    match pass.next() {
        PassStep::Dispatch(active) => {
            let frame = |delay: u128, now: u64| -> HandlerOutcome<MyWindows> {
                HandlerOutcome::Frame {
                    response: RedrawResponse { quit: false, new_windows: Vec::new() },
                    viewports: vec![output(ROOT, delay)],
                    now,
                }
            };
            assert!(active.accepts(&frame(500, 0), &table));
            assert!(active.accepts(&frame(500, u64::MAX - 500), &table));
            assert!(!active.accepts(&frame(500, u64::MAX - 499), &table));
            assert!(active.accepts(&frame(0, u64::MAX), &table));
            assert!(active.accepts(&HandlerOutcome::Done, &table));
            assert_eq!(active.font_list().len(), 0);
        }
        PassStep::Done(_, _) => panic!("the event is addressed to the window"),
    }
}

#[test]
fn end_of_the_loop_releases_the_ui_contexts() {
    let mut table = WindowTable::new();
    let mut common = AppCommon { clicks: 0 };
    let mut next_native = 100;
    let multi_window = root_and_popup(&mut table);
    let mut handlers = Vec::new();
    let (multi_window, _, _) =
        run_pass(multi_window, Event::LoopExiting, &mut common, &mut table, &mut next_native, |plan| {
            handlers.push(plan.handler);
            HandlerOutcome::Done
        });
    assert_eq!(handlers, vec![Handler::Teardown, Handler::Teardown]);
    for container in multi_window.containers() {
        assert_eq!(container.get_common().egui, Some(egui_multiwin::container::UiContext { released: true }));
    }
}
