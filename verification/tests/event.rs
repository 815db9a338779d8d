use egui_multiwin::event::{route, Event, Handler, RedrawSource, WindowEvent};

fn window_event(event: WindowEvent) -> Event {
    Event::WindowEvent { window_id: 3, event }
}

#[test]
fn user_event_without_target_is_for_the_application() {
    assert!(!Event::UserEvent { target: None }.is_for_windows());
}

#[test]
fn every_other_event_is_for_the_windows() {
    assert!(Event::UserEvent { target: Some(3) }.is_for_windows());
    assert!(window_event(WindowEvent::CloseRequested).is_for_windows());
    assert!(Event::LoopExiting.is_for_windows());
    assert!(Event::Other.is_for_windows());
}

#[test]
fn resize_is_routed_with_its_size() {
    let event = window_event(WindowEvent::Resized { width: 30, height: 20 });
    assert_eq!(route(&event, true, false), Handler::Resize { width: 30, height: 20 });
}

#[test]
fn resize_to_nothing_is_routed_as_one_pixel() {
    let event = window_event(WindowEvent::Resized { width: 0, height: 0 });
    assert_eq!(route(&event, true, false), Handler::Resize { width: 1, height: 1 });
}

#[test]
fn close_request_is_routed_to_close() {
    assert_eq!(route(&window_event(WindowEvent::CloseRequested), true, false), Handler::Close);
    assert_eq!(route(&window_event(WindowEvent::CloseRequested), false, true), Handler::Close);
}

#[test]
fn redraw_of_a_window_with_state_is_drawn_by_the_window() {
    let event = window_event(WindowEvent::RedrawRequested);
    assert_eq!(route(&event, true, false), Handler::Redraw { source: RedrawSource::Window });
}

#[test]
fn redraw_of_a_deferred_viewport_is_drawn_by_its_callback() {
    let event = window_event(WindowEvent::RedrawRequested);
    assert_eq!(route(&event, false, true), Handler::Redraw { source: RedrawSource::Deferred });
    assert_eq!(route(&event, true, true), Handler::Redraw { source: RedrawSource::Deferred });
}

#[test]
fn redraw_without_state_or_callback_is_empty() {
    let event = window_event(WindowEvent::RedrawRequested);
    assert_eq!(route(&event, false, false), Handler::Redraw { source: RedrawSource::Empty });
}

#[test]
fn other_window_events_are_input() {
    assert_eq!(route(&window_event(WindowEvent::Other), true, false), Handler::Input);
}

#[test]
fn user_events_go_to_the_state_of_the_window() {
    assert_eq!(route(&Event::UserEvent { target: Some(3) }, true, false), Handler::CustomEvent);
    assert_eq!(route(&Event::UserEvent { target: Some(3) }, false, true), Handler::Nothing);
}

#[test]
fn end_of_the_loop_tears_down() {
    assert_eq!(route(&Event::LoopExiting, true, false), Handler::Teardown);
}

#[test]
fn other_events_ask_for_nothing() {
    assert_eq!(route(&Event::Other, true, false), Handler::Nothing);
}
