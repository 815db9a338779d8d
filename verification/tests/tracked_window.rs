use egui_multiwin::control_flow::SchedulePolicy;
use egui_multiwin::tracked_window::{
    candidate_order, ConfigSearch, ContextHolder, CurrentContext, DisplayCreationError, NotCurrentContext,
    PossiblyCurrentContext, ShaderVersion, SwapInterval, TrackedWindowOptions,
};

fn options(vsync: bool) -> TrackedWindowOptions {
    TrackedWindowOptions { vsync, shader: None }
}

#[test]
fn holder_keeps_what_it_was_made_with() {
    let given = TrackedWindowOptions { vsync: true, shader: Some(ShaderVersion::Es300) };
    let holder = ContextHolder::new(NotCurrentContext {}, 42, 640, 480, given);
    assert_eq!(holder.window(), 42);
    assert_eq!(holder.surface_size(), (640, 480));
    assert_eq!(holder.options(), given);
}

#[test]
fn activation_makes_the_context_current() {
    let mut current = CurrentContext { window: None };
    let holder = ContextHolder::new(NotCurrentContext {}, 42, 640, 480, options(false));
    let holder = holder.make_current(&mut current);
    assert_eq!(current, CurrentContext { window: Some(42) });
    assert_eq!(holder.window(), 42);
    assert_eq!(holder.surface_size(), (640, 480));
    assert_eq!(holder.options(), options(false));
}

#[test]
fn activation_twice_is_activation_once() {
    let mut current = CurrentContext { window: Some(7) };
    let holder = ContextHolder::new(NotCurrentContext {}, 42, 640, 480, options(false));
    let holder = holder.make_current(&mut current);
    let once = current;
    holder.make_current(&mut current);
    assert_eq!(current, once);
    holder.make_current(&mut current);
    assert_eq!(current, CurrentContext { window: Some(42) });
}

#[test]
fn activation_takes_over_from_another_window() {
    let mut current = CurrentContext { window: None };
    let first = ContextHolder::new(NotCurrentContext {}, 1, 10, 10, options(false)).make_current(&mut current);
    let second = ContextHolder::new(NotCurrentContext {}, 2, 10, 10, options(false)).make_current(&mut current);
    assert_eq!(current.window, Some(2));
    first.make_current(&mut current);
    assert_eq!(current.window, Some(1));
    second.make_current(&mut current);
    assert_eq!(current.window, Some(2));
}

#[test]
fn resize_keeps_a_size_that_is_not_empty() {
    let mut holder = ContextHolder::new(PossiblyCurrentContext {}, 1, 10, 10, options(false));
    holder.resize(300, 200);
    assert_eq!(holder.surface_size(), (300, 200));
}

#[test]
fn resize_lifts_zero_to_one() {
    let mut holder = ContextHolder::new(PossiblyCurrentContext {}, 1, 10, 10, options(false));
    holder.resize(0, 200);
    assert_eq!(holder.surface_size(), (1, 200));
    holder.resize(300, 0);
    assert_eq!(holder.surface_size(), (300, 1));
    holder.resize(0, 0);
    assert_eq!(holder.surface_size(), (1, 1));
}

#[test]
fn swap_interval_follows_vsync() {
    let waiting = ContextHolder::new(PossiblyCurrentContext {}, 1, 10, 10, options(true));
    assert_eq!(waiting.swap_buffers(), SwapInterval::Wait(1));
    let immediate = ContextHolder::new(PossiblyCurrentContext {}, 1, 10, 10, options(false));
    assert_eq!(immediate.swap_buffers(), SwapInterval::DontWait);
}

#[test]
fn candidates_are_tried_cheapest_first() {
    assert_eq!(candidate_order(&vec![4, 0, 8, 2]), vec![1, 3, 0, 2]);
}

#[test]
fn candidates_of_equal_cost_keep_their_order() {
    assert_eq!(candidate_order(&vec![4, 0, 8, 0, 4]), vec![1, 3, 0, 4, 2]);
    assert_eq!(candidate_order(&vec![2, 2, 2]), vec![0, 1, 2]);
}

#[test]
fn no_candidates_no_order() {
    assert_eq!(candidate_order(&Vec::new()), Vec::<usize>::new());
    assert_eq!(candidate_order(&vec![16]), vec![0]);
}

#[test]
fn candidates_in_descending_cost_are_reversed() {
    assert_eq!(candidate_order(&vec![16, 8, 4, 2, 0]), vec![4, 3, 2, 1, 0]);
}

#[test]
fn errors_describe_themselves() {
    assert_eq!(
        DisplayCreationError::DisplayUnavailable.message(),
        "no display is available for the window"
    );
    assert_eq!(
        DisplayCreationError::NoUsableConfiguration.message(),
        "no rendering configuration produced a usable surface"
    );
    assert_eq!(
        DisplayCreationError::UnknownRegistry.message(),
        "the viewport registry of the request is unknown"
    );
}

#[test]
fn new_holder_asks_for_polling() {
    let holder = ContextHolder::new(NotCurrentContext {}, 1, 10, 10, options(false));
    assert_eq!(holder.control_flow(), Some(SchedulePolicy::Poll));
    // the last control flow survives the activation
    let mut current = CurrentContext { window: None };
    let holder = ContextHolder::new(NotCurrentContext {}, 1, 10, 10, options(false)).make_current(&mut current);
    assert_eq!(holder.control_flow(), Some(SchedulePolicy::Poll));
}

#[test]
fn search_tries_the_candidates_in_their_order() {
    let mut search = ConfigSearch::begin(&vec![4, 0, 8, 0]);
    assert_eq!(search.candidate(), Ok(1));
    // asking again does not move on
    assert_eq!(search.candidate(), Ok(1));
    search.reject();
    assert_eq!(search.candidate(), Ok(3));
    search.reject();
    assert_eq!(search.candidate(), Ok(0));
    search.reject();
    assert_eq!(search.candidate(), Ok(2));
}

#[test]
fn search_fails_once_every_candidate_is_rejected() {
    let mut search = ConfigSearch::begin(&vec![2, 1]);
    search.reject();
    assert_eq!(search.candidate(), Ok(0));
    search.reject();
    assert_eq!(search.candidate(), Err(DisplayCreationError::NoUsableConfiguration));
    search.reject();
    assert_eq!(search.candidate(), Err(DisplayCreationError::NoUsableConfiguration));
}

#[test]
fn search_without_candidates_fails_at_once() {
    let search = ConfigSearch::begin(&Vec::new());
    assert_eq!(search.candidate(), Err(DisplayCreationError::NoUsableConfiguration));
}
