use egui_multiwin::viewport::{
    repaint_delay, reports, DeferredViewportUiCallback, ViewportBuilder, ViewportOutput,
    ViewportRegistry, ROOT,
};
use egui_multiwin::window_builder::WindowBuilder;

fn output(id: u64, repaint_delay: u128) -> ViewportOutput {
    ViewportOutput {
        id,
        repaint_delay,
        builder: ViewportBuilder { title: None, inner_size: None, resizable: None, decorations: None },
        window: WindowBuilder::new(),
        callback: Some(DeferredViewportUiCallback { handle: id }),
    }
}

fn registry_of(ids: &[u64]) -> ViewportRegistry {
    let mut registry = ViewportRegistry::new();
    for id in ids {
        registry.insert(*id);
    }
    registry
}

const A: u64 = 0xA;
const B: u64 = 0xB;

#[test]
fn new_registry_is_empty() {
    let registry = ViewportRegistry::new();
    assert_eq!(registry.len(), 0);
    assert!(!registry.contains(ROOT));
    assert!(!registry.contains(A));
}

#[test]
fn registry_holds_what_was_entered() {
    let registry = registry_of(&[A, B]);
    assert_eq!(registry.len(), 2);
    assert!(registry.contains(A));
    assert!(registry.contains(B));
    assert!(!registry.contains(0xC));
}

#[test]
fn registry_holds_nothing_twice() {
    let registry = registry_of(&[A, A, B, A]);
    assert_eq!(registry.len(), 2);
}

#[test]
fn new_viewport_is_spawned_once() {
    let mut registry = registry_of(&[A]);
    let frame = vec![output(A, 0), output(B, 0)];
    let outcome = registry.reconcile(&frame, true, ROOT);
    assert_eq!(outcome.spawn, vec![1]);
    assert!(!outcome.orphaned);
    assert_eq!(registry.len(), 2);
    assert!(registry.contains(A));
    assert!(registry.contains(B));
    // the next frame asks for nothing more
    let outcome = registry.reconcile(&frame, true, ROOT);
    assert_eq!(outcome.spawn, Vec::<usize>::new());
    assert_eq!(registry.len(), 2);
}

#[test]
fn unreported_viewport_is_removed() {
    let mut registry = registry_of(&[A, B]);
    let frame = vec![output(A, 0)];
    let outcome = registry.reconcile(&frame, true, ROOT);
    assert_eq!(outcome.spawn, Vec::<usize>::new());
    assert_eq!(registry.len(), 1);
    assert!(registry.contains(A));
    assert!(!registry.contains(B));
}

#[test]
fn frame_of_a_viewport_removes_nothing() {
    let mut registry = registry_of(&[A, B]);
    let frame = vec![output(A, 0)];
    let outcome = registry.reconcile(&frame, false, A);
    assert_eq!(outcome.spawn, Vec::<usize>::new());
    assert!(!outcome.orphaned);
    assert_eq!(registry.len(), 2);
    assert!(registry.contains(B));
}

#[test]
fn viewport_that_is_no_longer_registered_is_orphaned() {
    let mut registry = registry_of(&[B]);
    let frame = vec![output(A, 0)];
    let outcome = registry.reconcile(&frame, false, A);
    assert!(outcome.orphaned);
    // its frame still reports it, so it is registered again and asked for
    assert_eq!(outcome.spawn, vec![0]);
    assert!(registry.contains(A));
}

#[test]
fn primary_window_is_never_orphaned() {
    let mut registry = registry_of(&[]);
    let outcome = registry.reconcile(&vec![output(ROOT, 0)], true, ROOT);
    assert!(!outcome.orphaned);
}

#[test]
fn root_viewport_is_never_spawned() {
    let mut registry = ViewportRegistry::new();
    let frame = vec![output(ROOT, 0), output(A, 0)];
    let outcome = registry.reconcile(&frame, true, ROOT);
    assert_eq!(outcome.spawn, vec![1]);
    assert!(!registry.contains(ROOT));
    assert!(registry.contains(A));
    assert_eq!(registry.len(), 1);
}

#[test]
fn viewport_reported_twice_is_spawned_once() {
    let mut registry = ViewportRegistry::new();
    let frame = vec![output(B, 0), output(A, 0), output(B, 5), output(A, 5)];
    let outcome = registry.reconcile(&frame, true, ROOT);
    assert_eq!(outcome.spawn, vec![0, 1]);
    assert_eq!(registry.len(), 2);
}

#[test]
fn empty_frame_of_a_primary_window_clears_the_registry() {
    let mut registry = registry_of(&[A, B]);
    let outcome = registry.reconcile(&Vec::new(), true, ROOT);
    assert_eq!(outcome.spawn, Vec::<usize>::new());
    assert_eq!(registry.len(), 0);
}

#[test]
fn retain_keeps_what_the_frame_reports() {
    let mut registry = registry_of(&[A, B, 0xC]);
    registry.retain_reported(&vec![output(0xC, 0), output(A, 0), output(0xD, 0)]);
    assert_eq!(registry.len(), 2);
    assert!(registry.contains(A));
    assert!(registry.contains(0xC));
    assert!(!registry.contains(B));
    assert!(!registry.contains(0xD));
}

#[test]
fn frame_tells_what_it_reports() {
    let frame = vec![output(A, 0), output(B, 0)];
    assert!(reports(&frame, A));
    assert!(reports(&frame, B));
    assert!(!reports(&frame, ROOT));
    assert!(!reports(&Vec::new(), A));
}

#[test]
fn repaint_delay_is_that_of_the_viewport() {
    let frame = vec![output(A, 70), output(B, 90)];
    assert_eq!(repaint_delay(&frame, A), 70);
    assert_eq!(repaint_delay(&frame, B), 90);
}

#[test]
fn repaint_delay_of_an_unreported_viewport_is_zero() {
    let frame = vec![output(A, 70)];
    assert_eq!(repaint_delay(&frame, B), 0);
    assert_eq!(repaint_delay(&Vec::new(), A), 0);
}

#[test]
fn repaint_delay_is_that_of_the_first_record() {
    let frame = vec![output(A, 70), output(A, 90)];
    assert_eq!(repaint_delay(&frame, A), 70);
}
