//! Orchestration core for a set of independently rendered windows that share
//! one event loop and one application state.
//!
//! The crate holds the decisions of the windowing layer: which windows an
//! event is dispatched to, who has custody of a window's graphics context,
//! which secondary windows a rendered frame asks for, and how the wake-up
//! requests of all windows combine into one policy for the event loop.
//! Talking to the windowing system, the rendering backend and the UI library
//! is left to the embedding program, which hands their results to the
//! functions here as plain values: native windows and viewports are named by
//! the numbers behind their identifiers, instants and delays are counted in
//! nanoseconds.
//!
//! - `control_flow`: the wake-up policies and how they merge.
//! - `event`: the events of the host loop and the work they ask for.
//! - `identity`: tokens that name a window before it exists.
//! - `tracked_window`: the options of a window and the holder of its
//!   graphics context.
//! - `viewport`: the registry of the viewports of a family of windows, and
//!   its reconciliation with a frame.
//! - `window_builder`: the description of a native window.
//! - `container`: the container of one window and the two halves of a
//!   dispatch.
//! - `multi_window`: the collection of all windows and the pass over them.
//! - `demo`: a root window and its popups.

pub mod container;
pub mod control_flow;
pub mod demo;
pub mod event;
pub mod identity;
pub mod multi_window;
pub mod tracked_window;
pub mod viewport;
pub mod window_builder;
