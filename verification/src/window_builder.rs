//! The parameters that a native window is built from.

use vstd::prelude::*;

verus! {

/// Describes the native window that a request asks for. Sizes are in logical
/// pixels.
#[derive(Debug)]
pub struct WindowBuilder {
    /// The title of the window.
    pub title: String,
    /// The size of the client area, width first; the platform chooses when absent.
    pub inner_size: Option<(u32, u32)>,
    /// Whether the user can resize the window.
    pub resizable: bool,
    /// Whether the window has a frame and a title bar.
    pub decorations: bool,
}

impl Clone for WindowBuilder {
    fn clone(&self) -> (copy: Self)
        ensures
            copy == *self,
    {
        WindowBuilder {
            title: self.title.clone(),
            inner_size: self.inner_size,
            resizable: self.resizable,
            decorations: self.decorations,
        }
    }
}

impl WindowBuilder {
    /// The description of an untitled, resizable, decorated window whose size
    /// the platform chooses.
    pub fn new() -> (builder: Self)
        ensures
            builder.title@ == Seq::<char>::empty(),
            builder.inner_size is None,
            builder.resizable,
            builder.decorations,
    {
        WindowBuilder { title: String::new(), inner_size: None, resizable: true, decorations: true }
    }

    /// The same description with this title.
    pub fn with_title(self, title: String) -> (builder: Self)
        ensures
            builder == (WindowBuilder { title, ..self }),
    {
        WindowBuilder { title, ..self }
    }

    /// The same description with this size of the client area.
    pub fn with_inner_size(self, width: u32, height: u32) -> (builder: Self)
        ensures
            builder == (WindowBuilder { inner_size: Some((width, height)), ..self }),
    {
        WindowBuilder { inner_size: Some((width, height)), ..self }
    }

    /// The same description, resizable or not.
    pub fn with_resizable(self, resizable: bool) -> (builder: Self)
        ensures
            builder == (WindowBuilder { resizable, ..self }),
    {
        WindowBuilder { resizable, ..self }
    }

    /// The same description, decorated or not.
    pub fn with_decorations(self, decorations: bool) -> (builder: Self)
        ensures
            builder == (WindowBuilder { decorations, ..self }),
    {
        WindowBuilder { decorations, ..self }
    }
}

} // verus!
