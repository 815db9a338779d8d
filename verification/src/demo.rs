//! A small set of window kinds: a root window that opens popups, and the
//! popups. They show how a program describes its windows to the
//! orchestration, and serve as windows to try it with.

use crate::container::{RedrawResponse, TrackedWindow};
use crate::identity::{new_id, next_free, WindowTable};
use crate::multi_window::NewWindowRequest;
use crate::tracked_window::TrackedWindowOptions;
use crate::window_builder::WindowBuilder;
use vstd::prelude::*;
use vstd::string::StringExecFns;

verus! {

/// The state that all windows of the program share.
pub struct AppCommon {
    /// How often the button of a popup has been pressed.
    pub clicks: u32,
}

/// The state of the root window.
pub struct RootWindow {
    /// How often a button of the window has been pressed.
    pub button_press_count: u32,
    /// How many popups the window has opened.
    pub num_popups_created: u32,
}

/// The state of a popup window.
pub struct PopupWindow {
    /// The text in the input field of the popup.
    pub input: String,
}

/// The kinds of window that the program has.
pub enum MyWindows {
    /// The root window
    Root(RootWindow),
    /// A popup window
    Popup(PopupWindow),
}

impl TrackedWindow<AppCommon> for MyWindows {
    open spec fn root(&self) -> bool {
        *self is Root
    }

    fn is_root(&self) -> (root: bool) {
        match self {
            MyWindows::Root(_) => true,
            MyWindows::Popup(_) => false,
        }
    }
}

/// The buttons of the root window that were pressed during a frame.
#[derive(Clone, Copy, Debug, PartialEq, Eq, Structural)]
pub struct RootButtons {
    /// "New popup" was pressed.
    pub new_popup: bool,
    /// "Quit" was pressed.
    pub quit: bool,
}

/// The buttons of a popup that were pressed during a frame.
#[derive(Clone, Copy, Debug, PartialEq, Eq, Structural)]
pub struct PopupButtons {
    /// "Increment" was pressed.
    pub increment: bool,
    /// "Quit" was pressed.
    pub quit: bool,
}

/// The decimal digit for `d`.
pub open spec fn digit_char(d: nat) -> char {
    if d == 0 {
        '0'
    } else if d == 1 {
        '1'
    } else if d == 2 {
        '2'
    } else if d == 3 {
        '3'
    } else if d == 4 {
        '4'
    } else if d == 5 {
        '5'
    } else if d == 6 {
        '6'
    } else if d == 7 {
        '7'
    } else if d == 8 {
        '8'
    } else {
        '9'
    }
}

/// The number `n` written in decimal, without leading zeros.
pub open spec fn decimal(n: nat) -> Seq<char>
    decreases n,
{
    if n < 10 {
        seq![digit_char(n)]
    } else {
        decimal(n / 10).push(digit_char(n % 10))
    }
}

fn digit_text(d: u32) -> (text: &'static str)
    requires
        d < 10,
    ensures
        text@ == seq![digit_char(d as nat)],
{
    proof {
        reveal_strlit("0");
        reveal_strlit("1");
        reveal_strlit("2");
        reveal_strlit("3");
        reveal_strlit("4");
        reveal_strlit("5");
        reveal_strlit("6");
        reveal_strlit("7");
        reveal_strlit("8");
        reveal_strlit("9");
    }
    let text = if d == 0 {
        "0"
    } else if d == 1 {
        "1"
    } else if d == 2 {
        "2"
    } else if d == 3 {
        "3"
    } else if d == 4 {
        "4"
    } else if d == 5 {
        "5"
    } else if d == 6 {
        "6"
    } else if d == 7 {
        "7"
    } else if d == 8 {
        "8"
    } else {
        "9"
    };
    assert(text@ =~= seq![digit_char(d as nat)]);
    text
}

/// Writes a number in decimal.
pub fn decimal_string(n: u32) -> (text: String)
    ensures
        text@ == decimal(n as nat),
    decreases n,
{
    if n < 10 {
        String::from_str(digit_text(n))
    } else {
        let mut text = decimal_string(n / 10);
        text.append(digit_text(n % 10));
        assert(text@ =~= decimal(n as nat));
        text
    }
}

/// The text `prefix` followed by the number `n` in decimal.
pub fn numbered(prefix: &str, n: u32) -> (text: String)
    ensures
        text@ == prefix@ + decimal(n as nat),
{
    let mut text = String::from_str(prefix);
    let digits = decimal_string(n);
    text.append(digits.as_str());
    text
}

impl RootWindow {
    /// The request for the root window under the token `id`.
    pub fn new(id: u32) -> (request: NewWindowRequest<MyWindows>)
        ensures
            is_root_request(request, id),
    {
        NewWindowRequest::new(
            MyWindows::Root(RootWindow { button_press_count: 0, num_popups_created: 0 }),
            WindowBuilder::new().with_resizable(true).with_inner_size(800, 600).with_title(
                "egui-multiwin root window".to_string(),
            ),
            TrackedWindowOptions { vsync: false, shader: None },
            id,
        )
    }

    /// What a frame of the root window comes to, given the buttons that
    /// were pressed in it: "New popup" asks for a popup with the number of
    /// the popups so far in its title, "Quit" for the end of the window.
    pub fn redraw(&mut self, c: &mut AppCommon, pressed: RootButtons, table: &mut WindowTable) -> (response:
        RedrawResponse<MyWindows>)
        requires
            pressed.new_popup ==> old(self).num_popups_created < u32::MAX && old(table).has_room(),
        ensures
            *final(c) == *old(c),
            response.quit == pressed.quit,
            final(self).button_press_count == old(self).button_press_count,
            !pressed.new_popup ==> {
                &&& final(self).num_popups_created == old(self).num_popups_created
                &&& response.new_windows@.len() == 0
                &&& *final(table) == *old(table)
            },
            pressed.new_popup ==> {
                &&& final(self).num_popups_created == old(self).num_popups_created + 1
                &&& response.new_windows@.len() == 1
                &&& is_popup_request(
                    response.new_windows@[0],
                    "popup window #"@ + decimal(old(self).num_popups_created as nat),
                    response.new_windows@[0].id,
                )
                &&& next_free(old(table)@.dom(), old(table).last_issued(), response.new_windows@[0].id)
                &&& final(table)@ == old(table)@.insert(response.new_windows@[0].id, None)
            },
    {
        let mut windows_to_create: Vec<NewWindowRequest<MyWindows>> = Vec::new();
        if pressed.new_popup {
            let label = numbered("popup window #", self.num_popups_created);
            windows_to_create.push(PopupWindow::new(label, new_id(table)));
            self.num_popups_created += 1;
        }
        RedrawResponse { quit: pressed.quit, new_windows: windows_to_create }
    }
}

/// `request` asks for the root window under the token `id`: 800 by 600,
/// resizable, without vsync, and with nothing counted yet.
pub open spec fn is_root_request(request: NewWindowRequest<MyWindows>, id: u32) -> bool {
    &&& request.window_state == Some(
        MyWindows::Root(RootWindow { button_press_count: 0, num_popups_created: 0 }),
    )
    &&& request.builder.title@ == "egui-multiwin root window"@
    &&& request.builder.inner_size == Some((800u32, 600u32))
    &&& request.builder.resizable
    &&& request.builder.decorations
    &&& request.options == (TrackedWindowOptions { vsync: false, shader: None })
    &&& request.id == id
    &&& request.viewport is None
    &&& request.viewport_id is None
    &&& request.viewportset is None
    &&& request.viewport_callback is None
}

/// `request` asks for a popup with the title and input text `label` under
/// the token `id`: 400 by 200, not resizable, without vsync.
pub open spec fn is_popup_request(request: NewWindowRequest<MyWindows>, label: Seq<char>, id: u32) -> bool {
    &&& request.window_state matches Some(MyWindows::Popup(popup)) && popup.input@ == label
    &&& request.builder.title@ == label
    &&& request.builder.inner_size == Some((400u32, 200u32))
    &&& !request.builder.resizable
    &&& request.builder.decorations
    &&& request.options == (TrackedWindowOptions { vsync: false, shader: None })
    &&& request.id == id
    &&& request.viewport is None
    &&& request.viewport_id is None
    &&& request.viewportset is None
    &&& request.viewport_callback is None
}

/// What a frame of a popup comes to.
pub struct PopupFrame {
    /// The answer of the window.
    pub response: RedrawResponse<MyWindows>,
    /// The title that the native window gets, where it changes.
    pub title: Option<String>,
}

impl PopupWindow {
    /// The request for a popup with the title `label`.
    pub fn new(label: String, id: u32) -> (request: NewWindowRequest<MyWindows>)
        ensures
            is_popup_request(request, label@, id),
    {
        NewWindowRequest::new(
            MyWindows::Popup(PopupWindow { input: label.clone() }),
            WindowBuilder::new().with_resizable(false).with_inner_size(400, 200).with_title(label),
            TrackedWindowOptions { vsync: false, shader: None },
            id,
        )
    }

    /// What a frame of the popup comes to, given the buttons that were
    /// pressed in it: "Increment" counts one click more and puts the count
    /// into the title, "Quit" asks for the end of the window.
    pub fn redraw(&mut self, c: &mut AppCommon, pressed: PopupButtons) -> (frame: PopupFrame)
        requires
            pressed.increment ==> old(c).clicks < u32::MAX,
        ensures
            *final(self) == *old(self),
            frame.response.quit == pressed.quit,
            frame.response.new_windows@.len() == 0,
            !pressed.increment ==> final(c).clicks == old(c).clicks && frame.title is None,
            pressed.increment ==> final(c).clicks == old(c).clicks + 1 && (frame.title matches Some(title)
                && title@ == "Title update "@ + decimal(final(c).clicks as nat)),
    {
        let mut title = None;
        if pressed.increment {
            c.clicks += 1;
            title = Some(numbered("Title update ", c.clicks));
        }
        PopupFrame { response: RedrawResponse { quit: pressed.quit, new_windows: Vec::new() }, title }
    }
}

/// The windows that an event of the program asks for: a popup for 42, a
/// root window for 43, and none for any other.
pub open spec fn event_opens(event: u32, windows: Seq<NewWindowRequest<MyWindows>>) -> bool {
    if event == 42 {
        windows.len() == 1 && is_popup_request(windows[0], "event popup"@, windows[0].id)
    } else if event == 43 {
        windows.len() == 1 && is_root_request(windows[0], windows[0].id)
    } else {
        windows.len() == 0
    }
}

impl AppCommon {
    /// Handles an event that is sent to the program rather than to one of
    /// its windows, and returns the windows to create.
    pub fn process_event(&mut self, event: u32, table: &mut WindowTable) -> (windows_to_create: Vec<
        NewWindowRequest<MyWindows>,
    >)
        requires
            event == 42 || event == 43 ==> old(table).has_room(),
        ensures
            *final(self) == *old(self),
            event_opens(event, windows_to_create@),
            event == 42 || event == 43 ==> {
                &&& next_free(old(table)@.dom(), old(table).last_issued(), windows_to_create@[0].id)
                &&& final(table)@ == old(table)@.insert(windows_to_create@[0].id, None)
            },
            event != 42 && event != 43 ==> *final(table) == *old(table),
    {
        let mut windows_to_create: Vec<NewWindowRequest<MyWindows>> = Vec::new();
        if event == 42 {
            windows_to_create.push(PopupWindow::new("event popup".to_string(), new_id(table)));
        } else if event == 43 {
            windows_to_create.push(RootWindow::new(new_id(table)));
        }
        windows_to_create
    }
}

} // verus!
