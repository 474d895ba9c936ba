//! The window's own title bar: its title, whether the window has focus, and
//! what its buttons ask the window to do.
use vstd::prelude::*;
use vstd::string::StringExecFns;

verus! {

/// The window title.
pub open spec fn window_title() -> Seq<char> {
    "Vayuget"@
}

/// The title bar's state.
#[derive(Debug)]
pub struct TitleBar {
    title: String,
    focused: bool,
}

/// What can happen in the title bar.
#[derive(Debug, Clone, Copy, PartialEq, Eq, Structural)]
pub enum TitleBarMessage {
    DragStart,
    Focused,
    UnFocused,
    Minimize,
    /// The maximize button was pressed while the window had this state.
    ToggleMaximize(bool),
    Close,
    DoNothing,
}

/// What the window must do after a title bar message.
#[derive(Debug, Clone, Copy, PartialEq, Eq, Structural)]
pub enum WindowAction {
    Nothing,
    Close,
    Drag,
    Minimize,
    /// Maximize the window (`true`) or restore it (`false`).
    SetMaximized(bool),
}

/// Whether the window has focus after a message.
pub open spec fn focus_after(before: bool, message: TitleBarMessage) -> bool {
    match message {
        TitleBarMessage::Focused => true,
        TitleBarMessage::UnFocused => false,
        _ => before,
    }
}

/// What the window must do after a message: the maximize button flips the
/// state it was pressed in.
pub open spec fn window_action_for(message: TitleBarMessage) -> WindowAction {
    match message {
        TitleBarMessage::Close => WindowAction::Close,
        TitleBarMessage::DragStart => WindowAction::Drag,
        TitleBarMessage::Minimize => WindowAction::Minimize,
        TitleBarMessage::ToggleMaximize(maximized) => WindowAction::SetMaximized(!maximized),
        _ => WindowAction::Nothing,
    }
}

impl TitleBar {
    /// The title shown.
    pub closed spec fn title_text(&self) -> Seq<char> {
        self.title@
    }

    /// Whether the window has focus.
    pub closed spec fn has_focus(&self) -> bool {
        self.focused
    }

    /// A title bar showing the window title, without focus.
    pub fn new() -> (t: Self)
        ensures
            t.title_text() == window_title(),
            !t.has_focus(),
    {
        TitleBar { title: String::from_str("Vayuget"), focused: false }
    }

    /// The title shown.
    pub fn title(&self) -> (r: &str)
        ensures
            r@ == self.title_text(),
    {
        self.title.as_str()
    }

    /// Whether the window has focus.
    pub fn is_focused(&self) -> (r: bool)
        ensures
            r == self.has_focus(),
    {
        self.focused
    }

    /// Applies a message: focus changes are kept, buttons become window
    /// actions; the maximize button flips the state it was pressed in.
    pub fn update(&mut self, message: TitleBarMessage) -> (action: WindowAction)
        ensures
            final(self).title_text() == old(self).title_text(),
            final(self).has_focus() == focus_after(old(self).has_focus(), message),
            action == window_action_for(message),
    {
        match message {
            TitleBarMessage::Close => WindowAction::Close,
            TitleBarMessage::DragStart => WindowAction::Drag,
            TitleBarMessage::Focused => {
                self.focused = true;
                WindowAction::Nothing
            },
            TitleBarMessage::UnFocused => {
                self.focused = false;
                WindowAction::Nothing
            },
            TitleBarMessage::Minimize => WindowAction::Minimize,
            TitleBarMessage::ToggleMaximize(maximized) => WindowAction::SetMaximized(!maximized),
            TitleBarMessage::DoNothing => WindowAction::Nothing,
        }
    }
}

} // verus!
